//! Builder of the wire request bodies.
//!
//! A submission is one GraphQL mutation posted as a JSON document:
//! the fixed query text, and a `report` input object holding the
//! populated fields of the report, the user identity, and the ISO
//! fingerprint. Unset optional fields are omitted. The two one-shot
//! terminal calls (completion, abandonment) have fixed-shape bodies.

use vstd::prelude::*;
use vstd::utf8::encode_utf8;

use crate::json::{
    comma_joined, json_str_bytes, lemma_fragments_push, push_comma_joined, push_json_str, push_lit,
};
use crate::numfmt::{dec_hundredths, dec_int, push_dec_hundredths, push_dec_i64};
use crate::report::{GameReport, GameReportV, PlayerReport, PlayerReportV, UserInfo, UserInfoV};

verus! {

/// Shorthand for the UTF-8 bytes of a fixed fragment.
pub open spec fn lit_bytes(s: Seq<char>) -> Seq<u8> {
    encode_utf8(s)
}

/// One wire field whose value is a JSON string.
pub open spec fn str_field(key: Seq<char>, v: Seq<char>) -> Seq<u8> {
    lit_bytes(key) + json_str_bytes(v)
}

/// One wire field whose value is an integer.
pub open spec fn int_field(key: Seq<char>, n: int) -> Seq<u8> {
    lit_bytes(key) + dec_int(n)
}

/// One wire field whose value is a count of hundredths rendered with
/// two fraction digits.
pub open spec fn hundredths_field(key: Seq<char>, n: nat) -> Seq<u8> {
    lit_bytes(key) + dec_hundredths(n)
}

/// Appends a string field to the field list.
fn push_str_field(fs: &mut Vec<Vec<u8>>, key: &str, v: &str)
    ensures
        final(fs).deep_view() == old(fs).deep_view().push(str_field(key@, v@)),
{
    let mut f: Vec<u8> = Vec::new();
    push_lit(&mut f, key);
    push_json_str(&mut f, v);
    proof {
        assert(f@ =~= str_field(key@, v@));
    }
    let ghost pre = *fs;
    let ghost fg = f;
    fs.push(f);
    proof {
        lemma_fragments_push(pre, *fs, fg);
    }
}

/// Appends an integer field to the field list.
fn push_int_field(fs: &mut Vec<Vec<u8>>, key: &str, n: i64)
    ensures
        final(fs).deep_view() == old(fs).deep_view().push(int_field(key@, n as int)),
{
    let mut f: Vec<u8> = Vec::new();
    push_lit(&mut f, key);
    push_dec_i64(&mut f, n);
    proof {
        assert(f@ =~= int_field(key@, n as int));
    }
    let ghost pre = *fs;
    let ghost fg = f;
    fs.push(f);
    proof {
        lemma_fragments_push(pre, *fs, fg);
    }
}

/// Appends a hundredths field to the field list.
fn push_hundredths_field(fs: &mut Vec<Vec<u8>>, key: &str, n: u64)
    ensures
        final(fs).deep_view() == old(fs).deep_view().push(hundredths_field(key@, n as nat)),
{
    let mut f: Vec<u8> = Vec::new();
    push_lit(&mut f, key);
    push_dec_hundredths(&mut f, n);
    proof {
        assert(f@ =~= hundredths_field(key@, n as nat));
    }
    let ghost pre = *fs;
    let ghost fg = f;
    fs.push(f);
    proof {
        lemma_fragments_push(pre, *fs, fg);
    }
}

/// Appends a string field when the value is set.
fn push_opt_str_field(fs: &mut Vec<Vec<u8>>, key: &str, v: &Option<String>)
    ensures
        final(fs).deep_view() == (match v.deep_view() {
            Some(s) => old(fs).deep_view().push(str_field(key@, s)),
            None => old(fs).deep_view(),
        }),
{
    match v {
        Some(s) => push_str_field(fs, key, s.as_str()),
        None => (),
    }
}

/// Appends an unsigned byte field when the value is set.
fn push_opt_u8_field(fs: &mut Vec<Vec<u8>>, key: &str, v: &Option<u8>)
    ensures
        final(fs).deep_view() == (match *v {
            Some(n) => old(fs).deep_view().push(int_field(key@, n as int)),
            None => old(fs).deep_view(),
        }),
{
    match v {
        Some(n) => push_int_field(fs, key, *n as i64),
        None => (),
    }
}

/// Appends a 32-bit unsigned field when the value is set.
fn push_opt_u32_field(fs: &mut Vec<Vec<u8>>, key: &str, v: &Option<u32>)
    ensures
        final(fs).deep_view() == (match *v {
            Some(n) => old(fs).deep_view().push(int_field(key@, n as int)),
            None => old(fs).deep_view(),
        }),
{
    match v {
        Some(n) => push_int_field(fs, key, *n as i64),
        None => (),
    }
}

/// Appends a signed byte field when the value is set.
fn push_opt_i8_field(fs: &mut Vec<Vec<u8>>, key: &str, v: &Option<i8>)
    ensures
        final(fs).deep_view() == (match *v {
            Some(n) => old(fs).deep_view().push(int_field(key@, n as int)),
            None => old(fs).deep_view(),
        }),
{
    match v {
        Some(n) => push_int_field(fs, key, *n as i64),
        None => (),
    }
}

/// Appends a 32-bit signed field when the value is set.
fn push_opt_i32_field(fs: &mut Vec<Vec<u8>>, key: &str, v: &Option<i32>)
    ensures
        final(fs).deep_view() == (match *v {
            Some(n) => old(fs).deep_view().push(int_field(key@, n as int)),
            None => old(fs).deep_view(),
        }),
{
    match v {
        Some(n) => push_int_field(fs, key, *n as i64),
        None => (),
    }
}

/// Appends a 64-bit signed field when the value is set.
fn push_opt_i64_field(fs: &mut Vec<Vec<u8>>, key: &str, v: &Option<i64>)
    ensures
        final(fs).deep_view() == (match *v {
            Some(n) => old(fs).deep_view().push(int_field(key@, n as int)),
            None => old(fs).deep_view(),
        }),
{
    match v {
        Some(n) => push_int_field(fs, key, *n),
        None => (),
    }
}

/// Appends a hundredths field when the value is set.
fn push_opt_hundredths_field(fs: &mut Vec<Vec<u8>>, key: &str, v: &Option<u64>)
    ensures
        final(fs).deep_view() == (match *v {
            Some(n) => old(fs).deep_view().push(hundredths_field(key@, n as nat)),
            None => old(fs).deep_view(),
        }),
{
    match v {
        Some(n) => push_hundredths_field(fs, key, *n),
        None => (),
    }
}

/// The field list of one participant's wire object, populated fields
/// only, in a fixed order.
pub open spec fn player_fields(p: PlayerReportV) -> Seq<Seq<u8>> {
    let fs = Seq::<Seq<u8>>::empty();
    let fs = match p.uid {
        Some(s) => fs.push(str_field(("\"fbUid\":")@, s)),
        None => fs,
    };
    let fs = match p.slot_type {
        Some(n) => fs.push(int_field(("\"slotType\":")@, n as int)),
        None => fs,
    };
    let fs = match p.damage_done {
        Some(n) => fs.push(hundredths_field(("\"damageDone\":")@, n as nat)),
        None => fs,
    };
    let fs = match p.stocks_remaining {
        Some(n) => fs.push(int_field(("\"stocksRemaining\":")@, n as int)),
        None => fs,
    };
    let fs = match p.character_id {
        Some(n) => fs.push(int_field(("\"characterId\":")@, n as int)),
        None => fs,
    };
    let fs = match p.color_id {
        Some(n) => fs.push(int_field(("\"colorId\":")@, n as int)),
        None => fs,
    };
    let fs = match p.starting_stocks {
        Some(n) => fs.push(int_field(("\"startingStocks\":")@, n as int)),
        None => fs,
    };
    let fs = match p.starting_percent {
        Some(n) => fs.push(int_field(("\"startingPercent\":")@, n as int)),
        None => fs,
    };
    fs
}

/// One participant's wire object.
pub open spec fn player_object_bytes(p: PlayerReportV) -> Seq<u8> {
    seq![0x7bu8] + comma_joined(player_fields(p)) + seq![0x7du8]
}

/// The wire objects of all participants, in report order.
pub open spec fn player_objects(ps: Seq<PlayerReportV>) -> Seq<Seq<u8>> {
    ps.map_values(|p: PlayerReportV| player_object_bytes(p))
}

/// Builds one participant's wire object.
fn build_player_object(p: &PlayerReport) -> (r: Vec<u8>)
    ensures
        r@ == player_object_bytes(p@),
{
    let mut fs: Vec<Vec<u8>> = Vec::new();
    push_opt_str_field(&mut fs, "\"fbUid\":", &p.uid);
    push_opt_u8_field(&mut fs, "\"slotType\":", &p.slot_type);
    push_opt_hundredths_field(&mut fs, "\"damageDone\":", &p.damage_done);
    push_opt_u8_field(&mut fs, "\"stocksRemaining\":", &p.stocks_remaining);
    push_opt_u8_field(&mut fs, "\"characterId\":", &p.character_id);
    push_opt_u8_field(&mut fs, "\"colorId\":", &p.color_id);
    push_opt_i64_field(&mut fs, "\"startingStocks\":", &p.starting_stocks);
    push_opt_i64_field(&mut fs, "\"startingPercent\":", &p.starting_percent);
    proof {
        assert(fs.deep_view() == player_fields(p@));
    }
    let mut out: Vec<u8> = Vec::new();
    out.push(0x7b);
    push_comma_joined(&mut out, &fs);
    out.push(0x7d);
    proof {
        assert(out@ =~= player_object_bytes(p@));
    }
    out
}

/// The field list of the report's wire object: the always-present
/// identity and gate fields first, then the populated optional fields,
/// then the player array.
pub open spec fn report_fields(r: GameReportV, fp: Seq<char>, u: UserInfoV) -> Seq<Seq<u8>> {
    let fs = Seq::<Seq<u8>>::empty();
    let fs = fs.push(int_field(("\"attempts\":")@, r.attempts as int));
    let fs = fs.push(str_field(("\"fbUid\":")@, u.uid));
    let fs = fs.push(str_field(("\"playKey\":")@, u.play_key));
    let fs = fs.push(str_field(("\"isoHash\":")@, fp));
    let fs = fs.push(int_field(("\"onlineMode\":")@, r.online_mode.code_spec() as int));
    let fs = match r.match_id {
        Some(s) => fs.push(str_field(("\"matchId\":")@, s)),
        None => fs,
    };
    let fs = match r.duration_frames {
        Some(n) => fs.push(int_field(("\"durationFrames\":")@, n as int)),
        None => fs,
    };
    let fs = match r.game_index {
        Some(n) => fs.push(int_field(("\"gameIndex\":")@, n as int)),
        None => fs,
    };
    let fs = match r.tie_break_index {
        Some(n) => fs.push(int_field(("\"tiebreakIndex\":")@, n as int)),
        None => fs,
    };
    let fs = match r.winner_index {
        Some(n) => fs.push(int_field(("\"winnerIndex\":")@, n as int)),
        None => fs,
    };
    let fs = match r.game_end_method {
        Some(n) => fs.push(int_field(("\"gameEndMethod\":")@, n as int)),
        None => fs,
    };
    let fs = match r.lras_initiator {
        Some(n) => fs.push(int_field(("\"lrasInitiator\":")@, n as int)),
        None => fs,
    };
    let fs = match r.stage_id {
        Some(n) => fs.push(int_field(("\"stageId\":")@, n as int)),
        None => fs,
    };
    fs.push(lit_bytes(("\"players\":[")@) + comma_joined(player_objects(r.players)) + lit_bytes(("]")@))
}

/// The report's wire object.
pub open spec fn report_object_bytes(r: GameReportV, fp: Seq<char>, u: UserInfoV) -> Seq<u8> {
    seq![0x7bu8] + comma_joined(report_fields(r, fp, u)) + seq![0x7du8]
}

/// The full submission request body: the fixed mutation text and the
/// report object as its one variable.
pub open spec fn report_request_bytes(r: GameReportV, fp: Seq<char>, u: UserInfoV) -> Seq<u8> {
    lit_bytes(
        ("{\"query\":\"mutation ($report: OnlineGameReportInput!) { reportOnlineGame (report: $report) { success uploadUrl } }\",\"variables\":{\"report\":")@,
    ) + report_object_bytes(r, fp, u) + lit_bytes(("}}")@)
}

/// Builds the player array field of the report object.
fn build_players_field(players: &Vec<PlayerReport>) -> (r: Vec<u8>)
    ensures
        r@ == lit_bytes(("\"players\":[")@) + comma_joined(player_objects(players.deep_view()))
            + lit_bytes(("]")@),
{
    let mut objs: Vec<Vec<u8>> = Vec::new();
    let mut i: usize = 0;
    while i < players.len()
        invariant
            i <= players@.len(),
            players.deep_view().len() == players@.len(),
            objs.deep_view() == player_objects(players.deep_view().take(i as int)),
        decreases players@.len() - i,
    {
        let obj = build_player_object(&players[i]);
        let ghost pre = objs;
        let ghost og = obj;
        objs.push(obj);
        proof {
            lemma_fragments_push(pre, objs, og);
            assert(players.deep_view()[i as int] == players@[i as int]@);
            assert(objs.deep_view() =~= player_objects(players.deep_view().take(i as int + 1)));
        }
        i = i + 1;
    }
    proof {
        assert(players.deep_view().take(players@.len() as int) =~= players.deep_view());
    }
    let mut out: Vec<u8> = Vec::new();
    push_lit(&mut out, "\"players\":[");
    push_comma_joined(&mut out, &objs);
    push_lit(&mut out, "]");
    proof {
        assert(out@ =~= lit_bytes(("\"players\":[")@) + comma_joined(
            player_objects(players.deep_view()),
        ) + lit_bytes(("]")@));
    }
    out
}

/// Builds the report's wire object from the report, the resolved ISO
/// fingerprint and the user identity, with the attempt counter to put
/// on the wire passed explicitly: a submission names the attempt being
/// made, which the caller counts. Pure: no I/O, no clock.
#[verifier::rlimit(60)]
pub fn build_report_object(report: &GameReport, attempts: u32, fingerprint: &str, identity: &UserInfo) -> (r: Vec<
    u8,
>)
    ensures
        r@ == report_object_bytes(GameReportV { attempts, ..report@ }, fingerprint@, identity@),
{
    let mut fs: Vec<Vec<u8>> = Vec::new();
    push_int_field(&mut fs, "\"attempts\":", attempts as i64);
    push_str_field(&mut fs, "\"fbUid\":", identity.uid.as_str());
    push_str_field(&mut fs, "\"playKey\":", identity.play_key.as_str());
    push_str_field(&mut fs, "\"isoHash\":", fingerprint);
    push_int_field(&mut fs, "\"onlineMode\":", report.online_mode.code() as i64);
    push_opt_str_field(&mut fs, "\"matchId\":", &report.match_id);
    push_opt_u32_field(&mut fs, "\"durationFrames\":", &report.duration_frames);
    push_opt_u32_field(&mut fs, "\"gameIndex\":", &report.game_index);
    push_opt_u32_field(&mut fs, "\"tiebreakIndex\":", &report.tie_break_index);
    push_opt_i8_field(&mut fs, "\"winnerIndex\":", &report.winner_index);
    push_opt_u8_field(&mut fs, "\"gameEndMethod\":", &report.game_end_method);
    push_opt_i8_field(&mut fs, "\"lrasInitiator\":", &report.lras_initiator);
    push_opt_i32_field(&mut fs, "\"stageId\":", &report.stage_id);
    let players = build_players_field(&report.players);
    let ghost pre = fs;
    let ghost pg = players;
    fs.push(players);
    proof {
        lemma_fragments_push(pre, fs, pg);
        assert(fs.deep_view() =~= report_fields(
            GameReportV { attempts, ..report@ },
            fingerprint@,
            identity@,
        ));
    }
    let mut out: Vec<u8> = Vec::new();
    out.push(0x7b);
    push_comma_joined(&mut out, &fs);
    out.push(0x7d);
    proof {
        assert(out@ =~= report_object_bytes(GameReportV { attempts, ..report@ }, fingerprint@, identity@));
    }
    out
}

/// Builds the full submission request body for one attempt of the
/// report, naming the given attempt counter on the wire. Pure: no I/O.
pub fn build_request_for_attempt(
    report: &GameReport,
    attempts: u32,
    fingerprint: &str,
    identity: &UserInfo,
) -> (r: Vec<u8>)
    ensures
        r@ == report_request_bytes(GameReportV { attempts, ..report@ }, fingerprint@, identity@),
{
    let mut out: Vec<u8> = Vec::new();
    push_lit(
        &mut out,
        "{\"query\":\"mutation ($report: OnlineGameReportInput!) { reportOnlineGame (report: $report) { success uploadUrl } }\",\"variables\":{\"report\":",
    );
    let obj = build_report_object(report, attempts, fingerprint, identity);
    out.extend_from_slice(obj.as_slice());
    push_lit(&mut out, "}}");
    proof {
        assert(out@ =~= report_request_bytes(
            GameReportV { attempts, ..report@ },
            fingerprint@,
            identity@,
        ));
    }
    out
}

/// Builds the full submission request body for one attempt of the
/// report, with the counter the report already carries. Pure: no I/O.
pub fn build_request(report: &GameReport, fingerprint: &str, identity: &UserInfo) -> (r: Vec<u8>)
    ensures
        r@ == report_request_bytes(report@, fingerprint@, identity@),
{
    let r = build_request_for_attempt(report, report.attempts, fingerprint, identity);
    proof {
        assert(GameReportV { attempts: report@.attempts, ..report@ } == report@);
    }
    r
}

/// The request body of the one-shot completion call.
pub open spec fn completion_request_bytes(match_id: Seq<char>, end_mode: u8, u: UserInfoV) -> Seq<
    u8,
> {
    lit_bytes(
        ("{\"query\":\"mutation ($report: OnlineGameCompleteInput!) { completeOnlineGame (report: $report) }\",\"variables\":{\"report\":{\"matchId\":")@,
    ) + json_str_bytes(match_id) + lit_bytes((",\"fbUid\":")@) + json_str_bytes(u.uid) + lit_bytes(
        (",\"playKey\":")@,
    ) + json_str_bytes(u.play_key) + lit_bytes((",\"endMode\":")@) + dec_int(end_mode as int)
        + lit_bytes(("}}}")@)
}

/// Builds the completion request body. Pure: no I/O.
pub fn build_completion_request(match_id: &str, end_mode: u8, identity: &UserInfo) -> (r: Vec<u8>)
    ensures
        r@ == completion_request_bytes(match_id@, end_mode, identity@),
{
    let mut out: Vec<u8> = Vec::new();
    push_lit(
        &mut out,
        "{\"query\":\"mutation ($report: OnlineGameCompleteInput!) { completeOnlineGame (report: $report) }\",\"variables\":{\"report\":{\"matchId\":",
    );
    push_json_str(&mut out, match_id);
    push_lit(&mut out, ",\"fbUid\":");
    push_json_str(&mut out, identity.uid.as_str());
    push_lit(&mut out, ",\"playKey\":");
    push_json_str(&mut out, identity.play_key.as_str());
    push_lit(&mut out, ",\"endMode\":");
    push_dec_i64(&mut out, end_mode as i64);
    push_lit(&mut out, "}}}");
    proof {
        assert(out@ =~= completion_request_bytes(match_id@, end_mode, identity@));
    }
    out
}

/// The request body of the one-shot abandonment call.
pub open spec fn abandonment_request_bytes(match_id: Seq<char>, u: UserInfoV) -> Seq<u8> {
    lit_bytes(
        ("{\"query\":\"mutation ($report: OnlineGameAbandonInput!) { abandonOnlineGame (report: $report) }\",\"variables\":{\"report\":{\"matchId\":")@,
    ) + json_str_bytes(match_id) + lit_bytes((",\"fbUid\":")@) + json_str_bytes(u.uid) + lit_bytes(
        (",\"playKey\":")@,
    ) + json_str_bytes(u.play_key) + lit_bytes(("}}}")@)
}

/// Builds the abandonment request body. Pure: no I/O.
pub fn build_abandonment_request(match_id: &str, identity: &UserInfo) -> (r: Vec<u8>)
    ensures
        r@ == abandonment_request_bytes(match_id@, identity@),
{
    let mut out: Vec<u8> = Vec::new();
    push_lit(
        &mut out,
        "{\"query\":\"mutation ($report: OnlineGameAbandonInput!) { abandonOnlineGame (report: $report) }\",\"variables\":{\"report\":{\"matchId\":",
    );
    push_json_str(&mut out, match_id);
    push_lit(&mut out, ",\"fbUid\":");
    push_json_str(&mut out, identity.uid.as_str());
    push_lit(&mut out, ",\"playKey\":");
    push_json_str(&mut out, identity.play_key.as_str());
    push_lit(&mut out, "}}}");
    proof {
        assert(out@ =~= abandonment_request_bytes(match_id@, identity@));
    }
    out
}

} // verus!
