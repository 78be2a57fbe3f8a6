//! Value objects describing one finished match and its participants.
//!
//! A producer fills the optional fields it knows through the setters,
//! then moves the report into the queue. An unset field stays unset
//! (not zero) so that the wire encoder can omit it. Once a report is
//! queued, only its attempt counter changes, and only the processing
//! loop changes it.

use vstd::prelude::*;

verus! {

/// The different modes a player could be in.
#[derive(Debug, Clone, Copy, PartialEq, Eq, Structural)]
pub enum OnlinePlayMode {
    Ranked,
    Unranked,
    Direct,
    Teams,
}

impl OnlinePlayMode {
    /// The numeric code of the mode on the wire.
    pub open spec fn code_spec(self) -> u8 {
        match self {
            OnlinePlayMode::Ranked => 0,
            OnlinePlayMode::Unranked => 1,
            OnlinePlayMode::Direct => 2,
            OnlinePlayMode::Teams => 3,
        }
    }

    /// Returns the numeric code of the mode on the wire.
    pub fn code(&self) -> (r: u8)
        ensures
            r == self.code_spec(),
    {
        match self {
            OnlinePlayMode::Ranked => 0,
            OnlinePlayMode::Unranked => 1,
            OnlinePlayMode::Direct => 2,
            OnlinePlayMode::Teams => 3,
        }
    }
}

/// The mathematical value of a [`PlayerReport`].
pub struct PlayerReportV {
    pub uid: Option<Seq<char>>,
    pub slot_type: Option<u8>,
    pub damage_done: Option<u64>,
    pub stocks_remaining: Option<u8>,
    pub character_id: Option<u8>,
    pub color_id: Option<u8>,
    pub starting_stocks: Option<i64>,
    pub starting_percent: Option<i64>,
}

/// One participant's result. Every field is unset until the producer
/// sets it. Damage is counted in hundredths of a percent, so that the
/// wire encoder can render it with two fraction digits.
#[derive(Debug, Clone)]
pub struct PlayerReport {
    pub uid: Option<String>,
    pub slot_type: Option<u8>,
    pub damage_done: Option<u64>,
    pub stocks_remaining: Option<u8>,
    pub character_id: Option<u8>,
    pub color_id: Option<u8>,
    pub starting_stocks: Option<i64>,
    pub starting_percent: Option<i64>,
}

impl View for PlayerReport {
    type V = PlayerReportV;

    open spec fn view(&self) -> PlayerReportV {
        PlayerReportV {
            uid: self.uid.deep_view(),
            slot_type: self.slot_type,
            damage_done: self.damage_done,
            stocks_remaining: self.stocks_remaining,
            character_id: self.character_id,
            color_id: self.color_id,
            starting_stocks: self.starting_stocks,
            starting_percent: self.starting_percent,
        }
    }
}

impl DeepView for PlayerReport {
    type V = PlayerReportV;

    open spec fn deep_view(&self) -> PlayerReportV {
        self.view()
    }
}

impl PlayerReport {
    /// The player report with every field unset.
    pub open spec fn empty_spec() -> PlayerReportV {
        PlayerReportV {
            uid: None,
            slot_type: None,
            damage_done: None,
            stocks_remaining: None,
            character_id: None,
            color_id: None,
            starting_stocks: None,
            starting_percent: None,
        }
    }

    /// Returns a player report with every field unset.
    pub fn new() -> (r: Self)
        ensures
            r@ == Self::empty_spec(),
    {
        PlayerReport {
            uid: None,
            slot_type: None,
            damage_done: None,
            stocks_remaining: None,
            character_id: None,
            color_id: None,
            starting_stocks: None,
            starting_percent: None,
        }
    }
}

/// The mathematical value of a [`GameReport`].
pub struct GameReportV {
    pub match_id: Option<Seq<char>>,
    pub online_mode: OnlinePlayMode,
    pub duration_frames: Option<u32>,
    pub game_index: Option<u32>,
    pub tie_break_index: Option<u32>,
    pub winner_index: Option<i8>,
    pub game_end_method: Option<u8>,
    pub lras_initiator: Option<i8>,
    pub stage_id: Option<i32>,
    pub players: Seq<PlayerReportV>,
    pub attempts: u32,
    pub replay_data: Seq<u8>,
}

impl GameReportV {
    /// The same report with its attempt counter raised by one.
    pub open spec fn bump_attempts(self) -> GameReportV {
        GameReportV { attempts: (self.attempts + 1) as u32, ..self }
    }

    /// Equality on everything but the attempt counter: the identity of
    /// a report, which enqueueing freezes.
    pub open spec fn same_report(self, other: GameReportV) -> bool {
        &&& self.match_id == other.match_id
        &&& self.online_mode == other.online_mode
        &&& self.duration_frames == other.duration_frames
        &&& self.game_index == other.game_index
        &&& self.tie_break_index == other.tie_break_index
        &&& self.winner_index == other.winner_index
        &&& self.game_end_method == other.game_end_method
        &&& self.lras_initiator == other.lras_initiator
        &&& self.stage_id == other.stage_id
        &&& self.players == other.players
        &&& self.replay_data == other.replay_data
    }
}

/// Game metadata for one finished match, as handed over by the
/// producer. The attempt counter starts at zero; the replay buffer
/// holds the raw replay bytes accumulated before the report was
/// enqueued.
#[derive(Debug, Clone)]
pub struct GameReport {
    pub match_id: Option<String>,
    pub online_mode: OnlinePlayMode,
    pub duration_frames: Option<u32>,
    pub game_index: Option<u32>,
    pub tie_break_index: Option<u32>,
    pub winner_index: Option<i8>,
    pub game_end_method: Option<u8>,
    pub lras_initiator: Option<i8>,
    pub stage_id: Option<i32>,
    pub players: Vec<PlayerReport>,
    pub attempts: u32,
    pub replay_data: Vec<u8>,
}

impl View for GameReport {
    type V = GameReportV;

    open spec fn view(&self) -> GameReportV {
        GameReportV {
            match_id: self.match_id.deep_view(),
            online_mode: self.online_mode,
            duration_frames: self.duration_frames,
            game_index: self.game_index,
            tie_break_index: self.tie_break_index,
            winner_index: self.winner_index,
            game_end_method: self.game_end_method,
            lras_initiator: self.lras_initiator,
            stage_id: self.stage_id,
            players: self.players.deep_view(),
            attempts: self.attempts,
            replay_data: self.replay_data@,
        }
    }
}

impl DeepView for GameReport {
    type V = GameReportV;

    open spec fn deep_view(&self) -> GameReportV {
        self.view()
    }
}

impl GameReport {
    /// Returns a report for the given mode with every optional field
    /// unset, no players, and the attempt counter at zero.
    pub fn new(online_mode: OnlinePlayMode) -> (r: Self)
        ensures
            r@.match_id is None,
            r@.online_mode == online_mode,
            r@.duration_frames is None,
            r@.game_index is None,
            r@.tie_break_index is None,
            r@.winner_index is None,
            r@.game_end_method is None,
            r@.lras_initiator is None,
            r@.stage_id is None,
            r@.players == Seq::<PlayerReportV>::empty(),
            r@.attempts == 0,
            r@.replay_data == Seq::<u8>::empty(),
    {
        let r = GameReport {
            match_id: None,
            online_mode,
            duration_frames: None,
            game_index: None,
            tie_break_index: None,
            winner_index: None,
            game_end_method: None,
            lras_initiator: None,
            stage_id: None,
            players: Vec::new(),
            attempts: 0,
            replay_data: Vec::new(),
        };
        proof {
            assert(r@.players =~= Seq::<PlayerReportV>::empty());
        }
        r
    }

    /// Appends one participant's result to the report.
    pub fn add_player_report(&mut self, player: PlayerReport)
        ensures
            final(self)@ == (GameReportV { players: old(self)@.players.push(player@), ..old(self)@ }),
    {
        self.players.push(player);
        proof {
            assert(self@.players =~= old(self)@.players.push(player@));
        }
    }
}

/// The mathematical value of a [`UserInfo`].
pub struct UserInfoV {
    pub uid: Seq<char>,
    pub play_key: Seq<char>,
}

/// Immutable identity established when the reporter is constructed;
/// attached to every submission.
#[derive(Debug, Clone)]
pub struct UserInfo {
    pub uid: String,
    pub play_key: String,
}

impl View for UserInfo {
    type V = UserInfoV;

    open spec fn view(&self) -> UserInfoV {
        UserInfoV { uid: self.uid@, play_key: self.play_key@ }
    }
}

} // verus!
