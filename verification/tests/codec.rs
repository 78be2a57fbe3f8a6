use std::io::Read;

use slippi_game_reporter::container::{build_replay_container, compress, container_payload_len};
use slippi_game_reporter::payload::{
    build_abandonment_request, build_completion_request, build_request,
};
use slippi_game_reporter::report::{GameReport, OnlinePlayMode, PlayerReport, UserInfo};

fn sample_identity() -> UserInfo {
    UserInfo {
        uid: "user-1".to_string(),
        play_key: "key-1".to_string(),
    }
}

#[test]
fn container_frames_payload_with_big_endian_length() {
    let data: Vec<u8> = vec![9, 8, 7, 6, 5];
    let framed = build_replay_container(&data);
    let expected_header: Vec<u8> = vec![
        b'{', b'U', 3, b'r', b'a', b'w', b'[', b'$', b'U', b'#', b'l', 0, 0, 0, 5,
    ];
    assert_eq!(&framed[..15], &expected_header[..]);
    assert_eq!(&framed[15..20], &data[..]);
    let expected_footer: Vec<u8> = vec![
        b'U', 8, b'm', b'e', b't', b'a', b'd', b'a', b't', b'a', b'{', b'}', b'}',
    ];
    assert_eq!(&framed[20..], &expected_footer[..]);
}

#[test]
fn container_length_field_round_trips() {
    let data: Vec<u8> = (0..=255u8).cycle().take(70000).collect();
    let framed = build_replay_container(&data);
    assert_eq!(container_payload_len(&framed) as usize, data.len());
}

#[test]
fn container_length_field_round_trips_empty() {
    let data: Vec<u8> = Vec::new();
    let framed = build_replay_container(&data);
    assert_eq!(container_payload_len(&framed), 0);
}

#[test]
fn compress_round_trips_through_gzip() {
    let data: Vec<u8> = b"replay bytes, repeated: replay bytes".repeat(20);
    let framed = build_replay_container(&data);
    let gz = compress(&framed);
    assert!(gz.len() > 0);
    assert_eq!(gz[0], 0x1f);
    assert_eq!(gz[1], 0x8b);
    let mut decoder = flate2::read::GzDecoder::new(&gz[..]);
    let mut out = Vec::new();
    decoder.read_to_end(&mut out).unwrap();
    assert_eq!(out, framed);
}

#[test]
fn request_body_names_every_populated_field() {
    let mut report = GameReport::new(OnlinePlayMode::Unranked);
    report.match_id = Some("abc123".to_string());
    report.winner_index = Some(1);
    let mut p1 = PlayerReport::new();
    p1.uid = Some("p1".to_string());
    p1.damage_done = Some(12345); // 123.45 percent in hundredths
    let mut p2 = PlayerReport::new();
    p2.uid = Some("p2".to_string());
    p2.stocks_remaining = Some(3);
    report.add_player_report(p1);
    report.add_player_report(p2);
    report.attempts = 1;
    let body = build_request(&report, "f00dcafe", &sample_identity());
    let text = String::from_utf8(body).unwrap();
    let expected = "{\"query\":\"mutation ($report: OnlineGameReportInput!) { reportOnlineGame (report: $report) { success uploadUrl } }\",\"variables\":{\"report\":{\"attempts\":1,\"fbUid\":\"user-1\",\"playKey\":\"key-1\",\"isoHash\":\"f00dcafe\",\"onlineMode\":1,\"matchId\":\"abc123\",\"winnerIndex\":1,\"players\":[{\"fbUid\":\"p1\",\"damageDone\":123.45},{\"fbUid\":\"p2\",\"stocksRemaining\":3}]}}}";
    assert_eq!(text, expected);
}

#[test]
fn request_body_is_valid_json_and_omits_unset_fields() {
    let report = GameReport::new(OnlinePlayMode::Ranked);
    let body = build_request(&report, "beef", &sample_identity());
    let doc: serde_json::Value = serde_json::from_slice(&body).unwrap();
    let rep = &doc["variables"]["report"];
    assert_eq!(rep["attempts"], 0);
    assert_eq!(rep["fbUid"], "user-1");
    assert_eq!(rep["playKey"], "key-1");
    assert_eq!(rep["isoHash"], "beef");
    assert_eq!(rep["onlineMode"], 0);
    assert!(rep.get("matchId").is_none());
    assert!(rep.get("winnerIndex").is_none());
    assert!(rep.get("stageId").is_none());
    assert_eq!(rep["players"].as_array().unwrap().len(), 0);
}

#[test]
fn request_body_escapes_strings() {
    let mut report = GameReport::new(OnlinePlayMode::Direct);
    report.match_id = Some("a\"b\\c\nd".to_string());
    let body = build_request(&report, "00", &sample_identity());
    let doc: serde_json::Value = serde_json::from_slice(&body).unwrap();
    assert_eq!(doc["variables"]["report"]["matchId"], "a\"b\\c\nd");
}

#[test]
fn request_body_renders_negative_fields() {
    let mut report = GameReport::new(OnlinePlayMode::Teams);
    report.winner_index = Some(-1);
    report.lras_initiator = Some(-1);
    report.stage_id = Some(-2);
    let mut p = PlayerReport::new();
    p.starting_stocks = Some(-4);
    p.starting_percent = Some(i64::MIN);
    report.add_player_report(p);
    let body = build_request(&report, "00", &sample_identity());
    let doc: serde_json::Value = serde_json::from_slice(&body).unwrap();
    let rep = &doc["variables"]["report"];
    assert_eq!(rep["winnerIndex"], -1);
    assert_eq!(rep["lrasInitiator"], -1);
    assert_eq!(rep["stageId"], -2);
    assert_eq!(rep["players"][0]["startingStocks"], -4);
    assert_eq!(rep["players"][0]["startingPercent"], i64::MIN);
}

#[test]
fn completion_request_has_fixed_shape() {
    let body = build_completion_request("m-1", 7, &sample_identity());
    let text = String::from_utf8(body).unwrap();
    let expected = "{\"query\":\"mutation ($report: OnlineGameCompleteInput!) { completeOnlineGame (report: $report) }\",\"variables\":{\"report\":{\"matchId\":\"m-1\",\"fbUid\":\"user-1\",\"playKey\":\"key-1\",\"endMode\":7}}}";
    assert_eq!(text, expected);
}

#[test]
fn abandonment_request_has_fixed_shape() {
    let body = build_abandonment_request("m-2", &sample_identity());
    let text = String::from_utf8(body).unwrap();
    let expected = "{\"query\":\"mutation ($report: OnlineGameAbandonInput!) { abandonOnlineGame (report: $report) }\",\"variables\":{\"report\":{\"matchId\":\"m-2\",\"fbUid\":\"user-1\",\"playKey\":\"key-1\"}}}";
    assert_eq!(text, expected);
}
