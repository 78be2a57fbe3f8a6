use std::io::Read;

use slippi_game_reporter::engine::{
    CycleAction, ProcessingEvent, ProcessingState, ReportProcessor,
};
use slippi_game_reporter::report::{GameReport, OnlinePlayMode, PlayerReport, UserInfo};
use slippi_game_reporter::response::SubmitOutcome;

fn identity() -> UserInfo {
    UserInfo {
        uid: "user-1".to_string(),
        play_key: "key-1".to_string(),
    }
}

fn report_named(id: &str) -> GameReport {
    let mut r = GameReport::new(OnlinePlayMode::Ranked);
    r.match_id = Some(id.to_string());
    r
}

fn contains(haystack: &[u8], needle: &[u8]) -> bool {
    haystack
        .windows(needle.len())
        .any(|w| w == needle)
}

fn ready_processor(reports: Vec<GameReport>) -> ReportProcessor {
    let mut p = ReportProcessor::new(identity());
    p.resolve_fingerprint("feed".to_string());
    for r in reports {
        p.add_report(r);
    }
    p.on_event(ProcessingEvent::ReportAvailable);
    p
}

#[test]
fn reports_submit_in_fifo_order_when_all_succeed() {
    let mut p = ready_processor(vec![
        report_named("r-one"),
        report_named("r-two"),
        report_named("r-three"),
    ]);
    let mut seen: Vec<Vec<u8>> = Vec::new();
    while p.ready_to_submit() {
        seen.push(p.prepare_attempt());
        let action = p.handle_outcome(SubmitOutcome::Success { upload_url: None });
        assert!(matches!(action, CycleAction::Done));
    }
    assert_eq!(seen.len(), 3);
    assert!(contains(&seen[0], b"\"matchId\":\"r-one\""));
    assert!(contains(&seen[1], b"\"matchId\":\"r-two\""));
    assert!(contains(&seen[2], b"\"matchId\":\"r-three\""));
    for payload in &seen {
        assert!(contains(payload, b"\"attempts\":1"));
    }
    assert_eq!(p.pending(), 0);
}

#[test]
fn retrying_report_blocks_later_reports_and_is_not_dropped() {
    let mut p = ready_processor(vec![report_named("first"), report_named("second")]);
    // three failures, then success, all for the front report
    for made in 1..=3u64 {
        let payload = p.prepare_attempt();
        assert!(contains(&payload, b"\"matchId\":\"first\""));
        let action = p.handle_outcome(SubmitOutcome::NotSuccessful);
        match action {
            CycleAction::Retry { backoff_ms } => assert_eq!(backoff_ms, made * 100),
            other => panic!("expected a retry, got {:?}", other),
        }
        assert_eq!(p.pending(), 2);
    }
    let payload = p.prepare_attempt();
    assert!(contains(&payload, b"\"matchId\":\"first\""));
    assert!(contains(&payload, b"\"attempts\":4"));
    let action = p.handle_outcome(SubmitOutcome::Success { upload_url: None });
    assert!(matches!(action, CycleAction::Done));
    // only now is the second report submitted
    let payload = p.prepare_attempt();
    assert!(contains(&payload, b"\"matchId\":\"second\""));
}

#[test]
fn report_is_dropped_after_five_failed_attempts() {
    let mut p = ready_processor(vec![report_named("doomed"), report_named("next")]);
    for made in 1..=4u64 {
        let _ = p.prepare_attempt();
        let action = p.handle_outcome(SubmitOutcome::TransportError);
        match action {
            CycleAction::Retry { backoff_ms } => assert_eq!(backoff_ms, made * 100),
            other => panic!("expected a retry, got {:?}", other),
        }
    }
    let payload = p.prepare_attempt();
    assert!(contains(&payload, b"\"attempts\":5"));
    let action = p.handle_outcome(SubmitOutcome::TransportError);
    assert!(matches!(action, CycleAction::Dropped));
    // the dropped report never comes back: the next payload is the next report
    assert_eq!(p.pending(), 1);
    let payload = p.prepare_attempt();
    assert!(contains(&payload, b"\"matchId\":\"next\""));
    assert!(!contains(&payload, b"\"matchId\":\"doomed\""));
}

#[test]
fn shutdown_gives_each_remaining_report_one_attempt() {
    let mut p = ready_processor(vec![
        report_named("a"),
        report_named("b"),
        report_named("c"),
    ]);
    p.on_event(ProcessingEvent::Shutdown);
    assert!(matches!(p.state(), ProcessingState::ShuttingDown));
    let mut submitted = 0usize;
    while p.ready_to_submit() {
        let payload = p.prepare_attempt();
        assert!(contains(&payload, b"\"attempts\":1"));
        let action = p.handle_outcome(SubmitOutcome::TransportError);
        assert!(matches!(action, CycleAction::Dropped));
        submitted += 1;
    }
    assert_eq!(submitted, 3);
    assert_eq!(p.pending(), 0);
    p.on_drained();
    assert!(matches!(p.state(), ProcessingState::Stopped));
}

#[test]
fn successful_report_with_url_uploads_gzipped_container() {
    // the concrete first-try upload scenario
    let mut report = GameReport::new(OnlinePlayMode::Ranked);
    report.match_id = Some("abc123".to_string());
    report.winner_index = Some(1);
    report.add_player_report(PlayerReport::new());
    report.add_player_report(PlayerReport::new());
    report.replay_data = b"the replay take".to_vec();
    let mut p = ready_processor(vec![report]);
    let _ = p.prepare_attempt();
    let action = p.handle_outcome(SubmitOutcome::Success {
        upload_url: Some("https://x/y".to_string()),
    });
    match action {
        CycleAction::Upload { url, body } => {
            assert_eq!(url, "https://x/y");
            assert_eq!(body[0], 0x1f);
            assert_eq!(body[1], 0x8b);
            let mut decoder = flate2::read::GzDecoder::new(&body[..]);
            let mut framed = Vec::new();
            decoder.read_to_end(&mut framed).unwrap();
            assert_eq!(&framed[15..30], b"the replay take");
        },
        other => panic!("expected an upload, got {:?}", other),
    }
    assert_eq!(p.pending(), 0);
}

#[test]
fn failing_thrice_then_succeeding_counts_attempts_and_backoffs() {
    // the concrete retry scenario: four calls, attempts 1 to 4 on the
    // wire, backoffs of 100, 200 and 300 ms between them
    let mut p = ready_processor(vec![report_named("abc123")]);
    let mut backoffs: Vec<u64> = Vec::new();
    for expected_attempt in 1..=3u8 {
        let payload = p.prepare_attempt();
        let marker = format!("\"attempts\":{}", expected_attempt);
        assert!(contains(&payload, marker.as_bytes()));
        match p.handle_outcome(SubmitOutcome::NotSuccessful) {
            CycleAction::Retry { backoff_ms } => backoffs.push(backoff_ms),
            other => panic!("expected a retry, got {:?}", other),
        }
    }
    let payload = p.prepare_attempt();
    assert!(contains(&payload, b"\"attempts\":4"));
    let action = p.handle_outcome(SubmitOutcome::Success { upload_url: None });
    assert!(matches!(action, CycleAction::Done));
    assert_eq!(backoffs, vec![100, 200, 300]);
    assert_eq!(p.pending(), 0);
}

#[test]
fn fingerprint_gates_submission_until_resolved() {
    let mut p = ReportProcessor::new(identity());
    p.add_report(report_named("gated"));
    p.on_event(ProcessingEvent::ReportAvailable);
    assert!(!p.fingerprint_ready());
    assert!(!p.ready_to_submit());
    p.resolve_fingerprint("0123".to_string());
    assert!(p.ready_to_submit());
}

#[test]
fn known_bad_fingerprint_warns_once_and_still_resolves() {
    let mut p = ReportProcessor::new(identity());
    let warn = p.resolve_fingerprint("23d6baef06bd65989585096915da20f2".to_string());
    assert!(warn);
    assert!(p.fingerprint_ready());
    // reporting is not blocked by the warning
    p.add_report(report_named("still-reported"));
    p.on_event(ProcessingEvent::ReportAvailable);
    assert!(p.ready_to_submit());
    let payload = p.prepare_attempt();
    assert!(contains(
        &payload,
        b"\"isoHash\":\"23d6baef06bd65989585096915da20f2\""
    ));
}

#[test]
fn ordinary_fingerprint_does_not_warn_and_writes_once() {
    let mut p = ReportProcessor::new(identity());
    let warn = p.resolve_fingerprint("no-such-hash".to_string());
    assert!(!warn);
    // a second resolution does not overwrite the first
    let warn2 = p.resolve_fingerprint("23d6baef06bd65989585096915da20f2".to_string());
    assert!(warn2);
    p.add_report(report_named("r"));
    p.on_event(ProcessingEvent::ReportAvailable);
    let payload = p.prepare_attempt();
    assert!(contains(&payload, b"\"isoHash\":\"no-such-hash\""));
}

#[test]
fn state_machine_follows_events() {
    let mut p = ReportProcessor::new(identity());
    assert!(matches!(p.state(), ProcessingState::Idle));
    p.on_event(ProcessingEvent::ReportAvailable);
    assert!(matches!(p.state(), ProcessingState::Draining));
    p.on_drained();
    assert!(matches!(p.state(), ProcessingState::Idle));
    p.on_event(ProcessingEvent::ReportAvailable);
    p.on_event(ProcessingEvent::Shutdown);
    assert!(matches!(p.state(), ProcessingState::ShuttingDown));
    p.on_drained();
    assert!(matches!(p.state(), ProcessingState::Stopped));
    p.on_event(ProcessingEvent::Shutdown);
    assert!(matches!(p.state(), ProcessingState::Stopped));
}
