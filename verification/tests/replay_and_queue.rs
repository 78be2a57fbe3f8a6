use slippi_game_reporter::numfmt;
use slippi_game_reporter::queue::GameReporterQueue;
use slippi_game_reporter::replay::{ReplayData, ReplayDataAction};
use slippi_game_reporter::report::{GameReport, OnlinePlayMode};

#[test]
fn replay_data_starts_with_one_empty_buffer() {
    let rd = ReplayData::new();
    assert_eq!(rd.take_count(), 1);
    assert_eq!(rd.current_index(), 0);
    assert!(rd.buffer(0).is_empty());
    assert!(rd.completed_index().is_none());
}

#[test]
fn plain_pushes_append_to_the_current_buffer() {
    let mut rd = ReplayData::new();
    rd.push(b"abc", ReplayDataAction::Blank);
    rd.push(b"def", ReplayDataAction::Blank);
    assert_eq!(rd.take_count(), 1);
    assert_eq!(rd.buffer(0).as_slice(), b"abcdef");
}

#[test]
fn create_starts_a_new_buffer_and_close_marks_it_complete() {
    let mut rd = ReplayData::new();
    rd.push(b"first", ReplayDataAction::Blank);
    rd.push(b"second", ReplayDataAction::Create);
    assert_eq!(rd.take_count(), 2);
    assert_eq!(rd.current_index(), 1);
    assert_eq!(rd.buffer(0).as_slice(), b"first");
    assert_eq!(rd.buffer(1).as_slice(), b"second");
    assert!(rd.completed_index().is_none());
    rd.push(b"-end", ReplayDataAction::Close);
    assert_eq!(rd.completed_index(), Some(1));
    assert_eq!(rd.buffer(1).as_slice(), b"second-end");
}

#[test]
fn queue_is_first_in_first_out() {
    let mut q = GameReporterQueue::new();
    assert!(q.is_empty());
    assert!(q.drain_front().is_none());
    let mut a = GameReport::new(OnlinePlayMode::Ranked);
    a.match_id = Some("a".to_string());
    let mut b = GameReport::new(OnlinePlayMode::Ranked);
    b.match_id = Some("b".to_string());
    q.add_report(a);
    q.add_report(b);
    assert_eq!(q.len(), 2);
    assert_eq!(q.front().match_id.as_deref(), Some("a"));
    let first = q.drain_front().unwrap();
    assert_eq!(first.match_id.as_deref(), Some("a"));
    let second = q.drain_front().unwrap();
    assert_eq!(second.match_id.as_deref(), Some("b"));
    assert!(q.is_empty());
}

#[test]
fn bumping_the_front_counts_one_attempt() {
    let mut q = GameReporterQueue::new();
    q.add_report(GameReport::new(OnlinePlayMode::Direct));
    assert_eq!(q.front().attempts, 0);
    q.bump_front_attempts();
    q.bump_front_attempts();
    assert_eq!(q.front().attempts, 2);
}

#[test]
fn online_play_modes_have_their_wire_codes() {
    assert_eq!(OnlinePlayMode::Ranked.code(), 0);
    assert_eq!(OnlinePlayMode::Unranked.code(), 1);
    assert_eq!(OnlinePlayMode::Direct.code(), 2);
    assert_eq!(OnlinePlayMode::Teams.code(), 3);
}

#[test]
fn decimal_rendering_is_exact() {
    let mut out: Vec<u8> = Vec::new();
    numfmt::push_dec_u64(&mut out, 0);
    out.push(b' ');
    numfmt::push_dec_u64(&mut out, 90210);
    out.push(b' ');
    numfmt::push_dec_i64(&mut out, -307);
    out.push(b' ');
    numfmt::push_dec_i64(&mut out, i64::MIN);
    out.push(b' ');
    numfmt::push_dec_hundredths(&mut out, 12305);
    out.push(b' ');
    numfmt::push_dec_hundredths(&mut out, 7);
    assert_eq!(
        String::from_utf8(out).unwrap(),
        "0 90210 -307 -9223372036854775808 123.05 0.07"
    );
}
