use samwise::channel::{Received, StatusChannel};
use samwise::dedup::{Deduplicator, TickPlan};
use samwise::format::truncate_status;
use samwise::message::StatusMessage;
use samwise::session::{Session, SessionAction, SessionEvent, SessionState};
use samwise::snapshot::{snapshot_from_output, SnapshotError};
use samwise::STATUS_CAP;

fn active_session() -> Session {
    let mut s = Session::new();
    assert_eq!(s.state(), SessionState::Starting);
    assert!(matches!(s.handle(SessionEvent::Begin), SessionAction::Connect));
    assert_eq!(s.state(), SessionState::AwaitingReady);
    assert!(matches!(s.handle(SessionEvent::Ready), SessionAction::Listen));
    assert_eq!(s.state(), SessionState::Active);
    s
}

/// Runs one poll tick the way the driver does, with a fixed summary.
fn tick(d: &mut Deduplicator, ch: &mut StatusChannel, snapshot: &str, summary: &str) {
    let snapshot = snapshot.to_string();
    match d.plan(&snapshot) {
        TickPlan::Clear => ch.send(StatusMessage::Clear).unwrap(),
        TickPlan::Unchanged => {}
        TickPlan::Summarize => {
            let m = d.record(snapshot, summary);
            ch.send(m).unwrap();
        }
    }
}

#[test]
fn empty_snapshot_applies_clear() {
    let mut d = Deduplicator::new();
    let mut ch = StatusChannel::new();
    let mut s = active_session();
    tick(&mut d, &mut ch, "", "unused");
    assert!(d.last_seen().is_none());
    assert_eq!(ch.len(), 1);
    match s.listen(&mut ch) {
        Some(SessionAction::Apply(m)) => assert_eq!(m, StatusMessage::Clear),
        other => panic!("unexpected {:?}", other),
    }
}

#[test]
fn empty_snapshot_keeps_last_seen() {
    let mut d = Deduplicator::new();
    let mut ch = StatusChannel::new();
    tick(&mut d, &mut ch, "diff1", "did X");
    tick(&mut d, &mut ch, "", "unused");
    tick(&mut d, &mut ch, "", "unused");
    assert_eq!(d.last_seen().unwrap(), "diff1");
    assert_eq!(ch.len(), 3);
    assert_eq!(d.plan(&"diff1".to_string()), TickPlan::Unchanged);
}

#[test]
fn new_snapshot_applies_summary() {
    let mut d = Deduplicator::new();
    let mut ch = StatusChannel::new();
    let mut s = active_session();
    assert_eq!(d.plan(&"diff1".to_string()), TickPlan::Summarize);
    tick(&mut d, &mut ch, "diff1", "did X");
    assert_eq!(d.last_seen().unwrap(), "diff1");
    match s.listen(&mut ch) {
        Some(SessionAction::Apply(m)) => {
            assert_eq!(m, StatusMessage::SetStatus("did X".to_string()));
            assert_eq!(m.text().unwrap(), "did X");
        }
        other => panic!("unexpected {:?}", other),
    }
    assert!(s.listen(&mut ch).is_none());
    assert_eq!(s.state(), SessionState::Active);
}

#[test]
fn repeated_snapshot_applies_nothing() {
    let mut d = Deduplicator::new();
    let mut ch = StatusChannel::new();
    let mut s = active_session();
    tick(&mut d, &mut ch, "diff1", "did X");
    assert!(matches!(s.listen(&mut ch), Some(SessionAction::Apply(_))));
    assert_eq!(d.plan(&"diff1".to_string()), TickPlan::Unchanged);
    tick(&mut d, &mut ch, "diff1", "did Y");
    assert_eq!(ch.len(), 0);
    assert!(s.listen(&mut ch).is_none());
}

#[test]
fn changed_snapshot_is_summarized_again() {
    let mut d = Deduplicator::new();
    let mut ch = StatusChannel::new();
    tick(&mut d, &mut ch, "diff1", "did X");
    tick(&mut d, &mut ch, "diff2", "did Y");
    assert_eq!(d.last_seen().unwrap(), "diff2");
    assert_eq!(ch.len(), 2);
    match ch.try_recv() {
        Received::Message(m) => assert_eq!(m, StatusMessage::SetStatus("did X".to_string())),
        other => panic!("unexpected {:?}", other),
    }
    match ch.try_recv() {
        Received::Message(m) => assert_eq!(m, StatusMessage::SetStatus("did Y".to_string())),
        other => panic!("unexpected {:?}", other),
    }
}

#[test]
fn long_summary_is_cut_to_cap() {
    let long: String = (0..500).map(|i| (b'a' + (i % 26) as u8) as char).collect();
    let mut d = Deduplicator::new();
    let m = d.record("diff1".to_string(), &long);
    let text = m.text().unwrap();
    assert_eq!(STATUS_CAP, 120);
    assert_eq!(text.chars().count(), 120);
    assert_eq!(text.as_str(), &long[..120]);
}

#[test]
fn truncation_bounds_and_idempotence() {
    assert_eq!(truncate_status("", 5), "");
    assert_eq!(truncate_status("abc", 5), "abc");
    assert_eq!(truncate_status("abcde", 5), "abcde");
    assert_eq!(truncate_status("abcdef", 5), "abcde");
    assert_eq!(truncate_status("abcdef", 0), "");
    let once = truncate_status("hello world", 4);
    assert_eq!(once, "hell");
    assert_eq!(truncate_status(&once, 4), once);
}

#[test]
fn truncation_counts_characters_not_bytes() {
    assert_eq!(truncate_status("héllo wörld", 7), "héllo w");
    assert_eq!(truncate_status("日本語テキスト", 3), "日本語");
    assert_eq!(truncate_status("ééé", 3), "ééé");
}

#[test]
fn channel_is_fifo_across_interleavings() {
    let mut ch = StatusChannel::new();
    ch.send(StatusMessage::SetStatus("a".to_string())).unwrap();
    ch.send(StatusMessage::Clear).unwrap();
    match ch.try_recv() {
        Received::Message(m) => assert_eq!(m, StatusMessage::SetStatus("a".to_string())),
        other => panic!("unexpected {:?}", other),
    }
    ch.send(StatusMessage::SetStatus("b".to_string())).unwrap();
    match ch.try_recv() {
        Received::Message(m) => assert_eq!(m, StatusMessage::Clear),
        other => panic!("unexpected {:?}", other),
    }
    match ch.try_recv() {
        Received::Message(m) => assert_eq!(m, StatusMessage::SetStatus("b".to_string())),
        other => panic!("unexpected {:?}", other),
    }
    assert!(matches!(ch.try_recv(), Received::Empty));
}

#[test]
fn closed_channel_refuses_send_and_drains() {
    let mut ch = StatusChannel::new();
    ch.send(StatusMessage::Clear).unwrap();
    ch.close();
    assert!(ch.closed());
    match ch.send(StatusMessage::SetStatus("late".to_string())) {
        Err(m) => assert_eq!(m, StatusMessage::SetStatus("late".to_string())),
        Ok(()) => panic!("send on a closed channel succeeded"),
    }
    assert!(matches!(ch.try_recv(), Received::Message(StatusMessage::Clear)));
    assert!(matches!(ch.try_recv(), Received::Closed));
    assert!(matches!(ch.try_recv(), Received::Closed));
}

#[test]
fn close_after_send_applies_then_terminates() {
    let mut ch = StatusChannel::new();
    let mut s = active_session();
    ch.send(StatusMessage::SetStatus("a".to_string())).unwrap();
    ch.close();
    match s.listen(&mut ch) {
        Some(SessionAction::Apply(m)) => assert_eq!(m, StatusMessage::SetStatus("a".to_string())),
        other => panic!("unexpected {:?}", other),
    }
    assert_eq!(s.state(), SessionState::Active);
    assert!(matches!(s.listen(&mut ch), Some(SessionAction::Join)));
    assert_eq!(s.state(), SessionState::Draining);
    assert!(matches!(s.handle(SessionEvent::Joined), SessionAction::Finish));
    assert_eq!(s.state(), SessionState::Terminated);
}

#[test]
fn notices_and_stray_events_change_nothing() {
    let mut s = Session::new();
    assert!(matches!(s.handle(SessionEvent::Ready), SessionAction::Idle));
    assert_eq!(s.state(), SessionState::Starting);
    assert!(matches!(s.handle(SessionEvent::Begin), SessionAction::Connect));
    assert!(matches!(s.handle(SessionEvent::Notice), SessionAction::Idle));
    assert_eq!(s.state(), SessionState::AwaitingReady);
    assert!(matches!(s.handle(SessionEvent::Ready), SessionAction::Listen));
    assert!(matches!(s.handle(SessionEvent::Notice), SessionAction::Idle));
    assert!(matches!(s.handle(SessionEvent::Joined), SessionAction::Idle));
    assert_eq!(s.state(), SessionState::Active);
    assert!(matches!(s.handle(SessionEvent::Message(StatusMessage::Clear)), SessionAction::Apply(StatusMessage::Clear)));
    assert!(matches!(s.handle(SessionEvent::Closed), SessionAction::Join));
    assert!(matches!(s.handle(SessionEvent::Joined), SessionAction::Finish));
    assert!(matches!(s.handle(SessionEvent::Begin), SessionAction::Idle));
    assert_eq!(s.state(), SessionState::Terminated);
}

#[test]
fn snapshot_decodes_utf8_output() {
    assert_eq!(snapshot_from_output(b"diff --git a b\n".to_vec()).unwrap(), "diff --git a b\n");
    assert_eq!(snapshot_from_output(vec![0xc3, 0xa9]).unwrap(), "é");
    assert_eq!(snapshot_from_output(Vec::new()).unwrap(), "");
}

#[test]
fn snapshot_rejects_invalid_utf8() {
    assert_eq!(snapshot_from_output(vec![0xff, 0xfe]), Err(SnapshotError::NotUtf8));
    assert_eq!(snapshot_from_output(vec![b'a', 0xc3]), Err(SnapshotError::NotUtf8));
}
