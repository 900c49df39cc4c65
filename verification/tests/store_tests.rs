use termillion::events::{PtyError, PtyOutputEvent};
use termillion::lifecycle::{new_session, AliveCheck, ClaimOutcome, MetricsStep, WaitProbe};
use termillion::store::{Session, SessionStore};

fn store_with(ids: &[&str]) -> SessionStore {
    let mut store = SessionStore::new();
    for id in ids {
        store.add(id.to_string(), Session::new(0));
    }
    store
}

#[test]
fn fresh_ids_are_uuid_shaped() {
    let (id1, session) = new_session(7);
    let (id2, _) = new_session(7);
    assert_eq!(id1.len(), 36);
    assert_ne!(id1, id2);
    assert!(!session.exit_event_sent);
    assert_eq!(session.metrics.created_at_ms, 7);
    assert_eq!(session.metrics.bytes_read, 0);
    assert_eq!(session.metrics.bytes_written, 0);
    assert_eq!(session.metrics.messages_sent, 0);
}

#[test]
fn add_get_remove_roundtrip() {
    let mut store = store_with(&["a", "b"]);
    assert!(store.contains(&"a".to_string()));
    assert!(!store.contains(&"c".to_string()));
    assert!(store.get(&"b".to_string()).is_some());
    assert!(store.get(&"c".to_string()).is_none());
    let removed = store.remove(&"a".to_string());
    assert!(removed.is_some());
    assert!(!store.contains(&"a".to_string()));
    assert!(store.remove(&"a".to_string()).is_none());
}

#[test]
fn get_all_ids_lists_each_session_once() {
    let store = store_with(&["a", "b", "c"]);
    let mut ids = store.get_all_ids();
    ids.sort();
    assert_eq!(ids, vec!["a".to_string(), "b".to_string(), "c".to_string()]);
}

#[test]
fn claim_exit_succeeds_exactly_once() {
    let mut store = store_with(&["s"]);
    let id = "s".to_string();
    assert_eq!(store.claim_exit(&id), ClaimOutcome::Claimed);
    assert_eq!(store.claim_exit(&id), ClaimOutcome::AlreadyClaimed);
    assert_eq!(store.claim_exit(&id), ClaimOutcome::AlreadyClaimed);
    assert_eq!(store.claim_exit(&"other".to_string()), ClaimOutcome::NotFound);
}

#[test]
fn reader_end_emits_one_exit_then_nothing() {
    let mut store = store_with(&["s"]);
    let id = "s".to_string();
    let first = store.on_reader_end(&id);
    match first {
        Some(PtyOutputEvent::Exit { status }) => assert_eq!(status, "Reader thread ended"),
        other => panic!("expected an exit event, got {:?}", other),
    }
    assert_eq!(store.on_reader_end(&id), None);
    // The session stays registered: cleanup belongs to watcher or destroy.
    assert!(store.contains(&id));
}

#[test]
fn watcher_emits_exit_and_removes_session() {
    let mut store = store_with(&["s"]);
    let id = "s".to_string();
    let step = store.watcher_step(&id, &WaitProbe::StillRunning);
    assert!(!step.done);
    assert!(step.emit.is_none());
    let step = store.watcher_step(&id, &WaitProbe::Exited { status: "ExitStatus(0)".to_string() });
    assert!(step.done);
    assert_eq!(step.emit, Some(PtyOutputEvent::Exit { status: "ExitStatus(0)".to_string() }));
    assert!(!store.contains(&id));
    // A later round finds nothing and stops silently.
    let step = store.watcher_step(&id, &WaitProbe::Exited { status: "ExitStatus(0)".to_string() });
    assert!(step.done);
    assert!(step.emit.is_none());
}

#[test]
fn watcher_loses_claim_to_reader() {
    let mut store = store_with(&["s"]);
    let id = "s".to_string();
    assert!(store.on_reader_end(&id).is_some());
    let step = store.watcher_step(&id, &WaitProbe::Exited { status: "gone".to_string() });
    assert!(step.done);
    assert!(step.emit.is_none(), "the watcher lost the claim and must not emit");
    assert!(!store.contains(&id));
}

#[test]
fn destroy_unknown_id_is_noop_success() {
    let mut store = store_with(&["s"]);
    let before = store.get_all_ids();
    assert!(store.destroy_pty(&"unknown".to_string()).is_none());
    assert_eq!(store.get_all_ids(), before);
}

#[test]
fn two_destroys_remove_once_and_suppress_exits() {
    let mut store = store_with(&["s"]);
    let id = "s".to_string();
    let first = store.destroy_pty(&id);
    let second = store.destroy_pty(&id);
    assert!(first.is_some());
    assert!(first.unwrap().exit_event_sent, "destroy suppresses racing exits");
    assert!(second.is_none(), "the second destroy is a no-op success");
    // No termination path can emit an exit event afterwards.
    assert_eq!(store.on_reader_end(&id), None);
    let step = store.watcher_step(&id, &WaitProbe::Exited { status: "x".to_string() });
    assert!(step.emit.is_none());
}

#[test]
fn alive_is_false_for_unknown_and_exited_sessions() {
    let mut store = store_with(&["s"]);
    let id = "s".to_string();
    assert_eq!(store.is_pty_alive_check(&"nope".to_string()), AliveCheck::NotFound);
    assert_eq!(store.is_pty_alive_check(&id), AliveCheck::NeedProbe);
    assert!(store.is_pty_alive_probe(&id, &WaitProbe::StillRunning));
    // The pump claims the exit: the session is dead from then on.
    assert!(store.on_reader_end(&id).is_some());
    assert_eq!(store.is_pty_alive_check(&id), AliveCheck::AlreadyExited);
    assert!(!store.is_pty_alive_probe(&id, &WaitProbe::StillRunning));
}

#[test]
fn alive_probe_on_exited_child_claims_quietly() {
    let mut store = store_with(&["s"]);
    let id = "s".to_string();
    assert!(!store.is_pty_alive_probe(&id, &WaitProbe::Exited { status: "done".to_string() }));
    // The flag is set: nobody may emit an exit event any more.
    assert_eq!(store.claim_exit(&id), ClaimOutcome::AlreadyClaimed);
    assert_eq!(store.on_reader_end(&id), None);
}

#[test]
fn alive_probe_failure_reads_as_dead() {
    let mut store = store_with(&["s"]);
    let id = "s".to_string();
    assert!(!store.is_pty_alive_probe(&id, &WaitProbe::ProbeError { detail: "bad".to_string() }));
    // Liveness never errors, and a failed probe claims nothing: the exit
    // notification is still up for grabs.
    assert_eq!(store.claim_exit(&id), ClaimOutcome::Claimed);
}

#[test]
fn resize_builds_size_or_not_found() {
    let store = store_with(&["s"]);
    let dto = store.resize_pty(&"s".to_string(), 30, 100).unwrap();
    assert_eq!((dto.rows, dto.cols, dto.pixel_width, dto.pixel_height), (30, 100, 0, 0));
    let err = store.resize_pty(&"nope".to_string(), 30, 100).unwrap_err();
    assert_eq!(err, PtyError::NotFound { pty_id: "nope".to_string() });
    assert_eq!(err.message(), "PTY with ID nope not found");
}

#[test]
fn write_gate_and_metrics_accounting() {
    let mut store = store_with(&["s"]);
    let id = "s".to_string();
    assert!(store.write_begin(&id).is_ok());
    assert!(store.write_begin(&"nope".to_string()).is_err());
    assert!(store.record_write(&id, 10));
    assert!(store.record_write(&id, 5));
    assert!(!store.record_write(&"nope".to_string(), 5));
    assert!(store.record_output(&id, 100));
    assert!(store.record_output(&id, 20));
    let snap = store.get_pty_metrics(&id, 40).unwrap();
    assert_eq!(snap.bytes_written, 15);
    assert_eq!(snap.bytes_read, 120);
    assert_eq!(snap.messages_sent, 2);
    assert_eq!(snap.uptime_ms, 40);
    assert!(store.get_pty_metrics(&"nope".to_string(), 40).is_err());
}

#[test]
fn write_counter_wraps_like_the_hardware() {
    let mut store = store_with(&["s"]);
    let id = "s".to_string();
    assert!(store.record_write(&id, u64::MAX));
    assert!(store.record_write(&id, 5));
    let snap = store.get_pty_metrics(&id, 0).unwrap();
    assert_eq!(snap.bytes_written, 4);
}

#[test]
fn uptime_is_zero_when_the_clock_regresses() {
    let mut store = SessionStore::new();
    store.add("s".to_string(), Session::new(100));
    let snap = store.get_pty_metrics(&"s".to_string(), 40).unwrap();
    assert_eq!(snap.uptime_ms, 0);
    let snap = store.get_pty_metrics(&"s".to_string(), 150).unwrap();
    assert_eq!(snap.uptime_ms, 50);
}

#[test]
fn metrics_step_reports_until_exit() {
    let mut store = store_with(&["s"]);
    let id = "s".to_string();
    store.record_output(&id, 7);
    match store.metrics_step(&id, 25) {
        MetricsStep::Emit(PtyOutputEvent::Metrics {
            bytes_read,
            bytes_written,
            messages_sent,
            uptime_ms,
        }) => {
            assert_eq!(bytes_read, 7);
            assert_eq!(bytes_written, 0);
            assert_eq!(messages_sent, 1);
            assert_eq!(uptime_ms, 25);
        },
        _ => panic!("expected a metrics event"),
    }
    store.claim_exit(&id);
    assert!(matches!(store.metrics_step(&id, 30), MetricsStep::Stop));
    assert!(matches!(store.metrics_step(&"nope".to_string(), 30), MetricsStep::Stop));
}
