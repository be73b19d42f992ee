use desktop_agent::startup::{ApiPhase, DaemonPhase, Startup, StartupAction, StartupEvent};

fn feed(s: &mut Startup, events: &[StartupEvent]) -> Vec<StartupAction> {
    events.iter().map(|e| s.apply(*e)).collect()
}

#[test]
fn new_record_has_both_tasks_running() {
    let s = Startup::new();
    assert_eq!(s.api, ApiPhase::Starting);
    assert_eq!(s.daemon, DaemonPhase::AwaitingWriteLock);
    assert!(!s.is_settled());
}

#[test]
fn happy_path_daemon_then_api() {
    let mut s = Startup::new();
    let actions = feed(
        &mut s,
        &[
            StartupEvent::WriteLockGranted,
            StartupEvent::InitializeFinished { ok: true },
            StartupEvent::DaemonStartFinished { ok: true },
            StartupEvent::ReadLockGranted,
            StartupEvent::ApiFinished { ok: true },
        ],
    );
    assert_eq!(
        actions,
        vec![
            StartupAction::CallInitialize,
            StartupAction::CallStartDaemon,
            StartupAction::ReleaseWriteAcquireRead,
            StartupAction::PublishOnline,
            StartupAction::Nothing,
        ]
    );
    assert_eq!(s.api, ApiPhase::Reachable);
    assert_eq!(s.daemon, DaemonPhase::Online);
    assert!(s.is_settled());
}

#[test]
fn api_first_ends_the_same() {
    let mut s = Startup::new();
    let first = s.apply(StartupEvent::ApiFinished { ok: true });
    assert_eq!(first, StartupAction::Nothing);
    assert_eq!(s.api, ApiPhase::Reachable);
    assert!(!s.is_settled());
    feed(
        &mut s,
        &[
            StartupEvent::WriteLockGranted,
            StartupEvent::InitializeFinished { ok: true },
            StartupEvent::DaemonStartFinished { ok: true },
            StartupEvent::ReadLockGranted,
        ],
    );
    assert_eq!(s.api, ApiPhase::Reachable);
    assert_eq!(s.daemon, DaemonPhase::Online);
    assert!(s.is_settled());
}

#[test]
fn api_failure_does_not_touch_daemon() {
    let mut s = Startup::new();
    s.apply(StartupEvent::WriteLockGranted);
    let a = s.apply(StartupEvent::ApiFinished { ok: false });
    assert_eq!(a, StartupAction::ReportApiFailure);
    assert_eq!(s.api, ApiPhase::Failed);
    assert_eq!(s.daemon, DaemonPhase::Initializing);
}

#[test]
fn initialize_failure_skips_start() {
    let mut s = Startup::new();
    s.apply(StartupEvent::WriteLockGranted);
    let a = s.apply(StartupEvent::InitializeFinished { ok: false });
    assert_eq!(a, StartupAction::ReportInitializeFailure);
    assert_eq!(s.daemon, DaemonPhase::InitializeFailed);
    assert_eq!(s.apply(StartupEvent::DaemonStartFinished { ok: true }), StartupAction::Nothing);
    assert_eq!(s.daemon, DaemonPhase::InitializeFailed);
    s.apply(StartupEvent::ApiFinished { ok: true });
    assert!(s.is_settled());
}

#[test]
fn start_failure_ends_daemon_task() {
    let mut s = Startup::new();
    s.apply(StartupEvent::WriteLockGranted);
    s.apply(StartupEvent::InitializeFinished { ok: true });
    let a = s.apply(StartupEvent::DaemonStartFinished { ok: false });
    assert_eq!(a, StartupAction::ReportStartFailure);
    assert_eq!(s.daemon, DaemonPhase::StartFailed);
    assert_eq!(s.apply(StartupEvent::ReadLockGranted), StartupAction::Nothing);
}

#[test]
fn events_out_of_turn_are_ignored() {
    let mut s = Startup::new();
    assert_eq!(s.apply(StartupEvent::ReadLockGranted), StartupAction::Nothing);
    assert_eq!(s.apply(StartupEvent::InitializeFinished { ok: true }), StartupAction::Nothing);
    assert_eq!(s, Startup::new());
    s.apply(StartupEvent::ApiFinished { ok: true });
    assert_eq!(s.apply(StartupEvent::ApiFinished { ok: false }), StartupAction::Nothing);
    assert_eq!(s.api, ApiPhase::Reachable);
}
