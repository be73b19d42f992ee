use vstd::prelude::*;

verus! {

/// Progress of the task that brings up the local status API.
#[derive(Clone, Copy, Debug, PartialEq, Eq, Structural)]
pub enum ApiPhase {
    Starting,
    Reachable,
    Failed,
}

/// Progress of the task that readies the daemon: lock, initialize, start,
/// then publish the online status under a shared lock.
#[derive(Clone, Copy, Debug, PartialEq, Eq, Structural)]
pub enum DaemonPhase {
    AwaitingWriteLock,
    Initializing,
    StartingDaemon,
    AwaitingReadLock,
    Online,
    InitializeFailed,
    StartFailed,
}

/// What the daemon manager holds, as far as the orchestrator's requests
/// have taken it.
#[derive(Clone, Copy, Debug, PartialEq, Eq, Structural)]
pub enum ManagerState {
    Uninitialized,
    Initializing,
    Initialized,
    Running,
    Failed,
}

/// An answer from the outside to a request of one of the two tasks.
#[derive(Clone, Copy, Debug, PartialEq, Eq, Structural)]
pub enum StartupEvent {
    ApiFinished { ok: bool },
    WriteLockGranted,
    InitializeFinished { ok: bool },
    DaemonStartFinished { ok: bool },
    ReadLockGranted,
}

/// What the runner is to do next on behalf of the task that the event
/// belonged to.
#[derive(Clone, Copy, Debug, PartialEq, Eq, Structural)]
pub enum StartupAction {
    /// Nothing: the task is finished or the event was not awaited.
    Nothing,
    /// Report that the API could not be started; the API task ends.
    ReportApiFailure,
    /// With the exclusive lock held, call `initialize`.
    CallInitialize,
    /// Still under the exclusive lock, call `start_daemon`.
    CallStartDaemon,
    /// Release the exclusive lock, report the failed initialization; the
    /// daemon task ends.
    ReportInitializeFailure,
    /// Release the exclusive lock, report the failed start; the daemon task
    /// ends.
    ReportStartFailure,
    /// Release the exclusive lock and ask for shared access.
    ReleaseWriteAcquireRead,
    /// Under shared access, read the peer identifier, publish the online
    /// status line (best effort) and release the lock; the daemon task ends.
    PublishOnline,
}

/// The supervision record of the two startup tasks.
#[derive(Clone, Copy, Debug, PartialEq, Eq, Structural)]
pub struct Startup {
    pub api: ApiPhase,
    pub daemon: DaemonPhase,
}

pub open spec fn initial_startup() -> Startup {
    Startup { api: ApiPhase::Starting, daemon: DaemonPhase::AwaitingWriteLock }
}

pub open spec fn is_api_event(e: StartupEvent) -> bool {
    e is ApiFinished
}

pub open spec fn api_next(p: ApiPhase, e: StartupEvent) -> (ApiPhase, StartupAction) {
    match (p, e) {
        (ApiPhase::Starting, StartupEvent::ApiFinished { ok }) => if ok {
            (ApiPhase::Reachable, StartupAction::Nothing)
        } else {
            (ApiPhase::Failed, StartupAction::ReportApiFailure)
        },
        _ => (p, StartupAction::Nothing),
    }
}

pub open spec fn daemon_next(p: DaemonPhase, e: StartupEvent) -> (DaemonPhase, StartupAction) {
    match (p, e) {
        (DaemonPhase::AwaitingWriteLock, StartupEvent::WriteLockGranted) => (
            DaemonPhase::Initializing,
            StartupAction::CallInitialize,
        ),
        (DaemonPhase::Initializing, StartupEvent::InitializeFinished { ok }) => if ok {
            (DaemonPhase::StartingDaemon, StartupAction::CallStartDaemon)
        } else {
            (DaemonPhase::InitializeFailed, StartupAction::ReportInitializeFailure)
        },
        (DaemonPhase::StartingDaemon, StartupEvent::DaemonStartFinished { ok }) => if ok {
            (DaemonPhase::AwaitingReadLock, StartupAction::ReleaseWriteAcquireRead)
        } else {
            (DaemonPhase::StartFailed, StartupAction::ReportStartFailure)
        },
        (DaemonPhase::AwaitingReadLock, StartupEvent::ReadLockGranted) => (
            DaemonPhase::Online,
            StartupAction::PublishOnline,
        ),
        _ => (p, StartupAction::Nothing),
    }
}

/// One step of the record: an API event moves the API task only, any other
/// event the daemon task only.
pub open spec fn startup_next(s: Startup, e: StartupEvent) -> (Startup, StartupAction) {
    if is_api_event(e) {
        let (p, a) = api_next(s.api, e);
        (Startup { api: p, ..s }, a)
    } else {
        let (p, a) = daemon_next(s.daemon, e);
        (Startup { daemon: p, ..s }, a)
    }
}

/// The record after the events, in order.
pub open spec fn run(s: Startup, events: Seq<StartupEvent>) -> Startup
    decreases events.len(),
{
    if events.len() == 0 {
        s
    } else {
        run(startup_next(s, events[0]).0, events.drop_first())
    }
}

/// The events that belong to the API task, in order.
pub open spec fn api_events(events: Seq<StartupEvent>) -> Seq<StartupEvent>
    decreases events.len(),
{
    if events.len() == 0 {
        events
    } else if is_api_event(events[0]) {
        seq![events[0]] + api_events(events.drop_first())
    } else {
        api_events(events.drop_first())
    }
}

/// The events that belong to the daemon task, in order.
pub open spec fn daemon_events(events: Seq<StartupEvent>) -> Seq<StartupEvent>
    decreases events.len(),
{
    if events.len() == 0 {
        events
    } else if is_api_event(events[0]) {
        daemon_events(events.drop_first())
    } else {
        seq![events[0]] + daemon_events(events.drop_first())
    }
}

pub open spec fn api_finished(p: ApiPhase) -> bool {
    !(p is Starting)
}

pub open spec fn daemon_finished(p: DaemonPhase) -> bool {
    p is Online || p is InitializeFailed || p is StartFailed
}

/// How many more answers the API task waits for.
pub open spec fn api_remaining(p: ApiPhase) -> nat {
    if p is Starting {
        1
    } else {
        0
    }
}

/// How many more answers the daemon task waits for.
pub open spec fn daemon_remaining(p: DaemonPhase) -> nat {
    match p {
        DaemonPhase::AwaitingWriteLock => 4,
        DaemonPhase::Initializing => 3,
        DaemonPhase::StartingDaemon => 2,
        DaemonPhase::AwaitingReadLock => 1,
        _ => 0,
    }
}

/// The answer to what the daemon task waits for in phase `p`, with outcome
/// `ok` where the request can fail.
pub open spec fn daemon_answer(p: DaemonPhase, ok: bool) -> StartupEvent {
    match p {
        DaemonPhase::Initializing => StartupEvent::InitializeFinished { ok },
        DaemonPhase::StartingDaemon => StartupEvent::DaemonStartFinished { ok },
        DaemonPhase::AwaitingReadLock => StartupEvent::ReadLockGranted,
        _ => StartupEvent::WriteLockGranted,
    }
}

/// Whether the daemon task holds the exclusive lock on the manager.
pub open spec fn holds_exclusive(p: DaemonPhase) -> bool {
    p is Initializing || p is StartingDaemon
}

/// The manager's state in phase `p` of the daemon task.
pub open spec fn manager_state(p: DaemonPhase) -> ManagerState {
    match p {
        DaemonPhase::AwaitingWriteLock => ManagerState::Uninitialized,
        DaemonPhase::Initializing => ManagerState::Initializing,
        DaemonPhase::StartingDaemon => ManagerState::Initialized,
        DaemonPhase::AwaitingReadLock => ManagerState::Running,
        DaemonPhase::Online => ManagerState::Running,
        _ => ManagerState::Failed,
    }
}

/// What a reader of the manager handle sees in phase `p`: nothing while the
/// exclusive lock is held (the read waits), else the manager's state.
pub open spec fn concurrent_read(p: DaemonPhase) -> Option<ManagerState> {
    if holds_exclusive(p) {
        None
    } else {
        Some(manager_state(p))
    }
}

/// The daemon task's part of the record after some events depends only on
/// its part before them.
proof fn lemma_daemon_part_own(s: Startup, t: Startup, events: Seq<StartupEvent>)
    requires
        s.daemon == t.daemon,
    ensures
        run(s, events).daemon == run(t, events).daemon,
    decreases events.len(),
{
    if events.len() > 0 {
        lemma_daemon_part_own(
            startup_next(s, events[0]).0,
            startup_next(t, events[0]).0,
            events.drop_first(),
        );
    }
}

/// The API task's part of the record after some events depends only on its
/// part before them.
proof fn lemma_api_part_own(s: Startup, t: Startup, events: Seq<StartupEvent>)
    requires
        s.api == t.api,
    ensures
        run(s, events).api == run(t, events).api,
    decreases events.len(),
{
    if events.len() > 0 {
        lemma_api_part_own(
            startup_next(s, events[0]).0,
            startup_next(t, events[0]).0,
            events.drop_first(),
        );
    }
}

/// The two startup tasks race without depending on each other: however
/// their answers interleave, each task ends where its own answers alone,
/// in their order, would have taken it. In particular the API becomes
/// reachable (or fails) whether or not the daemon has got anywhere.
pub proof fn lemma_tasks_independent(s: Startup, events: Seq<StartupEvent>)
    ensures
        run(s, events).api == run(s, api_events(events)).api,
        run(s, events).daemon == run(s, daemon_events(events)).daemon,
    decreases events.len(),
{
    if events.len() > 0 {
        let e = events[0];
        let rest = events.drop_first();
        let s1 = startup_next(s, e).0;
        lemma_tasks_independent(s1, rest);
        if is_api_event(e) {
            let own = api_events(events);
            assert(own[0] == e);
            assert(own.drop_first() =~= api_events(rest));
            lemma_daemon_part_own(s1, s, daemon_events(rest));
        } else {
            let own = daemon_events(events);
            assert(own[0] == e);
            assert(own.drop_first() =~= daemon_events(rest));
            lemma_api_part_own(s1, s, api_events(rest));
        }
    }
}

/// Each task reaches an end: a task waits for more answers exactly while it
/// is unfinished, each answer to what it waits for brings it closer to its
/// end whether the request succeeded or failed (at most one answer for the
/// API task, four for the daemon task), and a finished task stays as it is.
pub proof fn lemma_tasks_finish(a: ApiPhase, d: DaemonPhase, e: StartupEvent, ok: bool)
    ensures
        api_remaining(a) == 0 <==> api_finished(a),
        api_remaining(a) <= 1,
        !api_finished(a) ==> api_remaining(
            api_next(a, StartupEvent::ApiFinished { ok }).0,
        ) < api_remaining(a),
        api_finished(a) ==> api_next(a, e).0 == a,
        daemon_remaining(d) == 0 <==> daemon_finished(d),
        daemon_remaining(d) <= 4,
        !daemon_finished(d) ==> daemon_remaining(daemon_next(d, daemon_answer(d, ok)).0)
            < daemon_remaining(d),
        daemon_finished(d) ==> daemon_next(d, e).0 == d,
{
}

/// A reader of the manager handle never sees a half-done initialization:
/// while the daemon task is initializing or starting it holds the exclusive
/// lock and the read waits; otherwise the reader sees the manager not yet
/// initialized, running, or failed.
pub proof fn lemma_reads_see_no_intermediate_state(p: DaemonPhase)
    ensures
        concurrent_read(p) matches Some(m) ==> (m is Uninitialized || m is Running
            || m is Failed),
        (manager_state(p) is Initializing || manager_state(p) is Initialized) ==> concurrent_read(
            p,
        ) is None,
        daemon_finished(p) ==> !holds_exclusive(p),
{
}

impl Startup {
    /// Both tasks begin together: the API task starts the API, the daemon
    /// task asks for the exclusive lock.
    pub fn new() -> (r: Startup)
        ensures
            r == initial_startup(),
    {
        Startup { api: ApiPhase::Starting, daemon: DaemonPhase::AwaitingWriteLock }
    }

    /// Takes in one answer and says what its task does next.
    pub fn apply(&mut self, e: StartupEvent) -> (a: StartupAction)
        ensures
            (*final(self), a) == startup_next(*old(self), e),
    {
        match e {
            StartupEvent::ApiFinished { ok } => {
                if self.api == ApiPhase::Starting {
                    if ok {
                        self.api = ApiPhase::Reachable;
                        StartupAction::Nothing
                    } else {
                        self.api = ApiPhase::Failed;
                        StartupAction::ReportApiFailure
                    }
                } else {
                    StartupAction::Nothing
                }
            },
            StartupEvent::WriteLockGranted => {
                if self.daemon == DaemonPhase::AwaitingWriteLock {
                    self.daemon = DaemonPhase::Initializing;
                    StartupAction::CallInitialize
                } else {
                    StartupAction::Nothing
                }
            },
            StartupEvent::InitializeFinished { ok } => {
                if self.daemon == DaemonPhase::Initializing {
                    if ok {
                        self.daemon = DaemonPhase::StartingDaemon;
                        StartupAction::CallStartDaemon
                    } else {
                        self.daemon = DaemonPhase::InitializeFailed;
                        StartupAction::ReportInitializeFailure
                    }
                } else {
                    StartupAction::Nothing
                }
            },
            StartupEvent::DaemonStartFinished { ok } => {
                if self.daemon == DaemonPhase::StartingDaemon {
                    if ok {
                        self.daemon = DaemonPhase::AwaitingReadLock;
                        StartupAction::ReleaseWriteAcquireRead
                    } else {
                        self.daemon = DaemonPhase::StartFailed;
                        StartupAction::ReportStartFailure
                    }
                } else {
                    StartupAction::Nothing
                }
            },
            StartupEvent::ReadLockGranted => {
                if self.daemon == DaemonPhase::AwaitingReadLock {
                    self.daemon = DaemonPhase::Online;
                    StartupAction::PublishOnline
                } else {
                    StartupAction::Nothing
                }
            },
        }
    }

    /// Whether both tasks have finished, each with success or failure.
    pub fn is_settled(&self) -> (r: bool)
        ensures
            r == (api_finished(self.api) && daemon_finished(self.daemon)),
    {
        self.api != ApiPhase::Starting && (self.daemon == DaemonPhase::Online || self.daemon
            == DaemonPhase::InitializeFailed || self.daemon == DaemonPhase::StartFailed)
    }
}

} // verus!
