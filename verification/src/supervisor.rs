//! The device-change supervisor: when a session that follows the platform's
//! default device finds that its device is no longer the default, the
//! session is paused, torn down and built afresh.
//!
//! The supervisor decides; its caller acts. Each decision is a function of
//! the supervisor's state and of what the caller reports. The device is
//! checked before the session is left to run, and again after every
//! interval; the data flows on its own while the supervisor sleeps.

use vstd::prelude::*;

verus! {

/// How long a supervisor sleeps between two polls, in milliseconds.
pub const POLL_INTERVAL_MS: u64 = 100;

/// Where a session stands.
#[derive(Clone, Copy, Debug, PartialEq, Eq, Structural)]
pub enum SessionState {
    /// The session's resources are being built.
    Initializing,
    /// The stream plays and data flows.
    Running,
    /// The stream is paused and the session's resources are being released.
    Draining,
    /// A setup error ended the session for good.
    Terminated,
}

/// What the supervisor's caller reports.
#[derive(Clone, Copy, Debug, PartialEq, Eq, Structural)]
pub enum SessionEvent {
    /// The resources are built and the stream plays.
    Started,
    /// Building the resources failed.
    SetupFailed,
    /// One poll of the platform: whether the bound device is its default.
    Polled { bound_is_default: bool },
    /// The stream is paused and the resources are released.
    Released,
}

/// What the supervisor's caller is to do next.
#[derive(Clone, Copy, Debug, PartialEq, Eq, Structural)]
pub enum SessionAction {
    /// Build the device binding, the buffer, the socket and the stream, all
    /// afresh, and start the stream; then report `Started` or `SetupFailed`.
    Build,
    /// Poll the platform now and report `Polled`.
    Poll,
    /// Sleep for the given time, then poll the platform and report `Polled`.
    Sleep { millis: u64 },
    /// Pause the stream and drop it with the buffer and the socket; then
    /// report `Released`.
    Release,
    /// Report the setup error and stop.
    Abort,
    /// The report does not fit the state: do nothing.
    Ignore,
}

/// A session's supervisor.
#[derive(Clone, Copy, Debug, PartialEq, Eq, Structural)]
pub struct Supervisor {
    pub state: SessionState,
    /// How many times the session was restarted; it stops counting at the
    /// largest 64-bit value.
    pub restarts: u64,
}

/// Whether a session is to go on running: it stops only where it follows the
/// default device and its bound device is no longer the default.
pub open spec fn keeps_running(follows_default: bool, bound_is_default: bool) -> bool {
    !(follows_default && !bound_is_default)
}

/// `restarts` with one more restart counted.
pub open spec fn one_more(restarts: u64) -> u64 {
    if restarts < u64::MAX {
        (restarts + 1) as u64
    } else {
        restarts
    }
}

/// The supervisor's decision: its next value and what its caller is to do.
///
/// A started session is polled at once. Each poll that finds the session
/// fit to run is followed by one interval of sleep and the next poll; a poll
/// that does not is followed by the release, and the release by a rebuild.
pub open spec fn decide(follows_default: bool, supervisor: Supervisor, event: SessionEvent) -> (
    Supervisor,
    SessionAction,
) {
    match (supervisor.state, event) {
        (SessionState::Initializing, SessionEvent::Started) => (
            Supervisor { state: SessionState::Running, ..supervisor },
            SessionAction::Poll,
        ),
        (SessionState::Initializing, SessionEvent::SetupFailed) => (
            Supervisor { state: SessionState::Terminated, ..supervisor },
            SessionAction::Abort,
        ),
        (SessionState::Running, SessionEvent::Polled { bound_is_default }) => if keeps_running(
            follows_default,
            bound_is_default,
        ) {
            (supervisor, SessionAction::Sleep { millis: POLL_INTERVAL_MS })
        } else {
            (Supervisor { state: SessionState::Draining, ..supervisor }, SessionAction::Release)
        },
        (SessionState::Draining, SessionEvent::Released) => (
            Supervisor { state: SessionState::Initializing, restarts: one_more(supervisor.restarts) },
            SessionAction::Build,
        ),
        _ => (supervisor, SessionAction::Ignore),
    }
}

impl Supervisor {
    /// The supervisor of a session that is yet to be built: its caller
    /// starts with `SessionAction::Build`.
    pub fn new() -> (supervisor: Supervisor)
        ensures
            supervisor == (Supervisor { state: SessionState::Initializing, restarts: 0 }),
    {
        Supervisor { state: SessionState::Initializing, restarts: 0 }
    }

    /// Whether a session is to go on running.
    pub fn should_run(follows_default: bool, bound_is_default: bool) -> (run: bool)
        ensures
            run == keeps_running(follows_default, bound_is_default),
    {
        !(follows_default && !bound_is_default)
    }

    /// Takes one report and decides what to do next.
    pub fn step(&mut self, follows_default: bool, event: SessionEvent) -> (action: SessionAction)
        ensures
            (*final(self), action) == decide(follows_default, *old(self), event),
    {
        match (self.state, event) {
            (SessionState::Initializing, SessionEvent::Started) => {
                self.state = SessionState::Running;
                SessionAction::Poll
            },
            (SessionState::Initializing, SessionEvent::SetupFailed) => {
                self.state = SessionState::Terminated;
                SessionAction::Abort
            },
            (SessionState::Running, SessionEvent::Polled { bound_is_default }) => {
                if Supervisor::should_run(follows_default, bound_is_default) {
                    SessionAction::Sleep { millis: POLL_INTERVAL_MS }
                } else {
                    self.state = SessionState::Draining;
                    SessionAction::Release
                }
            },
            (SessionState::Draining, SessionEvent::Released) => {
                self.state = SessionState::Initializing;
                if self.restarts < u64::MAX {
                    self.restarts = self.restarts + 1;
                }
                SessionAction::Build
            },
            _ => SessionAction::Ignore,
        }
    }
}

/// The supervisor after a run of reports, one decision after the other.
pub open spec fn after(follows_default: bool, supervisor: Supervisor, events: Seq<SessionEvent>)
    -> Supervisor
    decreases events.len(),
{
    if events.len() == 0 {
        supervisor
    } else {
        decide(
            follows_default,
            after(follows_default, supervisor, events.drop_last()),
            events.last(),
        ).0
    }
}

/// How many of the decisions on a run of reports are `action`.
pub open spec fn count_of(
    action: SessionAction,
    follows_default: bool,
    supervisor: Supervisor,
    events: Seq<SessionEvent>,
) -> nat
    decreases events.len(),
{
    if events.len() == 0 {
        0
    } else {
        let before = events.drop_last();
        let decided = decide(
            follows_default,
            after(follows_default, supervisor, before),
            events.last(),
        ).1;
        count_of(action, follows_default, supervisor, before) + if decided == action {
            1nat
        } else {
            0nat
        }
    }
}

/// `n` polls that all find the bound device to be the default.
pub open spec fn good_polls(n: nat) -> Seq<SessionEvent> {
    Seq::new(n, |i: int| SessionEvent::Polled { bound_is_default: true })
}

/// A session is checked before it is left to run. The report of the start
/// asks for a poll and nothing else. Where the first `n` polls find the
/// session fit to run and the next one does not, the supervisor asks for
/// exactly `n` sleeps, one after each good poll, and then for the release:
/// with `n` zero it asks for no sleep at all.
pub proof fn lemma_polled_before_it_runs(supervisor: Supervisor, n: nat)
    requires
        supervisor.state == SessionState::Initializing,
    ensures
        ({
            let sleep = SessionAction::Sleep { millis: POLL_INTERVAL_MS };
            let events = (seq![SessionEvent::Started] + good_polls(n)).push(
                SessionEvent::Polled { bound_is_default: false },
            );
            &&& decide(true, supervisor, SessionEvent::Started).1 == SessionAction::Poll
            &&& count_of(SessionAction::Poll, true, supervisor, events) == 1
            &&& count_of(sleep, true, supervisor, events) == n
            &&& count_of(SessionAction::Release, true, supervisor, events) == 1
            &&& after(true, supervisor, events).state == SessionState::Draining
        }),
{
    let running = seq![SessionEvent::Started] + good_polls(n);
    lemma_good_polls(supervisor, n);
    let events = running.push(SessionEvent::Polled { bound_is_default: false });
    assert(events.drop_last() =~= running);
    assert(events.last() == SessionEvent::Polled { bound_is_default: false });
}

/// After the start and `n` good polls the session runs, and the supervisor
/// has asked for one poll, `n` sleeps and no release.
proof fn lemma_good_polls(supervisor: Supervisor, n: nat)
    requires
        supervisor.state == SessionState::Initializing,
    ensures
        ({
            let sleep = SessionAction::Sleep { millis: POLL_INTERVAL_MS };
            let events = seq![SessionEvent::Started] + good_polls(n);
            &&& after(true, supervisor, events) == (Supervisor {
                state: SessionState::Running,
                ..supervisor
            })
            &&& count_of(SessionAction::Poll, true, supervisor, events) == 1
            &&& count_of(sleep, true, supervisor, events) == n
            &&& count_of(SessionAction::Release, true, supervisor, events) == 0
        }),
    decreases n,
{
    let events = seq![SessionEvent::Started] + good_polls(n);
    if n == 0 {
        assert(events =~= seq![SessionEvent::Started]);
        assert(events.drop_last() =~= Seq::<SessionEvent>::empty());
        reveal_with_fuel(after, 3);
        reveal_with_fuel(count_of, 3);
    } else {
        let m = (n - 1) as nat;
        lemma_good_polls(supervisor, m);
        assert(events.drop_last() =~= seq![SessionEvent::Started] + good_polls(m));
        assert(events.last() == SessionEvent::Polled { bound_is_default: true });
    }
}

/// A running session that follows the default device answers a change of
/// the default device with exactly one release and exactly one rebuild:
/// the poll that sees the change asks for the release and for nothing else,
/// the report of the release asks for the rebuild, and the report of the
/// start finds the session running again, restarted once. While the release
/// is under way no poll asks for a second one.
pub proof fn lemma_device_change_restarts_once(
    supervisor: Supervisor,
    polls_meanwhile: Seq<SessionEvent>,
)
    requires
        supervisor.state == SessionState::Running,
        forall|i: int|
            0 <= i < polls_meanwhile.len() ==> #[trigger] polls_meanwhile[i] is Polled,
    ensures
        ({
            let change = SessionEvent::Polled { bound_is_default: false };
            let events = (seq![change] + polls_meanwhile).push(SessionEvent::Released).push(
                SessionEvent::Started,
            );
            let end = after(true, supervisor, events);
            &&& decide(true, supervisor, change).1 == SessionAction::Release
            &&& count_of(SessionAction::Release, true, supervisor, events) == 1
            &&& count_of(SessionAction::Build, true, supervisor, events) == 1
            &&& end.state == SessionState::Running
            &&& end.restarts == one_more(supervisor.restarts)
        }),
{
    let change = SessionEvent::Polled { bound_is_default: false };
    let draining = seq![change] + polls_meanwhile;
    lemma_polls_while_draining(supervisor, polls_meanwhile);
    let released = draining.push(SessionEvent::Released);
    assert(released.drop_last() =~= draining);
    assert(released.last() == SessionEvent::Released);
    let rebuilt = Supervisor {
        state: SessionState::Initializing,
        restarts: one_more(supervisor.restarts),
    };
    assert(after(true, supervisor, released) == rebuilt);
    assert(count_of(SessionAction::Release, true, supervisor, released) == 1);
    assert(count_of(SessionAction::Build, true, supervisor, released) == 1);
    let events = released.push(SessionEvent::Started);
    assert(events.drop_last() =~= released);
    assert(events.last() == SessionEvent::Started);
    assert(after(true, supervisor, events).state == SessionState::Running);
    assert(count_of(SessionAction::Release, true, supervisor, events) == 1);
    assert(count_of(SessionAction::Build, true, supervisor, events) == 1);
}

/// After the poll that sees the change, further polls leave the session
/// draining and ask for nothing.
proof fn lemma_polls_while_draining(supervisor: Supervisor, polls: Seq<SessionEvent>)
    requires
        supervisor.state == SessionState::Running,
        forall|i: int| 0 <= i < polls.len() ==> #[trigger] polls[i] is Polled,
    ensures
        ({
            let events = seq![SessionEvent::Polled { bound_is_default: false }] + polls;
            &&& after(true, supervisor, events) == (Supervisor {
                state: SessionState::Draining,
                ..supervisor
            })
            &&& count_of(SessionAction::Release, true, supervisor, events) == 1
            &&& count_of(SessionAction::Build, true, supervisor, events) == 0
        }),
    decreases polls.len(),
{
    let change = SessionEvent::Polled { bound_is_default: false };
    let events = seq![change] + polls;
    if polls.len() == 0 {
        assert(events =~= seq![change]);
        assert(events.drop_last() =~= Seq::<SessionEvent>::empty());
        reveal_with_fuel(after, 3);
        reveal_with_fuel(count_of, 3);
    } else {
        lemma_polls_while_draining(supervisor, polls.drop_last());
        assert(events.drop_last() =~= seq![change] + polls.drop_last());
        assert(events.last() == polls.last());
    }
}

} // verus!
