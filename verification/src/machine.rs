//! The heartbeat loop as a state machine.
//!
//! The loop itself lives on a concurrent task in the host process: it builds
//! an HTTP client, waits for timer ticks, and issues one GET request per
//! tick. Every decision of that loop — what to do next after each outside
//! outcome — is made here, by [`step`]. The host task performs the returned
//! action, turns what the outside world answered into the next
//! [`HeartbeatEvent`], and calls [`step`] again.
//!
//! Events the protocol cannot deliver in the current phase (such as a timer
//! tick while a ping is still in flight) leave the state unchanged and are
//! skipped, so a slow ping coalesces overlapping ticks rather than queueing
//! catch-up pings.

use vstd::prelude::*;

verus! {

/// The phase the heartbeat loop is in.
#[derive(Clone, Copy, Debug, PartialEq, Eq, Structural)]
pub enum HeartbeatState {
    /// The HTTP client is being constructed.
    Init,
    /// Waiting for the next interval tick.
    Armed,
    /// One ping request is in flight.
    Pinging,
    /// The loop has ended; no further ticks occur.
    Terminated,
}

/// What the outside world reported to the loop.
#[derive(Clone, Copy, Debug, PartialEq, Eq, Structural)]
pub enum HeartbeatEvent {
    /// The HTTP client was constructed.
    ClientReady,
    /// The HTTP client could not be constructed.
    ClientFailed,
    /// One scheduled interval elapsed.
    Tick,
    /// The ping got an HTTP response with this status code.
    PingStatus(u16),
    /// The ping failed at the transport level (timeout, connection error).
    PingFailed,
}

/// What the loop task is to do next.
#[derive(Clone, Copy, Debug, PartialEq, Eq, Structural)]
pub enum HeartbeatAction {
    /// Start the periodic timer, discard its immediate first tick, and wait.
    ArmTimer,
    /// Issue one GET request to the configured URL.
    SendPing,
    /// Wait for the next interval tick.
    WaitTick,
    /// Ignore the event; keep doing what the current phase was doing.
    Skip,
    /// End the loop task.
    Stop,
}

/// The transition function of the heartbeat loop.
pub open spec fn step_spec(s: HeartbeatState, e: HeartbeatEvent) -> (HeartbeatState,
    HeartbeatAction) {
    match (s, e) {
        (HeartbeatState::Init, HeartbeatEvent::ClientReady) => (
            HeartbeatState::Armed,
            HeartbeatAction::ArmTimer,
        ),
        (HeartbeatState::Init, HeartbeatEvent::ClientFailed) => (
            HeartbeatState::Terminated,
            HeartbeatAction::Stop,
        ),
        (HeartbeatState::Armed, HeartbeatEvent::Tick) => (
            HeartbeatState::Pinging,
            HeartbeatAction::SendPing,
        ),
        (HeartbeatState::Pinging, HeartbeatEvent::PingStatus(_)) => (
            HeartbeatState::Armed,
            HeartbeatAction::WaitTick,
        ),
        (HeartbeatState::Pinging, HeartbeatEvent::PingFailed) => (
            HeartbeatState::Armed,
            HeartbeatAction::WaitTick,
        ),
        (HeartbeatState::Terminated, _) => (HeartbeatState::Terminated, HeartbeatAction::Stop),
        (_, _) => (s, HeartbeatAction::Skip),
    }
}

/// Advance the heartbeat loop by one event.
pub fn step(s: HeartbeatState, e: HeartbeatEvent) -> (r: (HeartbeatState, HeartbeatAction))
    ensures
        r == step_spec(s, e),
{
    match (s, e) {
        (HeartbeatState::Init, HeartbeatEvent::ClientReady) => (
            HeartbeatState::Armed,
            HeartbeatAction::ArmTimer,
        ),
        (HeartbeatState::Init, HeartbeatEvent::ClientFailed) => (
            HeartbeatState::Terminated,
            HeartbeatAction::Stop,
        ),
        (HeartbeatState::Armed, HeartbeatEvent::Tick) => (
            HeartbeatState::Pinging,
            HeartbeatAction::SendPing,
        ),
        (HeartbeatState::Pinging, HeartbeatEvent::PingStatus(_)) => (
            HeartbeatState::Armed,
            HeartbeatAction::WaitTick,
        ),
        (HeartbeatState::Pinging, HeartbeatEvent::PingFailed) => (
            HeartbeatState::Armed,
            HeartbeatAction::WaitTick,
        ),
        (HeartbeatState::Terminated, _) => (HeartbeatState::Terminated, HeartbeatAction::Stop),
        (_, _) => (s, HeartbeatAction::Skip),
    }
}

/// The state the loop is in after feeding it a sequence of events, first
/// event first.
pub open spec fn run_state(s: HeartbeatState, events: Seq<HeartbeatEvent>) -> HeartbeatState
    decreases events.len(),
{
    if events.len() == 0 {
        s
    } else {
        run_state(step_spec(s, events[0]).0, events.drop_first())
    }
}

/// The actions a run takes, one per event.
pub open spec fn run_actions(s: HeartbeatState, events: Seq<HeartbeatEvent>) -> Seq<
    HeartbeatAction,
>
    decreases events.len(),
{
    if events.len() == 0 {
        Seq::empty()
    } else {
        seq![step_spec(s, events[0]).1] + run_actions(step_spec(s, events[0]).0, events.drop_first())
    }
}

/// How many interval ticks a sequence of events holds.
pub open spec fn count_ticks(events: Seq<HeartbeatEvent>) -> int
    decreases events.len(),
{
    if events.len() == 0 {
        0
    } else {
        (if events[0] is Tick {
            1int
        } else {
            0int
        }) + count_ticks(events.drop_first())
    }
}

/// How many ping requests a sequence of actions issues.
pub open spec fn count_pings(acts: Seq<HeartbeatAction>) -> int
    decreases acts.len(),
{
    if acts.len() == 0 {
        0
    } else {
        (if acts[0] is SendPing {
            1int
        } else {
            0int
        }) + count_pings(acts.drop_first())
    }
}

/// A run takes exactly one action per event.
pub proof fn lemma_run_actions_len(s: HeartbeatState, events: Seq<HeartbeatEvent>)
    ensures
        run_actions(s, events).len() == events.len(),
    decreases events.len(),
{
    if events.len() > 0 {
        lemma_run_actions_len(step_spec(s, events[0]).0, events.drop_first());
    }
}

/// Law: from any state, a run issues at most one ping request per elapsed
/// interval tick, however its pings turn out.
pub proof fn lemma_at_most_one_ping_per_tick(s: HeartbeatState, events: Seq<HeartbeatEvent>)
    ensures
        count_pings(run_actions(s, events)) <= count_ticks(events),
    decreases events.len(),
{
    if events.len() > 0 {
        let s1 = step_spec(s, events[0]).0;
        let a0 = step_spec(s, events[0]).1;
        let acts = run_actions(s, events);
        assert(acts[0] == a0);
        assert(acts.drop_first() =~= run_actions(s1, events.drop_first()));
        lemma_at_most_one_ping_per_tick(s1, events.drop_first());
        assert(a0 is SendPing ==> events[0] is Tick);
    }
}

/// Law: pings are strictly sequential: the action taken right after a ping
/// request is never another ping request, so no two requests are ever in
/// flight at once.
pub proof fn lemma_pings_never_overlap(s: HeartbeatState, events: Seq<HeartbeatEvent>, i: int)
    requires
        0 <= i,
        i + 1 < events.len(),
        run_actions(s, events)[i] == HeartbeatAction::SendPing,
    ensures
        run_actions(s, events)[i + 1] != HeartbeatAction::SendPing,
    decreases events.len(),
{
    lemma_run_actions_len(s, events);
    let s1 = step_spec(s, events[0]).0;
    let acts = run_actions(s, events);
    let tail = run_actions(s1, events.drop_first());
    lemma_run_actions_len(s1, events.drop_first());
    assert(acts.drop_first() =~= tail);
    if i == 0 {
        assert(s1 == HeartbeatState::Pinging);
        assert(acts[1] == tail[0]);
        assert(tail[0] == step_spec(s1, events.drop_first()[0]).1);
    } else {
        assert(acts[i] == tail[i - 1]);
        assert(acts[i + 1] == tail[i]);
        lemma_pings_never_overlap(s1, events.drop_first(), i - 1);
    }
}

/// A loop that has started: it is waiting for a tick or has a ping in
/// flight.
pub open spec fn running(s: HeartbeatState) -> bool {
    s == HeartbeatState::Armed || s == HeartbeatState::Pinging
}

/// Law: once the loop is running, no event ends it: every run from a running
/// state, ping failures included, ends in a running state, never in
/// `Terminated`.
pub proof fn lemma_running_forever(s: HeartbeatState, events: Seq<HeartbeatEvent>)
    requires
        running(s),
    ensures
        running(run_state(s, events)),
    decreases events.len(),
{
    if events.len() > 0 {
        lemma_running_forever(step_spec(s, events[0]).0, events.drop_first());
    }
}

/// Law: a failed ping — a non-success status or a transport failure — sends
/// the loop back to waiting for the next tick, and the next tick issues the
/// next ping: failures never stop the schedule.
pub proof fn lemma_failure_keeps_pinging(e: HeartbeatEvent)
    requires
        e is PingStatus || e is PingFailed,
    ensures
        step_spec(HeartbeatState::Pinging, e).0 == HeartbeatState::Armed,
        step_spec(HeartbeatState::Pinging, e).1 == HeartbeatAction::WaitTick,
        step_spec(HeartbeatState::Armed, HeartbeatEvent::Tick).0 == HeartbeatState::Pinging,
        step_spec(HeartbeatState::Armed, HeartbeatEvent::Tick).1 == HeartbeatAction::SendPing,
{
}

/// An HTTP status code in the success class.
pub open spec fn is_success_status(code: u16) -> bool {
    200 <= code && code < 300
}

/// Whether an HTTP status code counts as a successful ping (2xx). Any other
/// status is recorded as a warning, and the loop continues either way.
pub fn status_is_success(code: u16) -> (r: bool)
    ensures
        r == is_success_status(code),
{
    200 <= code && code < 300
}

} // verus!
