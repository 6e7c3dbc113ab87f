//! The actor lifecycle as a state machine driven by the context's ticks.
use vstd::prelude::*;

verus! {

/// The observable phase of an actor.
#[derive(PartialEq, Eq, Structural, Clone, Copy, Debug)]
pub enum ActorState {
    Starting,
    Running,
    Stopping,
    Stopped,
}

/// The user callback that a transition asks the context to run.
#[derive(PartialEq, Eq, Structural, Clone, Copy, Debug)]
pub enum Hook {
    Nothing,
    Started,
    Stopping,
    Stopped,
}

/// One step of the lifecycle: from the current phase, whether both mailboxes
/// are closed, and how many actor-aware futures are in flight, to the next
/// phase and the callback to run on entering it.
pub open spec fn step(state: ActorState, closed: bool, in_flight: nat) -> (ActorState, Hook) {
    match state {
        ActorState::Starting => (ActorState::Running, Hook::Started),
        ActorState::Running => if closed && in_flight == 0 {
            (ActorState::Stopping, Hook::Stopping)
        } else {
            (ActorState::Running, Hook::Nothing)
        },
        ActorState::Stopping => if in_flight == 0 {
            (ActorState::Stopped, Hook::Stopped)
        } else {
            (ActorState::Running, Hook::Nothing)
        },
        ActorState::Stopped => (ActorState::Stopped, Hook::Nothing),
    }
}

/// Computes the next phase of the lifecycle and the callback to run.
pub fn transition(state: ActorState, closed: bool, in_flight: usize) -> (r: (ActorState, Hook))
    ensures
        r == step(state, closed, in_flight as nat),
{
    match state {
        ActorState::Starting => (ActorState::Running, Hook::Started),
        ActorState::Running => {
            if closed && in_flight == 0 {
                (ActorState::Stopping, Hook::Stopping)
            } else {
                (ActorState::Running, Hook::Nothing)
            }
        },
        ActorState::Stopping => {
            if in_flight == 0 {
                (ActorState::Stopped, Hook::Stopped)
            } else {
                (ActorState::Running, Hook::Nothing)
            }
        },
        ActorState::Stopped => (ActorState::Stopped, Hook::Nothing),
    }
}

/// The phase reached after `k` ticks in which the mailboxes' closure and the
/// number of in-flight futures stay as given.
pub open spec fn run(state: ActorState, closed: bool, in_flight: nat, k: nat) -> ActorState
    decreases k,
{
    if k == 0 {
        state
    } else {
        run(step(state, closed, in_flight).0, closed, in_flight, (k - 1) as nat)
    }
}

/// While at least one address keeps a mailbox open, an actor that has not
/// begun to stop never enters `Stopping`, however many ticks pass.
pub proof fn lemma_open_mailbox_keeps_running(state: ActorState, in_flight: nat, k: nat)
    requires
        state == ActorState::Starting || state == ActorState::Running,
    ensures
        run(state, false, in_flight, k) == ActorState::Starting || run(state, false, in_flight, k)
            == ActorState::Running,
        run(state, false, in_flight, k) != ActorState::Stopping,
    decreases k,
{
    if k > 0 {
        lemma_open_mailbox_keeps_running(step(state, false, in_flight).0, in_flight, (k - 1) as nat);
    }
}

/// An actor with work in flight never reaches `Stopped`: a stopping actor
/// whose `stopping` callback spawned a future returns to `Running` instead,
/// and stays short of `Stopped` for as long as that future is pending.
pub proof fn lemma_in_flight_defers_stop(state: ActorState, closed: bool, in_flight: nat, k: nat)
    requires
        state != ActorState::Stopped,
        in_flight > 0,
    ensures
        run(state, closed, in_flight, k) != ActorState::Stopped,
        state == ActorState::Stopping ==> step(state, closed, in_flight).0 == ActorState::Running,
    decreases k,
{
    if k > 0 {
        lemma_in_flight_defers_stop(step(state, closed, in_flight).0, closed, in_flight, (k - 1) as nat);
    }
}

/// Once every mailbox is closed and no future is in flight, a running actor
/// passes through `Stopping` to `Stopped` in two ticks, and stays there.
pub proof fn lemma_idle_actor_stops(k: nat)
    requires
        k >= 2,
    ensures
        step(ActorState::Running, true, 0).0 == ActorState::Stopping,
        run(ActorState::Running, true, 0, k) == ActorState::Stopped,
{
    lemma_stopped_is_terminal(true, 0, (k - 2) as nat);
    assert(run(ActorState::Stopping, true, 0, (k - 1) as nat) == run(ActorState::Stopped, true, 0, (k - 2) as nat));
}

proof fn lemma_stopped_is_terminal(closed: bool, in_flight: nat, k: nat)
    ensures
        run(ActorState::Stopped, closed, in_flight, k) == ActorState::Stopped,
    decreases k,
{
    if k > 0 {
        lemma_stopped_is_terminal(closed, in_flight, (k - 1) as nat);
    }
}

} // verus!
