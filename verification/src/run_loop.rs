//! The life of a connection's polling worker.
//!
//! The worker runs for as long as somebody holds the connection and stops
//! for good the first time it finds that nobody does. It looks before every
//! poll, and a poll waits no longer than [`POLL_TIMEOUT_MILLIS`], so that it
//! looks again soon.

use vstd::prelude::*;

verus! {

/// The longest that one poll of the engine waits, in milliseconds.
pub const POLL_TIMEOUT_MILLIS: u64 = 1000;

/// Whether the worker still polls.
#[derive(Debug, Clone, Copy, PartialEq, Eq, Structural)]
pub enum LoopState {
    Running,
    Terminated,
}

/// The worker's state after it has looked whether its connection is still held.
pub open spec fn after_look(state: LoopState, held: bool) -> LoopState {
    if state == LoopState::Running && held {
        LoopState::Running
    } else {
        LoopState::Terminated
    }
}

/// The worker's state after it has looked once for every entry of `looks`.
pub open spec fn after_looks(state: LoopState, looks: Seq<bool>) -> LoopState
    decreases looks.len(),
{
    if looks.len() == 0 {
        state
    } else {
        after_look(after_looks(state, looks.drop_last()), looks.last())
    }
}

impl LoopState {
    /// The state after the worker has looked whether its connection is
    /// still held: it keeps running only if it was running and the
    /// connection is held.
    pub fn look(self, held: bool) -> (next: LoopState)
        ensures
            next == after_look(self, held),
    {
        match self {
            LoopState::Running => if held {
                LoopState::Running
            } else {
                LoopState::Terminated
            },
            LoopState::Terminated => LoopState::Terminated,
        }
    }

    /// Whether the worker polls the engine in this state.
    pub fn polls(self) -> (polls: bool)
        ensures
            polls == (self == LoopState::Running),
    {
        match self {
            LoopState::Running => true,
            LoopState::Terminated => false,
        }
    }
}

/// A worker that started out running is still running after any number of
/// looks exactly if it found its connection held at every one of them. It
/// never stops while the connection is held, and never starts again.
pub proof fn lemma_runs_while_held(looks: Seq<bool>)
    ensures
        after_looks(LoopState::Running, looks) == LoopState::Running <==> forall|i: int|
            0 <= i < looks.len() ==> #[trigger] looks[i],
    decreases looks.len(),
{
    if looks.len() > 0 {
        let earlier = looks.drop_last();
        lemma_runs_while_held(earlier);
        if after_looks(LoopState::Running, looks) == LoopState::Running {
            assert forall|i: int| 0 <= i < looks.len() implies #[trigger] looks[i] by {
                if i < looks.len() - 1 {
                    assert(earlier[i] == looks[i]);
                }
            }
        }
        if forall|i: int| 0 <= i < looks.len() ==> #[trigger] looks[i] {
            assert forall|i: int| 0 <= i < earlier.len() implies #[trigger] earlier[i] by {}
        }
    }
}

/// A worker that has stopped stays stopped, whatever it would find.
pub proof fn lemma_terminated_is_final(looks: Seq<bool>)
    ensures
        after_looks(LoopState::Terminated, looks) == LoopState::Terminated,
    decreases looks.len(),
{
    if looks.len() > 0 {
        lemma_terminated_is_final(looks.drop_last());
    }
}

} // verus!
