//! Decisions of the host loop that drives a session: what to do on each
//! control signal. The loop itself performs the actions.
use vstd::prelude::*;

verus! {

#[derive(Clone, Copy, Debug, PartialEq, Eq, Structural)]
pub enum EmulationSignal {
    /// Run the engine for another slice.
    Cycle,
    /// End the session.
    Quit,
}

#[derive(Clone, Copy, Debug, PartialEq, Eq, Structural)]
pub enum SessionState {
    Running,
    Stopped,
}

#[derive(Clone, Copy, Debug, PartialEq, Eq, Structural)]
pub enum SessionAction {
    /// Sample the input state and run the engine.
    RunCycle,
    /// Persist battery-backed cartridge RAM.
    DumpSavegame,
    /// Stop the audio and video sinks.
    StopAudio,
    /// Leave the loop.
    Terminate,
}

/// The state after a signal and the actions it asks for, in order.
pub open spec fn session_next(state: SessionState, signal: EmulationSignal) -> (
    SessionState,
    Seq<SessionAction>,
) {
    match state {
        SessionState::Stopped => (SessionState::Stopped, Seq::empty()),
        SessionState::Running => match signal {
            EmulationSignal::Cycle => (SessionState::Running, seq![SessionAction::RunCycle]),
            EmulationSignal::Quit => (
                SessionState::Stopped,
                seq![
                    SessionAction::DumpSavegame,
                    SessionAction::StopAudio,
                    SessionAction::Terminate,
                ],
            ),
        },
    }
}

/// Decides what a signal does to the session.
pub fn on_signal(state: SessionState, signal: EmulationSignal) -> (r: (
    SessionState,
    Vec<SessionAction>,
))
    ensures
        (r.0, r.1@) == session_next(state, signal),
{
    let mut actions: Vec<SessionAction> = Vec::new();
    match state {
        SessionState::Stopped => {
            assert(actions@ =~= Seq::empty());
            (SessionState::Stopped, actions)
        },
        SessionState::Running => match signal {
            EmulationSignal::Cycle => {
                actions.push(SessionAction::RunCycle);
                assert(actions@ =~= seq![SessionAction::RunCycle]);
                (SessionState::Running, actions)
            },
            EmulationSignal::Quit => {
                actions.push(SessionAction::DumpSavegame);
                actions.push(SessionAction::StopAudio);
                actions.push(SessionAction::Terminate);
                assert(actions@ =~= seq![
                    SessionAction::DumpSavegame,
                    SessionAction::StopAudio,
                    SessionAction::Terminate,
                ]);
                (SessionState::Stopped, actions)
            },
        },
    }
}

/// A Quit signal to a running session dumps the savegame before anything
/// stops the audio sink, and ends the session; after that no signal runs the
/// engine again.
pub proof fn lemma_quit_order(signal: EmulationSignal)
    ensures
        ({
            let (state, actions) = session_next(SessionState::Running, EmulationSignal::Quit);
            &&& state == SessionState::Stopped
            &&& exists|i: int|
                0 <= i < actions.len() && actions[i] == SessionAction::DumpSavegame && forall|
                    j: int,
                |
                    0 <= j < actions.len() && #[trigger] actions[j] == SessionAction::StopAudio
                        ==> i < j
            &&& session_next(state, signal).0 == SessionState::Stopped
            &&& !session_next(state, signal).1.contains(SessionAction::RunCycle)
        }),
{
    let actions = session_next(SessionState::Running, EmulationSignal::Quit).1;
    assert(actions[0] == SessionAction::DumpSavegame);
    assert forall|j: int|
        0 <= j < actions.len() && #[trigger] actions[j] == SessionAction::StopAudio
        implies 0 < j by {
    }
}

} // verus!
