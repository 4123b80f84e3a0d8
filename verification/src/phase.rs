//! The two state machines that gate the simulation: the overall game state
//! (menu, play, game over) and the simulation phase (inactive, running,
//! paused). Every per-tick gameplay subsystem is skipped wholesale unless the
//! phase is `Running`.

use vstd::prelude::*;

verus! {

#[derive(Clone, Copy, PartialEq, Eq, Structural, Debug)]
pub enum GameState {
    MainMenu,
    Game,
    GameOver,
}

#[derive(Clone, Copy, PartialEq, Eq, Structural, Debug)]
pub enum SimulationState {
    InActive,
    Running,
    Paused,
}

/// Phase entered on entering the play state.
pub fn start_simulation(sim: &mut SimulationState)
    ensures
        *final(sim) == SimulationState::Running,
{
    *sim = SimulationState::Running;
}

/// Phase entered on leaving the play state.
pub fn stop_simulation(sim: &mut SimulationState)
    ensures
        *final(sim) == SimulationState::InActive,
{
    *sim = SimulationState::InActive;
}

/// The next phase after a pause toggle: `Running` and `Paused` swap,
/// `InActive` is unaffected.
pub open spec fn toggled(sim: SimulationState) -> SimulationState {
    match sim {
        SimulationState::Running => SimulationState::Paused,
        SimulationState::Paused => SimulationState::Running,
        SimulationState::InActive => SimulationState::InActive,
    }
}

/// Pauses a running simulation or resumes a paused one; does nothing while
/// the simulation is inactive.
pub fn toggle_simulation(sim: &mut SimulationState)
    ensures
        *final(sim) == toggled(*old(sim)),
{
    match *sim {
        SimulationState::Running => *sim = SimulationState::Paused,
        SimulationState::Paused => *sim = SimulationState::Running,
        SimulationState::InActive => (),
    }
}

/// Pausing then resuming returns the phase to where it stood: the toggle is
/// an involution.
pub proof fn lemma_toggle_involution(sim: SimulationState)
    ensures
        toggled(toggled(sim)) == sim,
{
}

} // verus!
