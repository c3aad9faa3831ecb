//! Game states: a finite state machine that tells apart the scenarios the
//! game can be in, and the grouping of the gameplay systems that run while
//! playing.

use vstd::prelude::*;

use crate::{play_set_chain, App, Schedule, SystemLabel, SystemReg};

verus! {

/// Indicates at which point the game is. The host runs a system only while
/// the game is in the state it was registered for, and state transitions
/// drive setup and cleanup.
#[derive(Clone, Copy, PartialEq, Eq, Structural, Debug, Hash, Default)]
pub enum GameState {
    /// The game starts here; it transitions away before anything else runs.
    #[default]
    Startup,
    /// The main menu is being shown.
    Menu,
    /// The actual gameplay.
    Play,
}

/// Main grouping of the systems that run while playing, in the order the
/// groups must run within one frame.
#[derive(Clone, Copy, PartialEq, Eq, Structural, Debug, Hash, Default)]
pub enum PlaySet {
    /// Tick timers and other time-based systems.
    Timers,
    /// General gameplay systems.
    #[default]
    Update,
    /// Systems that read events the general systems sent.
    ReadEvents,
    /// Animations and whatever else happens after everything is calculated.
    Animation,
}

/// The state module's registration: on entering startup, immediately
/// transition onwards.
pub open spec fn states_registration() -> SystemReg {
    SystemReg {
        schedule: Schedule::OnEnterStartup,
        system: SystemLabel::StartupTransition,
        run_if: Option::None,
    }
}

/// Inserts the game state machine: the game starts in
/// [`GameState::Startup`], state-scoped entities are cleaned up when their
/// state ends, the gameplay groups run in their fixed order while playing,
/// and the startup transition is registered.
pub fn plugin(app: &mut App)
    ensures
        final(app).state == Some(GameState::Startup),
        final(app).state_scoped,
        final(app).play_sets@ == play_set_chain(),
        final(app).systems@ == old(app).systems@.push(states_registration()),
        final(app).options == old(app).options,
{
    app.state = Option::Some(GameState::Startup);
    app.state_scoped = true;
    let mut sets: Vec<PlaySet> = Vec::new();
    sets.push(PlaySet::Timers);
    sets.push(PlaySet::Update);
    sets.push(PlaySet::ReadEvents);
    sets.push(PlaySet::Animation);
    proof {
        assert(sets@ =~= play_set_chain());
    }
    app.play_sets = sets;
    app.systems.push(
        SystemReg {
            schedule: Schedule::OnEnterStartup,
            system: SystemLabel::StartupTransition,
            run_if: Option::None,
        },
    );
}

/// The startup system: the game leaves [`GameState::Startup`] immediately by
/// requesting the transition to [`GameState::Play`].
pub fn startup_transition(next_state: &mut Option<GameState>)
    ensures
        *final(next_state) == Some(GameState::Play),
{
    *next_state = Option::Some(GameState::Play);
}

} // verus!
