//! Trazo: the verified core of a drawing game.
//!
//! The game runs inside a host engine that owns windowing, rendering and input
//! dispatch. This crate holds the game's own logic, stated and proved:
//! the freehand curve recorder (accumulating drag samples into strokes and
//! deriving an interpolated sample curve), the deferred-command helper, the
//! game-state registrations, the menu's button rules, and the options
//! persistence policy. The host feeds it plain values (positions, frame
//! deltas, stored text) and draws what it returns.

use vstd::prelude::*;

pub mod camera;
pub mod color;
pub mod data;
pub mod drawing;
pub mod helpers;
pub mod menu;
pub mod prelude;
pub mod states;

use crate::data::GameOptions;
use crate::states::{GameState, PlaySet};

verus! {

/// The points of the frame at which the game registers its systems.
#[derive(Clone, Copy, PartialEq, Eq, Structural, Debug)]
pub enum Schedule {
    /// Runs once when the game enters its startup state.
    OnEnterStartup,
    /// Runs once when the main menu screen is entered.
    OnEnterMainMenu,
    /// Runs every frame, before the main update.
    PreUpdate,
    /// Runs every frame, in the main update.
    Update,
}

/// The game's systems, by name; the host maps each name to the function of
/// this crate that carries it out.
#[derive(Clone, Copy, PartialEq, Eq, Structural, Debug)]
pub enum SystemLabel {
    /// Spawns the main camera.
    InitCamera,
    /// Ticks the deferred commands and runs the ones whose delay elapsed.
    HandleLaterCommands,
    /// Leaves the startup state immediately.
    StartupTransition,
    /// Spawns the main menu.
    InitMainMenu,
    /// Reacts to the menu button.
    OnButtonInteraction,
}

/// One system registration: where a system runs, which system it is, and the
/// game state it is restricted to, if any.
#[derive(Clone, Copy, PartialEq, Eq, Structural, Debug)]
pub struct SystemReg {
    /// The schedule the system runs in.
    pub schedule: Schedule,
    /// The system being registered.
    pub system: SystemLabel,
    /// Run only while the game is in this state, when present.
    pub run_if: Option<GameState>,
}

/// What the game asks of the host at startup: the registered systems in
/// registration order, the initial game state, whether state-scoped entities
/// are cleaned up, the ordered gameplay system groups, and the loaded
/// options.
#[derive(Debug)]
pub struct App {
    /// Registered systems, in registration order.
    pub systems: Vec<SystemReg>,
    /// The state the game starts in, once a state was inserted.
    pub state: Option<GameState>,
    /// Whether entities scoped to a state are despawned when it ends.
    pub state_scoped: bool,
    /// The gameplay system groups, in the order they run within a frame.
    pub play_sets: Vec<PlaySet>,
    /// The game options, once loaded.
    pub options: Option<GameOptions>,
}

impl App {
    /// An app with nothing registered yet.
    pub fn new() -> (app: App)
        ensures
            app.systems@ == Seq::<SystemReg>::empty(),
            app.state is None,
            !app.state_scoped,
            app.play_sets@ == Seq::<PlaySet>::empty(),
            app.options is None,
    {
        App {
            systems: Vec::new(),
            state: Option::None,
            state_scoped: false,
            play_sets: Vec::new(),
            options: Option::None,
        }
    }
}

/// Everything of the app except its system registrations is unchanged.
pub open spec fn same_but_systems(before: App, after: App) -> bool {
    &&& after.state == before.state
    &&& after.state_scoped == before.state_scoped
    &&& after.play_sets@ == before.play_sets@
    &&& after.options == before.options
}

/// The order of the gameplay system groups within one frame.
pub open spec fn play_set_chain() -> Seq<PlaySet> {
    seq![PlaySet::Timers, PlaySet::Update, PlaySet::ReadEvents, PlaySet::Animation]
}

/// The base plugin for the game: it applies every submodule's plugin in
/// turn, so that one call sets the whole game up.
#[derive(Clone, Copy, Debug)]
pub struct GamePlugin;

impl GamePlugin {
    /// Sets the game up: registers the camera, deferred-command, state and
    /// menu systems in that order, inserts the startup state with the
    /// gameplay groups, and loads the options from the stored text the host
    /// read, if any.
    pub fn build(&self, app: &mut App, stored_options: Option<&str>)
        ensures
            final(app).systems@ == old(app).systems@ + seq![
                camera::camera_registration(),
                helpers::helpers_registration(),
                states::states_registration(),
                menu::menu_init_registration(),
                menu::menu_interaction_registration(),
            ],
            final(app).state == Some(GameState::Startup),
            final(app).state_scoped,
            final(app).play_sets@ == play_set_chain(),
            final(app).options == Some(GameOptions {  }),
    {
        let ghost s0 = app.systems@;
        camera::plugin(app);
        data::plugin(app, stored_options);
        helpers::plugin(app);
        states::plugin(app);
        menu::plugin(app);
        proof {
            assert(app.systems@ =~= s0 + seq![
                camera::camera_registration(),
                helpers::helpers_registration(),
                states::states_registration(),
                menu::menu_init_registration(),
                menu::menu_interaction_registration(),
            ]);
        }
    }
}

} // verus!
