use trazo::camera::{init_camera, GameCamera};
use trazo::data::GameOptions;
use trazo::states::{startup_transition, GameState, PlaySet};
use trazo::{App, GamePlugin, Schedule, SystemLabel, SystemReg};

#[test]
fn build_registers_every_module_in_order() {
    let mut app = App::new();
    GamePlugin.build(&mut app, None);
    let expected = vec![
        SystemReg {
            schedule: Schedule::OnEnterStartup,
            system: SystemLabel::InitCamera,
            run_if: None,
        },
        SystemReg {
            schedule: Schedule::PreUpdate,
            system: SystemLabel::HandleLaterCommands,
            run_if: None,
        },
        SystemReg {
            schedule: Schedule::OnEnterStartup,
            system: SystemLabel::StartupTransition,
            run_if: None,
        },
        SystemReg {
            schedule: Schedule::OnEnterMainMenu,
            system: SystemLabel::InitMainMenu,
            run_if: None,
        },
        SystemReg {
            schedule: Schedule::Update,
            system: SystemLabel::OnButtonInteraction,
            run_if: Some(GameState::Menu),
        },
    ];
    assert_eq!(app.systems, expected);
}

#[test]
fn build_inserts_state_and_options() {
    let mut app = App::new();
    assert_eq!(app.state, None);
    assert_eq!(app.options, None);
    GamePlugin.build(&mut app, Some("stored = true"));
    assert_eq!(app.state, Some(GameState::Startup));
    assert!(app.state_scoped);
    assert_eq!(
        app.play_sets,
        vec![PlaySet::Timers, PlaySet::Update, PlaySet::ReadEvents, PlaySet::Animation]
    );
    assert_eq!(app.options, Some(GameOptions::default()));
}

#[test]
fn startup_transitions_to_play() {
    let mut next: Option<GameState> = None;
    startup_transition(&mut next);
    assert_eq!(next, Some(GameState::Play));
}

#[test]
fn default_state_is_startup() {
    assert_eq!(GameState::default(), GameState::Startup);
    assert_eq!(PlaySet::default(), PlaySet::Update);
}

#[test]
fn init_camera_spawns_one_camera() {
    let mut cameras: Vec<GameCamera> = Vec::new();
    init_camera(&mut cameras);
    assert_eq!(cameras.len(), 1);
    init_camera(&mut cameras);
    assert_eq!(cameras.len(), 2);
}
