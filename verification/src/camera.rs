//! Handles the game rendering: the camera the game is drawn through.

use vstd::prelude::*;

use crate::{same_but_systems, App, Schedule, SystemLabel, SystemReg};

verus! {

/// The camera where the game is being rendered.
#[derive(Clone, Copy, PartialEq, Eq, Structural, Debug)]
pub struct GameCamera;

/// The camera module's registration: spawn the main camera on entering the
/// startup state.
pub open spec fn camera_registration() -> SystemReg {
    SystemReg {
        schedule: Schedule::OnEnterStartup,
        system: SystemLabel::InitCamera,
        run_if: Option::None,
    }
}

/// Registers the camera setup system.
pub fn plugin(app: &mut App)
    ensures
        final(app).systems@ == old(app).systems@.push(camera_registration()),
        same_but_systems(*old(app), *final(app)),
{
    app.systems.push(
        SystemReg {
            schedule: Schedule::OnEnterStartup,
            system: SystemLabel::InitCamera,
            run_if: Option::None,
        },
    );
}

/// Spawns the main camera.
pub fn init_camera(cameras: &mut Vec<GameCamera>)
    ensures
        final(cameras)@ == old(cameras)@.push(GameCamera),
{
    cameras.push(GameCamera);
}

} // verus!
