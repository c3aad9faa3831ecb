//! Useful declarations grouped together for ease of use.

pub use crate::camera::GameCamera;
pub use crate::color::Color;
pub use crate::data::GameOptions;
pub use crate::drawing::{DrawData, Drawing, Point, PointerButton};
pub use crate::helpers::LaterCommand;
pub use crate::menu::{ButtonInteraction, ButtonResponse, MainMenu, MenuState};
pub use crate::states::{GameState, PlaySet};
pub use crate::{App, GamePlugin, Schedule, SystemLabel, SystemReg};
