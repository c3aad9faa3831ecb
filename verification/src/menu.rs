//! The game menu: what the main menu shows and how its button reacts.
//!
//! The host lays the widgets out and reports interaction changes; the
//! library fixes the menu's content and decides, per interaction, the
//! button's colors and whether the game leaves the menu.

use vstd::prelude::*;

use crate::color::{black, royal_blue, white, Color};
use crate::states::GameState;
use crate::{same_but_systems, App, Schedule, SystemLabel, SystemReg};

verus! {

/// The menu module's first registration: spawn the main menu when its screen
/// is entered.
pub open spec fn menu_init_registration() -> SystemReg {
    SystemReg {
        schedule: Schedule::OnEnterMainMenu,
        system: SystemLabel::InitMainMenu,
        run_if: Option::None,
    }
}

/// The menu module's second registration: react to the menu button every
/// frame, but only while the menu is shown.
pub open spec fn menu_interaction_registration() -> SystemReg {
    SystemReg {
        schedule: Schedule::Update,
        system: SystemLabel::OnButtonInteraction,
        run_if: Option::Some(GameState::Menu),
    }
}

/// Registers the menu systems.
pub fn plugin(app: &mut App)
    ensures
        final(app).systems@ == old(app).systems@.push(menu_init_registration()).push(
            menu_interaction_registration(),
        ),
        same_but_systems(*old(app), *final(app)),
{
    app.systems.push(
        SystemReg {
            schedule: Schedule::OnEnterMainMenu,
            system: SystemLabel::InitMainMenu,
            run_if: Option::None,
        },
    );
    app.systems.push(
        SystemReg {
            schedule: Schedule::Update,
            system: SystemLabel::OnButtonInteraction,
            run_if: Option::Some(GameState::Menu),
        },
    );
}

/// The menu screens; only the main screen exists so far.
#[derive(Clone, Copy, PartialEq, Eq, Structural, Debug, Default)]
pub enum MenuState {
    /// The main menu.
    #[default]
    Main,
}

/// What the main menu shows: a title and one button that starts the game.
#[derive(Debug)]
pub struct MainMenu {
    /// The menu's title text.
    pub title: String,
    /// Font size of the title, in points.
    pub title_font_size: u32,
    /// Label of the button that starts the game.
    pub play_label: String,
    /// The button's background color.
    pub button_background: Color,
    /// The button label's text color.
    pub play_text_color: Color,
}

/// Spawns the main menu: the "Menu" title over a white "Play" button with
/// black label text.
pub fn init_main_menu() -> (m: MainMenu)
    ensures
        m.title@ == "Menu"@,
        m.title_font_size == 32,
        m.play_label@ == "Play"@,
        m.button_background == white(),
        m.play_text_color == black(),
{
    MainMenu {
        title: "Menu".to_owned(),
        title_font_size: 32,
        play_label: "Play".to_owned(),
        button_background: white(),
        play_text_color: black(),
    }
}

/// The interaction state of a button, as the host reports it.
#[derive(Clone, Copy, PartialEq, Eq, Structural, Debug)]
pub enum ButtonInteraction {
    /// The button was clicked.
    Pressed,
    /// The pointer hovers over the button.
    Hovered,
    /// Nothing touches the button.
    Idle,
}

/// What one frame of button handling decides: the button's colors and the
/// state transition it requests, if any.
#[derive(Clone, Copy, PartialEq, Eq, Structural, Debug)]
pub struct ButtonResponse {
    /// The button's new background color.
    pub background: Color,
    /// The button label's new text color.
    pub text_color: Color,
    /// The game state to transition to, if the interaction asks for one.
    pub next_state: Option<GameState>,
}

/// Handles a change of the play button's interaction state: pressing it
/// starts the game and flashes the label royal blue; hovering inverts the
/// colors; otherwise the button rests white with black text.
pub fn on_button_interaction(interaction: ButtonInteraction) -> (r: ButtonResponse)
    ensures
        interaction is Pressed ==> r == (ButtonResponse {
            background: white(),
            text_color: royal_blue(),
            next_state: Some(GameState::Play),
        }),
        interaction is Hovered ==> r == (ButtonResponse {
            background: royal_blue(),
            text_color: white(),
            next_state: None,
        }),
        interaction is Idle ==> r == (ButtonResponse {
            background: white(),
            text_color: black(),
            next_state: None,
        }),
{
    match interaction {
        ButtonInteraction::Pressed => ButtonResponse {
            background: white(),
            text_color: royal_blue(),
            next_state: Option::Some(GameState::Play),
        },
        ButtonInteraction::Hovered => ButtonResponse {
            background: royal_blue(),
            text_color: white(),
            next_state: Option::None,
        },
        ButtonInteraction::Idle => ButtonResponse {
            background: white(),
            text_color: black(),
            next_state: Option::None,
        },
    }
}

} // verus!
