use trazo::color::{black, royal_blue, white};
use trazo::menu::{init_main_menu, on_button_interaction, ButtonInteraction};
use trazo::states::GameState;

#[test]
fn main_menu_contents() {
    let menu = init_main_menu();
    assert_eq!(menu.title, "Menu");
    assert_eq!(menu.title_font_size, 32);
    assert_eq!(menu.play_label, "Play");
    assert_eq!(menu.button_background, white());
    assert_eq!(menu.play_text_color, black());
}

#[test]
fn pressing_play_starts_the_game() {
    let r = on_button_interaction(ButtonInteraction::Pressed);
    assert_eq!(r.background, white());
    assert_eq!(r.text_color, royal_blue());
    assert_eq!(r.next_state, Some(GameState::Play));
}

#[test]
fn hovering_inverts_the_colors() {
    let r = on_button_interaction(ButtonInteraction::Hovered);
    assert_eq!(r.background, royal_blue());
    assert_eq!(r.text_color, white());
    assert_eq!(r.next_state, None);
}

#[test]
fn idle_button_rests_white_on_black_text() {
    let r = on_button_interaction(ButtonInteraction::Idle);
    assert_eq!(r.background, white());
    assert_eq!(r.text_color, black());
    assert_eq!(r.next_state, None);
}
