use game_menu::menu::{FrameInput, GameCore, MenuState};

fn press(set: impl Fn(&mut FrameInput)) -> FrameInput {
    let mut input = FrameInput::none();
    set(&mut input);
    input
}

#[test]
fn starts_on_main_screen() {
    let s = GameCore::new();
    assert_eq!(s.current_state, MenuState::Main);
    assert_eq!(s.selected_index, 0);
    assert!(!s.game_started);
    assert_eq!(s.animation_ms, 0);
    assert_eq!(s.get_current_menu_items().len(), 3);
}

#[test]
fn down_moves_and_wraps_on_main() {
    let mut s = GameCore::new();
    let down = press(|i| i.down = true);
    assert!(!s.update(down, 16));
    assert_eq!(s.selected_index, 1);
    assert!(!s.update(down, 16));
    assert_eq!(s.selected_index, 2);
    assert!(!s.update(down, 16));
    assert_eq!(s.selected_index, 0, "down from the last item wraps to the first");
}

#[test]
fn up_wraps_on_main() {
    let mut s = GameCore::new();
    let up = press(|i| i.up = true);
    assert!(!s.update(up, 16));
    assert_eq!(s.selected_index, 2, "up from the first item wraps to the last");
    assert!(!s.update(up, 16));
    assert_eq!(s.selected_index, 1);
}

#[test]
fn wraparound_on_options_has_four_items() {
    let mut s = GameCore::new();
    let down = press(|i| i.down = true);
    let enter = press(|i| i.enter = true);
    s.update(down, 16);
    s.update(enter, 16);
    assert_eq!(s.current_state, MenuState::Options);
    assert_eq!(s.get_current_menu_items().len(), 4);
    let up = press(|i| i.up = true);
    s.update(up, 16);
    assert_eq!(s.selected_index, 3);
}

#[test]
fn screen_transitions_reset_cursor() {
    let mut s = GameCore::new();
    let down = press(|i| i.down = true);
    let enter = press(|i| i.enter = true);
    // Main, cursor on "Options" (index 1), enter: Options screen, cursor 0.
    s.update(down, 16);
    assert_eq!(s.selected_index, 1);
    s.update(enter, 16);
    assert_eq!(s.current_state, MenuState::Options);
    assert_eq!(s.selected_index, 0);
    // Move down on Options, go back with the back key: Main, cursor 0.
    s.update(down, 16);
    s.update(down, 16);
    assert_eq!(s.selected_index, 2);
    let back = press(|i| i.backspace = true);
    s.update(back, 16);
    assert_eq!(s.current_state, MenuState::Main);
    assert_eq!(s.selected_index, 0);
}

#[test]
fn quit_requested_from_main_quit_item() {
    // Start at {Main, en, index 0}; Down twice selects "Quit"; Enter requests quit.
    let mut s = GameCore::new();
    let down = press(|i| i.down = true);
    let enter = press(|i| i.enter = true);
    assert!(!s.update(down, 16));
    assert!(!s.update(down, 16));
    assert_eq!(s.selected_index, 2);
    assert_eq!(s.get_current_menu_items()[2], "🚪 Quit");
    let quit = s.update(enter, 16);
    assert!(quit, "enter on the quit item requests termination");
    assert_eq!(s.current_state, MenuState::Main);
}

#[test]
fn language_key_switches_texts_and_keeps_list_length() {
    // Start at {Main, en}; F2 switches to Turkish; the title changes and the
    // main list still has three items.
    let mut s = GameCore::new();
    let f2 = press(|i| i.f2 = true);
    s.update(f2, 16);
    assert_eq!(s.language_manager.get_current_language(), "tr");
    assert_eq!(s.language_manager.get_text("menu_title"), "ANA MENÜ");
    assert_eq!(s.get_current_menu_items().len(), 3);
    assert_eq!(s.get_current_menu_items()[0], "🎮 Oyunu Başlat");
    let f1 = press(|i| i.f1 = true);
    s.update(f1, 16);
    assert_eq!(s.language_manager.get_current_language(), "en");
    assert_eq!(s.get_current_menu_items()[0], "🎮 Start Game");
}

#[test]
fn options_back_item_returns_to_main() {
    // {Options, index 3}; Enter: Main screen, index 0.
    let mut s = GameCore::new();
    let down = press(|i| i.down = true);
    let enter = press(|i| i.enter = true);
    s.update(down, 16);
    s.update(enter, 16);
    assert_eq!(s.current_state, MenuState::Options);
    for _ in 0..3 {
        s.update(down, 16);
    }
    assert_eq!(s.selected_index, 3);
    let quit = s.update(enter, 16);
    assert!(!quit);
    assert_eq!(s.current_state, MenuState::Main);
    assert_eq!(s.selected_index, 0);
}

#[test]
fn escape_leaves_game_and_replays_fade() {
    // InGame; Escape: back to {Main, index 0} with the accumulator reset.
    let mut s = GameCore::new();
    let enter = press(|i| i.enter = true);
    s.update(enter, 16);
    assert!(s.game_started);
    assert_eq!(s.animation_ms, 0, "starting the game replays the fade-in");
    let down = press(|i| i.down = true);
    s.update(down, 100);
    assert_eq!(s.selected_index, 0, "movement is inert while in game");
    assert!(s.animation_ms > 0);
    let escape = press(|i| i.escape = true);
    let quit = s.update(escape, 16);
    assert!(!quit);
    assert!(!s.game_started);
    assert_eq!(s.current_state, MenuState::Main);
    assert_eq!(s.selected_index, 0);
    assert_eq!(s.animation_ms, 0);
}

#[test]
fn escape_outside_game_changes_nothing() {
    let mut s = GameCore::new();
    let escape = press(|i| i.escape = true);
    assert!(!s.update(escape, 16));
    assert_eq!(s.current_state, MenuState::Main);
    assert_eq!(s.selected_index, 0);
    assert!(!s.game_started);
}

#[test]
fn language_key_and_movement_in_one_frame() {
    // Both a language key and Down on the same frame: the list is rebuilt in
    // Turkish and the cursor still moves.
    let mut s = GameCore::new();
    let both = press(|i| {
        i.f2 = true;
        i.down = true;
    });
    s.update(both, 16);
    assert_eq!(s.selected_index, 1);
    assert_eq!(s.get_current_menu_items()[1], "⚙️ Ayarlar");
}

#[test]
fn options_settings_items_are_inert() {
    let mut s = GameCore::new();
    let down = press(|i| i.down = true);
    let enter = press(|i| i.enter = true);
    s.update(down, 16);
    s.update(enter, 16);
    assert_eq!(s.current_state, MenuState::Options);
    for index in 0..3 {
        while s.selected_index != index {
            s.update(down, 16);
        }
        let quit = s.update(enter, 16);
        assert!(!quit);
        assert_eq!(s.current_state, MenuState::Options, "settings item {index} must not transition");
        assert!(!s.game_started);
    }
}

#[test]
fn language_key_with_unchanged_code_keeps_lists_valid() {
    let mut s = GameCore::new();
    let f1 = press(|i| i.f1 = true);
    s.update(f1, 16);
    assert_eq!(s.language_manager.get_current_language(), "en");
    assert_eq!(s.get_current_menu_items().len(), 3);
    assert_eq!(s.get_current_menu_items()[0], "🎮 Start Game");
}

#[test]
fn accumulator_sums_frame_deltas() {
    let mut s = GameCore::new();
    let idle = FrameInput::none();
    s.update(idle, 16);
    s.update(idle, 20);
    assert_eq!(s.animation_ms, 36);
}
