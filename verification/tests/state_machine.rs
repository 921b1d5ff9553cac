use rxo::app::{App, AppAction, AppState, Key};

#[test]
fn new_starts_in_menu_without_selection() {
    let app = App::new(false);
    assert_eq!(app.current_mode(), AppState::InitialMenu);
    assert_eq!(app.selected_menu_index(), None);
    assert!(app.is_well_formed());
    assert_eq!(app.menu_items.len(), 2);
    assert!(!app.is_developer_mode);
}

#[test]
fn new_keeps_developer_flag() {
    let app = App::new(true);
    assert!(app.is_developer_mode);
    assert_eq!(app.current_mode(), AppState::InitialMenu);
}

#[test]
fn select_next_wraps_cyclically() {
    let mut app = App::new(false);
    app.select_next_menu_item();
    assert_eq!(app.selected_menu_index(), Some(0));
    app.select_next_menu_item();
    assert_eq!(app.selected_menu_index(), Some(1));
    app.select_next_menu_item();
    assert_eq!(app.selected_menu_index(), Some(0));
}

#[test]
fn select_previous_wraps_cyclically() {
    let mut app = App::new(false);
    app.select_previous_menu_item();
    assert_eq!(app.selected_menu_index(), Some(0));
    app.select_previous_menu_item();
    assert_eq!(app.selected_menu_index(), Some(1));
    app.select_previous_menu_item();
    assert_eq!(app.selected_menu_index(), Some(0));
}

#[test]
fn selection_stays_in_range_over_long_sequences() {
    let mut app = App::new(false);
    for step in 0..50 {
        if step % 3 == 0 {
            app.select_next_menu_item();
        } else {
            app.select_previous_menu_item();
        }
        let sel = app.selected_menu_index().expect("navigated at least once");
        assert!(sel < app.menu_items.len());
    }
}

#[test]
fn cursor_moves_and_clamps_at_every_edge() {
    let mut app = App::new(false);
    app.select_next_menu_item();
    let action = app.select_menu_item();
    assert_eq!(action, None);
    assert_eq!(app.current_mode(), AppState::RunningGame((0, 0)));

    app.up();
    assert_eq!(app.current_mode(), AppState::RunningGame((0, 0)));
    app.left();
    assert_eq!(app.current_mode(), AppState::RunningGame((0, 0)));

    app.right();
    assert_eq!(app.current_mode(), AppState::RunningGame((0, 1)));
    app.right();
    assert_eq!(app.current_mode(), AppState::RunningGame((0, 2)));
    app.right();
    assert_eq!(app.current_mode(), AppState::RunningGame((0, 2)));

    app.down();
    app.down();
    assert_eq!(app.current_mode(), AppState::RunningGame((2, 2)));
    app.down();
    assert_eq!(app.current_mode(), AppState::RunningGame((2, 2)));

    app.up();
    assert_eq!(app.current_mode(), AppState::RunningGame((1, 2)));
    app.left();
    assert_eq!(app.current_mode(), AppState::RunningGame((1, 1)));
}

#[test]
fn cursor_moves_are_ignored_in_menu() {
    let mut app = App::new(false);
    app.up();
    app.down();
    app.left();
    app.right();
    assert_eq!(app.current_mode(), AppState::InitialMenu);
    assert_eq!(app.selected_menu_index(), None);
}

#[test]
fn activating_quit_yields_exit_and_keeps_menu() {
    let mut app = App::new(false);
    app.select_next_menu_item();
    app.select_next_menu_item();
    assert_eq!(app.selected_menu_index(), Some(1));
    let action = app.select_menu_item();
    assert_eq!(action, Some(AppAction::Exit));
    assert_eq!(app.current_mode(), AppState::InitialMenu);
    assert_eq!(app.selected_menu_index(), Some(1));
}

#[test]
fn activating_start_enters_game_at_origin() {
    let mut app = App::new(false);
    app.select_next_menu_item();
    assert_eq!(app.selected_menu_index(), Some(0));
    let action = app.select_menu_item();
    assert_eq!(action, None);
    assert_eq!(app.current_mode(), AppState::RunningGame((0, 0)));
}

#[test]
fn activating_without_selection_is_a_no_op() {
    let mut app = App::new(false);
    let action = app.select_menu_item();
    assert_eq!(action, None);
    assert_eq!(app.current_mode(), AppState::InitialMenu);
    assert_eq!(app.selected_menu_index(), None);
}

#[test]
fn exit_game_returns_to_menu_and_is_a_menu_no_op() {
    let mut app = App::new(false);
    app.exit_game();
    assert_eq!(app.current_mode(), AppState::InitialMenu);

    app.start_game();
    assert_eq!(app.current_mode(), AppState::RunningGame((0, 0)));
    app.down();
    app.exit_game();
    assert_eq!(app.current_mode(), AppState::InitialMenu);
}

#[test]
fn start_game_is_ignored_while_running() {
    let mut app = App::new(false);
    app.start_game();
    app.down();
    app.start_game();
    assert_eq!(app.current_mode(), AppState::RunningGame((1, 0)));
}

#[test]
fn toggle_without_developer_mode_never_changes_mode() {
    let mut app = App::new(false);
    app.toggle_app_state();
    assert_eq!(app.current_mode(), AppState::InitialMenu);

    app.start_game();
    app.down();
    app.toggle_app_state();
    assert_eq!(app.current_mode(), AppState::RunningGame((1, 0)));
}

#[test]
fn toggle_with_developer_mode_swaps_menu_and_grid() {
    let mut app = App::new(true);
    app.toggle_app_state();
    assert_eq!(app.current_mode(), AppState::RunningGame((0, 0)));
    app.toggle_app_state();
    assert_eq!(app.current_mode(), AppState::InitialMenu);
}

#[test]
fn menu_navigation_and_quit_scenario() {
    let mut app = App::new(false);
    assert_eq!(app.current_mode(), AppState::InitialMenu);
    assert_eq!(app.selected_menu_index(), None);

    assert_eq!(app.handle_key_event(Key::Down), None);
    assert_eq!(app.selected_menu_index(), Some(0));

    assert_eq!(app.handle_key_event(Key::Down), None);
    assert_eq!(app.selected_menu_index(), Some(1));

    assert_eq!(app.handle_key_event(Key::Enter), Some(AppAction::Exit));
    assert_eq!(app.current_mode(), AppState::InitialMenu);
}

#[test]
fn start_navigate_and_exit_scenario() {
    let mut app = App::new(false);
    assert_eq!(app.handle_key_event(Key::Down), None);
    assert_eq!(app.selected_menu_index(), Some(0));

    assert_eq!(app.handle_key_event(Key::Enter), None);
    assert_eq!(app.current_mode(), AppState::RunningGame((0, 0)));

    assert_eq!(app.handle_key_event(Key::Char('j')), None);
    assert_eq!(app.current_mode(), AppState::RunningGame((1, 0)));

    assert_eq!(app.handle_key_event(Key::Char('j')), None);
    assert_eq!(app.current_mode(), AppState::RunningGame((2, 0)));

    assert_eq!(app.handle_key_event(Key::Char('j')), None);
    assert_eq!(app.current_mode(), AppState::RunningGame((2, 0)));

    assert_eq!(app.handle_key_event(Key::Char('x')), None);
    assert_eq!(app.current_mode(), AppState::InitialMenu);
}

#[test]
fn arrow_keys_and_letters_agree() {
    let mut by_arrow = App::new(false);
    let mut by_letter = App::new(false);

    by_arrow.handle_key_event(Key::Up);
    by_letter.handle_key_event(Key::Char('k'));
    assert_eq!(by_arrow.selected_menu_index(), by_letter.selected_menu_index());

    by_arrow.handle_key_event(Key::Enter);
    by_letter.handle_key_event(Key::Enter);

    by_arrow.handle_key_event(Key::Down);
    by_letter.handle_key_event(Key::Char('j'));
    by_arrow.handle_key_event(Key::Right);
    by_letter.handle_key_event(Key::Char('l'));
    by_arrow.handle_key_event(Key::Up);
    by_letter.handle_key_event(Key::Char('k'));
    by_arrow.handle_key_event(Key::Left);
    by_letter.handle_key_event(Key::Char('h'));
    assert_eq!(by_arrow.current_mode(), by_letter.current_mode());
}

#[test]
fn unrecognized_keys_are_no_ops() {
    let mut app = App::new(false);
    assert_eq!(app.handle_key_event(Key::Other), None);
    assert_eq!(app.handle_key_event(Key::Char('z')), None);
    assert_eq!(app.current_mode(), AppState::InitialMenu);
    assert_eq!(app.selected_menu_index(), None);

    app.start_game();
    assert_eq!(app.handle_key_event(Key::Other), None);
    assert_eq!(app.handle_key_event(Key::Char('z')), None);
    assert_eq!(app.handle_key_event(Key::Enter), None);
    assert_eq!(app.current_mode(), AppState::RunningGame((0, 0)));
}

#[test]
fn grid_keys_leave_menu_selection_alone() {
    let mut app = App::new(false);
    app.handle_key_event(Key::Down);
    app.handle_key_event(Key::Enter);
    app.handle_key_event(Key::Char('j'));
    app.handle_key_event(Key::Down);
    assert_eq!(app.selected_menu_index(), Some(0));
}

#[test]
fn developer_toggle_key_works_only_with_the_flag() {
    let mut plain = App::new(false);
    assert_eq!(plain.handle_key_event(Key::Char('t')), None);
    assert_eq!(plain.current_mode(), AppState::InitialMenu);

    let mut developer = App::new(true);
    assert_eq!(developer.handle_key_event(Key::Char('t')), None);
    assert_eq!(developer.current_mode(), AppState::RunningGame((0, 0)));
    assert_eq!(developer.handle_key_event(Key::Char('t')), None);
    assert_eq!(developer.current_mode(), AppState::InitialMenu);
}
