use logpager::events::{interpret_key, Key};
use logpager::state::{AppAction, AppState, Focus};
use logpager::ui::focusable_input::{MessageMap, MessageTranslator};
use logpager::ui::line_number_width;
use logpager::ui::text_input::TextInputState;

fn state_with_lines(count: usize) -> AppState {
    let mut state = AppState::new();
    for i in 1..=count {
        state.add_line(format!("line {}", i));
    }
    state
}

fn press(state: &mut AppState, key: Key) {
    if let Some(action) = interpret_key(state, key) {
        state.handle_action(action);
    }
}

#[test]
fn test_new_state_defaults() {
    let state = AppState::new();
    assert_eq!(state.line_num, 1);
    assert!(!state.attached_to_bottom);
    assert!(state.search.is_none());
    assert!(state.show_line_numbers);
    assert!(matches!(state.focused_input, Focus::NoFocus));
    assert_eq!(state.last_frame_height, 0);
    assert!(!state.quit);
}

#[test]
fn test_scroll_down_clamps_before_the_end() {
    let mut state = state_with_lines(10);
    state.scroll_down_by(5);
    assert_eq!(state.line_num, 6);
    state.scroll_down_by(100);
    assert_eq!(state.line_num, 9);
}

#[test]
fn test_scroll_up_clamps_at_one() {
    let mut state = state_with_lines(10);
    state.scroll_down_by(7);
    state.scroll_up_by(3);
    assert_eq!(state.line_num, 5);
    state.scroll_up_by(100);
    assert_eq!(state.line_num, 1);
}

#[test]
fn test_scroll_down_on_empty_store_stays_at_one() {
    let mut state = AppState::new();
    state.scroll_down_by(5);
    assert_eq!(state.line_num, 1);
    state.scroll_up_by(5);
    assert_eq!(state.line_num, 1);
}

#[test]
fn test_scrolling_detaches_from_bottom() {
    let mut state = state_with_lines(10);
    state.set_frame_height(3);
    state.attach_to_bottom();
    assert!(state.attached_to_bottom);
    state.scroll_up_by(1);
    assert!(!state.attached_to_bottom);
    state.attach_to_bottom();
    state.scroll_down_by(1);
    assert!(!state.attached_to_bottom);
}

#[test]
fn test_attach_to_bottom_shows_the_tail() {
    let mut state = state_with_lines(10);
    state.set_frame_height(3);
    state.attach_to_bottom();
    assert!(state.attached_to_bottom);
    assert_eq!(state.line_num, 7);
    let window = state.get_lines();
    assert_eq!(
        window,
        vec!["line 8".to_string(), "line 9".to_string(), "line 10".to_string()]
    );
}

#[test]
fn test_attach_to_bottom_is_idempotent() {
    let mut state = state_with_lines(10);
    state.set_frame_height(3);
    state.attach_to_bottom();
    let first = state.line_num;
    state.attach_to_bottom();
    assert_eq!(state.line_num, first);
}

#[test]
fn test_attached_viewport_follows_new_lines() {
    let mut state = state_with_lines(10);
    state.set_frame_height(3);
    state.attach_to_bottom();
    assert_eq!(state.line_num, 7);
    state.add_line("line 11".to_string());
    assert_eq!(state.line_num, 8);
    assert!(state.attached_to_bottom);
    let window = state.get_lines();
    assert_eq!(
        window,
        vec!["line 9".to_string(), "line 10".to_string(), "line 11".to_string()]
    );
}

#[test]
fn test_detached_viewport_ignores_new_lines() {
    let mut state = state_with_lines(10);
    state.set_frame_height(3);
    state.set_line_number(4);
    state.add_line("line 11".to_string());
    assert_eq!(state.line_num, 4);
}

#[test]
fn test_set_frame_height_reattaches_while_attached() {
    let mut state = state_with_lines(10);
    state.set_frame_height(3);
    state.attach_to_bottom();
    assert_eq!(state.line_num, 7);
    state.set_frame_height(5);
    assert_eq!(state.line_num, 5);
    assert!(state.attached_to_bottom);
}

#[test]
fn test_set_frame_height_leaves_a_detached_viewport() {
    let mut state = state_with_lines(10);
    state.set_line_number(4);
    state.set_frame_height(5);
    assert_eq!(state.line_num, 4);
    assert_eq!(state.last_frame_height, 5);
}

#[test]
fn test_attach_to_bottom_with_short_store() {
    let mut state = state_with_lines(2);
    state.set_frame_height(5);
    state.attach_to_bottom();
    assert_eq!(state.line_num, 1);
}

#[test]
fn test_set_line_number_clamps_both_ends() {
    let mut state = state_with_lines(10);
    state.set_line_number(5);
    assert_eq!(state.line_num, 5);
    state.set_line_number(15);
    assert_eq!(state.line_num, 9);
    state.set_line_number(0);
    assert_eq!(state.line_num, 1);
}

#[test]
fn test_toggle_line_numbers_flips() {
    let mut state = AppState::new();
    assert!(state.show_line_numbers);
    state.toggle_line_numbers();
    assert!(!state.show_line_numbers);
    state.toggle_line_numbers();
    assert!(state.show_line_numbers);
}

#[test]
fn test_quit_action_sets_the_flag() {
    let mut state = AppState::new();
    state.handle_action(AppAction::Quit);
    assert!(state.quit);
}

#[test]
fn test_search_lifecycle_stores_accepted_text() {
    let mut state = AppState::new();
    state.handle_action(AppAction::OpenSearch);
    assert!(matches!(state.focused_input, Focus::SearchFocus(_)));
    state.handle_action(AppAction::AcceptSearch("foo".to_string()));
    assert!(matches!(state.focused_input, Focus::NoFocus));
    assert_eq!(state.search.as_deref(), Some("foo"));
}

#[test]
fn test_reopened_search_is_seeded_with_the_stored_text() {
    let mut state = AppState::new();
    state.handle_action(AppAction::AcceptSearch("warn".to_string()));
    state.handle_action(AppAction::OpenSearch);
    match &state.focused_input {
        Focus::SearchFocus(translator) => {
            assert_eq!(translator.input_handler.value(), "warn");
            assert_eq!(translator.input_handler.cursor(), 4);
        }
        _ => panic!("expected the search modal to be focused"),
    }
}

#[test]
fn test_go_to_line_rejects_bad_input_and_stays_open() {
    let mut state = state_with_lines(10);
    state.handle_action(AppAction::OpenGoToLine);
    assert!(matches!(state.focused_input, Focus::GoToLineFocus(_)));
    state.handle_action(AppAction::AcceptGoToLine("not-a-number".to_string()));
    assert!(matches!(state.focused_input, Focus::GoToLineFocus(_)));
    assert_eq!(state.line_num, 1);
}

#[test]
fn test_go_to_line_accepts_a_number_and_closes() {
    let mut state = state_with_lines(50);
    state.handle_action(AppAction::OpenGoToLine);
    state.handle_action(AppAction::AcceptGoToLine("42".to_string()));
    assert!(matches!(state.focused_input, Focus::NoFocus));
    assert_eq!(state.line_num, 42);
}

#[test]
fn test_go_to_line_accepts_a_leading_plus() {
    let mut state = state_with_lines(10);
    state.handle_action(AppAction::AcceptGoToLine("+7".to_string()));
    assert_eq!(state.line_num, 7);
}

#[test]
fn test_go_to_line_rejects_an_oversized_number() {
    let mut state = state_with_lines(10);
    state.handle_action(AppAction::OpenGoToLine);
    state.handle_action(AppAction::AcceptGoToLine("70000".to_string()));
    assert!(matches!(state.focused_input, Focus::GoToLineFocus(_)));
    assert_eq!(state.line_num, 1);
}

#[test]
fn test_go_to_line_rejects_empty_input() {
    let mut state = state_with_lines(10);
    state.handle_action(AppAction::OpenGoToLine);
    state.handle_action(AppAction::AcceptGoToLine(String::new()));
    assert!(matches!(state.focused_input, Focus::GoToLineFocus(_)));
    state.handle_action(AppAction::AcceptGoToLine("+".to_string()));
    assert!(matches!(state.focused_input, Focus::GoToLineFocus(_)));
}

#[test]
fn test_normal_mode_key_map() {
    let mut state = state_with_lines(10);
    state.set_frame_height(8);
    assert!(matches!(interpret_key(&mut state, Key::Down), Some(AppAction::ScrollDown(1))));
    assert!(matches!(interpret_key(&mut state, Key::Up), Some(AppAction::ScrollUp(1))));
    assert!(matches!(interpret_key(&mut state, Key::Esc), Some(AppAction::Quit)));
    assert!(matches!(interpret_key(&mut state, Key::Char('q')), Some(AppAction::Quit)));
    assert!(matches!(
        interpret_key(&mut state, Key::Char('t')),
        Some(AppAction::ScrollToLine(1))
    ));
    assert!(matches!(
        interpret_key(&mut state, Key::Char(' ')),
        Some(AppAction::ScrollDown(4))
    ));
    assert!(matches!(
        interpret_key(&mut state, Key::Char('b')),
        Some(AppAction::AttachToBottom)
    ));
    assert!(matches!(
        interpret_key(&mut state, Key::Char('N')),
        Some(AppAction::ToggleLineNumbers)
    ));
    assert!(matches!(
        interpret_key(&mut state, Key::Char('g')),
        Some(AppAction::OpenGoToLine)
    ));
    assert!(matches!(
        interpret_key(&mut state, Key::Char('/')),
        Some(AppAction::OpenSearch)
    ));
    assert!(interpret_key(&mut state, Key::Char('x')).is_none());
    assert!(interpret_key(&mut state, Key::Other).is_none());
}

#[test]
fn test_modal_keys_do_not_reach_the_general_map() {
    let mut state = state_with_lines(10);
    press(&mut state, Key::Char('/'));
    assert!(matches!(state.focused_input, Focus::SearchFocus(_)));
    press(&mut state, Key::Char('q'));
    assert!(!state.quit);
    assert!(matches!(state.focused_input, Focus::SearchFocus(_)));
}

#[test]
fn test_typing_a_search_through_the_key_loop() {
    let mut state = state_with_lines(10);
    press(&mut state, Key::Char('/'));
    press(&mut state, Key::Char('f'));
    press(&mut state, Key::Char('o'));
    press(&mut state, Key::Char('o'));
    press(&mut state, Key::Enter);
    assert!(matches!(state.focused_input, Focus::NoFocus));
    assert_eq!(state.search.as_deref(), Some("foo"));
}

#[test]
fn test_escape_cancels_a_search_without_storing() {
    let mut state = state_with_lines(10);
    press(&mut state, Key::Char('/'));
    press(&mut state, Key::Char('f'));
    press(&mut state, Key::Esc);
    assert!(matches!(state.focused_input, Focus::NoFocus));
    assert!(state.search.is_none());
    assert!(!state.quit);
}

#[test]
fn test_typing_a_line_number_through_the_key_loop() {
    let mut state = state_with_lines(50);
    press(&mut state, Key::Char('g'));
    assert!(matches!(state.focused_input, Focus::GoToLineFocus(_)));
    press(&mut state, Key::Char('4'));
    press(&mut state, Key::Char('2'));
    press(&mut state, Key::Enter);
    assert!(matches!(state.focused_input, Focus::NoFocus));
    assert_eq!(state.line_num, 42);
}

#[test]
fn test_translator_swallows_change_messages() {
    let translator = MessageTranslator::new(TextInputState::default(), MessageMap::Search);
    let mut translator = translator;
    assert!(translator.handle_input(Key::Char('a')).is_none());
    assert_eq!(translator.input_handler.value(), "a");
}

#[test]
fn test_translator_maps_by_its_tag() {
    let mut search = MessageTranslator::new(TextInputState::from_str("x"), MessageMap::Search);
    match search.handle_input(Key::Enter) {
        Some(AppAction::AcceptSearch(text)) => assert_eq!(text, "x"),
        _ => panic!("expected an accepted search"),
    }
    assert!(matches!(search.handle_input(Key::Esc), Some(AppAction::CloseSearch)));

    let mut go_to = MessageTranslator::new(TextInputState::from_str("3"), MessageMap::GoToLine);
    match go_to.handle_input(Key::Enter) {
        Some(AppAction::AcceptGoToLine(text)) => assert_eq!(text, "3"),
        _ => panic!("expected an accepted go-to-line"),
    }
    assert!(matches!(go_to.handle_input(Key::Esc), Some(AppAction::CloseGoToLine)));
}

#[test]
fn test_window_follows_the_viewport() {
    let mut state = state_with_lines(10);
    state.set_frame_height(3);
    state.set_line_number(7);
    let window = state.get_lines();
    assert_eq!(
        window,
        vec!["line 8".to_string(), "line 9".to_string(), "line 10".to_string()]
    );
}

#[test]
fn test_line_number_width() {
    assert_eq!(line_number_width(0), 1);
    assert_eq!(line_number_width(9), 1);
    assert_eq!(line_number_width(10), 2);
    assert_eq!(line_number_width(99), 2);
    assert_eq!(line_number_width(100), 3);
    assert_eq!(line_number_width(65535), 5);
}
