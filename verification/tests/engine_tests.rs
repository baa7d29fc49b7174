use cargo_selector::Action;
use cargo_selector::Target;
use cargo_selector::TargetKind;
use cargo_selector::color::ColorTheme;
use cargo_selector::event::UserEvent;
use cargo_selector::input::InputEdit;
use cargo_selector::matcher::Matcher;
use cargo_selector::tui::Ret;
use cargo_selector::tui::Tui;

fn target(name: &str) -> Target {
    Target {
        name: name.to_string(),
        kind: TargetKind::Bin,
        path: format!("src/bin/{}.rs", name),
        required_features: Vec::new(),
    }
}

fn targets(names: &[&str]) -> Vec<Target> {
    names.iter().map(|n| target(n)).collect()
}

fn new_tui(names: &[&str]) -> Tui {
    Tui::new(targets(names), 24, Matcher::substring(), ColorTheme::default())
}

fn indices(tui: &Tui) -> Vec<usize> {
    tui.filtered.iter().map(|f| f.index).collect()
}

#[test]
fn test_initial_state_shows_all_targets() {
    let tui = new_tui(&["alpha", "beta", "gamma"]);
    assert_eq!(indices(&tui), vec![0, 1, 2]);
    assert_eq!(tui.cursor, 0);
    assert_eq!(tui.list_offset, 0);
    assert_eq!(tui.list_height, 23);
    assert!(matches!(tui.action, Action::Run));
}

#[test]
fn test_filter_is_order_preserving() {
    let mut tui = new_tui(&["alpha", "beta", "gamma", "beam"]);
    // query "a": every name contains it, original order kept
    tui.handle_event(UserEvent::Edit(InputEdit::Insert('a')));
    assert_eq!(indices(&tui), vec![0, 1, 2, 3]);
    // query "am": only "gamma" and "beam" survive, in original order
    tui.handle_event(UserEvent::Edit(InputEdit::Insert('m')));
    assert_eq!(indices(&tui), vec![2, 3]);
}

#[test]
fn test_filter_carries_match_positions() {
    let mut tui = new_tui(&["hello"]);
    tui.handle_event(UserEvent::Edit(InputEdit::Insert('l')));
    tui.handle_event(UserEvent::Edit(InputEdit::Insert('o')));
    assert_eq!(tui.filtered.len(), 1);
    assert_eq!(tui.filtered[0].match_indices, vec![3, 4]);
}

#[test]
fn test_every_edit_resets_cursor_and_offset() {
    let mut tui = new_tui(&["a1", "a2", "a3", "a4", "a5"]);
    tui.handle_event(UserEvent::Resize(3));
    tui.handle_event(UserEvent::Down);
    tui.handle_event(UserEvent::Down);
    tui.handle_event(UserEvent::Down);
    assert!(tui.cursor > 0);
    assert!(tui.list_offset > 0);
    tui.handle_event(UserEvent::Edit(InputEdit::Insert('a')));
    assert_eq!(tui.cursor, 0);
    assert_eq!(tui.list_offset, 0);
    // deleting a character is an edit too
    tui.handle_event(UserEvent::Down);
    tui.handle_event(UserEvent::Edit(InputEdit::Backspace));
    assert_eq!(tui.cursor, 0);
    assert_eq!(tui.list_offset, 0);
}

#[test]
fn test_navigation_keeps_cursor_in_viewport() {
    let mut tui = new_tui(&["a1", "a2", "a3", "a4", "a5", "a6"]);
    tui.handle_event(UserEvent::Resize(3));  // list height 2
    assert_eq!(tui.list_height, 2);
    for _ in 0..10 {
        tui.handle_event(UserEvent::Down);
        assert!(tui.list_offset <= tui.cursor);
        assert!(tui.cursor < tui.list_offset + tui.list_height);
    }
    assert_eq!(tui.cursor, 5);
    assert_eq!(tui.list_offset, 4);
    for _ in 0..10 {
        tui.handle_event(UserEvent::Up);
        assert!(tui.list_offset <= tui.cursor);
        assert!(tui.cursor < tui.list_offset + tui.list_height);
    }
    assert_eq!(tui.cursor, 0);
    assert_eq!(tui.list_offset, 0);
}

#[test]
fn test_move_down_noop_at_last_entry() {
    let mut tui = new_tui(&["a", "b"]);
    tui.handle_event(UserEvent::Down);
    assert_eq!(tui.cursor, 1);
    tui.handle_event(UserEvent::Down);
    assert_eq!(tui.cursor, 1);
}

#[test]
fn test_move_up_noop_at_first_entry() {
    let mut tui = new_tui(&["a", "b"]);
    tui.handle_event(UserEvent::Up);
    assert_eq!(tui.cursor, 0);
    assert_eq!(tui.list_offset, 0);
}

#[test]
fn test_navigation_noop_on_empty_list() {
    let mut tui = new_tui(&["alpha"]);
    tui.handle_event(UserEvent::Edit(InputEdit::Insert('z')));
    assert_eq!(tui.filtered.len(), 0);
    tui.handle_event(UserEvent::Down);
    assert_eq!(tui.cursor, 0);
    tui.handle_event(UserEvent::Up);
    assert_eq!(tui.cursor, 0);
}

#[test]
fn test_toggle_action_is_involution() {
    let mut tui = new_tui(&["a"]);
    assert!(matches!(tui.action, Action::Run));
    tui.handle_event(UserEvent::ToggleAction);
    assert!(matches!(tui.action, Action::Build));
    tui.handle_event(UserEvent::ToggleAction);
    assert!(matches!(tui.action, Action::Run));
}

#[test]
fn test_quit_wins_regardless_of_state() {
    let mut tui = new_tui(&[]);
    let r = tui.handle_event(UserEvent::Quit);
    assert!(matches!(r, Some(Ret::Quit)));
}

#[test]
fn test_confirm_on_non_empty_list() {
    let mut tui = new_tui(&["alpha", "beta", "gamma"]);
    tui.handle_event(UserEvent::Down);
    let r = tui.handle_event(UserEvent::Execute);
    match r {
        Some(Ret::Selected(t, a)) => {
            assert_eq!(t.name, "beta");
            assert!(matches!(a, Action::Run));
        },
        _ => panic!("expected a selection"),
    }
}

#[test]
fn test_confirm_on_empty_list() {
    let mut tui = new_tui(&["alpha"]);
    tui.handle_event(UserEvent::Edit(InputEdit::Insert('x')));
    let r = tui.handle_event(UserEvent::Execute);
    assert!(matches!(r, Some(Ret::NotSelected)));
}

#[test]
fn test_resize_updates_height_only() {
    let mut tui = new_tui(&["a1", "a2", "a3"]);
    tui.handle_event(UserEvent::Down);
    tui.handle_event(UserEvent::Resize(10));
    assert_eq!(tui.list_height, 9);
    assert_eq!(tui.cursor, 1);
    // heights of zero or one still leave one visible row
    tui.handle_event(UserEvent::Resize(0));
    assert_eq!(tui.list_height, 1);
    tui.handle_event(UserEvent::Resize(1));
    assert_eq!(tui.list_height, 1);
}

#[test]
fn test_text_input_editing() {
    let mut tui = new_tui(&["abc"]);
    tui.handle_event(UserEvent::Edit(InputEdit::Insert('a')));
    tui.handle_event(UserEvent::Edit(InputEdit::Insert('c')));
    tui.handle_event(UserEvent::Edit(InputEdit::Left));
    tui.handle_event(UserEvent::Edit(InputEdit::Insert('b')));
    assert_eq!(tui.input.text, vec!['a', 'b', 'c']);
    assert_eq!(tui.input.cursor, 2);
    tui.handle_event(UserEvent::Edit(InputEdit::Backspace));
    assert_eq!(tui.input.text, vec!['a', 'c']);
    tui.handle_event(UserEvent::Edit(InputEdit::Delete));
    assert_eq!(tui.input.text, vec!['a']);
    tui.handle_event(UserEvent::Edit(InputEdit::Right));
    assert_eq!(tui.input.cursor, 1);
}

#[test]
fn test_fuzzy_mode_filters_by_subsequence() {
    let mut tui = Tui::new(
        targets(&["alpha", "beta", "gamma"]),
        24,
        Matcher::fuzzy(),
        ColorTheme::default(),
    );
    // "bt" is a subsequence of "beta" only, at the only possible offsets
    tui.handle_event(UserEvent::Edit(InputEdit::Insert('b')));
    tui.handle_event(UserEvent::Edit(InputEdit::Insert('t')));
    assert_eq!(indices(&tui), vec![1]);
    assert_eq!(tui.filtered[0].match_indices, vec![0, 2]);
}

#[test]
fn test_input_edits_at_boundaries() {
    let mut tui = new_tui(&["abc"]);
    // deletes and moves on an empty buffer change nothing
    tui.handle_event(UserEvent::Edit(InputEdit::Backspace));
    tui.handle_event(UserEvent::Edit(InputEdit::Delete));
    tui.handle_event(UserEvent::Edit(InputEdit::Left));
    tui.handle_event(UserEvent::Edit(InputEdit::Right));
    assert!(tui.input.text.is_empty());
    assert_eq!(tui.input.cursor, 0);
    // the cursor cannot move past the end
    tui.handle_event(UserEvent::Edit(InputEdit::Insert('a')));
    tui.handle_event(UserEvent::Edit(InputEdit::Right));
    assert_eq!(tui.input.cursor, 1);
}

#[test]
fn test_end_to_end_scenario() {
    let mut tui = new_tui(&["alpha", "beta", "gamma"]);
    // query "a": all three names contain it, order preserved
    tui.handle_event(UserEvent::Edit(InputEdit::Insert('a')));
    assert_eq!(indices(&tui), vec![0, 1, 2]);
    // query "al": only "alpha" survives
    tui.handle_event(UserEvent::Edit(InputEdit::Insert('l')));
    assert_eq!(indices(&tui), vec![0]);
    // moving down on a single-entry list is a no-op
    let r = tui.handle_event(UserEvent::Down);
    assert!(r.is_none());
    assert_eq!(tui.cursor, 0);
    // toggle then confirm: the selection carries Build
    tui.handle_event(UserEvent::ToggleAction);
    let r = tui.handle_event(UserEvent::Execute);
    match r {
        Some(Ret::Selected(t, a)) => {
            assert_eq!(t.name, "alpha");
            assert!(matches!(a, Action::Build));
        },
        _ => panic!("expected alpha to be selected"),
    }
}
