use cargo_selector::Action;
use cargo_selector::Target;
use cargo_selector::TargetKind;
use cargo_selector::color::Color;
use cargo_selector::color::ColorTheme;
use cargo_selector::event::UserEvent;
use cargo_selector::input::InputEdit;
use cargo_selector::matcher::Matcher;
use cargo_selector::tui::Tui;

fn target(name: &str, path: &str, features: &[&str]) -> Target {
    Target {
        name: name.to_string(),
        kind: TargetKind::Bin,
        path: path.to_string(),
        required_features: features.iter().map(|f| f.to_string()).collect(),
    }
}

fn new_tui(targets: Vec<Target>) -> Tui {
    Tui::new(targets, 24, Matcher::substring(), ColorTheme::default())
}

#[test]
fn test_input_row_layout() {
    let tui = new_tui(vec![
        target("alpha", "src/main.rs", &[]),
        target("beta", "src/bin/beta.rs", &[]),
    ]);
    let (spans, caret) = tui.render_input(40);
    assert_eq!(spans.len(), 6);
    assert_eq!(spans[0].content, "  run  ");
    assert_eq!(spans[0].fg, Some(Color::Black));
    assert_eq!(spans[0].bg, Some(Color::Green));
    assert_eq!(spans[1].content, " ");
    // 2 targets -> 1 digit -> counter width 7 -> query field 40 - 17 = 23
    assert_eq!(spans[2].content, " ".repeat(23));
    assert_eq!(spans[4].content, "(1 / 2)");
    assert_eq!(spans[4].fg, Some(Color::DarkGray));
    assert_eq!(caret, 8);
}

#[test]
fn test_input_row_build_label_and_counter() {
    let mut tui = new_tui(vec![
        target("alpha", "a.rs", &[]),
        target("beta", "b.rs", &[]),
        target("gamma", "c.rs", &[]),
    ]);
    tui.handle_event(UserEvent::ToggleAction);
    tui.handle_event(UserEvent::Down);
    tui.handle_event(UserEvent::Down);
    let (spans, _) = tui.render_input(60);
    assert_eq!(spans[0].content, " build ");
    assert_eq!(spans[0].bg, Some(Color::Blue));
    assert_eq!(spans[4].content, "(3 / 3)");
}

#[test]
fn test_input_row_counter_blank_when_empty() {
    let mut tui = new_tui(vec![target("alpha", "a.rs", &[])]);
    tui.handle_event(UserEvent::Edit(InputEdit::Insert('z')));
    let (spans, caret) = tui.render_input(40);
    assert_eq!(spans[4].content, "");
    // the query "z" sits left-aligned in its field
    assert!(spans[2].content.starts_with('z'));
    assert_eq!(caret, 9);
}

#[test]
fn test_input_row_counter_pads_to_digit_width() {
    let targets: Vec<Target> = (0..12).map(|i| target(&format!("t{}", i), "x.rs", &[])).collect();
    let tui = new_tui(targets);
    let (spans, _) = tui.render_input(60);
    // 12 targets -> 2 digits -> the position is right-aligned
    assert_eq!(spans[4].content, "( 1 / 12)");
}

#[test]
fn test_list_row_columns() {
    let tui = new_tui(vec![target("alpha", "src/main.rs", &[])]);
    let rows = tui.render_list(80);
    assert_eq!(rows.len(), 1);
    let spans = &rows[0].spans;
    // separator, kind, separator, 5 name chars, padding, separator,
    // path, separator, features, separator
    assert_eq!(spans[0].content, " ");
    assert_eq!(spans[1].content, "bin    ");
    assert_eq!(spans[1].fg, Some(Color::Blue));
    assert_eq!(spans[2].content, " ");
    let name: String = (3..8).map(|i| spans[i].content.clone()).collect();
    assert_eq!(name, "alpha");
    assert_eq!(spans[8].content, " ".repeat(20));
    assert_eq!(spans[9].content, " ");
    assert_eq!(spans[10].content, format!("{:30}", "src/main.rs"));
    assert_eq!(spans[10].fg, Some(Color::DarkGray));
    // no features: the cell is all spaces, 80 - 67 = 13 wide
    assert_eq!(spans[12].content, " ".repeat(13));
    assert_eq!(rows[0].bg, Some(Color::Yellow));
}

#[test]
fn test_list_row_example_kind_and_features() {
    let mut t = target("demo", "examples/demo.rs", &["f1", "f2"]);
    t.kind = TargetKind::Example;
    let tui = new_tui(vec![t]);
    let rows = tui.render_list(120);
    let spans = &rows[0].spans;
    assert_eq!(spans[1].content, "example");
    // "demo": four name chars and one padding span, so the features cell
    // sits at index 11
    let features = &spans[11].content;
    assert!(features.starts_with("--features [\"f1\", \"f2\"]"));
}

#[test]
fn test_long_name_truncated_with_ellipsis() {
    let long = "a_very_long_target_name_that_overflows";
    let tui = new_tui(vec![target(long, "x.rs", &[])]);
    let rows = tui.render_list(80);
    let spans = &rows[0].spans;
    // 25 one-char name spans, no padding span
    let name: String = (3..28).map(|i| spans[i].content.clone()).collect();
    assert_eq!(name.len(), 25);
    assert!(name.ends_with(".."));
    assert_eq!(&name[..23], &long[..23]);
    assert_eq!(spans[28].content, " ");
}

#[test]
fn test_matched_name_chars_highlighted() {
    let mut tui = new_tui(vec![target("hello", "x.rs", &[])]);
    tui.handle_event(UserEvent::Edit(InputEdit::Insert('l')));
    tui.handle_event(UserEvent::Edit(InputEdit::Insert('l')));
    let rows = tui.render_list(80);
    let spans = &rows[0].spans;
    // "ll" matches at offsets 2 and 3
    assert_eq!(spans[3].fg, Some(Color::White));
    assert_eq!(spans[4].fg, Some(Color::White));
    assert_eq!(spans[5].fg, Some(Color::Red));
    assert_eq!(spans[6].fg, Some(Color::Red));
    assert_eq!(spans[7].fg, Some(Color::White));
}

#[test]
fn test_selected_row_background() {
    let mut tui = new_tui(vec![target("a", "a.rs", &[]), target("b", "b.rs", &[])]);
    tui.handle_event(UserEvent::Down);
    let rows = tui.render_list(80);
    assert_eq!(rows[0].bg, None);
    assert_eq!(rows[1].bg, Some(Color::Yellow));
}

#[test]
fn test_list_window_bounded_by_offset_and_height() {
    let targets: Vec<Target> = (0..6).map(|i| target(&format!("t{}", i), "x.rs", &[])).collect();
    let mut tui = new_tui(targets);
    tui.handle_event(UserEvent::Resize(3));  // two visible rows
    tui.handle_event(UserEvent::Down);
    tui.handle_event(UserEvent::Down);
    tui.handle_event(UserEvent::Down);
    // cursor 3, offset 2: rows t2 and t3 visible
    let rows = tui.render_list(80);
    assert_eq!(rows.len(), 2);
    let name_of = |row: &cargo_selector::render::ListRow, len: usize| -> String {
        (3..3 + len).map(|i| row.spans[i].content.clone()).collect()
    };
    assert_eq!(name_of(&rows[0], 2), "t2");
    assert_eq!(name_of(&rows[1], 2), "t3");
    assert_eq!(rows[0].bg, None);
    assert_eq!(rows[1].bg, Some(Color::Yellow));
}

#[test]
fn test_render_combines_input_and_rows() {
    let tui = new_tui(vec![target("alpha", "a.rs", &[])]);
    let frame = tui.render(80);
    assert_eq!(frame.input_spans.len(), 6);
    assert_eq!(frame.caret_col, 8);
    assert_eq!(frame.rows.len(), 1);
}

#[test]
fn test_narrow_terminal_clamps_widths() {
    let tui = new_tui(vec![target("alpha", "a.rs", &["feat"])]);
    // narrower than the fixed columns: the flexible cells floor at zero
    let (spans, _) = tui.render_input(10);
    assert_eq!(spans[2].content, "");
    let rows = tui.render_list(10);
    assert!(rows[0].spans[12].content.len() <= 2);
}
