use jira_tui::app::App;
use jira_tui::keys::{KeyCode, KeyEvent, KeyModifiers};
use jira_tui::selection::{apply_action, apply_jump, goto_bottom, goto_top, SelectionState};
use jira_tui::ui::input::{InputMode, NormalModeAction};
use jira_tui::ui::issue::Issue;

fn plain(c: char) -> KeyEvent {
    KeyEvent::new(KeyCode::Char(c), KeyModifiers::none())
}

fn ctrl(c: char) -> KeyEvent {
    KeyEvent::new(KeyCode::Char(c), KeyModifiers::control())
}

fn issues(n: usize) -> Vec<Issue> {
    (0..n)
        .map(|i| Issue::new(format!("issue {i}"), String::new()))
        .collect()
}

#[test]
fn goto_reaches_the_ends_of_the_list() {
    let st = SelectionState { selected: Some(2), offset: 1 };
    assert_eq!(goto_bottom(st, 5).selected, Some(4));
    assert_eq!(goto_top(st, 5).selected, Some(0));
    // Offsets are left alone.
    assert_eq!(goto_bottom(st, 5).offset, 1);
}

#[test]
fn empty_list_never_gains_a_selection() {
    let st = SelectionState { selected: None, offset: 0 };
    let actions = [
        NormalModeAction::Jump(3),
        NormalModeAction::Jump(-3),
        NormalModeAction::Scroll(2),
        NormalModeAction::GotoTop,
        NormalModeAction::GotoBottom,
    ];
    for a in actions {
        assert_eq!(apply_action(st, 0, &a).selected, None);
    }
}

#[test]
fn jump_round_trip_returns_to_the_start() {
    let st = SelectionState { selected: Some(5), offset: 0 };
    let there = apply_jump(st, 10, 3);
    assert_eq!(there.selected, Some(8));
    let back = apply_jump(there, 10, -3);
    assert_eq!(back, st);
}

#[test]
fn jump_clamps_at_both_ends() {
    let st = SelectionState { selected: Some(8), offset: 0 };
    assert_eq!(apply_jump(st, 10, 5).selected, Some(9));
    let st = SelectionState { selected: Some(1), offset: 0 };
    assert_eq!(apply_jump(st, 10, -5).selected, Some(0));
}

#[test]
fn app_starts_on_the_first_issue() {
    let app = App::new(issues(3));
    assert_eq!(app.list_state.selected, Some(0));
    assert_eq!(app.input_mode, InputMode::Normal);
    assert_eq!(app.input, "");
    assert!(!app.sidebar_visible);

    let empty = App::new(Vec::new());
    assert_eq!(empty.list_state.selected, None);
}

#[test]
fn app_moves_with_counted_jumps() {
    let mut app = App::new(issues(3));
    let mut pending: Option<usize> = None;
    assert!(!app.on_key(&plain('j'), &mut pending));
    assert_eq!(app.list_state.selected, Some(1));
    // A count larger than the list clamps at the last row.
    app.on_key(&plain('9'), &mut pending);
    app.on_key(&plain('j'), &mut pending);
    assert_eq!(app.list_state.selected, Some(2));
    app.on_key(&plain('g'), &mut pending);
    assert_eq!(app.list_state.selected, Some(0));
    app.on_key(&plain('G'), &mut pending);
    assert_eq!(app.list_state.selected, Some(2));
}

#[test]
fn app_scrolls_the_viewport_only() {
    let mut app = App::new(issues(4));
    let mut pending: Option<usize> = None;
    app.on_key(&ctrl('e'), &mut pending);
    assert_eq!(app.list_state.offset, 1);
    assert_eq!(app.list_state.selected, Some(0));
    app.on_key(&ctrl('y'), &mut pending);
    assert_eq!(app.list_state.offset, 0);
}

#[test]
fn app_submits_a_typed_issue() {
    let mut app = App::new(issues(2));
    let mut pending: Option<usize> = None;
    app.on_key(&plain('i'), &mut pending);
    assert_eq!(app.input_mode, InputMode::Insert);
    for c in "  fix the build  ".chars() {
        app.on_key(&plain(c), &mut pending);
    }
    let enter = KeyEvent::new(KeyCode::Enter, KeyModifiers::none());
    assert!(!app.on_key(&enter, &mut pending));
    assert_eq!(app.input_mode, InputMode::Normal);
    assert_eq!(app.issues.len(), 3);
    assert_eq!(app.issues[2].summary, "fix the build");
    assert_eq!(app.list_state.selected, Some(2));
    assert_eq!(app.input, "");
    assert_eq!(app.input_state.cursor, 0);
}

#[test]
fn app_does_not_submit_a_blank_buffer() {
    let mut app = App::new(issues(2));
    let mut pending: Option<usize> = None;
    app.on_key(&plain('i'), &mut pending);
    app.on_key(&plain(' '), &mut pending);
    let enter = KeyEvent::new(KeyCode::Enter, KeyModifiers::none());
    app.on_key(&enter, &mut pending);
    assert_eq!(app.issues.len(), 2);
    assert_eq!(app.input_mode, InputMode::Normal);
    // The buffer is cleared on submit even when nothing was appended.
    assert_eq!(app.input, "");
}

#[test]
fn app_cancel_retains_the_buffer() {
    let mut app = App::new(issues(1));
    let mut pending: Option<usize> = None;
    app.on_key(&plain('i'), &mut pending);
    app.on_key(&plain('d'), &mut pending);
    app.on_key(&plain('r'), &mut pending);
    app.on_key(&plain('a'), &mut pending);
    let esc = KeyEvent::new(KeyCode::Esc, KeyModifiers::none());
    app.on_key(&esc, &mut pending);
    assert_eq!(app.input_mode, InputMode::Normal);
    assert_eq!(app.input, "dra");
    assert_eq!(app.issues.len(), 1);
}

#[test]
fn app_toggles_the_sidebar_and_quits() {
    let mut app = App::new(issues(1));
    let mut pending: Option<usize> = None;
    app.on_key(&plain('s'), &mut pending);
    assert!(app.sidebar_visible);
    app.on_key(&plain('s'), &mut pending);
    assert!(!app.sidebar_visible);
    assert!(app.on_key(&plain('q'), &mut pending));
}
