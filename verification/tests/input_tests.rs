use jira_tui::input as basic;
use jira_tui::keys::{KeyCode, KeyEvent, KeyModifiers};
use jira_tui::ui::input::{
    delete_prev_word, handle_editing_mode_key, handle_normal_mode_key, EditingModeAction,
    NormalModeAction,
};

fn plain(c: char) -> KeyEvent {
    KeyEvent::new(KeyCode::Char(c), KeyModifiers::none())
}

fn ctrl(c: char) -> KeyEvent {
    KeyEvent::new(KeyCode::Char(c), KeyModifiers::control())
}

#[test]
fn test_delete_prev_word() {
    let mut s = String::from("hello world");
    delete_prev_word(&mut s);
    assert_eq!(s, "hello ");

    let mut s = String::from("hello  world");
    delete_prev_word(&mut s);
    assert_eq!(s, "hello  ");

    let mut s = String::from("hello ");
    delete_prev_word(&mut s);
    assert_eq!(s, "");

    let mut s = String::from("one two three");
    delete_prev_word(&mut s);
    assert_eq!(s, "one two ");

    let mut s = String::from("singleword");
    delete_prev_word(&mut s);
    assert_eq!(s, "");
}

#[test]
fn input_test_delete_prev_word() {
    let mut s = String::from("hello world");
    basic::delete_prev_word(&mut s);
    assert_eq!(s, "hello");

    let mut s = String::from("hello ");
    basic::delete_prev_word(&mut s);
    assert_eq!(s, "");

    let mut s = String::from("one two three");
    basic::delete_prev_word(&mut s);
    assert_eq!(s, "one two");

    let mut s = String::from("singleword");
    basic::delete_prev_word(&mut s);
    assert_eq!(s, "");
}

#[test]
fn test_handle_editing_mode_key_ctrl_u() {
    let mut s = String::from("something here");
    let key = KeyEvent::new(KeyCode::Char('u'), KeyModifiers::control());
    let action = handle_editing_mode_key(&key, &mut s);
    assert_eq!(s, "");
    assert_eq!(action, EditingModeAction::Edited);
}

#[test]
fn input_test_handle_editing_mode_key_ctrl_u() {
    let mut s = String::from("something here");
    let key = KeyEvent::new(KeyCode::Char('u'), KeyModifiers::control());
    let action = basic::handle_editing_mode_key(&key, &mut s);
    assert_eq!(s, "");
    assert_eq!(action, basic::EditingModeAction::Edited);
}

#[test]
fn test_handle_editing_mode_key_ctrl_w() {
    let mut s = String::from("foo bar baz");
    let key = KeyEvent::new(KeyCode::Char('w'), KeyModifiers::control());
    let action = handle_editing_mode_key(&key, &mut s);
    assert_eq!(s, "foo bar ");
    assert_eq!(action, EditingModeAction::Edited);
}

#[test]
fn input_test_handle_editing_mode_key_ctrl_w() {
    let mut s = String::from("foo bar baz");
    let key = KeyEvent::new(KeyCode::Char('w'), KeyModifiers::control());
    let action = basic::handle_editing_mode_key(&key, &mut s);
    assert_eq!(s, "foo bar");
    assert_eq!(action, basic::EditingModeAction::Edited);
}

#[test]
fn digit_prefix_accumulates_decimal_value() {
    let mut pending: Option<usize> = None;
    assert_eq!(
        handle_normal_mode_key(&plain('1'), &mut pending),
        NormalModeAction::NoOp
    );
    assert_eq!(pending, Some(1));
    assert_eq!(
        handle_normal_mode_key(&plain('0'), &mut pending),
        NormalModeAction::NoOp
    );
    assert_eq!(pending, Some(10));
    assert_eq!(
        handle_normal_mode_key(&plain('5'), &mut pending),
        NormalModeAction::NoOp
    );
    assert_eq!(pending, Some(105));
    assert_eq!(
        handle_normal_mode_key(&plain('j'), &mut pending),
        NormalModeAction::Jump(105)
    );
    assert_eq!(pending, None);
}

#[test]
fn bare_zero_does_not_start_a_count() {
    let mut pending: Option<usize> = None;
    assert_eq!(
        handle_normal_mode_key(&plain('0'), &mut pending),
        NormalModeAction::NoOp
    );
    assert_eq!(pending, None);
    assert_eq!(
        handle_normal_mode_key(&plain('j'), &mut pending),
        NormalModeAction::Jump(1)
    );
}

#[test]
fn pending_count_is_consumed_by_any_resolving_key() {
    let mut pending: Option<usize> = None;
    handle_normal_mode_key(&plain('7'), &mut pending);
    assert_eq!(pending, Some(7));
    // A key mapped to no action still consumes the count.
    assert_eq!(
        handle_normal_mode_key(&plain('x'), &mut pending),
        NormalModeAction::NoOp
    );
    assert_eq!(pending, None);

    handle_normal_mode_key(&plain('4'), &mut pending);
    assert_eq!(
        handle_normal_mode_key(&plain('k'), &mut pending),
        NormalModeAction::Jump(-4)
    );
    assert_eq!(pending, None);
}

#[test]
fn normal_mode_key_map() {
    let mut pending: Option<usize> = None;
    assert_eq!(
        handle_normal_mode_key(&plain('q'), &mut pending),
        NormalModeAction::Quit
    );
    assert_eq!(
        handle_normal_mode_key(&plain('i'), &mut pending),
        NormalModeAction::EnterInput
    );
    assert_eq!(
        handle_normal_mode_key(&plain('g'), &mut pending),
        NormalModeAction::GotoTop
    );
    assert_eq!(
        handle_normal_mode_key(&plain('G'), &mut pending),
        NormalModeAction::GotoBottom
    );
    assert_eq!(
        handle_normal_mode_key(&plain('s'), &mut pending),
        NormalModeAction::ToggleSidebar
    );
    assert_eq!(
        handle_normal_mode_key(&plain('d'), &mut pending),
        NormalModeAction::Jump(20)
    );
    assert_eq!(
        handle_normal_mode_key(&plain('u'), &mut pending),
        NormalModeAction::Jump(-20)
    );
    assert_eq!(
        handle_normal_mode_key(&KeyEvent::new(KeyCode::Down, KeyModifiers::none()), &mut pending),
        NormalModeAction::Jump(1)
    );
    assert_eq!(
        handle_normal_mode_key(&KeyEvent::new(KeyCode::Up, KeyModifiers::none()), &mut pending),
        NormalModeAction::Jump(-1)
    );
    assert_eq!(
        handle_normal_mode_key(&ctrl('e'), &mut pending),
        NormalModeAction::Scroll(1)
    );
    assert_eq!(
        handle_normal_mode_key(&ctrl('y'), &mut pending),
        NormalModeAction::Scroll(-1)
    );
    // A modifier disables the plain bindings.
    assert_eq!(
        handle_normal_mode_key(&ctrl('j'), &mut pending),
        NormalModeAction::NoOp
    );
}

#[test]
fn editing_mode_appends_and_erases() {
    let mut s = String::from("ab");
    assert_eq!(
        handle_editing_mode_key(&plain('c'), &mut s),
        EditingModeAction::Edited
    );
    assert_eq!(s, "abc");
    let backspace = KeyEvent::new(KeyCode::Backspace, KeyModifiers::none());
    assert_eq!(
        handle_editing_mode_key(&backspace, &mut s),
        EditingModeAction::Edited
    );
    assert_eq!(s, "ab");
    let enter = KeyEvent::new(KeyCode::Enter, KeyModifiers::none());
    assert_eq!(handle_editing_mode_key(&enter, &mut s), EditingModeAction::Submit);
    assert_eq!(s, "ab");
    let esc = KeyEvent::new(KeyCode::Esc, KeyModifiers::none());
    assert_eq!(handle_editing_mode_key(&esc, &mut s), EditingModeAction::Cancel);
    assert_eq!(s, "ab");
    let other = KeyEvent::new(KeyCode::Other, KeyModifiers::none());
    assert_eq!(handle_editing_mode_key(&other, &mut s), EditingModeAction::NoOp);
    assert_eq!(s, "ab");
}

#[test]
fn editing_handles_multibyte_characters() {
    let mut s = String::from("héllo wörld");
    delete_prev_word(&mut s);
    assert_eq!(s, "héllo ");

    let mut s = String::from("héllo");
    let backspace = KeyEvent::new(KeyCode::Backspace, KeyModifiers::none());
    handle_editing_mode_key(&backspace, &mut s);
    assert_eq!(s, "héll");

    let mut s = String::from("a\tb");
    delete_prev_word(&mut s);
    assert_eq!(s, "a\t");
}

#[test]
fn unbound_control_chords_are_ignored() {
    let mut s = String::from("kept");
    for c in ['a', 'x', 'W', 'U', '1'] {
        let action = handle_editing_mode_key(&ctrl(c), &mut s);
        assert_eq!(action, EditingModeAction::NoOp);
        assert_eq!(s, "kept");
    }
}

#[test]
fn plain_w_is_just_a_character() {
    let mut s = String::from("gro");
    let action = handle_editing_mode_key(&plain('w'), &mut s);
    assert_eq!(s, "grow");
    assert_eq!(action, EditingModeAction::Edited);
}

#[test]
fn ctrl_u_clears_any_buffer() {
    for text in ["", "a", "many words in here", "  padded  "] {
        let mut s = String::from(text);
        let action = handle_editing_mode_key(&ctrl('u'), &mut s);
        assert_eq!(s, "");
        assert_eq!(action, EditingModeAction::Edited);
    }
}
