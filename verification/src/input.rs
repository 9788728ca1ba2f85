//! A reduced key dispatcher: plain next/previous selection without repeat
//! counts, and a line editor whose word deletion also drops the whitespace
//! that separated the removed word.

use crate::keys::{KeyCode, KeyEvent};
use crate::text::{drop_word_end, push_char, scan_back_word, scan_back_ws, trim_end_ws};
use vstd::prelude::*;
use vstd::string::StrSliceExecFns;

verus! {

/// The current input mode of the application.
#[derive(Debug, Clone, Copy, PartialEq, Eq)]
pub enum InputMode {
    Normal,
    Editing,
}

/// Actions that can be taken in normal mode.
#[derive(Debug, Clone, Copy, PartialEq, Eq)]
pub enum NormalModeAction {
    Quit,
    SelectNext,
    SelectPrev,
    EnterInput,
    NoOp,
}

/// The action a normal-mode key maps to. Modifiers are not consulted.
pub open spec fn spec_normal_action(key: KeyEvent) -> NormalModeAction {
    match key.code {
        KeyCode::Char(c) => {
            if c == 'q' {
                NormalModeAction::Quit
            } else if c == 'j' {
                NormalModeAction::SelectNext
            } else if c == 'k' {
                NormalModeAction::SelectPrev
            } else if c == 'i' {
                NormalModeAction::EnterInput
            } else {
                NormalModeAction::NoOp
            }
        }
        KeyCode::Down => NormalModeAction::SelectNext,
        KeyCode::Up => NormalModeAction::SelectPrev,
        _ => NormalModeAction::NoOp,
    }
}

/// Handles a key event in normal mode.
pub fn handle_normal_mode_key(key: &KeyEvent) -> (action: NormalModeAction)
    ensures
        action == spec_normal_action(*key),
{
    match key.code {
        KeyCode::Char(c) => {
            if c == 'q' {
                NormalModeAction::Quit
            } else if c == 'j' {
                NormalModeAction::SelectNext
            } else if c == 'k' {
                NormalModeAction::SelectPrev
            } else if c == 'i' {
                NormalModeAction::EnterInput
            } else {
                NormalModeAction::NoOp
            }
        }
        KeyCode::Down => NormalModeAction::SelectNext,
        KeyCode::Up => NormalModeAction::SelectPrev,
        _ => NormalModeAction::NoOp,
    }
}

/// Actions that can be taken in editing mode.
#[derive(Debug, Clone, Copy, PartialEq, Eq)]
pub enum EditingModeAction {
    Submit,
    Cancel,
    Edited,
    NoOp,
}

/// Word deletion that removes the trailing word together with the
/// whitespace that separated it from the rest of the line.
pub open spec fn spec_delete_prev_word(s: Seq<char>) -> Seq<char> {
    trim_end_ws(drop_word_end(trim_end_ws(s)))
}

/// Deletes the previous word from the input string, separator included.
pub fn delete_prev_word(input: &mut String)
    ensures
        final(input)@ == spec_delete_prev_word(old(input)@),
{
    let n: usize = input.as_str().unicode_len();
    let k1: usize = scan_back_ws(input.as_str(), n);
    let k2: usize = scan_back_word(input.as_str(), k1);
    let k3: usize = scan_back_ws(input.as_str(), k2);
    let r: String = input.as_str().substring_char(0, k3).to_owned();
    proof {
        assert(input@.take(n as int) =~= input@);
        assert(input@.subrange(0, k3 as int) =~= input@.take(k3 as int));
    }
    *input = r;
}

/// One editing-mode key: the new buffer contents and the action emitted.
pub open spec fn spec_edit(key: KeyEvent, s: Seq<char>) -> (Seq<char>, EditingModeAction) {
    let ctrl = key.modifiers.ctrl;
    match key.code {
        KeyCode::Enter => (s, EditingModeAction::Submit),
        KeyCode::Esc => (s, EditingModeAction::Cancel),
        KeyCode::Char(c) => {
            if ctrl && c == 'w' {
                (spec_delete_prev_word(s), EditingModeAction::Edited)
            } else if ctrl && c == 'u' {
                (Seq::empty(), EditingModeAction::Edited)
            } else {
                (s.push(c), EditingModeAction::Edited)
            }
        }
        KeyCode::Backspace => (
            if s.len() > 0 {
                s.drop_last()
            } else {
                s
            },
            EditingModeAction::Edited,
        ),
        _ => (s, EditingModeAction::NoOp),
    }
}

/// Handles a key event in editing mode, mutating the input string as needed.
pub fn handle_editing_mode_key(key: &KeyEvent, input: &mut String) -> (action: EditingModeAction)
    ensures
        final(input)@ == spec_edit(*key, old(input)@).0,
        action == spec_edit(*key, old(input)@).1,
{
    let ctrl: bool = key.modifiers.ctrl;
    match key.code {
        KeyCode::Enter => EditingModeAction::Submit,
        KeyCode::Esc => EditingModeAction::Cancel,
        KeyCode::Char(c) => {
            if ctrl && c == 'w' {
                delete_prev_word(input);
                EditingModeAction::Edited
            } else if ctrl && c == 'u' {
                *input = String::new();
                proof {
                    assert(input@ =~= Seq::<char>::empty());
                }
                EditingModeAction::Edited
            } else {
                push_char(input, c);
                EditingModeAction::Edited
            }
        }
        KeyCode::Backspace => {
            pop_last_char(input);
            EditingModeAction::Edited
        }
        _ => EditingModeAction::NoOp,
    }
}

/// Removes the final character of `input`, if any.
fn pop_last_char(input: &mut String)
    ensures
        final(input)@ == if old(input)@.len() > 0 {
            old(input)@.drop_last()
        } else {
            old(input)@
        },
{
    let n: usize = input.as_str().unicode_len();
    if n > 0 {
        let r: String = input.as_str().substring_char(0, n - 1).to_owned();
        proof {
            assert(input@.subrange(0, n - 1) =~= input@.drop_last());
        }
        *input = r;
    }
}

} // verus!
