//! Key handling for both input modes.
//!
//! Normal mode turns key events into domain actions, accumulating a
//! vim-style numeric repeat count from digit keys. Insert mode edits a
//! single-line text buffer. Both dispatchers are pure apart from the
//! caller-supplied cell they update, and each key yields exactly one action.

use crate::keys::{KeyCode, KeyEvent, KeyModifiers};
use crate::text::{drop_word_end, push_char, scan_back_word, scan_back_ws, trim_end_ws};
use vstd::prelude::*;
use vstd::string::StrSliceExecFns;

verus! {

/// The current input mode of the application.
#[derive(Debug, Clone, Copy, PartialEq, Eq)]
pub enum InputMode {
    Normal,
    Insert,
}

/// State for the text input widget: the cursor position, as a character
/// offset into the buffer.
#[derive(Debug, Clone, PartialEq, Eq, Default)]
pub struct TextInputState {
    pub cursor: usize,
}

impl TextInputState {
    pub fn new(cursor: usize) -> (s: Self)
        ensures
            s.cursor == cursor,
    {
        TextInputState { cursor }
    }
}

/// Actions that can be taken in normal mode.
#[derive(Debug, Clone, Copy, PartialEq, Eq)]
pub enum NormalModeAction {
    Quit,
    Jump(isize),
    Scroll(isize),
    EnterInput,
    GotoTop,
    GotoBottom,
    ToggleSidebar,
    NoOp,
}

/// An ASCII digit key.
pub open spec fn is_ascii_digit(c: char) -> bool {
    0x30 <= c as u32 && c as u32 <= 0x39
}

/// The numeric value of an ASCII digit key.
pub open spec fn digit_val(c: char) -> int {
    c as u32 - 0x30
}

/// Whether this key is swallowed into the pending repeat count: a digit key,
/// unless it is a zero with no count already pending.
pub open spec fn accumulates(key: KeyEvent, pending: Option<usize>) -> bool {
    match key.code {
        KeyCode::Char(c) => is_ascii_digit(c) && !(c as u32 == 0x30 && pending is None),
        _ => false,
    }
}

/// The pending count after one more digit, saturating at the machine limit.
pub open spec fn accum_step(pending: Option<usize>, c: char) -> usize {
    let cur: int = match pending {
        Option::Some(n) => n as int,
        Option::None => 0,
    };
    let v = cur * 10 + digit_val(c);
    if v > usize::MAX {
        usize::MAX
    } else {
        v as usize
    }
}

/// The repeat count as a signed jump distance, saturating at the limit.
pub open spec fn count_delta(count: usize) -> isize {
    if count > isize::MAX as usize {
        isize::MAX
    } else {
        count as isize
    }
}

/// The repeat count negated, saturating at the limit.
pub open spec fn neg_count_delta(count: usize) -> isize {
    if count > isize::MAX as usize {
        (-(isize::MAX as int)) as isize
    } else {
        (-(count as int)) as isize
    }
}

/// The action a resolving normal-mode key maps to, given the consumed
/// repeat count.
pub open spec fn spec_resolve(count: usize, key: KeyEvent) -> NormalModeAction {
    let m = key.modifiers;
    match key.code {
        KeyCode::Char(c) => {
            if m.spec_is_none() {
                if c == 'j' {
                    NormalModeAction::Jump(count_delta(count))
                } else if c == 'k' {
                    NormalModeAction::Jump(neg_count_delta(count))
                } else if c == 'd' {
                    NormalModeAction::Jump(20isize)
                } else if c == 'u' {
                    NormalModeAction::Jump(-20isize)
                } else if c == 'i' {
                    NormalModeAction::EnterInput
                } else if c == 'g' {
                    NormalModeAction::GotoTop
                } else if c == 'G' {
                    NormalModeAction::GotoBottom
                } else if c == 's' {
                    NormalModeAction::ToggleSidebar
                } else if c == 'q' {
                    NormalModeAction::Quit
                } else {
                    NormalModeAction::NoOp
                }
            } else if m.spec_is_only_ctrl() {
                if c == 'e' {
                    NormalModeAction::Scroll(count_delta(count))
                } else if c == 'y' {
                    NormalModeAction::Scroll(neg_count_delta(count))
                } else {
                    NormalModeAction::NoOp
                }
            } else {
                NormalModeAction::NoOp
            }
        }
        KeyCode::Down => {
            if m.spec_is_none() {
                NormalModeAction::Jump(count_delta(count))
            } else {
                NormalModeAction::NoOp
            }
        }
        KeyCode::Up => {
            if m.spec_is_none() {
                NormalModeAction::Jump(neg_count_delta(count))
            } else {
                NormalModeAction::NoOp
            }
        }
        _ => NormalModeAction::NoOp,
    }
}

/// One normal-mode key: the new pending count and the action emitted.
pub open spec fn spec_normal_dispatch(key: KeyEvent, pending: Option<usize>) -> (
    Option<usize>,
    NormalModeAction,
) {
    if accumulates(key, pending) {
        (Option::Some(accum_step(pending, key.code->0)), NormalModeAction::NoOp)
    } else {
        let count: usize = match pending {
            Option::Some(n) => n,
            Option::None => 1,
        };
        (Option::None, spec_resolve(count, key))
    }
}

/// Handles a key event in normal mode, supporting numeric prefixes.
/// Digit keys are swallowed into the pending count; every other key consumes
/// the count (defaulting to one) and resolves to an action.
pub fn handle_normal_mode_key(key: &KeyEvent, pending_count: &mut Option<usize>) -> (action:
    NormalModeAction)
    ensures
        *final(pending_count) == spec_normal_dispatch(*key, *old(pending_count)).0,
        action == spec_normal_dispatch(*key, *old(pending_count)).1,
{
    if let KeyCode::Char(c) = key.code {
        let u: u32 = c as u32;
        let bare_zero: bool = u == 0x30 && pending_count.is_none();
        if 0x30 <= u && u <= 0x39 && !bare_zero {
            let digit: usize = (u - 0x30) as usize;
            let cur: usize = match *pending_count {
                Some(n) => n,
                None => 0,
            };
            let next: usize = if cur < usize::MAX / 10 || (cur == usize::MAX / 10 && digit
                <= usize::MAX % 10) {
                cur * 10 + digit
            } else {
                usize::MAX
            };
            *pending_count = Some(next);
            return NormalModeAction::NoOp;
        }
    }
    let count: usize = match *pending_count {
        Some(n) => n,
        None => 1,
    };
    *pending_count = None;
    resolve_action(count, key)
}

/// Resolves a non-digit normal-mode key against the consumed repeat count.
fn resolve_action(count: usize, key: &KeyEvent) -> (action: NormalModeAction)
    ensures
        action == spec_resolve(count, *key),
{
    let delta: isize = if count > (isize::MAX as usize) {
        isize::MAX
    } else {
        count as isize
    };
    let neg_delta: isize = if count > (isize::MAX as usize) {
        -isize::MAX
    } else {
        -(count as isize)
    };
    match key.code {
        KeyCode::Char(c) => {
            if key.modifiers.is_none() {
                if c == 'j' {
                    NormalModeAction::Jump(delta)
                } else if c == 'k' {
                    NormalModeAction::Jump(neg_delta)
                } else if c == 'd' {
                    NormalModeAction::Jump(20)
                } else if c == 'u' {
                    NormalModeAction::Jump(-20)
                } else if c == 'i' {
                    NormalModeAction::EnterInput
                } else if c == 'g' {
                    NormalModeAction::GotoTop
                } else if c == 'G' {
                    NormalModeAction::GotoBottom
                } else if c == 's' {
                    NormalModeAction::ToggleSidebar
                } else if c == 'q' {
                    NormalModeAction::Quit
                } else {
                    NormalModeAction::NoOp
                }
            } else if key.modifiers.is_only_ctrl() {
                if c == 'e' {
                    NormalModeAction::Scroll(delta)
                } else if c == 'y' {
                    NormalModeAction::Scroll(neg_delta)
                } else {
                    NormalModeAction::NoOp
                }
            } else {
                NormalModeAction::NoOp
            }
        }
        KeyCode::Down => {
            if key.modifiers.is_none() {
                NormalModeAction::Jump(delta)
            } else {
                NormalModeAction::NoOp
            }
        }
        KeyCode::Up => {
            if key.modifiers.is_none() {
                NormalModeAction::Jump(neg_delta)
            } else {
                NormalModeAction::NoOp
            }
        }
        _ => NormalModeAction::NoOp,
    }
}

/// Actions that can be taken in editing mode.
#[derive(Debug, Clone, Copy, PartialEq, Eq)]
pub enum EditingModeAction {
    Submit,
    Cancel,
    Edited,
    NoOp,
}

/// Delete-previous-word: drop the trailing whitespace, then the trailing
/// word, keeping the whitespace that separated it from the rest.
pub open spec fn spec_delete_prev_word(s: Seq<char>) -> Seq<char> {
    drop_word_end(trim_end_ws(s))
}

/// Deletes the previous word from the input string.
pub fn delete_prev_word(input: &mut String)
    ensures
        final(input)@ == spec_delete_prev_word(old(input)@),
{
    let n: usize = input.as_str().unicode_len();
    let k1: usize = scan_back_ws(input.as_str(), n);
    let k2: usize = scan_back_word(input.as_str(), k1);
    let r: String = input.as_str().substring_char(0, k2).to_owned();
    proof {
        assert(input@.take(n as int) =~= input@);
        assert(input@.subrange(0, k2 as int) =~= input@.take(k2 as int));
    }
    *input = r;
}

/// Removes the final character of `input`, if any.
fn pop_char(input: &mut String)
    ensures
        final(input)@ == if old(input)@.len() > 0 {
            old(input)@.drop_last()
        } else {
            old(input)@
        },
{
    let n: usize = input.as_str().unicode_len();
    if n > 0 {
        let r: String = input.as_str().substring_char(0, n - 1).to_owned();
        proof {
            assert(input@.subrange(0, n - 1) =~= input@.drop_last());
        }
        *input = r;
    }
}

/// One insert-mode key: the new buffer contents and the action emitted.
pub open spec fn spec_edit(key: KeyEvent, s: Seq<char>) -> (Seq<char>, EditingModeAction) {
    let ctrl = key.modifiers.ctrl;
    match key.code {
        KeyCode::Enter => (s, EditingModeAction::Submit),
        KeyCode::Esc => (s, EditingModeAction::Cancel),
        KeyCode::Char(c) => {
            if ctrl && c == 'w' {
                (spec_delete_prev_word(s), EditingModeAction::Edited)
            } else if ctrl && c == 'u' {
                (Seq::empty(), EditingModeAction::Edited)
            } else if ctrl {
                (s, EditingModeAction::NoOp)
            } else {
                (s.push(c), EditingModeAction::Edited)
            }
        }
        KeyCode::Backspace => (
            if s.len() > 0 {
                s.drop_last()
            } else {
                s
            },
            EditingModeAction::Edited,
        ),
        _ => (s, EditingModeAction::NoOp),
    }
}

/// Handles a key event in editing mode, mutating the input string as needed.
/// Enter submits and Escape cancels, both leaving the buffer as it was;
/// control-`w` deletes the previous word, control-`u` clears the buffer, and
/// any other control chord is ignored; a plain character is appended at the
/// end.
pub fn handle_editing_mode_key(key: &KeyEvent, input: &mut String) -> (action: EditingModeAction)
    ensures
        final(input)@ == spec_edit(*key, old(input)@).0,
        action == spec_edit(*key, old(input)@).1,
{
    let ctrl: bool = key.modifiers.ctrl;
    match key.code {
        KeyCode::Enter => EditingModeAction::Submit,
        KeyCode::Esc => EditingModeAction::Cancel,
        KeyCode::Char(c) => {
            if ctrl && c == 'w' {
                delete_prev_word(input);
                EditingModeAction::Edited
            } else if ctrl && c == 'u' {
                *input = String::new();
                proof {
                    assert(input@ =~= Seq::<char>::empty());
                }
                EditingModeAction::Edited
            } else if ctrl {
                EditingModeAction::NoOp
            } else {
                push_char(input, c);
                EditingModeAction::Edited
            }
        }
        KeyCode::Backspace => {
            pop_char(input);
            EditingModeAction::Edited
        }
        _ => EditingModeAction::NoOp,
    }
}

/// A character key with no modifiers held.
pub open spec fn plain_key(c: char) -> KeyEvent {
    KeyEvent {
        code: KeyCode::Char(c),
        modifiers: KeyModifiers { ctrl: false, shift: false, alt: false },
    }
}

/// The decimal value of a sequence of digit keys.
pub open spec fn decimal_of(ds: Seq<char>) -> int
    decreases ds.len(),
{
    if ds.len() == 0 {
        0
    } else {
        decimal_of(ds.drop_last()) * 10 + digit_val(ds.last())
    }
}

/// The pending count once the dispatcher has seen each key of `ds` in turn.
pub open spec fn feed_digits(pending: Option<usize>, ds: Seq<char>) -> Option<usize>
    decreases ds.len(),
{
    if ds.len() == 0 {
        pending
    } else {
        spec_normal_dispatch(plain_key(ds.last()), feed_digits(pending, ds.drop_last())).0
    }
}

proof fn lemma_decimal_nonneg(ds: Seq<char>)
    requires
        forall|i: int| 0 <= i < ds.len() ==> is_ascii_digit(#[trigger] ds[i]),
    ensures
        decimal_of(ds) >= 0,
    decreases ds.len(),
{
    if ds.len() > 0 {
        lemma_decimal_nonneg(ds.drop_last());
    }
}

/// Law: typing a digit sequence, the first digit not zero, accumulates its
/// decimal value in the pending count (each digit key itself emitting no
/// action), and a following plain `j` jumps by exactly that value.
pub proof fn lemma_digit_accumulation(ds: Seq<char>)
    requires
        ds.len() > 0,
        forall|i: int| 0 <= i < ds.len() ==> is_ascii_digit(#[trigger] ds[i]),
        ds[0] as u32 != 0x30,
        decimal_of(ds) <= usize::MAX,
    ensures
        feed_digits(Option::None, ds) == Option::Some(decimal_of(ds) as usize),
        forall|i: int| 0 <= i < ds.len() ==> spec_normal_dispatch(
            plain_key(#[trigger] ds[i]),
            feed_digits(Option::None, ds.take(i)),
        ).1 == NormalModeAction::NoOp,
        decimal_of(ds) <= isize::MAX ==> spec_normal_dispatch(
            plain_key('j'),
            feed_digits(Option::None, ds),
        ) == (Option::<usize>::None, NormalModeAction::Jump(decimal_of(ds) as isize)),
    decreases ds.len(),
{
    lemma_decimal_nonneg(ds);
    if ds.len() == 1 {
        assert(ds.take(0) =~= Seq::<char>::empty());
        assert(ds.drop_last() =~= Seq::<char>::empty());
    } else {
        let pre = ds.drop_last();
        lemma_decimal_nonneg(pre);
        lemma_digit_accumulation(pre);
        assert(feed_digits(Option::None, ds) == Option::Some(decimal_of(ds) as usize));
        assert forall|i: int| 0 <= i < ds.len() implies spec_normal_dispatch(
            plain_key(ds[i]),
            feed_digits(Option::None, ds.take(i)),
        ).1 == NormalModeAction::NoOp by {
            if i < ds.len() - 1 {
                assert(ds.take(i) =~= pre.take(i));
            } else {
                assert(ds.take(i) =~= pre);
            }
        }
    }
}

/// Law: a zero key with no count already pending is not swallowed into a
/// count; it falls through to ordinary resolution, which maps it to nothing.
pub proof fn lemma_bare_zero_starts_nothing(c: char)
    requires
        c as u32 == 0x30,
    ensures
        !accumulates(plain_key(c), Option::None),
        spec_normal_dispatch(plain_key(c), Option::None) == (
            Option::<usize>::None,
            NormalModeAction::NoOp,
        ),
{
}

/// Law: control-`u` in insert mode leaves an empty buffer and reports an
/// edit, whatever the buffer held before.
pub proof fn lemma_ctrl_u_clears(key: KeyEvent, s: Seq<char>)
    requires
        key.code == KeyCode::Char('u'),
        key.modifiers.ctrl,
    ensures
        spec_edit(key, s).0.len() == 0,
        spec_edit(key, s).1 == EditingModeAction::Edited,
{
}

/// Law: any key the dispatcher does not swallow into the count — in
/// particular any key resolving to an action other than `NoOp` — leaves the
/// pending count empty again.
pub proof fn lemma_pending_consumed(key: KeyEvent, pending: Option<usize>)
    ensures
        spec_normal_dispatch(key, pending).1 != NormalModeAction::NoOp ==> spec_normal_dispatch(
            key,
            pending,
        ).0 is None,
        !accumulates(key, pending) ==> spec_normal_dispatch(key, pending).0 is None,
{
}

} // verus!
