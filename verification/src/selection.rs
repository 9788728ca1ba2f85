//! The selection and scroll controller: pure functions that apply movement
//! actions to a list length, producing a clamped selection index and scroll
//! offset. All index arithmetic saturates; it never selects out of range.

use crate::ui::input::NormalModeAction;
use vstd::prelude::*;

verus! {

/// The cursor into the issue list: the selected row, or nothing when the
/// list is empty, and the first visible row of the viewport.
#[derive(Debug, Clone, Copy, PartialEq, Eq)]
pub struct SelectionState {
    pub selected: Option<usize>,
    pub offset: usize,
}

impl SelectionState {
    /// Selection and offset both in range for a list of `len` items.
    pub open spec fn wf(self, len: nat) -> bool {
        &&& (self.selected is Some <==> len > 0)
        &&& (self.selected matches Some(i) ==> i < len)
        &&& (len > 0 ==> self.offset < len)
        &&& (len == 0 ==> self.offset == 0)
    }

    /// The state at startup: the first row selected when there is one.
    pub fn initial(len: usize) -> (s: Self)
        ensures
            s == spec_initial(len as nat),
            s.wf(len as nat),
    {
        SelectionState {
            selected: if len > 0 {
                Some(0)
            } else {
                None
            },
            offset: 0,
        }
    }
}

/// The startup selection for a list of `len` items.
pub open spec fn spec_initial(len: nat) -> SelectionState {
    SelectionState {
        selected: if len > 0 {
            Option::Some(0usize)
        } else {
            Option::None
        },
        offset: 0,
    }
}

/// `v` clamped into the range zero to `len - 1`.
pub open spec fn clamp_index(v: int, len: nat) -> int
    recommends
        len > 0,
{
    if v < 0 {
        0
    } else if v > len - 1 {
        len - 1
    } else {
        v
    }
}

/// A jump moves the selected row by `delta`, clamped to the list; on an
/// empty list it leaves nothing selected. The offset is untouched.
pub open spec fn spec_jump(st: SelectionState, len: nat, delta: int) -> SelectionState {
    if len == 0 {
        SelectionState { selected: Option::None, offset: st.offset }
    } else {
        let cur: int = match st.selected {
            Option::Some(i) => i as int,
            Option::None => 0,
        };
        SelectionState {
            selected: Option::Some(clamp_index(cur + delta, len) as usize),
            offset: st.offset,
        }
    }
}

/// A scroll moves the viewport offset by `delta`, clamped to the list,
/// leaving the selected row untouched; on an empty list it does nothing.
pub open spec fn spec_scroll(st: SelectionState, len: nat, delta: int) -> SelectionState {
    if len == 0 {
        st
    } else {
        SelectionState {
            selected: st.selected,
            offset: clamp_index(st.offset + delta, len) as usize,
        }
    }
}

/// Selects the first row when there is one.
pub open spec fn spec_goto_top(st: SelectionState, len: nat) -> SelectionState {
    if len == 0 {
        st
    } else {
        SelectionState { selected: Option::Some(0usize), offset: st.offset }
    }
}

/// Selects the last row when there is one.
pub open spec fn spec_goto_bottom(st: SelectionState, len: nat) -> SelectionState {
    if len == 0 {
        st
    } else {
        SelectionState { selected: Option::Some((len - 1) as usize), offset: st.offset }
    }
}

/// How one normal-mode action moves the selection; actions that are not
/// movements leave it as it is.
pub open spec fn spec_apply_action(st: SelectionState, len: nat, action: NormalModeAction)
    -> SelectionState {
    match action {
        NormalModeAction::Jump(d) => spec_jump(st, len, d as int),
        NormalModeAction::Scroll(d) => spec_scroll(st, len, d as int),
        NormalModeAction::GotoTop => spec_goto_top(st, len),
        NormalModeAction::GotoBottom => spec_goto_bottom(st, len),
        _ => st,
    }
}

/// The magnitude of `delta`, as an unsigned value.
fn delta_magnitude(delta: isize) -> (m: usize)
    requires
        delta < 0,
    ensures
        m == -(delta as int),
{
    ((-1isize - delta) as usize) + 1
}

/// Applies a jump of `delta` rows to the selection.
pub fn apply_jump(st: SelectionState, len: usize, delta: isize) -> (r: SelectionState)
    ensures
        r == spec_jump(st, len as nat, delta as int),
{
    if len == 0 {
        SelectionState { selected: None, offset: st.offset }
    } else {
        let cur: usize = match st.selected {
            Some(i) => i,
            None => 0,
        };
        let target: usize = if delta >= 0 {
            let d: usize = delta as usize;
            if cur >= len - 1 || d > (len - 1) - cur {
                len - 1
            } else {
                cur + d
            }
        } else {
            let m: usize = delta_magnitude(delta);
            let lowered: usize = if m >= cur {
                0
            } else {
                cur - m
            };
            if lowered > len - 1 {
                len - 1
            } else {
                lowered
            }
        };
        SelectionState { selected: Some(target), offset: st.offset }
    }
}

/// Applies a scroll of `delta` rows to the viewport offset.
pub fn apply_scroll(st: SelectionState, len: usize, delta: isize) -> (r: SelectionState)
    ensures
        r == spec_scroll(st, len as nat, delta as int),
{
    if len == 0 {
        st
    } else {
        let cur: usize = st.offset;
        let target: usize = if delta >= 0 {
            let d: usize = delta as usize;
            if cur >= len - 1 || d > (len - 1) - cur {
                len - 1
            } else {
                cur + d
            }
        } else {
            let m: usize = delta_magnitude(delta);
            let lowered: usize = if m >= cur {
                0
            } else {
                cur - m
            };
            if lowered > len - 1 {
                len - 1
            } else {
                lowered
            }
        };
        SelectionState { selected: st.selected, offset: target }
    }
}

/// Selects the first row when the list is non-empty.
pub fn goto_top(st: SelectionState, len: usize) -> (r: SelectionState)
    ensures
        r == spec_goto_top(st, len as nat),
{
    if len == 0 {
        st
    } else {
        SelectionState { selected: Some(0), offset: st.offset }
    }
}

/// Selects the last row when the list is non-empty.
pub fn goto_bottom(st: SelectionState, len: usize) -> (r: SelectionState)
    ensures
        r == spec_goto_bottom(st, len as nat),
{
    if len == 0 {
        st
    } else {
        SelectionState { selected: Some(len - 1), offset: st.offset }
    }
}

/// Applies one normal-mode action to the selection state.
pub fn apply_action(st: SelectionState, len: usize, action: &NormalModeAction) -> (r:
    SelectionState)
    ensures
        r == spec_apply_action(st, len as nat, *action),
{
    match action {
        NormalModeAction::Jump(d) => apply_jump(st, len, *d),
        NormalModeAction::Scroll(d) => apply_scroll(st, len, *d),
        NormalModeAction::GotoTop => goto_top(st, len),
        NormalModeAction::GotoBottom => goto_bottom(st, len),
        _ => st,
    }
}

/// Every action keeps the selection well-formed.
pub proof fn lemma_actions_preserve_wf(st: SelectionState, len: nat, action: NormalModeAction)
    requires
        st.wf(len),
    ensures
        spec_apply_action(st, len, action).wf(len),
{
}

/// Law: on a non-empty list the bottom action selects the last row and the
/// top action the first; on an empty list every action leaves the selection
/// empty.
pub proof fn lemma_goto_bounds(st: SelectionState, len: nat, action: NormalModeAction)
    ensures
        len > 0 ==> spec_goto_bottom(st, len).selected == Option::Some((len - 1) as usize),
        len > 0 ==> spec_goto_top(st, len).selected == Option::Some(0usize),
        len == 0 && st.selected is None ==> spec_apply_action(st, len, action).selected is None,
{
}

/// Law: a jump of `k` followed by a jump of `-k` returns to the original
/// selection whenever neither jump is clamped at the ends of the list.
pub proof fn lemma_jump_round_trip(st: SelectionState, len: nat, k: int)
    requires
        0 < len <= usize::MAX,
        st.selected matches Some(i) && i < len && 0 <= i + k < len,
    ensures
        spec_jump(spec_jump(st, len, k), len, -k) == st,
{
}

} // verus!
