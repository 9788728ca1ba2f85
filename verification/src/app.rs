//! The application state and how it answers one key event.
//!
//! The event loop owns an `App`, feeds it every key it reads, and redraws
//! from it; `on_key` is the whole decision: it dispatches the key by mode,
//! applies the resulting action to the state, and says whether to quit.

use crate::keys::KeyEvent;
use crate::selection::{
    apply_action, lemma_actions_preserve_wf, spec_apply_action, spec_initial, SelectionState,
};
use crate::text::{trim_ws, trimmed};
use crate::ui::input::{
    handle_editing_mode_key, handle_normal_mode_key, spec_edit, spec_normal_dispatch,
    EditingModeAction, InputMode, NormalModeAction, TextInputState,
};
use crate::ui::issue::Issue;
use vstd::prelude::*;
use vstd::string::StrSliceExecFns;

verus! {

/// Everything the event loop owns: the issue list, the selection into it,
/// the input mode, the text buffer with its cursor, and whether the
/// sidebar is open.
#[derive(Debug)]
pub struct App {
    pub issues: Vec<Issue>,
    pub list_state: SelectionState,
    pub input_mode: InputMode,
    pub input: String,
    pub input_state: TextInputState,
    pub sidebar_visible: bool,
}

/// The issue appended on submit: the given title over an otherwise empty
/// record, at the end of the otherwise unchanged list.
pub open spec fn submitted_issue(post: Seq<Issue>, pre: Seq<Issue>, title: Seq<char>) -> bool {
    &&& post.len() == pre.len() + 1
    &&& post.take(pre.len() as int) == pre
    &&& post.last().summary@ == title
    &&& post.last().description@.len() == 0
    &&& post.last().id@.len() == 0
    &&& post.last().issue_type is None
    &&& post.last().status is None
    &&& post.last().priority is None
    &&& post.last().story_points is None
    &&& post.last().parent_epic is None
}

/// How one normal-mode key transforms the application: the pending count
/// cell and the selection move as the dispatched action says; entering
/// input mode and toggling the sidebar flip their flags; quitting is
/// reported and nothing else is touched.
pub open spec fn spec_normal_step(
    pre: App,
    post: App,
    p: Option<usize>,
    p2: Option<usize>,
    key: KeyEvent,
    quit: bool,
) -> bool {
    let a = spec_normal_dispatch(key, p).1;
    &&& p2 == spec_normal_dispatch(key, p).0
    &&& post.issues == pre.issues
    &&& post.input == pre.input
    &&& post.input_state == pre.input_state
    &&& post.input_mode == (if a is EnterInput {
        InputMode::Insert
    } else {
        InputMode::Normal
    })
    &&& post.sidebar_visible == (if a is ToggleSidebar {
        !pre.sidebar_visible
    } else {
        pre.sidebar_visible
    })
    &&& post.list_state == spec_apply_action(pre.list_state, pre.issues@.len(), a)
    &&& quit == (a is Quit)
}

/// How one insert-mode key transforms the application: the buffer follows
/// the editor; submit appends the trimmed buffer as a new issue and selects
/// it (a blank buffer submits nothing), and clears the buffer either way;
/// cancel returns to normal mode with the buffer retained; after any edit
/// the cursor sits at the buffer's end.
pub open spec fn spec_insert_step(pre: App, post: App, key: KeyEvent, quit: bool) -> bool {
    let s2 = spec_edit(key, pre.input@).0;
    let e = spec_edit(key, pre.input@).1;
    &&& post.sidebar_visible == pre.sidebar_visible
    &&& !quit
    &&& match e {
        EditingModeAction::Submit => {
            let t = trim_ws(pre.input@);
            &&& post.input_mode == InputMode::Normal
            &&& post.input_state.cursor == 0
            &&& if t.len() > 0 {
                &&& submitted_issue(post.issues@, pre.issues@, t)
                &&& post.input@.len() == 0
                &&& post.list_state == SelectionState {
                    selected: Option::Some(pre.issues@.len() as usize),
                    offset: pre.list_state.offset,
                }
            } else {
                &&& post.issues == pre.issues
                &&& post.input@.len() == 0
                &&& post.list_state == pre.list_state
            }
        },
        EditingModeAction::Cancel => {
            &&& post.input_mode == InputMode::Normal
            &&& post.input_state.cursor == 0
            &&& post.issues == pre.issues
            &&& post.input@ == pre.input@
            &&& post.list_state == pre.list_state
        },
        EditingModeAction::Edited => {
            &&& post.input_mode == InputMode::Insert
            &&& post.input@ == s2
            &&& post.input_state.cursor == s2.len()
            &&& post.issues == pre.issues
            &&& post.list_state == pre.list_state
        },
        EditingModeAction::NoOp => {
            &&& post.input_mode == pre.input_mode
            &&& post.input@ == pre.input@
            &&& post.input_state == pre.input_state
            &&& post.issues == pre.issues
            &&& post.list_state == pre.list_state
        },
    }
}

impl App {
    /// Well-formed: the selection is in range for the issue list and the
    /// cursor sits within the buffer.
    pub open spec fn wf(self) -> bool {
        &&& self.list_state.wf(self.issues@.len())
        &&& self.input_state.cursor <= self.input@.len()
    }

    /// The state at startup: the first issue selected when there is one,
    /// normal mode, an empty buffer, the sidebar closed.
    pub fn new(issues: Vec<Issue>) -> (app: App)
        ensures
            app.issues == issues,
            app.list_state == spec_initial(issues@.len()),
            app.input_mode == InputMode::Normal,
            app.input@.len() == 0,
            app.input_state.cursor == 0,
            !app.sidebar_visible,
            app.wf(),
    {
        let len: usize = issues.len();
        App {
            issues,
            list_state: SelectionState::initial(len),
            input_mode: InputMode::Normal,
            input: String::new(),
            input_state: TextInputState::new(0),
            sidebar_visible: false,
        }
    }

    /// Whether the state is well-formed. The constructor establishes this
    /// and every step keeps it; a caller that assembled a state by hand can
    /// check it here before stepping.
    pub fn is_wf(&self) -> (b: bool)
        ensures
            b == self.wf(),
    {
        let len: usize = self.issues.len();
        let sel_ok: bool = match self.list_state.selected {
            Some(i) => len > 0 && i < len,
            None => len == 0,
        };
        let off_ok: bool = if len > 0 {
            self.list_state.offset < len
        } else {
            self.list_state.offset == 0
        };
        let cur_ok: bool = self.input_state.cursor <= self.input.as_str().unicode_len();
        sel_ok && off_ok && cur_ok
    }

    /// Feeds one key event to the application and reports whether the
    /// event loop should end.
    pub fn on_key(&mut self, key: &KeyEvent, pending_count: &mut Option<usize>) -> (quit: bool)
        requires
            old(self).wf(),
        ensures
            final(self).wf(),
            old(self).input_mode == InputMode::Normal ==> spec_normal_step(
                *old(self),
                *final(self),
                *old(pending_count),
                *final(pending_count),
                *key,
                quit,
            ),
            old(self).input_mode == InputMode::Insert ==> spec_insert_step(
                *old(self),
                *final(self),
                *key,
                quit,
            ) && *final(pending_count) == *old(pending_count),
    {
        match self.input_mode {
            InputMode::Normal => {
                let action = handle_normal_mode_key(key, pending_count);
                proof {
                    lemma_actions_preserve_wf(
                        self.list_state,
                        self.issues@.len(),
                        spec_normal_dispatch(*key, *old(pending_count)).1,
                    );
                }
                match action {
                    NormalModeAction::Quit => true,
                    NormalModeAction::EnterInput => {
                        self.input_mode = InputMode::Insert;
                        false
                    }
                    NormalModeAction::ToggleSidebar => {
                        self.sidebar_visible = !self.sidebar_visible;
                        false
                    }
                    _ => {
                        let len: usize = self.issues.len();
                        self.list_state = apply_action(self.list_state, len, &action);
                        false
                    }
                }
            }
            InputMode::Insert => {
                match handle_editing_mode_key(key, &mut self.input) {
                    EditingModeAction::Submit => {
                        let t: String = trimmed(self.input.as_str());
                        if !t.as_str().is_empty() {
                            self.issues.push(Issue::new(t, String::new()));
                            let n: usize = self.issues.len();
                            self.list_state = SelectionState {
                                selected: Some(n - 1),
                                offset: self.list_state.offset,
                            };
                            proof {
                                assert(self.issues@.take(old(self).issues@.len() as int)
                                    =~= old(self).issues@);
                            }
                        }
                        self.input = String::new();
                        proof {
                            assert(self.input@ =~= Seq::<char>::empty());
                        }
                        self.input_mode = InputMode::Normal;
                        self.input_state = TextInputState::new(0);
                        false
                    }
                    EditingModeAction::Cancel => {
                        self.input_mode = InputMode::Normal;
                        self.input_state = TextInputState::new(0);
                        false
                    }
                    EditingModeAction::Edited => {
                        let end: usize = self.input.as_str().unicode_len();
                        self.input_state = TextInputState::new(end);
                        false
                    }
                    EditingModeAction::NoOp => false,
                }
            }
        }
    }
}

} // verus!
