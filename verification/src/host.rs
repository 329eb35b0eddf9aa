//! The window host as the shell observes it, and the two remote commands.
//!
//! The host runtime owns every window; the shell borrows a handle per command
//! invocation and never stores it. What a command may observably do is
//! therefore a transition on the host's window table: `close_window` removes
//! exactly the handle it was given, `minimize_window` rewrites exactly that
//! handle's minimized state, and an invalid handle changes nothing and
//! surfaces a fault that the invoking task never recovers from.

use vstd::prelude::*;

use crate::window_table::WindowEntry;
use crate::window_table::distinct_ids;
use crate::window_table::lemma_distinct_remove;
use crate::window_table::lemma_distinct_update;
use crate::window_table::lemma_table_view_contains;
use crate::window_table::lemma_table_view_index;
use crate::window_table::lemma_table_view_len;
use crate::window_table::lemma_table_view_push;
use crate::window_table::lemma_table_view_remove;
use crate::window_table::lemma_table_view_update;
use crate::window_table::table_view;

verus! {

/// The fault a command surfaces when the host reports that its single
/// delegated call could not be completed. The shell attaches no recovery to
/// it: the invoking task ends abnormally.
#[derive(Clone, Copy, PartialEq, Eq, Debug, Structural)]
pub enum CommandError {
    /// The handle did not refer to a live window at invocation time.
    InvalidHandle,
}

/// What `close_window` does to the window table: the handle's window is gone,
/// every other window is untouched.
pub open spec fn close_transition(m: Map<u64, bool>, handle: u64) -> Map<u64, bool> {
    m.remove(handle)
}

/// What `minimize_window` does to the window table: the handle's window is
/// minimized, every other window is untouched, and the set of open windows is
/// unchanged.
pub open spec fn minimize_transition(m: Map<u64, bool>, handle: u64) -> Map<u64, bool> {
    if m.contains_key(handle) {
        m.insert(handle, true)
    } else {
        m
    }
}

/// The host runtime's table of open windows, as the shell observes it. Its
/// view is a map from window handle to minimized state.
pub struct Host {
    windows: Vec<WindowEntry>,
}

impl View for Host {
    type V = Map<u64, bool>;

    closed spec fn view(&self) -> Map<u64, bool> {
        table_view(self.windows@)
    }
}

impl Host {
    /// The host never issues the same handle to two open windows.
    pub closed spec fn wf(self) -> bool {
        distinct_ids(self.windows@)
    }

    /// The window the handle names is open.
    pub open spec fn is_open(self, handle: u64) -> bool {
        self@.contains_key(handle)
    }

    /// The window the handle names is open and in the minimized visual state.
    pub open spec fn minimized(self, handle: u64) -> bool {
        self.is_open(handle) && self@[handle]
    }

    /// How many windows are open.
    pub open spec fn open_count(self) -> nat {
        self@.dom().len()
    }

    /// The host's run loop keeps running exactly while some window is open.
    pub open spec fn running(self) -> bool {
        self.open_count() > 0
    }

    /// A host with no windows yet.
    pub fn new() -> (h: Host)
        ensures
            h.wf(),
            h@ == Map::<u64, bool>::empty(),
    {
        Host { windows: Vec::new() }
    }

    /// The host opens a window under a handle of its choosing. A fresh handle
    /// names a new, non-minimized window; a handle already in use is refused
    /// and nothing changes.
    pub fn open_window(&mut self, handle: u64) -> (fresh: bool)
        requires
            old(self).wf(),
        ensures
            final(self).wf(),
            fresh == !old(self).is_open(handle),
            fresh ==> final(self)@ == old(self)@.insert(handle, false),
            !fresh ==> final(self)@ == old(self)@,
    {
        match self.find(handle) {
            Some(_) => false,
            None => {
                proof {
                    lemma_table_view_push(
                        self.windows@,
                        WindowEntry { id: handle, minimized: false },
                    );
                    lemma_table_view_contains(self.windows@, handle);
                }
                self.windows.push(WindowEntry { id: handle, minimized: false });
                true
            },
        }
    }

    /// The index of the entry a live handle names, if any.
    fn find(&self, handle: u64) -> (r: Option<usize>)
        requires
            self.wf(),
        ensures
            match r {
                Some(i) => i < self.windows@.len() && self.windows@[i as int].id == handle
                    && self.is_open(handle) && self.minimized(handle) == self.windows@[
                    i as int].minimized,
                None => !self.is_open(handle),
            },
    {
        proof {
            lemma_table_view_contains(self.windows@, handle);
        }
        let n = self.windows.len();
        for i in 0..n
            invariant
                n == self.windows@.len(),
                self.wf(),
                forall|j: int| 0 <= j < i ==> #[trigger] self.windows@[j].id != handle,
        {
            if self.windows[i].id == handle {
                proof {
                    lemma_table_view_index(self.windows@, i as int);
                }
                return Some(i);
            }
        }
        None
    }

    /// Requests that the host close the window the handle names.
    ///
    /// On a live handle the window is destroyed and no other window is
    /// touched; if it was the last open window, the run loop terminates. On a
    /// dead handle nothing changes and the fault is surfaced.
    pub fn close_window(&mut self, handle: u64) -> (r: Result<(), CommandError>)
        requires
            old(self).wf(),
        ensures
            final(self).wf(),
            r is Ok <==> old(self).is_open(handle),
            old(self).is_open(handle) ==> {
                &&& final(self)@ == close_transition(old(self)@, handle)
                &&& !final(self).is_open(handle)
                &&& final(self).open_count() == old(self).open_count() - 1
                &&& (old(self).open_count() == 1 ==> !final(self).running())
            },
            !old(self).is_open(handle) ==> r == Err::<(), CommandError>(
                CommandError::InvalidHandle,
            ) && final(self)@ == old(self)@,
    {
        proof {
            lemma_table_view_len(self.windows@);
        }
        match self.find(handle) {
            Some(i) => {
                proof {
                    lemma_table_view_remove(self.windows@, i as int);
                    lemma_distinct_remove(self.windows@, i as int);
                    lemma_table_view_len(self.windows@.remove(i as int));
                }
                self.windows.remove(i);
                Ok(())
            },
            None => Err(CommandError::InvalidHandle),
        }
    }

    /// Requests that the host minimize the window the handle names.
    ///
    /// On a live handle the window enters the minimized visual state, no
    /// other window is touched, and the set of open windows is unchanged. On
    /// a dead handle nothing changes and the fault is surfaced.
    pub fn minimize_window(&mut self, handle: u64) -> (r: Result<(), CommandError>)
        requires
            old(self).wf(),
        ensures
            final(self).wf(),
            r is Ok <==> old(self).is_open(handle),
            final(self)@ == minimize_transition(old(self)@, handle),
            old(self).is_open(handle) ==> {
                &&& final(self).minimized(handle)
                &&& final(self)@.dom() == old(self)@.dom()
            },
            !old(self).is_open(handle) ==> r == Err::<(), CommandError>(
                CommandError::InvalidHandle,
            ) && final(self)@ == old(self)@,
    {
        match self.find(handle) {
            Some(i) => {
                let e = WindowEntry { id: handle, minimized: true };
                proof {
                    lemma_table_view_update(self.windows@, i as int, e);
                    lemma_distinct_update(self.windows@, i as int, e);
                    assert(minimize_transition(self@, handle).dom() =~= self@.dom());
                }
                self.windows[i] = e;
                Ok(())
            },
            None => Err(CommandError::InvalidHandle),
        }
    }

    /// Whether the handle names an open window.
    pub fn is_open_window(&self, handle: u64) -> (r: bool)
        requires
            self.wf(),
        ensures
            r == self.is_open(handle),
    {
        self.find(handle).is_some()
    }

    /// Whether the handle names an open, minimized window.
    pub fn is_minimized_window(&self, handle: u64) -> (r: bool)
        requires
            self.wf(),
        ensures
            r == self.minimized(handle),
    {
        match self.find(handle) {
            Some(i) => self.windows[i].minimized,
            None => false,
        }
    }

    /// How many windows are open.
    pub fn window_count(&self) -> (n: usize)
        requires
            self.wf(),
        ensures
            n == self.open_count(),
    {
        proof {
            lemma_table_view_len(self.windows@);
        }
        self.windows.len()
    }

    /// Whether the host's run loop is still running: it ends exactly when the
    /// last open window is gone.
    pub fn is_running(&self) -> (r: bool)
        requires
            self.wf(),
        ensures
            r == self.running(),
    {
        proof {
            lemma_table_view_len(self.windows@);
        }
        self.windows.len() > 0
    }
}

/// Law: a command touches only the window its handle names. Under either
/// transition every other window keeps both its openness and its minimized
/// state.
pub proof fn lemma_commands_leave_other_windows(m: Map<u64, bool>, handle: u64, other: u64)
    requires
        other != handle,
    ensures
        close_transition(m, handle).contains_key(other) == m.contains_key(other),
        m.contains_key(other) ==> close_transition(m, handle)[other] == m[other],
        minimize_transition(m, handle).contains_key(other) == m.contains_key(other),
        m.contains_key(other) ==> minimize_transition(m, handle)[other] == m[other],
{
}

} // verus!
