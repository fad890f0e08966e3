//! Window Locator: resolving the single named application window.
//!
//! The windowing host owns the windows; this layer only looks one up by its
//! logical label and, on a second-launch notification, restores and focuses
//! it. A missing window is never an error: callbacks may fire before the
//! window exists.

use vstd::prelude::*;

verus! {

/// A non-owning snapshot of one window of the windowing host: its logical
/// label and the two state bits this layer ever touches.
pub struct WindowState {
    pub label: String,
    pub minimized: bool,
    pub focused: bool,
}

/// The windowing host's window table, as this layer sees it.
pub struct WindowHost {
    pub windows: Vec<WindowState>,
}

/// The fixed logical identifier under which the host creates the application's
/// sole top-level window.
pub open spec fn main_label() -> Seq<char> {
    "main"@
}

impl WindowHost {
    /// The host never keeps two windows under one label.
    pub open spec fn wf(self) -> bool {
        forall|i: int, j: int|
            0 <= i < j < self.windows@.len() ==> self.windows@[i].label@ != self.windows@[j].label@
    }

    /// Whether a window with the given label exists.
    pub open spec fn has_window(self, label: Seq<char>) -> bool {
        exists|i: int| 0 <= i < self.windows@.len() && self.windows@[i].label@ == label
    }
}

/// The label of the main window, as an executable value.
pub fn main_window_label() -> (s: String)
    ensures
        s@ == main_label(),
{
    "main".to_owned()
}

/// Resolves a window by its logical label: the index of the window that
/// carries the label, or `None` when no window does.
pub fn locate(host: &WindowHost, label: &String) -> (r: Option<usize>)
    ensures
        r is Some <==> host.has_window(label@),
        r matches Some(i) ==> i < host.windows@.len() && host.windows@[i as int].label@ == label@,
{
    let n = host.windows.len();
    let mut i: usize = 0;
    while i < n
        invariant
            n == host.windows@.len(),
            i <= n,
            forall|j: int| 0 <= j < i ==> host.windows@[j].label@ != label@,
        decreases n - i,
    {
        if host.windows[i].label == *label {
            return Some(i);
        }
        i = i + 1;
    }
    None
}

/// How a second launch leaves the window table: the main window — and it
/// alone — is restored from a minimized state and focused; every other
/// window, and every window's label, is left untouched. When no main window
/// exists, this says the table is unchanged.
pub open spec fn main_restored_and_focused(before: Seq<WindowState>, after: Seq<WindowState>) -> bool {
    &&& after.len() == before.len()
    &&& forall|i: int|
        0 <= i < before.len() && before[i].label@ != main_label() ==> after[i] == before[i]
    &&& forall|i: int|
        0 <= i < before.len() && before[i].label@ == main_label()
            ==> after[i].label == before[i].label && !after[i].minimized && after[i].focused
}

/// The second-launch side effect: if the main window exists, restore it from
/// a minimized state and give it input focus; otherwise do nothing.
pub fn restore_and_focus_main(host: &mut WindowHost)
    requires
        old(host).wf(),
    ensures
        final(host).wf(),
        main_restored_and_focused(old(host).windows@, final(host).windows@),
{
    let label = main_window_label();
    match locate(host, &label) {
        None => {},
        Some(i) => {
            host.windows[i].minimized = false;
            host.windows[i].focused = true;
            proof {
                assert forall|j: int|
                    0 <= j < old(host).windows@.len() && old(host).windows@[j].label@
                        == main_label() implies j == i by {
                    if j != i {
                        assert(old(host).windows@[i as int].label@ == old(host).windows@[j].label@);
                    }
                }
            }
        },
    }
}

} // verus!
