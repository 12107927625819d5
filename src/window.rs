//! The windows that the controller knows, and how their visibility changes.
//! A window is created once at startup and then only hidden and shown; it is
//! never destroyed while the process lives.

use vstd::prelude::*;

verus! {

/// The stable label of a window.
#[derive(Clone, Copy, PartialEq, Eq, Structural, Debug)]
pub enum WindowLabel {
    Main,
    Settings,
}

/// The label's text, as the windowing subsystem knows it.
pub open spec fn label_name_spec(label: WindowLabel) -> Seq<char> {
    match label {
        WindowLabel::Main => "main"@,
        WindowLabel::Settings => "settings"@,
    }
}

/// The window that a label text names, if any.
pub open spec fn label_for_name(name: Seq<char>) -> Option<WindowLabel> {
    if name == "main"@ {
        Some(WindowLabel::Main)
    } else if name == "settings"@ {
        Some(WindowLabel::Settings)
    } else {
        None
    }
}

impl WindowLabel {
    /// The label's text.
    pub fn name(&self) -> (r: &'static str)
        ensures
            r@ == label_name_spec(*self),
    {
        match self {
            WindowLabel::Main => "main",
            WindowLabel::Settings => "settings",
        }
    }

    /// The window that the text `name` labels; `None` for an unknown label.
    pub fn from_name(name: &str) -> (r: Option<WindowLabel>)
        ensures
            r == label_for_name(name@),
    {
        let owned = name.to_owned();
        if owned == "main".to_owned() {
            Some(WindowLabel::Main)
        } else if owned == "settings".to_owned() {
            Some(WindowLabel::Settings)
        } else {
            None
        }
    }
}

/// The text of every label leads back to that label.
pub proof fn lemma_label_names_round_trip(label: WindowLabel)
    ensures
        label_for_name(label_name_spec(label)) == Some(label),
{
    reveal_strlit("main");
    reveal_strlit("settings");
    assert("main"@.len() == 4);
    assert("settings"@.len() == 8);
}

/// Where a window is in its life: created by startup, then shown or hidden.
#[derive(Clone, Copy, PartialEq, Eq, Structural, Debug)]
pub enum Visibility {
    Created,
    Visible,
    Hidden,
}

/// What the controller tracks of one window.
#[derive(Clone, Copy, PartialEq, Eq, Structural, Debug)]
pub struct Window {
    pub label: WindowLabel,
    pub visibility: Visibility,
    pub devtools_open: bool,
}

/// `windows` with every window labelled `label` put in state `v`.
pub open spec fn with_visibility(windows: Seq<Window>, label: WindowLabel, v: Visibility) -> Seq<
    Window,
> {
    Seq::new(
        windows.len(),
        |i: int|
            if windows[i].label == label {
                Window { visibility: v, ..windows[i] }
            } else {
                windows[i]
            },
    )
}

/// `windows` after startup finishes: every window still in its created state
/// is shown.
pub open spec fn after_setup(windows: Seq<Window>) -> Seq<Window> {
    Seq::new(
        windows.len(),
        |i: int|
            if windows[i].visibility == Visibility::Created {
                Window { visibility: Visibility::Visible, ..windows[i] }
            } else {
                windows[i]
            },
    )
}

/// `windows` with the inspector panel of every window open.
pub open spec fn with_devtools(windows: Seq<Window>) -> Seq<Window> {
    Seq::new(windows.len(), |i: int| Window { devtools_open: true, ..windows[i] })
}

/// `windows` after a close request for each label of `requests`, in order.
pub open spec fn after_close_requests(windows: Seq<Window>, requests: Seq<WindowLabel>) -> Seq<
    Window,
>
    decreases requests.len(),
{
    if requests.len() == 0 {
        windows
    } else {
        with_visibility(
            after_close_requests(windows, requests.drop_last()),
            requests.last(),
            Visibility::Hidden,
        )
    }
}

/// Close requests never remove a window: after any number of them the same
/// windows are known, under the same labels, and each window that was asked
/// to close is hidden.
pub proof fn lemma_close_requests_keep_windows(windows: Seq<Window>, requests: Seq<WindowLabel>)
    ensures
        after_close_requests(windows, requests).len() == windows.len(),
        forall|i: int|
            0 <= i < windows.len() ==> (#[trigger] after_close_requests(windows, requests)[i]).label
                == windows[i].label,
        forall|i: int, j: int|
            #![trigger after_close_requests(windows, requests)[i], requests[j]]
            0 <= i < windows.len() && 0 <= j < requests.len() && windows[i].label == requests[j]
                ==> after_close_requests(windows, requests)[i].visibility == Visibility::Hidden,
    decreases requests.len(),
{
    if requests.len() > 0 {
        let prefix = requests.drop_last();
        lemma_close_requests_keep_windows(windows, prefix);
        let before = after_close_requests(windows, prefix);
        let after = after_close_requests(windows, requests);
        assert forall|i: int, j: int|
            #![trigger after[i], requests[j]]
            0 <= i < windows.len() && 0 <= j < requests.len() && windows[i].label == requests[j]
            implies after[i].visibility == Visibility::Hidden by {
            if j < requests.len() - 1 {
                assert(prefix[j] == requests[j]);
                assert(before[i].visibility == Visibility::Hidden);
            }
        }
    }
}

/// Puts every window labelled `label` in state `v`.
pub fn set_visibility(windows: &mut Vec<Window>, label: WindowLabel, v: Visibility)
    ensures
        final(windows)@ == with_visibility(old(windows)@, label, v),
{
    let ghost start = windows@;
    let n = windows.len();
    let mut i: usize = 0;
    while i < n
        invariant
            windows@.len() == n,
            n == start.len(),
            i <= n,
            forall|k: int| 0 <= k < i ==> windows@[k] == with_visibility(start, label, v)[k],
            forall|k: int| i <= k < n ==> windows@[k] == start[k],
        decreases n - i,
    {
        if windows[i].label == label {
            let w = windows[i];
            windows.set(i, Window { visibility: v, ..w });
        }
        i = i + 1;
    }
    assert(windows@ =~= with_visibility(start, label, v));
}

} // verus!
