//! The decisions of the UI event loop. Commands from the UI, tray clicks and
//! close requests each move the controller from one state to the next; the
//! event loop then performs on the real windows and tray what the new state
//! and the returned action say.

use crate::tray::item_for_id;
use crate::tray::TrayItem;
use crate::tray::TrayMenu;
use crate::window::after_setup;
use crate::window::set_visibility;
use crate::window::with_devtools;
use crate::window::with_visibility;
use crate::window::Visibility;
use crate::window::Window;
use crate::window::WindowLabel;
use vstd::prelude::*;

verus! {

/// What the event loop must do after a tray click.
#[derive(Clone, Copy, PartialEq, Eq, Structural, Debug)]
pub enum TrayAction {
    /// Terminate the process.
    Exit,
    /// Install the controller's menu as the active tray menu.
    RefreshMenu,
    /// Show the window with this label.
    Show(WindowLabel),
    /// The click named no item: nothing to do.
    Ignore,
}

/// The state of the controller: the pin flag, the tray menu that mirrors it,
/// the windows it knows and whether the process keeps running.
#[derive(Debug)]
pub struct Controller {
    pub pinned: bool,
    pub menu: TrayMenu,
    pub windows: Vec<Window>,
    pub running: bool,
}

/// The windows that startup creates, in order.
pub open spec fn initial_windows() -> Seq<Window> {
    seq![
        Window { label: WindowLabel::Main, visibility: Visibility::Created, devtools_open: false },
        Window {
            label: WindowLabel::Settings,
            visibility: Visibility::Created,
            devtools_open: false,
        },
    ]
}

impl Controller {
    /// The menu always shows the label of the current pin state.
    pub open spec fn wf(&self) -> bool {
        self.menu.reflects(self.pinned)
    }

    /// A running controller with the pin flag `pinned`, its menu built for
    /// that flag, and the main and settings windows just created.
    pub fn new(pinned: bool) -> (r: Controller)
        ensures
            r.wf(),
            r.pinned == pinned,
            r.windows@ == initial_windows(),
            r.running,
    {
        let mut windows: Vec<Window> = Vec::new();
        windows.push(
            Window { label: WindowLabel::Main, visibility: Visibility::Created, devtools_open: false },
        );
        windows.push(
            Window {
                label: WindowLabel::Settings,
                visibility: Visibility::Created,
                devtools_open: false,
            },
        );
        assert(windows@ =~= initial_windows());
        Controller { pinned, menu: TrayMenu::for_state(pinned), windows, running: true }
    }

    /// Ends startup: every window that is still only created becomes visible.
    pub fn finish_setup(&mut self)
        requires
            old(self).wf(),
        ensures
            final(self).wf(),
            final(self).pinned == old(self).pinned,
            final(self).running == old(self).running,
            final(self).windows@ == after_setup(old(self).windows@),
    {
        let ghost start = self.windows@;
        let n = self.windows.len();
        let mut i: usize = 0;
        while i < n
            invariant
                self.wf(),
                self.pinned == old(self).pinned,
                self.running == old(self).running,
                start == old(self).windows@,
                self.windows@.len() == n,
                n == start.len(),
                i <= n,
                forall|k: int| 0 <= k < i ==> self.windows@[k] == after_setup(start)[k],
                forall|k: int| i <= k < n ==> self.windows@[k] == start[k],
            decreases n - i,
        {
            let w = self.windows[i];
            if w.visibility == Visibility::Created {
                self.windows.set(i, Window { visibility: Visibility::Visible, ..w });
            }
            i = i + 1;
        }
        assert(self.windows@ =~= after_setup(start));
    }

    /// The current pin flag.
    pub fn get_pin(&self) -> (r: bool)
        ensures
            r == self.pinned,
    {
        self.pinned
    }

    /// Sets the pin flag to `value` and rebuilds the tray menu for it.
    pub fn set_pin(&mut self, value: bool)
        requires
            old(self).wf(),
        ensures
            final(self).wf(),
            final(self).pinned == value,
            final(self).menu.pin_entry_label() == crate::tray::pin_label_spec(value),
            final(self).windows@ == old(self).windows@,
            final(self).running == old(self).running,
    {
        self.pinned = value;
        self.menu = TrayMenu::for_state(value);
    }

    /// Flips the pin flag, rebuilds the tray menu for the new value and
    /// returns that value.
    pub fn toggle_pin(&mut self) -> (r: bool)
        requires
            old(self).wf(),
        ensures
            r == !old(self).pinned,
            final(self).wf(),
            final(self).pinned == r,
            final(self).menu.pin_entry_label() == crate::tray::pin_label_spec(r),
            final(self).windows@ == old(self).windows@,
            final(self).running == old(self).running,
    {
        let value = !self.pinned;
        self.set_pin(value);
        value
    }

    /// A close request for the window `label`: the window is hidden and kept,
    /// never destroyed.
    pub fn close_requested(&mut self, label: WindowLabel)
        requires
            old(self).wf(),
        ensures
            final(self).wf(),
            final(self).windows@ == with_visibility(old(self).windows@, label, Visibility::Hidden),
            final(self).pinned == old(self).pinned,
            final(self).running == old(self).running,
    {
        set_visibility(&mut self.windows, label, Visibility::Hidden);
    }

    /// Shows the window `label`, whether it was hidden or only created.
    pub fn show(&mut self, label: WindowLabel)
        requires
            old(self).wf(),
        ensures
            final(self).wf(),
            final(self).windows@ == with_visibility(old(self).windows@, label, Visibility::Visible),
            final(self).pinned == old(self).pinned,
            final(self).running == old(self).running,
    {
        set_visibility(&mut self.windows, label, Visibility::Visible);
    }

    /// Shows the settings window.
    pub fn open_settings(&mut self)
        requires
            old(self).wf(),
        ensures
            final(self).wf(),
            final(self).windows@ == with_visibility(
                old(self).windows@,
                WindowLabel::Settings,
                Visibility::Visible,
            ),
            final(self).pinned == old(self).pinned,
            final(self).running == old(self).running,
    {
        self.show(WindowLabel::Settings);
    }

    /// Hides the settings window.
    pub fn close_settings(&mut self)
        requires
            old(self).wf(),
        ensures
            final(self).wf(),
            final(self).windows@ == with_visibility(
                old(self).windows@,
                WindowLabel::Settings,
                Visibility::Hidden,
            ),
            final(self).pinned == old(self).pinned,
            final(self).running == old(self).running,
    {
        set_visibility(&mut self.windows, WindowLabel::Settings, Visibility::Hidden);
    }

    /// Opens the inspector panel of every window.
    pub fn open_devtools(&mut self)
        requires
            old(self).wf(),
        ensures
            final(self).wf(),
            final(self).windows@ == with_devtools(old(self).windows@),
            final(self).pinned == old(self).pinned,
            final(self).running == old(self).running,
    {
        let ghost start = self.windows@;
        let n = self.windows.len();
        let mut i: usize = 0;
        while i < n
            invariant
                self.wf(),
                self.pinned == old(self).pinned,
                self.running == old(self).running,
                start == old(self).windows@,
                self.windows@.len() == n,
                n == start.len(),
                i <= n,
                forall|k: int| 0 <= k < i ==> self.windows@[k] == with_devtools(start)[k],
                forall|k: int| i <= k < n ==> self.windows@[k] == start[k],
            decreases n - i,
        {
            let w = self.windows[i];
            self.windows.set(i, Window { devtools_open: true, ..w });
            i = i + 1;
        }
        assert(self.windows@ =~= with_devtools(start));
    }

    /// A click on the tray item reported as `id`. Quit stops the controller;
    /// the pin entry toggles the flag and rebuilds the menu; the settings entry
    /// shows the settings window; an unknown id changes nothing.
    pub fn tray_event(&mut self, id: &str) -> (r: TrayAction)
        requires
            old(self).wf(),
        ensures
            final(self).wf(),
            match item_for_id(id@) {
                Some(TrayItem::Quit) => {
                    &&& r == TrayAction::Exit
                    &&& !final(self).running
                    &&& final(self).pinned == old(self).pinned
                    &&& final(self).windows@ == old(self).windows@
                },
                Some(TrayItem::TogglePin) => {
                    &&& r == TrayAction::RefreshMenu
                    &&& final(self).running == old(self).running
                    &&& final(self).pinned == !old(self).pinned
                    &&& final(self).windows@ == old(self).windows@
                },
                Some(TrayItem::ShowSettings) => {
                    &&& r == TrayAction::Show(WindowLabel::Settings)
                    &&& final(self).running == old(self).running
                    &&& final(self).pinned == old(self).pinned
                    &&& final(self).windows@ == with_visibility(
                        old(self).windows@,
                        WindowLabel::Settings,
                        Visibility::Visible,
                    )
                },
                None => {
                    &&& r == TrayAction::Ignore
                    &&& final(self).running == old(self).running
                    &&& final(self).pinned == old(self).pinned
                    &&& final(self).windows@ == old(self).windows@
                },
            },
    {
        match TrayItem::from_id(id) {
            Some(TrayItem::Quit) => {
                self.running = false;
                TrayAction::Exit
            },
            Some(TrayItem::TogglePin) => {
                self.toggle_pin();
                TrayAction::RefreshMenu
            },
            Some(TrayItem::ShowSettings) => {
                self.open_settings();
                TrayAction::Show(WindowLabel::Settings)
            },
            None => TrayAction::Ignore,
        }
    }
}

} // verus!
