//! The visibility controller: the single window's shown/hidden flag and the
//! toggle operation that three independent event sources invoke (tray menu,
//! tray icon click, window close button).
//!
//! The flag is the whole process-wide mutable state of the shell.  Toggling
//! decides which window-manager action the host must perform: hiding a shown
//! window, or showing a hidden one and handing it input focus.

use vstd::prelude::*;

verus! {

/// The OS window-manager action that a visibility change demands.
///
/// Showing a window also transfers input focus to it; hiding has no side
/// effect beyond the OS-level hide.
#[derive(Clone, Copy, Debug, PartialEq, Eq, Structural)]
pub enum VisibilityAction {
    Hide,
    ShowAndFocus,
}

/// Owns the window's shown/hidden flag.  The window starts shown.
#[derive(Clone, Copy, Debug, PartialEq, Eq, Structural)]
pub struct VisibilityController {
    pub visible: bool,
}

/// The flag after one toggle.
pub open spec fn toggled(visible: bool) -> bool {
    !visible
}

/// The flag after `n` toggles starting from `visible`.
pub open spec fn after_toggles(visible: bool, n: nat) -> bool
    decreases n,
{
    if n == 0 {
        visible
    } else {
        toggled(after_toggles(visible, (n - 1) as nat))
    }
}

impl VisibilityController {
    /// A controller for a freshly created window, which is shown.
    pub fn new() -> (c: Self)
        ensures
            c.visible,
    {
        VisibilityController { visible: true }
    }

    /// Flips the flag and reports the window-manager action that realises
    /// the flip: hide a shown window, show and focus a hidden one.
    ///
    /// Total and infallible: rapid repeated invocation simply alternates
    /// the state.
    pub fn toggle(&mut self) -> (action: VisibilityAction)
        ensures
            final(self).visible == toggled(old(self).visible),
            action == (if old(self).visible {
                VisibilityAction::Hide
            } else {
                VisibilityAction::ShowAndFocus
            }),
    {
        if self.visible {
            self.visible = false;
            VisibilityAction::Hide
        } else {
            self.visible = true;
            VisibilityAction::ShowAndFocus
        }
    }

    /// Hides the window unconditionally; used by the close interceptor,
    /// which turns every close request into a hide.
    pub fn set_hidden(&mut self)
        ensures
            !final(self).visible,
    {
        self.visible = false;
    }
}

/// Toggle parity: a window that starts shown is shown after `n` toggles
/// exactly when `n` is even.
pub proof fn lemma_toggle_parity(n: nat)
    ensures
        after_toggles(true, n) == (n % 2 == 0),
    decreases n,
{
    if n > 0 {
        lemma_toggle_parity((n - 1) as nat);
    }
}

} // verus!
