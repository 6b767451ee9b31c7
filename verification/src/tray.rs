//! The tray presence: the menu attached to the tray icon, the dispatch of
//! its events, and the edge-triggering rule for clicks on the icon itself.
//!
//! The menu carries exactly two entries with stable identifiers:
//! `show_hide` toggles the window's visibility and `quit` terminates the
//! process with exit code 0.  Any other identifier is ignored, so a future
//! menu entry silently no-ops until it gets a dispatch case of its own.
//!
//! Clicks on the tray icon toggle visibility only on the release edge of
//! the left button: a press alone (or a press-and-hold, or a drag) must not
//! fire, which avoids double-firing on common tray click gestures.

use vstd::prelude::*;

verus! {

/// One entry of the tray menu: a stable identifier and a human label.
/// Immutable once constructed.
#[derive(Clone, Debug)]
pub struct MenuEntry {
    pub id: String,
    pub label: String,
}

/// Builds the tray menu: `show_hide` ("Show/Hide") then `quit` ("Quit").
pub fn tray_menu_entries() -> (entries: Vec<MenuEntry>)
    ensures
        entries@.len() == 2,
        entries@[0].id@ == "show_hide"@,
        entries@[0].label@ == "Show/Hide"@,
        entries@[1].id@ == "quit"@,
        entries@[1].label@ == "Quit"@,
{
    let mut entries: Vec<MenuEntry> = Vec::new();
    entries.push(MenuEntry { id: "show_hide".to_owned(), label: "Show/Hide".to_owned() });
    entries.push(MenuEntry { id: "quit".to_owned(), label: "Quit".to_owned() });
    entries
}

/// A failure while putting up the tray presence.  This is the only failure
/// of the shell that propagates: it aborts startup.
#[derive(Clone, Copy, Debug, PartialEq, Eq, Structural)]
pub enum TraySetupError {
    /// The application has no default icon asset to draw the tray icon
    /// from.
    MissingIcon,
}

/// Requires the application's default icon for the tray icon.  A present
/// icon is handed back; an absent one is the fatal construction error.
pub fn require_default_icon<I>(icon: Option<I>) -> (r: Result<I, TraySetupError>)
    ensures
        icon matches Some(i) ==> r matches Ok(out) && out == i,
        icon is None ==> r == Err::<I, TraySetupError>(TraySetupError::MissingIcon),
{
    match icon {
        Some(i) => Ok(i),
        None => Err(TraySetupError::MissingIcon),
    }
}

/// What one tray-menu event demands of the host.
#[derive(Clone, Copy, Debug, PartialEq, Eq, Structural)]
pub enum MenuAction {
    /// Toggle the window's visibility.
    ToggleVisibility,
    /// Terminate the process with exit code 0.
    Quit,
    /// An identifier without a dispatch case: do nothing.
    Ignore,
}

/// Dispatches one tray-menu event by its identifier: `show_hide` toggles,
/// `quit` terminates, anything else is ignored.
pub fn dispatch_menu(id: &str) -> (a: MenuAction)
    ensures
        (a is ToggleVisibility) <==> id@ == "show_hide"@,
        (a is Quit) <==> id@ == "quit"@,
        (a is Ignore) <==> (id@ != "show_hide"@ && id@ != "quit"@),
{
    proof {
        reveal_strlit("show_hide");
        reveal_strlit("quit");
        assert("show_hide"@.len() == 9);
        assert("quit"@.len() == 4);
    }
    if str_eq(id, "show_hide") {
        MenuAction::ToggleVisibility
    } else if str_eq(id, "quit") {
        MenuAction::Quit
    } else {
        MenuAction::Ignore
    }
}

/// Character-for-character equality of two string slices.
fn str_eq(a: &str, b: &str) -> (r: bool)
    ensures
        r == (a@ == b@),
{
    let ab = a.as_bytes();
    let bb = b.as_bytes();
    let r = bytes_eq(ab, bb);
    proof {
        vstd::utf8::encode_utf8_decode_utf8(a@);
        vstd::utf8::encode_utf8_decode_utf8(b@);
    }
    r
}

/// Element-for-element equality of two byte slices.
fn bytes_eq(a: &[u8], b: &[u8]) -> (r: bool)
    ensures
        r == (a@ == b@),
{
    if a.len() != b.len() {
        return false;
    }
    let mut i: usize = 0;
    while i < a.len()
        invariant
            a@.len() == b@.len(),
            i <= a@.len(),
            forall|j: int| 0 <= j < i ==> a@[j] == b@[j],
        decreases a@.len() - i,
    {
        if a[i] != b[i] {
            return false;
        }
        i = i + 1;
    }
    assert(a@ =~= b@);
    true
}

/// A mouse button of a tray-icon event.
#[derive(Clone, Copy, Debug, PartialEq, Eq, Structural)]
pub enum MouseButton {
    Left,
    Right,
    Middle,
}

/// The pressed-or-released state a tray-icon click reports.
#[derive(Clone, Copy, Debug, PartialEq, Eq, Structural)]
pub enum MouseButtonState {
    Up,
    Down,
}

/// An event on the tray icon itself (not on its menu).
#[derive(Clone, Copy, Debug, PartialEq, Eq, Structural)]
pub enum TrayIconEvent {
    /// A click, with the button and its transition.
    Click { button: MouseButton, button_state: MouseButtonState },
    /// Any other icon event (enter, move, leave, double click, ...).
    Other,
}

/// The click combinations that toggle visibility: exactly the release
/// ("up") edge of the left button.
pub open spec fn click_toggles(event: TrayIconEvent) -> bool {
    event == TrayIconEvent::Click {
        button: MouseButton::Left,
        button_state: MouseButtonState::Up,
    }
}

/// Decides whether one tray-icon event toggles visibility.  Only a left
/// button release does; in particular a press alone never fires.
pub fn icon_event_toggles(event: &TrayIconEvent) -> (r: bool)
    ensures
        r == click_toggles(*event),
{
    match event {
        TrayIconEvent::Click {
            button: MouseButton::Left,
            button_state: MouseButtonState::Up,
        } => true,
        _ => false,
    }
}

} // verus!
