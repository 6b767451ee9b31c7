//! The notification bridge: the compatibility shim that stands in for the
//! web content's notification constructor.
//!
//! Constructing a notification immediately forwards title, body and a fixed
//! icon reference to the host's OS-notification dispatch, and hands back an
//! inert handle: its close and listener operations do nothing, so a caller
//! that waits for `click` or `close` events never hears one.  That is a
//! documented limitation of the shim, not something to paper over.
//!
//! Permission is hard-coded to granted: the query always reports granted,
//! and the request path resolves immediately to granted without ever
//! prompting the user.

use vstd::prelude::*;

verus! {

/// The icon reference every forwarded notification carries.
pub open spec fn fixed_icon() -> Seq<char> {
    "icon"@
}

/// One notification to hand to the OS dispatch: title, body and icon
/// reference.  Consumed immediately; nothing is retained.
#[derive(Clone, Debug)]
pub struct NotificationRequest {
    pub title: String,
    pub body: String,
    pub icon: String,
}

/// Builds the dispatch payload for one constructor call: the given title,
/// the given body or empty when none was passed, and the fixed icon
/// reference.
pub fn build_notification(title: String, body: Option<String>) -> (r: NotificationRequest)
    ensures
        r.title@ == title@,
        body matches Some(b) ==> r.body@ == b@,
        body is None ==> r.body@ == Seq::<char>::empty(),
        r.icon@ == fixed_icon(),
{
    let body = match body {
        Some(b) => b,
        None => String::new(),
    };
    NotificationRequest { title, body, icon: "icon".to_owned() }
}

/// The permission state the shim reports for notifications.
#[derive(Clone, Copy, Debug, PartialEq, Eq, Structural)]
pub enum NotificationPermission {
    Granted,
    Denied,
}

/// The current permission: always granted.
pub fn permission_state() -> (p: NotificationPermission)
    ensures
        p is Granted,
{
    NotificationPermission::Granted
}

/// Resolves a permission request: immediately and unconditionally granted,
/// never prompting the user.  (Asynchronous only in form at the content
/// boundary; the resolution itself is this value.)
pub fn request_permission() -> (p: NotificationPermission)
    ensures
        p is Granted,
{
    NotificationPermission::Granted
}

/// The inert handle a constructor call returns.  It carries no state: the
/// notification was already dispatched, and no events ever reach it.
#[derive(Clone, Copy, Debug, PartialEq, Eq, Structural)]
pub struct NotificationHandle {}

impl NotificationHandle {
    /// The handle for a freshly dispatched notification.
    pub fn new() -> (h: Self) {
        NotificationHandle {  }
    }

    /// Does nothing: the underlying notification is owned by the OS.
    pub fn close(&self) {
    }

    /// Does nothing: no events are ever delivered to the handle.
    pub fn add_event_listener(&self, _event: &str) {
    }

    /// Does nothing: no listener was ever registered.
    pub fn remove_event_listener(&self, _event: &str) {
    }
}

} // verus!
