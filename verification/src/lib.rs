//! A desktop shell around a web messaging client: a tray icon with a
//! show/hide/quit menu, a close button that hides instead of destroying the
//! window, a policy that routes external links to the OS default browser,
//! and a bridge that forwards in-page notifications to the OS notification
//! service.
//!
//! This crate holds the decision logic of that shell: what each tray,
//! window and content event means, which OS-level action it demands, and
//! how the single window's visibility evolves.  The surrounding process
//! (window system, tray registration, the embedded webview) performs the
//! actions this logic decides on.

pub mod link_policy;
pub mod notification;
pub mod session;
pub mod tray;
pub mod visibility;
