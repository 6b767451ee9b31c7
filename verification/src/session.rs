//! The host-side event machine: one step per tray or window callback.
//!
//! The host process is single-threaded and event-driven; tray-menu events,
//! tray-icon events and the window's close request arrive one at a time.
//! [`step`] maps the current state and one event to the next state and the
//! OS-level effects the host must perform.  Two invariants shape it:
//!
//! * the window object is never destroyed while the process lives — a close
//!   request is suppressed and degraded to a hide;
//! * the tray menu's `quit` entry is the only path that terminates the
//!   process; every other event preserves process lifetime.

use vstd::prelude::*;
use crate::tray::{MenuAction, TrayIconEvent, click_toggles, dispatch_menu, icon_event_toggles};
use crate::visibility::{VisibilityAction, VisibilityController};

verus! {

/// The whole mutable state of the shell process.
#[derive(Clone, Copy, Debug, PartialEq, Eq, Structural)]
pub struct AppState {
    /// The single window's shown/hidden flag.
    pub window: VisibilityController,
    /// The window object exists (it is hidden on close, never torn down).
    pub window_live: bool,
    /// The process has not terminated.
    pub running: bool,
}

/// One event delivered to the host's dispatch thread.
#[derive(Clone, Debug)]
pub enum AppEvent {
    /// A tray-menu entry was selected, by identifier.
    MenuSelect { id: String },
    /// An event on the tray icon itself.
    TrayIcon { icon_event: TrayIconEvent },
    /// The user pressed the window's close button.
    CloseRequested,
}

/// An OS-level action the host performs in response to a step.
#[derive(Clone, Copy, Debug, PartialEq, Eq, Structural)]
pub enum HostEffect {
    /// Hide the window.
    HideWindow,
    /// Show the window and hand it input focus.
    ShowAndFocusWindow,
    /// Suppress the default close/destroy behaviour of a close request.
    PreventClose,
    /// Terminate the process with the given exit code.
    Exit { code: i32 },
}

/// The event is the tray menu's `quit` selection: the one terminating path.
pub open spec fn is_quit_event(event: AppEvent) -> bool {
    event matches AppEvent::MenuSelect { id } && id@ == "quit"@
}

/// The event toggles the window's visibility: the `show_hide` menu entry,
/// or a left-button release on the tray icon.
pub open spec fn is_toggle_event(event: AppEvent) -> bool {
    ||| (event matches AppEvent::MenuSelect { id } && id@ == "show_hide"@)
    ||| (event matches AppEvent::TrayIcon { icon_event } && click_toggles(icon_event))
}

/// The state after one event.
pub open spec fn step_state(pre: AppState, event: AppEvent) -> AppState {
    if is_toggle_event(event) {
        AppState {
            window: VisibilityController { visible: !pre.window.visible },
            window_live: pre.window_live,
            running: pre.running,
        }
    } else if is_quit_event(event) {
        AppState { window: pre.window, window_live: pre.window_live, running: false }
    } else if event is CloseRequested {
        AppState {
            window: VisibilityController { visible: false },
            window_live: pre.window_live,
            running: pre.running,
        }
    } else {
        pre
    }
}

/// The effects one event demands: the window-manager call realising a
/// toggle, exit code 0 for `quit`, suppress-then-hide for a close request,
/// nothing for anything else.
pub open spec fn step_effects(pre: AppState, event: AppEvent) -> Seq<HostEffect> {
    if is_toggle_event(event) {
        if pre.window.visible {
            seq![HostEffect::HideWindow]
        } else {
            seq![HostEffect::ShowAndFocusWindow]
        }
    } else if is_quit_event(event) {
        seq![HostEffect::Exit { code: 0 }]
    } else if event is CloseRequested {
        seq![HostEffect::PreventClose, HostEffect::HideWindow]
    } else {
        Seq::empty()
    }
}

/// The state at process start: window shown and live, process running.
pub fn initial_state() -> (s: AppState)
    ensures
        s.window.visible,
        s.window_live,
        s.running,
{
    AppState { window: VisibilityController::new(), window_live: true, running: true }
}

/// Performs one step of the event machine: updates the state and returns
/// the OS-level effects the host must perform, in order.
///
/// Beyond the exact step relation, the contract restates the shell's two
/// lifetime rules: a close request never destroys the window and never
/// terminates the process, and only the `quit` menu entry does terminate.
pub fn step(state: &mut AppState, event: &AppEvent) -> (effects: Vec<HostEffect>)
    requires
        old(state).running,
    ensures
        *final(state) == step_state(*old(state), *event),
        effects@ == step_effects(*old(state), *event),
        final(state).window_live == old(state).window_live,
        *event is CloseRequested ==> !final(state).window.visible && final(state).running,
        final(state).running <==> !is_quit_event(*event),
        is_quit_event(*event) ==> effects@ == seq![HostEffect::Exit { code: 0 }],
        *event matches AppEvent::TrayIcon { icon_event } && !click_toggles(icon_event)
            ==> final(state).window == old(state).window,
{
    let mut effects: Vec<HostEffect> = Vec::new();
    match event {
        AppEvent::MenuSelect { id } => {
            match dispatch_menu(id.as_str()) {
                MenuAction::ToggleVisibility => {
                    match state.window.toggle() {
                        VisibilityAction::Hide => effects.push(HostEffect::HideWindow),
                        VisibilityAction::ShowAndFocus => effects.push(
                            HostEffect::ShowAndFocusWindow,
                        ),
                    }
                },
                MenuAction::Quit => {
                    state.running = false;
                    effects.push(HostEffect::Exit { code: 0 });
                },
                MenuAction::Ignore => {},
            }
        },
        AppEvent::TrayIcon { icon_event } => {
            if icon_event_toggles(icon_event) {
                match state.window.toggle() {
                    VisibilityAction::Hide => effects.push(HostEffect::HideWindow),
                    VisibilityAction::ShowAndFocus => effects.push(HostEffect::ShowAndFocusWindow),
                }
            }
        },
        AppEvent::CloseRequested => {
            effects.push(HostEffect::PreventClose);
            state.window.set_hidden();
            effects.push(HostEffect::HideWindow);
        },
    }
    effects
}

/// The state after a whole sequence of events, delivered in order.
pub open spec fn run_events(s: AppState, events: Seq<AppEvent>) -> AppState
    decreases events.len(),
{
    if events.len() == 0 {
        s
    } else {
        run_events(step_state(s, events[0]), events.drop_first())
    }
}

/// The window object survives every event sequence: no event destroys it.
pub proof fn lemma_window_never_destroyed(s: AppState, events: Seq<AppEvent>)
    ensures
        run_events(s, events).window_live == s.window_live,
    decreases events.len(),
{
    if events.len() > 0 {
        lemma_window_never_destroyed(step_state(s, events[0]), events.drop_first());
    }
}

/// One step preserves the running flag exactly when the event is not the
/// `quit` selection (the two menu identifiers are distinct strings, so a
/// toggle event never doubles as a quit event).
proof fn lemma_step_running(s: AppState, event: AppEvent)
    ensures
        step_state(s, event).running == (s.running && !is_quit_event(event)),
{
    reveal_strlit("show_hide");
    reveal_strlit("quit");
    assert("show_hide"@.len() == 9);
    assert("quit"@.len() == 4);
}

/// Quit, and only quit, terminates: after any event sequence the process
/// is still running exactly when it was running before and no event was
/// the `quit` selection.
pub proof fn lemma_only_quit_terminates(s: AppState, events: Seq<AppEvent>)
    ensures
        run_events(s, events).running == (s.running && forall|i: int|
            0 <= i < events.len() ==> !is_quit_event(#[trigger] events[i])),
    decreases events.len(),
{
    if events.len() > 0 {
        let e0 = events[0];
        let rest = events.drop_first();
        lemma_step_running(s, e0);
        lemma_only_quit_terminates(step_state(s, e0), rest);
        if run_events(s, events).running {
            assert forall|i: int| 0 <= i < events.len() implies !is_quit_event(
                #[trigger] events[i],
            ) by {
                if i > 0 {
                    assert(events[i] == rest[i - 1]);
                    assert(!is_quit_event(rest[i - 1]));
                }
            };
        } else if s.running && (forall|i: int|
            0 <= i < events.len() ==> !is_quit_event(#[trigger] events[i])) {
            assert forall|i: int| 0 <= i < rest.len() implies !is_quit_event(
                #[trigger] rest[i],
            ) by {
                assert(rest[i] == events[i + 1]);
                assert(!is_quit_event(events[i + 1]));
            };
            assert(false);
        }
    }
}

} // verus!
