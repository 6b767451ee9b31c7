use tray_shell::session::{initial_state, step, AppEvent, HostEffect};
use tray_shell::tray::{MouseButton, MouseButtonState, TrayIconEvent};

fn menu(id: &str) -> AppEvent {
    AppEvent::MenuSelect { id: id.to_string() }
}

fn left_click(button_state: MouseButtonState) -> AppEvent {
    AppEvent::TrayIcon {
        icon_event: TrayIconEvent::Click {
            button: MouseButton::Left,
            button_state,
        },
    }
}

#[test]
fn scenario_tray_menu_close_and_quit() {
    // start (shown) -> icon left down+up -> hidden -> menu show_hide ->
    // shown -> close request -> hidden, process alive -> menu quit -> exit.
    let mut s = initial_state();
    assert!(s.window.visible && s.window_live && s.running);

    let fx = step(&mut s, &left_click(MouseButtonState::Down));
    assert!(s.window.visible, "a press alone must not toggle");
    assert!(fx.is_empty());

    let fx = step(&mut s, &left_click(MouseButtonState::Up));
    assert!(!s.window.visible);
    assert_eq!(fx, vec![HostEffect::HideWindow]);

    let fx = step(&mut s, &menu("show_hide"));
    assert!(s.window.visible);
    assert_eq!(fx, vec![HostEffect::ShowAndFocusWindow]);

    let fx = step(&mut s, &AppEvent::CloseRequested);
    assert!(!s.window.visible);
    assert!(s.window_live, "the window is hidden, not destroyed");
    assert!(s.running, "a close request keeps the process alive");
    assert_eq!(fx, vec![HostEffect::PreventClose, HostEffect::HideWindow]);

    let fx = step(&mut s, &menu("quit"));
    assert!(!s.running);
    assert_eq!(fx, vec![HostEffect::Exit { code: 0 }]);
}

#[test]
fn icon_press_alone_does_not_toggle() {
    let mut s = initial_state();
    let fx = step(&mut s, &left_click(MouseButtonState::Down));
    assert!(s.window.visible);
    assert!(fx.is_empty());
    let fx = step(&mut s, &left_click(MouseButtonState::Up));
    assert!(!s.window.visible);
    assert_eq!(fx, vec![HostEffect::HideWindow]);
}

#[test]
fn right_button_release_does_not_toggle() {
    let mut s = initial_state();
    let fx = step(
        &mut s,
        &AppEvent::TrayIcon {
            icon_event: TrayIconEvent::Click {
                button: MouseButton::Right,
                button_state: MouseButtonState::Up,
            },
        },
    );
    assert!(s.window.visible);
    assert!(fx.is_empty());
}

#[test]
fn close_request_hides_an_already_hidden_window() {
    let mut s = initial_state();
    step(&mut s, &AppEvent::CloseRequested);
    let fx = step(&mut s, &AppEvent::CloseRequested);
    assert!(!s.window.visible);
    assert!(s.window_live && s.running);
    assert_eq!(fx, vec![HostEffect::PreventClose, HostEffect::HideWindow]);
}

#[test]
fn quit_terminates_from_hidden_state_too() {
    let mut s = initial_state();
    step(&mut s, &left_click(MouseButtonState::Up));
    assert!(!s.window.visible);
    let fx = step(&mut s, &menu("quit"));
    assert!(!s.running);
    assert_eq!(fx, vec![HostEffect::Exit { code: 0 }]);
}

#[test]
fn unknown_menu_identifier_is_ignored() {
    let mut s = initial_state();
    let before = s;
    let fx = step(&mut s, &menu("future_feature"));
    assert_eq!(s, before);
    assert!(fx.is_empty());
}

#[test]
fn show_hide_menu_alternates_visibility() {
    let mut s = initial_state();
    for n in 1..=5u32 {
        step(&mut s, &menu("show_hide"));
        assert_eq!(s.window.visible, n % 2 == 0);
    }
}
