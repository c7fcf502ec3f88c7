use reveris_noctis::command::Command;
use reveris_noctis::event::Event;
use reveris_noctis::host::{cancels_close, Host, Window};

const WINDOWS: [Window; 3] = [Window::Hidden, Window::Visible, Window::Focused];

fn running(window: Window) -> Host {
    Host::Running { window }
}

fn menu_click(id: &str) -> Event {
    Event::MenuItemClick { id: id.to_string() }
}

#[test]
fn show_and_status_leave_the_window_visible_and_focused() {
    for window in WINDOWS {
        for id in ["show", "status"] {
            let next = running(window).handle(&menu_click(id));
            assert_eq!(next, running(Window::Focused));
        }
    }
    assert!(Window::Focused.is_visible());
    assert!(Window::Focused.is_focused());
}

#[test]
fn left_click_leaves_the_window_visible_and_focused() {
    for window in WINDOWS {
        assert_eq!(
            running(window).handle(&Event::TrayLeftClick),
            running(Window::Focused)
        );
    }
}

#[test]
fn hide_leaves_the_window_hidden_and_the_process_running() {
    for window in WINDOWS {
        assert_eq!(running(window).handle(&menu_click("hide")), running(Window::Hidden));
    }
    assert!(!Window::Hidden.is_visible());
    assert!(!Window::Hidden.is_focused());
}

#[test]
fn quit_exits_with_code_zero_from_any_window_state() {
    for window in WINDOWS {
        assert_eq!(
            running(window).handle(&menu_click("quit")),
            Host::Exited { code: 0 }
        );
    }
}

#[test]
fn close_request_hides_and_destroys_nothing() {
    for window in WINDOWS {
        let next = running(window).handle(&Event::CloseRequested);
        assert_eq!(next, running(Window::Hidden));
        assert_ne!(next, Host::WindowDestroyed);
    }
}

#[test]
fn docs_click_leaves_the_host_as_it_was() {
    for window in WINDOWS {
        assert_eq!(running(window).handle(&menu_click("docs")), running(window));
    }
}

#[test]
fn unknown_click_changes_nothing() {
    for window in WINDOWS {
        assert_eq!(running(window).handle(&menu_click("bogus")), running(window));
    }
    assert_eq!(
        Host::Exited { code: 0 }.handle(&menu_click("bogus")),
        Host::Exited { code: 0 }
    );
    assert_eq!(
        Host::WindowDestroyed.handle(&menu_click("bogus")),
        Host::WindowDestroyed
    );
}

#[test]
fn a_stopped_host_takes_no_event() {
    let events = [
        Event::TrayLeftClick,
        menu_click("show"),
        menu_click("quit"),
        Event::CloseRequested,
    ];
    for event in events.iter() {
        assert_eq!(Host::Exited { code: 0 }.handle(event), Host::Exited { code: 0 });
        assert_eq!(Host::Exited { code: 3 }.handle(event), Host::Exited { code: 3 });
        assert_eq!(Host::WindowDestroyed.handle(event), Host::WindowDestroyed);
    }
}

#[test]
fn perform_gives_each_command_its_effect() {
    assert_eq!(
        running(Window::Hidden).perform(Command::ShowWindow),
        running(Window::Visible)
    );
    assert_eq!(
        running(Window::Visible).perform(Command::ShowWindow),
        running(Window::Visible)
    );
    assert_eq!(
        running(Window::Focused).perform(Command::ShowWindow),
        running(Window::Focused)
    );
    assert_eq!(
        running(Window::Hidden).perform(Command::FocusWindow),
        running(Window::Hidden)
    );
    assert_eq!(
        running(Window::Visible).perform(Command::FocusWindow),
        running(Window::Focused)
    );
    assert_eq!(
        running(Window::Focused).perform(Command::FocusWindow),
        running(Window::Focused)
    );
    for window in WINDOWS {
        assert_eq!(
            running(window).perform(Command::HideWindow),
            running(Window::Hidden)
        );
        assert_eq!(running(window).perform(Command::PreventClose), running(window));
        assert_eq!(running(window).perform(Command::OpenDocs), running(window));
        assert_eq!(
            running(window).perform(Command::Exit { code: 7 }),
            Host::Exited { code: 7 }
        );
    }
}

#[test]
fn perform_all_runs_first_to_last() {
    let commands = vec![
        Command::HideWindow,
        Command::ShowWindow,
        Command::FocusWindow,
    ];
    assert_eq!(
        running(Window::Visible).perform_all(&commands),
        running(Window::Focused)
    );
    let reversed = vec![
        Command::FocusWindow,
        Command::ShowWindow,
        Command::HideWindow,
    ];
    assert_eq!(
        running(Window::Visible).perform_all(&reversed),
        running(Window::Hidden)
    );
    assert_eq!(
        running(Window::Visible).perform_all(&Vec::new()),
        running(Window::Visible)
    );
}

#[test]
fn nothing_runs_after_an_exit() {
    let commands = vec![
        Command::Exit { code: 0 },
        Command::ShowWindow,
        Command::Exit { code: 1 },
    ];
    assert_eq!(
        running(Window::Hidden).perform_all(&commands),
        Host::Exited { code: 0 }
    );
}

#[test]
fn cancels_close_looks_for_the_cancelling_command() {
    assert!(cancels_close(&vec![Command::HideWindow, Command::PreventClose]));
    assert!(cancels_close(&vec![Command::PreventClose]));
    assert!(!cancels_close(&vec![Command::HideWindow]));
    assert!(!cancels_close(&Vec::new()));
}

#[test]
fn handle_all_replays_a_session() {
    let events = vec![
        Event::CloseRequested,
        menu_click("status"),
        menu_click("bogus"),
        menu_click("docs"),
        menu_click("hide"),
        Event::TrayLeftClick,
        Event::CloseRequested,
    ];
    assert_eq!(
        running(Window::Visible).handle_all(&events),
        running(Window::Hidden)
    );
    assert_eq!(
        running(Window::Visible).handle_all(&Vec::new()),
        running(Window::Visible)
    );
}

#[test]
fn a_session_ends_at_quit() {
    let events = vec![
        menu_click("show"),
        menu_click("quit"),
        menu_click("show"),
        Event::CloseRequested,
    ];
    assert_eq!(
        running(Window::Hidden).handle_all(&events),
        Host::Exited { code: 0 }
    );
}

#[test]
fn no_session_destroys_the_window() {
    let alphabet = [
        Event::TrayLeftClick,
        menu_click("show"),
        menu_click("hide"),
        menu_click("docs"),
        menu_click("status"),
        menu_click("bogus"),
        Event::CloseRequested,
    ];
    for window in WINDOWS {
        for a in alphabet.iter() {
            for b in alphabet.iter() {
                for c in alphabet.iter() {
                    let events = vec![a.clone(), b.clone(), c.clone()];
                    let end = running(window).handle_all(&events);
                    assert!(matches!(end, Host::Running { .. }));
                }
            }
        }
    }
}

#[test]
fn window_states_report_visibility_and_focus() {
    assert!(!Window::Hidden.is_visible());
    assert!(!Window::Hidden.is_focused());
    assert!(Window::Visible.is_visible());
    assert!(!Window::Visible.is_focused());
    assert!(Window::Focused.is_visible());
    assert!(Window::Focused.is_focused());
}
