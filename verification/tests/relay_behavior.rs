use launch_relay::channel::{handle_inbound, InboundEvent};
use launch_relay::relay::relay_open_url;
use launch_relay::window::{locate, restore_and_focus_main, WindowHost, WindowState};

fn window(label: &str, minimized: bool, focused: bool) -> WindowState {
    WindowState { label: label.to_string(), minimized, focused }
}

#[test]
fn relay_forwards_the_first_url_to_main() {
    let host = WindowHost { windows: vec![window("main", false, true)] };
    let urls = vec!["app://foo/bar".to_string(), "app://baz".to_string()];
    let event = relay_open_url(&host, &urls).expect("an event is emitted");
    assert_eq!(event.payload, "app://foo/bar".to_string());
    assert_eq!(event.target, "main".to_string());
    assert_eq!(event.name, "deep-link".to_string());
}

#[test]
fn relay_with_one_url() {
    let host = WindowHost { windows: vec![window("splash", true, false), window("main", true, false)] };
    let urls = vec!["app://only".to_string()];
    let event = relay_open_url(&host, &urls).expect("an event is emitted");
    assert_eq!(event.payload, "app://only".to_string());
    assert_eq!(event.target, "main".to_string());
}

#[test]
fn empty_notification_is_a_no_op() {
    let host = WindowHost { windows: vec![window("main", false, true)] };
    let urls: Vec<String> = vec![];
    assert!(relay_open_url(&host, &urls).is_none());
}

#[test]
fn missing_window_drops_the_url_without_retry() {
    let mut host = WindowHost { windows: vec![] };
    let urls = vec!["app://early".to_string()];
    assert!(relay_open_url(&host, &urls).is_none());

    // The window appears later; the dropped URL is not delivered then. Only a
    // fresh notification produces an event, and it carries its own URL.
    host.windows.push(window("main", false, false));
    let later = vec!["app://late".to_string()];
    let event = relay_open_url(&host, &later).expect("an event is emitted");
    assert_eq!(event.payload, "app://late".to_string());
}

#[test]
fn locate_resolves_by_label() {
    let host = WindowHost {
        windows: vec![window("splash", false, false), window("main", true, false)],
    };
    assert_eq!(locate(&host, &"main".to_string()), Some(1));
    assert_eq!(locate(&host, &"splash".to_string()), Some(0));
    assert_eq!(locate(&host, &"settings".to_string()), None);
}

#[test]
fn relaunch_restores_and_focuses_a_minimized_main_window() {
    let mut host = WindowHost {
        windows: vec![window("splash", true, false), window("main", true, false)],
    };
    restore_and_focus_main(&mut host);
    assert!(!host.windows[1].minimized);
    assert!(host.windows[1].focused);
    // The other window is untouched.
    assert!(host.windows[0].minimized);
    assert!(!host.windows[0].focused);
}

#[test]
fn inbound_second_launch_focuses_and_emits_nothing() {
    let mut host = WindowHost { windows: vec![window("main", true, false)] };
    let emitted = handle_inbound(
        &mut host,
        InboundEvent::SecondLaunch { args: vec!["app".to_string()], cwd: "/".to_string() },
    );
    assert!(emitted.is_none());
    assert!(!host.windows[0].minimized);
    assert!(host.windows[0].focused);
}

#[test]
fn inbound_open_url_emits_and_touches_no_window() {
    let mut host = WindowHost { windows: vec![window("main", true, false)] };
    let emitted = handle_inbound(
        &mut host,
        InboundEvent::OpenUrl { urls: vec!["app://foo/bar".to_string()] },
    );
    let event = emitted.expect("an event is emitted");
    assert_eq!(event.payload, "app://foo/bar".to_string());
    assert_eq!(event.name, "deep-link".to_string());
    assert_eq!(event.target, "main".to_string());
    // The relay never restores or focuses anything.
    assert!(host.windows[0].minimized);
    assert!(!host.windows[0].focused);
}

#[test]
fn relaunch_with_no_main_window_is_a_no_op() {
    let mut host = WindowHost { windows: vec![window("splash", false, false)] };
    restore_and_focus_main(&mut host);
    assert_eq!(host.windows.len(), 1);
    assert!(!host.windows[0].minimized);
    assert!(!host.windows[0].focused);
}
