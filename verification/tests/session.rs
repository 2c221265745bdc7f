use notify_sleep::session::{advertises_layer_shell, eq_ignore_ascii_case, session_type_from_env, SessionType};

fn s(text: &str) -> Option<String> {
    Some(text.to_string())
}

#[test]
fn winit_backend_decides_first() {
    assert_eq!(session_type_from_env(s("x11"), s("wayland"), s("wayland-0")), SessionType::X11);
    assert_eq!(session_type_from_env(s("WAYLAND"), s("x11"), None), SessionType::Wayland);
}

#[test]
fn xdg_session_type_decides_next() {
    assert_eq!(session_type_from_env(s("other"), s("Wayland"), None), SessionType::Wayland);
    assert_eq!(session_type_from_env(None, s("X11"), s("wayland-0")), SessionType::X11);
}

#[test]
fn wayland_display_decides_last() {
    assert_eq!(session_type_from_env(None, s("tty"), s("wayland-0")), SessionType::Wayland);
    assert_eq!(session_type_from_env(None, None, s("")), SessionType::X11);
    assert_eq!(session_type_from_env(None, None, None), SessionType::X11);
}

#[test]
fn case_is_ignored_for_ascii_letters_only() {
    assert!(eq_ignore_ascii_case("Wayland", "wAYLAND"));
    assert!(!eq_ignore_ascii_case("x11", "x12"));
    assert!(!eq_ignore_ascii_case("x11", "x1"));
    assert!(!eq_ignore_ascii_case("\u{c9}", "\u{e9}"));
    assert!(eq_ignore_ascii_case("", ""));
}

#[test]
fn layer_shell_is_found_among_the_globals() {
    let globals = vec!["wl_compositor".to_string(), "zwlr_layer_shell_v1".to_string()];
    assert!(advertises_layer_shell(&globals));
    let globals = vec!["wl_compositor".to_string(), "zwlr_layer_shell_v2".to_string()];
    assert!(!advertises_layer_shell(&globals));
    assert!(!advertises_layer_shell(&Vec::new()));
}
