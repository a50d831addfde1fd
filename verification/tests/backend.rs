use cu::backend::{
    resolve_backend, x11_target, BackendChoice, BackendError, BackendOptions, ResolvedBackend,
    SessionEnvironment,
};
use cu::frame::CaptureLimits;

fn options(choice: BackendChoice) -> BackendOptions {
    BackendOptions {
        choice,
        display: None,
        output: None,
        capture_limits: CaptureLimits::default(),
    }
}

#[test]
fn auto_prefers_a_wayland_session_over_xwayland() {
    let environment = SessionEnvironment {
        session_type: Some("wayland".to_owned()),
        wayland_display: Some("wayland-1".to_owned()),
        x11_display: Some(":1".to_owned()),
        ..SessionEnvironment::default()
    };

    assert_eq!(
        resolve_backend(&options(BackendChoice::Auto), &environment).unwrap(),
        ResolvedBackend::Wayland
    );
}

#[test]
fn auto_selects_x11_for_an_x11_session() {
    let environment = SessionEnvironment {
        session_type: Some("x11".to_owned()),
        wayland_display: None,
        x11_display: Some(":0".to_owned()),
        ..SessionEnvironment::default()
    };

    assert_eq!(
        resolve_backend(&options(BackendChoice::Auto), &environment).unwrap(),
        ResolvedBackend::X11 {
            display: ":0".to_owned()
        }
    );
}

#[test]
fn explicit_display_selects_x11_in_auto_mode() {
    let mut options = options(BackendChoice::Auto);
    options.display = Some(":99".to_owned());
    let environment = SessionEnvironment {
        session_type: Some("wayland".to_owned()),
        wayland_display: Some("wayland-1".to_owned()),
        x11_display: Some(":1".to_owned()),
        ..SessionEnvironment::default()
    };

    assert_eq!(
        resolve_backend(&options, &environment).unwrap(),
        ResolvedBackend::X11 {
            display: ":99".to_owned()
        }
    );
}

#[test]
fn auto_does_not_fall_back_to_xwayland_when_wayland_is_broken() {
    let environment = SessionEnvironment {
        session_type: Some("wayland".to_owned()),
        wayland_display: None,
        x11_display: Some(":1".to_owned()),
        ..SessionEnvironment::default()
    };

    let error = resolve_backend(&options(BackendChoice::Auto), &environment).unwrap_err();

    assert!(error.message().contains("WAYLAND_DISPLAY"));
}

#[test]
fn explicit_backend_rejects_foreign_target_options() {
    let mut options = options(BackendChoice::Wayland);
    options.display = Some(":99".to_owned());
    let environment = SessionEnvironment {
        wayland_display: Some("wayland-1".to_owned()),
        ..SessionEnvironment::default()
    };

    assert!(resolve_backend(&options, &environment).is_err());
}

#[test]
fn wayland_metadata_resolves_the_socket_and_keeps_x11_separate() {
    let environment = SessionEnvironment {
        wayland_display: Some("wayland-2".to_owned()),
        runtime_dir: Some("/run/user/1234".to_owned()),
        x11_display: Some(":99".to_owned()),
        ..SessionEnvironment::default()
    };

    assert_eq!(
        environment.wayland_target("DP-1"),
        "backend=wayland, display=\"/run/user/1234/wayland-2\", output=\"DP-1\", x11_display=\":99\""
    );

    let absolute = SessionEnvironment {
        wayland_display: Some("/tmp/nested/wayland-3".to_owned()),
        runtime_dir: Some("/run/user/1234".to_owned()),
        ..SessionEnvironment::default()
    };
    assert_eq!(
        absolute.wayland_target("DP-2"),
        "backend=wayland, display=\"/tmp/nested/wayland-3\", output=\"DP-2\""
    );
}

#[test]
fn wayland_metadata_does_not_guess_an_inherited_or_unresolved_socket() {
    let mut environment = SessionEnvironment {
        wayland_display: Some("/tmp/not-the-connected-socket".to_owned()),
        inherited_wayland_socket: true,
        ..SessionEnvironment::default()
    };
    assert_eq!(
        environment.wayland_target("DP-1"),
        "backend=wayland, connection=inherited_fd, output=\"DP-1\""
    );

    environment.inherited_wayland_socket = false;
    environment.wayland_display = Some("wayland-1".to_owned());
    for directory in [None, Some("relative-runtime".to_owned())] {
        environment.runtime_dir = directory;
        assert_eq!(
            environment.wayland_target("DP-1"),
            "backend=wayland, display=unknown, output=\"DP-1\""
        );
    }
}

#[test]
fn targets_quote_and_escape_what_they_name() {
    assert_eq!(
        x11_target(":99", 0),
        "backend=x11, display=\":99\", screen=0"
    );
    assert_eq!(
        x11_target("a\"b\n", 12),
        "backend=x11, display=\"a\\\"b\\n\", screen=12"
    );
    let environment = SessionEnvironment {
        wayland_display: Some("/tmp/it's \"here\"".to_owned()),
        ..SessionEnvironment::default()
    };
    assert_eq!(
        environment.wayland_target("DP\\1"),
        format!(
            "backend=wayland, display={:?}, output=\"DP\\\\1\"",
            std::path::Path::new("/tmp/it's \"here\"")
        )
    );
}

#[test]
fn environment_values_are_blank_or_lower_case() {
    let environment = SessionEnvironment::from_values(
        Some("WayLand".to_owned()),
        Some("  ".to_owned()),
        Some("/run/user/1".to_owned()),
        false,
        Some(":0".to_owned()),
    );
    assert_eq!(environment.session_type.as_deref(), Some("wayland"));
    assert_eq!(environment.wayland_display, None);
    assert_eq!(environment.x11_display.as_deref(), Some(":0"));
    assert_eq!(environment.wayland_socket(), None);
}

#[test]
fn every_refusal_of_a_backend_has_its_message() {
    let nothing = SessionEnvironment::default();
    let refused = |options: &BackendOptions| resolve_backend(options, &nothing).unwrap_err();

    let mut both = options(BackendChoice::Auto);
    both.display = Some(":1".to_owned());
    both.output = Some("DP-1".to_owned());
    assert_eq!(refused(&both), BackendError::TwoTargets);
    assert_eq!(
        refused(&both).message(),
        "--display and --output target different display systems"
    );

    let mut display = options(BackendChoice::Wayland);
    display.display = Some(":1".to_owned());
    assert_eq!(refused(&display).message(), "--display requires --backend x11");

    let mut output = options(BackendChoice::X11);
    output.output = Some("DP-1".to_owned());
    assert_eq!(refused(&output).message(), "--output requires --backend wayland");

    assert_eq!(
        refused(&options(BackendChoice::X11)).message(),
        "X11 backend requires --display or DISPLAY"
    );
    assert_eq!(
        refused(&options(BackendChoice::Wayland)).message(),
        "Wayland backend requires WAYLAND_DISPLAY"
    );
    assert_eq!(
        refused(&options(BackendChoice::Auto)).message(),
        "unable to detect a desktop session; set WAYLAND_DISPLAY or DISPLAY, or pass --backend"
    );
    assert_eq!(BackendChoice::default(), BackendChoice::Auto);
}
