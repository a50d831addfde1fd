use cu::instance::{
    connection_error, default_runtime_dir_from, managed_directories, named_instance_from_socket,
    resolve_client_socket, resolve_daemon_paths, InstanceName, PathError,
};
use cu::path::{path_components, starts_with};

const RUNTIME: &str = "/run/user/1000/computer-use";

fn name(value: &str) -> Option<InstanceName> {
    Some(InstanceName::parse(value).unwrap())
}

fn text(value: &str) -> Option<String> {
    Some(value.to_owned())
}

#[test]
fn named_instances_have_distinct_runtime_resources() {
    let first = resolve_daemon_paths(RUNTIME, name("x11-99"), None, None).unwrap();
    let second = resolve_daemon_paths(RUNTIME, name("x11-100"), None, None).unwrap();

    assert_ne!(first.socket, second.socket);
    assert_ne!(first.frame_dir, second.frame_dir);
    assert!(first.socket.ends_with("instances/x11-99/cu.sock"));
    assert!(first.frame_dir.ends_with("instances/x11-99/frames"));
}

#[test]
fn default_instance_preserves_the_legacy_runtime_paths() {
    let paths = resolve_daemon_paths(RUNTIME, None, None, None).unwrap();

    assert_eq!(paths.socket, format!("{RUNTIME}/cu.sock"));
    assert_eq!(paths.frame_dir, format!("{RUNTIME}/frames"));
    assert_eq!(paths.instance_dir.as_deref(), Some(RUNTIME));
}

#[test]
fn an_explicit_default_is_an_ordinary_name() {
    let paths = resolve_daemon_paths(RUNTIME, name("default"), None, None).unwrap();
    assert_eq!(paths.socket, format!("{RUNTIME}/instances/default/cu.sock"));
    assert_eq!(
        resolve_client_socket(RUNTIME, name("default"), None).unwrap(),
        paths.socket
    );
    assert_eq!(
        resolve_client_socket(RUNTIME, None, None).unwrap(),
        format!("{RUNTIME}/cu.sock")
    );
}

#[test]
fn instance_names_are_single_safe_path_segments() {
    for valid in ["default", "x11-99", "wayland.HDMI-A-1", "a_b"] {
        assert!(InstanceName::parse(valid).is_ok(), "rejected {valid}");
    }
    for invalid in ["", ".", "..", "../escape", "has/slash", "空"] {
        assert!(InstanceName::parse(invalid).is_err(), "accepted {invalid}");
    }
    assert!(InstanceName::parse(&"a".repeat(64)).is_ok());
    assert_eq!(
        InstanceName::parse(&"a".repeat(65)).unwrap_err(),
        "instance must be 1-64 ASCII letters, digits, dots, underscores, or hyphens"
    );
}

#[test]
fn runtime_dir_prefers_the_xdg_session_path() {
    assert_eq!(
        default_runtime_dir_from(Some("/tmp/session-runtime"), 1234),
        "/tmp/session-runtime/computer-use"
    );
}

#[test]
fn runtime_dir_falls_back_to_the_effective_users_linux_runtime_path() {
    let expected = "/run/user/1234/computer-use";
    assert_eq!(default_runtime_dir_from(None, 1234), expected);
    assert_eq!(default_runtime_dir_from(Some(""), 1234), expected);
}

#[test]
fn raw_paths_identify_separate_resources() {
    let raw = |socket: &str, frames: &str| {
        resolve_daemon_paths(RUNTIME, None, text(socket), text(frames))
    };
    let paths = raw("/tmp/a.sock", "/tmp/a-frames").unwrap();
    assert_eq!(paths.instance_dir, None);
    assert_eq!(
        raw("/tmp/store/cu.sock", "/tmp/store").unwrap_err(),
        PathError::SharedResources
    );
    assert_eq!(
        raw("/tmp/store", "/tmp//store/./frames/").unwrap_err(),
        PathError::SharedResources
    );
    assert!(raw("/tmp/store-2", "/tmp/store").is_ok());
    assert!(raw("tmp/store/cu.sock", "/tmp/store").is_ok());
    assert_eq!(
        resolve_daemon_paths(RUNTIME, name("a"), text("/s"), text("/f")).unwrap_err(),
        PathError::InstanceAndRaw
    );
    assert_eq!(
        resolve_client_socket(RUNTIME, name("a"), text("/s")).unwrap_err().message(),
        "--instance cannot be combined with --socket"
    );
    assert_eq!(
        resolve_client_socket(RUNTIME, None, text("/s")).unwrap(),
        "/s"
    );
}

#[test]
fn managed_instances_secure_their_directories_from_the_outside_in() {
    assert_eq!(managed_directories(RUNTIME, RUNTIME), [RUNTIME.to_owned()]);
    assert_eq!(
        managed_directories(RUNTIME, &format!("{RUNTIME}/instances/a")),
        [
            RUNTIME.to_owned(),
            format!("{RUNTIME}/instances"),
            format!("{RUNTIME}/instances/a")
        ]
    );
}

#[test]
fn missing_socket_error_explains_how_to_start_the_daemon() {
    let message = connection_error("/run/user/1000/computer-use/cu.sock", true, "");

    assert!(message.contains("start it separately, then retry"));
    assert!(message.contains("`cu daemon`"));
    assert!(message.contains("`cu daemon --help`"));
}

#[test]
fn missing_named_instance_recommends_the_matching_daemon() {
    let message =
        connection_error("/run/user/1000/computer-use/instances/x11-99/cu.sock", true, "");

    assert!(message.contains("`cu daemon --instance x11-99`"));
}

#[test]
fn other_connection_errors_keep_the_diagnostic() {
    assert_eq!(
        connection_error("/run/cu.sock", false, "permission denied"),
        "failed to connect to /run/cu.sock: permission denied\n\
         start it separately, then retry: `cu daemon` (auto-detects the desktop); \
         use `cu daemon --help` for an explicit backend override"
    );
}

#[test]
fn sockets_tell_the_instance_they_belong_to() {
    let named = resolve_daemon_paths(RUNTIME, name("work"), None, None).unwrap();
    assert_eq!(named_instance_from_socket(&named.socket).as_deref(), Some("work"));
    assert_eq!(named_instance_from_socket("instances/a/cu.sock").as_deref(), Some("a"));
    assert_eq!(named_instance_from_socket("/x/instances/../cu.sock"), None);
    assert_eq!(named_instance_from_socket("/x/instances/a/other.sock"), None);
    assert_eq!(named_instance_from_socket("a/cu.sock"), None);
}

#[test]
fn components_agree_with_the_standard_library() {
    for path in [
        "", "/", "//", ".", "./", "./a", "a/.", "a/./b", "/./a", "a//b/", "../a", "/a/../b", "...",
    ] {
        let expected: Vec<String> = std::path::Path::new(path)
            .components()
            .filter(|part| *part != std::path::Component::RootDir)
            .map(|part| part.as_os_str().to_str().unwrap().to_owned())
            .collect();
        assert_eq!(path_components(path), expected, "{path:?}");
        for base in ["", "/", "a", "./a", "/a", "a/b"] {
            assert_eq!(
                starts_with(path, base),
                std::path::Path::new(path).starts_with(base),
                "{path:?} under {base:?}"
            );
        }
    }
}
