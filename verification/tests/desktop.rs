use cu::desktop::{
    check_private_directory, check_worker_paths, connect_private, exited_message, parse_display,
    private_profile, remove_directory, startup_command, validate_worker_directory, write_auth,
    CleanStep, DesktopControl, Fetched, LaunchStep, PrivateStep, WorkerRecord,
};
use cu::store::FileFacts;

const RUNTIME: &str = "/run/user/1000/computer-use";
const UUID: &str = "67e55044-10b1-426f-9247-bb680e5fe0c8";

fn worker() -> String {
    format!("{RUNTIME}/mcp-desktops/{UUID}")
}

#[test]
fn worker_directories_are_uuids_in_the_managed_directory() {
    let list = format!("{RUNTIME}/mcp-desktops");
    for name in [
        UUID.to_owned(),
        UUID.to_uppercase(),
        UUID.replace('-', ""),
        format!("{{{UUID}}}"),
        format!("urn:uuid:{UUID}"),
    ] {
        assert!(uuid::Uuid::parse_str(&name).is_ok());
        assert!(validate_worker_directory(&format!("{list}/{name}"), RUNTIME).is_ok(), "{name}");
    }
    for name in ["", "x", "67e55044-10b1-426f-9247-bb680e5fe0c", "67e5504410b1426f9247-bb680e5fe0c8"] {
        assert!(uuid::Uuid::parse_str(name).is_err());
        assert!(validate_worker_directory(&format!("{list}/{name}"), RUNTIME).is_err());
    }
    assert!(validate_worker_directory(&format!("{RUNTIME}/{UUID}"), RUNTIME).is_err());
    assert!(validate_worker_directory(&format!("{list}/{UUID}/x"), RUNTIME).is_err());
    assert_eq!(
        validate_worker_directory(&format!("/tmp/{UUID}"), RUNTIME).unwrap_err(),
        "offscreen worker requires a managed MCP desktop directory"
    );
}

#[test]
fn worker_resources_lie_in_its_directory() {
    let directory = worker();
    let socket = format!("{directory}/cu.sock");
    let frames = format!("{directory}/frames");
    assert!(check_worker_paths(&directory, &socket, &frames).is_ok());
    assert!(check_worker_paths(&directory, &frames, &socket).is_err());
    assert_eq!(
        check_worker_paths(&directory, "/tmp/cu.sock", &frames).unwrap_err(),
        "offscreen worker resources must belong to its private directory"
    );
}

#[test]
fn only_the_created_directory_is_removed() {
    let directory = worker();
    let remove = |path: &str, found| remove_directory(path, RUNTIME, (1, 2), found);
    assert_eq!(remove(&directory, Some((1, 2))), Ok(CleanStep::Remove));
    assert_eq!(remove(&directory, None), Ok(CleanStep::Gone));
    assert_eq!(
        remove(&directory, Some((1, 3))).unwrap_err(),
        "private desktop directory identity changed"
    );
    assert!(remove("/home/user", Some((1, 2))).is_err());
}

#[test]
fn private_directories_are_owner_only() {
    let facts = FileFacts {
        is_file: false,
        is_dir: true,
        is_symlink: false,
        uid: 7,
        mode: 0o40700,
        nlink: 2,
        dev: 1,
        ino: 1,
    };
    assert!(check_private_directory(facts, 7, "/d").is_ok());
    for bad in [
        FileFacts { mode: 0o40750, ..facts },
        FileFacts { is_symlink: true, ..facts },
        FileFacts { uid: 8, ..facts },
    ] {
        assert_eq!(
            check_private_directory(bad, 7, "/d").unwrap_err(),
            "private desktop directory must be an owner-only real directory: /d"
        );
    }
}

#[test]
fn authority_records_hold_the_cookie() {
    let record = write_auth(&vec![9; 16]);
    let mut expected = vec![0xff, 0xff, 0, 0, 0, 0, 0, 18];
    expected.extend_from_slice(b"MIT-MAGIC-COOKIE-1");
    expected.extend_from_slice(&[0, 16]);
    expected.extend_from_slice(&[9; 16]);
    assert_eq!(record, expected);
}

#[test]
fn displays_are_numbers_with_a_colon() {
    assert_eq!(parse_display("99\n").as_deref(), Some(":99"));
    assert_eq!(parse_display(" 007 ").as_deref(), Some(":7"));
    assert_eq!(parse_display("65536"), None);
    assert_eq!(parse_display(""), None);
    assert_eq!(parse_display(":1"), None);
}

#[test]
fn startup_commands_quote_the_executable() {
    assert_eq!(startup_command("/usr/bin/cu"), "'/usr/bin/cu' __desktop-ready");
    assert_eq!(startup_command("it's"), "'it'\\''s' __desktop-ready");
}

#[test]
fn private_profiles_name_the_authority_as_json() {
    let authority = "/run/\"x\"\\\n\u{1}é\u{7f}";
    let profile = private_profile("backend=x11", authority, "Use it.");
    assert_eq!(
        profile,
        format!(
            "Desktop connection: backend=x11\nXAUTHORITY={}\n\nUse it.",
            serde_json::to_string(authority).unwrap()
        )
    );
    assert!(profile.contains("XAUTHORITY=\"/run/\\\"x\\\"\\\\\\n\\u0001é\u{7f}\"\n"));
}

#[test]
fn one_worker_serves_until_it_stops() {
    let mut control = DesktopControl::new();
    assert!(matches!(control.launch(false), LaunchStep::Start { stopped: None }));
    control.started(WorkerRecord { directory: worker(), identity: (1, 2) });
    assert!(control.running(true) && !control.running(false));
    assert!(matches!(
        control.launch(true),
        LaunchStep::Reuse { socket } if socket == format!("{}/cu.sock", worker())
    ));
    assert!(matches!(
        control.launch(false),
        LaunchStep::Start { stopped: Some(record) } if record.identity == (1, 2)
    ));
    control.started(WorkerRecord { directory: worker(), identity: (3, 4) });
    control.stop();
    assert!(!control.running(true));
    assert!(matches!(
        control.launch(true),
        LaunchStep::Refuse(message) if message == "MCP session is closing"
    ));
    assert_eq!(control.reset().unwrap().identity, (3, 4));
    assert!(control.reset().is_none());
}

#[test]
fn connecting_waits_for_a_new_desktop_only() {
    let failed = || Fetched::Failed("refused".to_owned());
    assert!(matches!(connect_private(true, failed(), true), PrivateStep::Retry));
    assert!(matches!(
        connect_private(true, failed(), false),
        PrivateStep::Fail(message) if message == "refused"
    ));
    assert!(matches!(
        connect_private(true, Fetched::TimedOut, true),
        PrivateStep::Fail(message) if message == "private desktop profile request timed out"
    ));
    assert!(matches!(
        connect_private(true, Fetched::Profile(None), true),
        PrivateStep::Connected(None)
    ));
    assert!(matches!(
        connect_private(false, Fetched::Profile(None), true),
        PrivateStep::Fail(_)
    ));
    assert_eq!(
        exited_message("Xvfb", "exit status: 1"),
        "Xvfb exited (exit status: 1); install Xvfb and Openbox if unavailable"
    );
}
