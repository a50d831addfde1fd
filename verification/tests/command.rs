use cu::backend::BackendChoice;
use cu::command::{
    check_act_arguments, check_client_arguments, describe_connection, parse_max_frames,
    parse_number, parse_rect, read_profile, DaemonArguments, DaemonCommand, NumberFault,
    ProfileError, UsageError, MAX_PROFILE_BYTES,
};
use cu::instance::{resolve_daemon_paths, InstanceName, PathError};
use cu::protocol::Rect;

/// The options of a daemon's command line, each with its value.
fn daemon(arguments: &[&str]) -> Result<DaemonCommand, String> {
    let mut given = DaemonArguments::none();
    for pair in arguments.chunks(2) {
        let value = pair[1].to_owned();
        match pair[0] {
            "--instance" => given.instance = Some(InstanceName::parse(&value)?),
            "--display" => given.display = Some(value),
            "--output" => given.output = Some(value),
            "--max-frames" => given.max_frames = Some(parse_max_frames(&value)?),
            "--profile" => given.profile = Some(value),
            "--socket" => given.socket = Some(value),
            "--frame-dir" => given.frame_dir = Some(value),
            other => panic!("unknown option {other}"),
        }
    }
    given.resolve().map_err(|error| error.message().to_owned())
}

#[test]
fn daemon_needs_no_display_arguments() {
    let command = daemon(&[]).unwrap();

    assert_eq!(command.backend, BackendChoice::Auto);
    assert_eq!(command.display, None);
    assert_eq!(command.output, None);
    assert_eq!(command.max_width, None);
    assert_eq!(command.max_height, None);
    assert_eq!(command.max_frames, 32);
}

#[test]
fn daemon_accepts_an_explicit_x11_display() {
    let command = daemon(&["--display", ":99"]).unwrap();

    assert_eq!(command.display.as_deref(), Some(":99"));
}

#[test]
fn daemon_accepts_a_desktop_profile_path() {
    let command = daemon(&["--profile", "/tmp/desktop.md"]).unwrap();

    assert_eq!(command.profile, Some("/tmp/desktop.md".to_owned()));
}

#[test]
fn daemon_rejects_x11_display_with_a_wayland_output() {
    assert!(daemon(&["--display", ":99", "--output", "HDMI-A-1"]).is_err());
}

#[test]
fn raw_daemon_paths_must_be_supplied_as_a_pair() {
    let runtime = "/run/user/1000/computer-use";
    let resolve = |socket: Option<&str>, frames: Option<&str>| {
        resolve_daemon_paths(
            runtime,
            None,
            socket.map(str::to_owned),
            frames.map(str::to_owned),
        )
    };
    assert_eq!(
        resolve(Some("/tmp/a.sock"), None).unwrap_err(),
        PathError::SocketAlone
    );
    assert_eq!(
        resolve(None, Some("/tmp/a-frames")).unwrap_err(),
        PathError::FrameDirAlone
    );
    assert!(daemon(&["--socket", "/tmp/a.sock"]).is_err());
    assert!(resolve(Some("/tmp/store/cu.sock"), Some("/tmp/store")).is_err());
}

#[test]
fn instance_and_raw_socket_are_mutually_exclusive() {
    let instance = Some(InstanceName::parse("x11-99").unwrap());
    let socket = Some("/tmp/a.sock".to_owned());
    assert!(check_client_arguments(&instance, &socket).is_err());
    assert!(daemon(&[
        "--instance",
        "x11-99",
        "--socket",
        "/tmp/a.sock",
        "--frame-dir",
        "/tmp/a-frames",
    ])
    .is_err());
}

#[test]
fn daemon_requires_two_retained_frames() {
    assert!(daemon(&["--max-frames", "1"]).is_err());
    assert!(daemon(&["--max-frames", "2"]).is_ok());
}

#[test]
fn frame_counts_explain_what_is_wrong() {
    assert_eq!(parse_max_frames("1").unwrap_err(), "max-frames must be at least 2");
    assert_eq!(
        parse_max_frames("two").unwrap_err(),
        "invalid frame count: invalid digit found in string"
    );
    assert_eq!(parse_max_frames("+64").unwrap(), 64);
}

#[test]
fn numbers_parse_as_the_standard_library_does() {
    for text in [
        "", "+", "-", "0", "+0", "007", "42", "65535", "65536", "99999999999999999999", "12a",
        "-1", " 1", "1 ", "1_000", "９", "6553x",
    ] {
        let expected = text.parse::<u16>().map_err(|error| error.to_string());
        let parsed = parse_number(text, u16::MAX as u64)
            .map(|value| value as u16)
            .map_err(|fault| fault.message().to_owned());
        assert_eq!(parsed, expected, "{text:?}");
    }
    assert_eq!(parse_number("", 10), Err(NumberFault::Empty));
    assert_eq!(parse_number("11", 10), Err(NumberFault::TooLarge));
    assert_eq!(
        parse_number(&u64::MAX.to_string(), u64::MAX),
        Ok(u64::MAX)
    );
}

#[test]
fn rectangles_are_four_numbers_with_commas() {
    assert_eq!(
        parse_rect("780,120,800,720"),
        Some(Rect { x: 780, y: 120, width: 800, height: 720 })
    );
    for text in ["", "1,2,3", "1,2,3,4,5", "1,2,3,", "1, 2,3,4", "-1,2,3,4", "4294967296,0,1,1"] {
        assert_eq!(parse_rect(text), None, "{text:?}");
    }
}

#[test]
fn options_that_do_not_go_together_are_named() {
    let conflict = |arguments: &[&str]| daemon(arguments).unwrap_err();
    assert_eq!(
        conflict(&["--display", ":1", "--output", "DP-1"]),
        UsageError::DisplayAndOutput.message()
    );
    assert_eq!(
        conflict(&["--instance", "a", "--frame-dir", "/f"]),
        UsageError::InstanceAndFrameDir.message()
    );
    assert_eq!(
        conflict(&["--instance", "a", "--socket", "/s"]),
        UsageError::InstanceAndSocket.message()
    );
    assert_eq!(
        conflict(&["--socket", "/s"]),
        UsageError::SocketWithoutFrameDir.message()
    );
    assert_eq!(
        conflict(&["--frame-dir", "/f"]),
        UsageError::FrameDirWithoutSocket.message()
    );

    let name = || Some(InstanceName::parse("a").unwrap());
    let text = || Some("x".to_owned());
    assert_eq!(
        check_act_arguments(true, &name(), &None, &None),
        Err(UsageError::SchemaAndInstance)
    );
    assert_eq!(
        check_act_arguments(true, &None, &text(), &None),
        Err(UsageError::SchemaAndSocket)
    );
    assert_eq!(
        check_act_arguments(true, &None, &None, &text()),
        Err(UsageError::SchemaAndRequestId)
    );
    assert_eq!(
        check_act_arguments(false, &name(), &text(), &None),
        Err(UsageError::InstanceAndSocket)
    );
    assert_eq!(check_act_arguments(false, &name(), &None, &text()), Ok(()));
    assert_eq!(check_act_arguments(true, &None, &None, &None), Ok(()));
}

#[test]
fn profile_reader_accepts_bounded_utf8_and_rejects_invalid_input() {
    assert_eq!(
        read_profile(b"  # Desktop\n\nSuper+Left tiles left.\n".to_vec()).unwrap(),
        "# Desktop\n\nSuper+Left tiles left."
    );
    assert_eq!(read_profile(b" \n".to_vec()), Err(ProfileError::Empty));
    assert_eq!(
        read_profile(vec![b'x'; MAX_PROFILE_BYTES + 1]),
        Err(ProfileError::TooLong)
    );
    assert!(read_profile(vec![b'x'; MAX_PROFILE_BYTES]).is_ok());
    assert_eq!(read_profile(vec![0xff]), Err(ProfileError::NotUtf8));
    assert_eq!(read_profile("空".as_bytes().to_vec()).unwrap(), "空");
}

#[test]
fn profile_errors_name_the_limit_and_the_file() {
    assert_eq!(
        ProfileError::TooLong.message("/p"),
        "desktop profile must be at most 16384 bytes"
    );
    assert_eq!(
        ProfileError::NotUtf8.message("/p"),
        "desktop profile /p is not UTF-8"
    );
    assert_eq!(
        ProfileError::Empty.message("/p"),
        "desktop profile must not be empty"
    );
}

#[test]
fn connections_describe_their_target_before_the_profile() {
    let target = "backend=x11, display=\":99\", screen=0";
    assert_eq!(
        describe_connection(target, &None),
        format!("Desktop connection: {target}")
    );
    assert_eq!(
        describe_connection(target, &Some("Super+Left tiles left.".to_owned())),
        format!("Desktop connection: {target}\n\nSuper+Left tiles left.")
    );
}
