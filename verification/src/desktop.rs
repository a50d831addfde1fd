//! Decisions of the private offscreen desktop: its directory, its authority file, its processes and
//! its description.
use vstd::prelude::*;

use crate::command::{number_of, parse_number};
use crate::keys::{lower, trim, trimmed};
use crate::path::{components, lies_within, parts, path_components, rooted, is_within};
use crate::store::{join_path, path_join, FileFacts};
use crate::text::{
    all_hex, chars_of, decimal, hex_digits, is_hex_digit, push_char, push_decimal, same_text,
};

verus! {

/// Time in which a private desktop has to start, in milliseconds.
pub const START_TIMEOUT_MS: u64 = 10_000;

/// Time that a stopping process is given, in milliseconds.
pub const STOP_TIMEOUT_MS: u64 = 2_000;

/// Whether an existing directory is private to its owner.
pub open spec fn is_private(facts: FileFacts, euid: u32) -> bool {
    facts.is_dir && !facts.is_symlink && facts.uid == euid && facts.mode & 0o777 == 0o700
}

/// Refuse an existing directory that is not private to its owner.
pub fn check_private_directory(facts: FileFacts, euid: u32, path: &str) -> (result: Result<
    (),
    String,
>)
    ensures
        is_private(facts, euid) ==> result is Ok,
        !is_private(facts, euid) ==> (result matches Err(message) && message@
            == "private desktop directory must be an owner-only real directory: "@ + path@),
{
    if !facts.is_dir || facts.is_symlink || facts.uid != euid || facts.mode & 0o777 != 0o700 {
        let mut message =
            "private desktop directory must be an owner-only real directory: ".to_owned();
        message.append(path);
        return Err(message);
    }
    Ok(())
}

/// A field of an authority record: its length in two bytes, the high one first, and its bytes.
pub open spec fn authority_field(bytes: Seq<u8>) -> Seq<u8> {
    seq![(bytes.len() / 256) as u8, (bytes.len() % 256) as u8] + bytes
}

/// The name of the authorization protocol.
pub open spec fn cookie_protocol() -> Seq<u8> {
    seq![
        0x4d, 0x49, 0x54, 0x2d, 0x4d, 0x41, 0x47, 0x49, 0x43, 0x2d, 0x43, 0x4f, 0x4f, 0x4b, 0x49,
        0x45, 0x2d, 0x31,
    ]
}

/// An authority record that holds for every host and every display: the wildcard family, no
/// address, no display number, the protocol's name and the cookie.
pub open spec fn authority_record(cookie: Seq<u8>) -> Seq<u8> {
    seq![0xffu8, 0xffu8] + authority_field(Seq::empty()) + authority_field(Seq::empty())
        + authority_field(cookie_protocol()) + authority_field(cookie)
}

fn push_field(record: &mut Vec<u8>, bytes: &Vec<u8>)
    requires
        bytes.len() <= u16::MAX,
    ensures
        final(record)@ == old(record)@ + authority_field(bytes@),
{
    let ghost before = record@;
    record.push((bytes.len() / 256) as u8);
    record.push((bytes.len() % 256) as u8);
    let mut n: usize = 0;
    while n < bytes.len()
        invariant
            n <= bytes.len() <= u16::MAX,
            record@ =~= before + authority_field(bytes@).take(n + 2),
        decreases bytes.len() - n,
    {
        record.push(bytes[n]);
        n += 1;
    }
    assert(authority_field(bytes@).take(bytes.len() + 2) =~= authority_field(bytes@));
}

/// The authority record of a cookie.
pub fn write_auth(cookie: &Vec<u8>) -> (record: Vec<u8>)
    requires
        cookie.len() <= u16::MAX,
    ensures
        record@ == authority_record(cookie@),
{
    let mut record: Vec<u8> = Vec::new();
    record.push(0xff);
    record.push(0xff);
    let empty: Vec<u8> = Vec::new();
    push_field(&mut record, &empty);
    push_field(&mut record, &empty);
    let protocol: Vec<u8> = vec![
        0x4d, 0x49, 0x54, 0x2d, 0x4d, 0x41, 0x47, 0x49, 0x43, 0x2d, 0x43, 0x4f, 0x4f, 0x4b, 0x49,
        0x45, 0x2d, 0x31,
    ];
    assert(protocol@ =~= cookie_protocol());
    push_field(&mut record, &protocol);
    push_field(&mut record, cookie);
    assert(empty@ =~= Seq::empty());
    assert(record@ =~= authority_record(cookie@));
    record
}

/// Whether a text is hexadecimal digits with hyphens as in the usual form of a UUID.
pub open spec fn is_hyphenated(text: Seq<char>) -> bool {
    text.len() == 36 && forall|i: int|
        0 <= i < 36 ==> if i == 8 || i == 13 || i == 18 || i == 23 {
            #[trigger] text[i] == '-'
        } else {
            is_hex_digit(text[i])
        }
}

/// Whether a text is a UUID in one of its forms: digits alone, with hyphens, in braces, or as a URN.
pub open spec fn is_uuid(text: Seq<char>) -> bool {
    ||| all_hex(text, 32)
    ||| is_hyphenated(text)
    ||| text.len() == 38 && text[0] == '{' && text[37] == '}' && is_hyphenated(
        text.subrange(1, 37),
    )
    ||| text.len() == 45 && text.take(9).map_values(|c: char| lower(c)) == "urn:uuid:"@
        && is_hyphenated(text.skip(9))
}

/// Calls `uuid::Uuid::parse_str`.
///
/// Trusted: it succeeds for the four textual forms of a UUID, with digits in either case and the
/// URN's prefix in any case, and for nothing else.
#[verifier::external_body]
fn parses_as_uuid(text: &str) -> (parses: bool)
    ensures
        parses == is_uuid(text@),
{
    uuid::Uuid::parse_str(text).is_ok()
}

/// The directory of all private desktops below the service's directory.
pub open spec fn desktops_path(runtime: Seq<char>) -> Seq<char> {
    path_join(runtime, "mcp-desktops"@)
}

/// Whether a path is that of a managed private desktop: a UUID in the directory of all of them.
pub open spec fn is_worker_directory(path: Seq<char>, runtime: Seq<char>) -> bool {
    let list = components(path);
    let base = components(desktops_path(runtime));
    &&& rooted(path) == rooted(desktops_path(runtime))
    &&& list.len() == base.len() + 1
    &&& base.is_prefix_of(list)
    &&& is_uuid(list.last())
}

/// Refuse a path that is not that of a managed private desktop.
pub fn validate_worker_directory(path: &str, runtime: &str) -> (result: Result<(), String>)
    ensures
        is_worker_directory(path@, runtime@) ==> result is Ok,
        !is_worker_directory(path@, runtime@) ==> (result matches Err(message) && message@
            == "offscreen worker requires a managed MCP desktop directory"@),
{
    let desktops = join_path(runtime, "mcp-desktops");
    let list = path_components(path);
    let base = path_components(&desktops);
    let count: usize = list.len();
    assert(parts(list@) == components(path@));
    if count > 0 && count - 1 == base.len() && is_within(path, &desktops) && parses_as_uuid(
        &list[count - 1],
    ) {
        assert(components(path@).last() == list[count - 1]@);
        return Ok(());
    }
    assert(count > 0 ==> components(path@).last() == list[count - 1]@);
    assert(lies_within(path@, desktops@) == (rooted(path@) == rooted(desktops@) && components(
        desktops@,
    ).is_prefix_of(components(path@))));
    Err("offscreen worker requires a managed MCP desktop directory".to_owned())
}

/// Whether a worker's socket and frames lie directly in its directory.
pub open spec fn are_worker_paths(directory: Seq<char>, socket: Seq<char>, frame_dir: Seq<char>) -> bool {
    &&& rooted(socket) == rooted(directory)
    &&& rooted(frame_dir) == rooted(directory)
    &&& components(socket) == components(directory).push("cu.sock"@)
    &&& components(frame_dir) == components(directory).push("frames"@)
}

fn extends(path: &str, directory: &str, name: &str) -> (result: bool)
    ensures
        result == (rooted(path@) == rooted(directory@) && components(path@) == components(
            directory@,
        ).push(name@)),
{
    let list = path_components(path);
    let base = path_components(directory);
    let count: usize = list.len();
    if count == 0 || count - 1 != base.len() || !is_within(path, directory) || !same_text(
        &list[count - 1],
        name,
    ) {
        assert(count > 0 ==> components(path@).last() == list[count - 1]@);
        assert(components(directory@).push(name@).last() == name@);
        assert(components(directory@).is_prefix_of(components(directory@).push(name@))) by {
            assert(components(directory@).push(name@).take(components(directory@).len() as int)
                =~= components(directory@));
        }
        return false;
    }
    assert(components(path@).last() == list[count - 1]@);
    assert(components(path@) =~= components(directory@).push(name@)) by {
        assert(components(path@).take(components(directory@).len() as int) == components(
            directory@,
        ));
        assert forall|i: int| 0 <= i < count implies components(path@)[i] == components(
            directory@,
        ).push(name@)[i] by {
            if i < components(directory@).len() {
                assert(components(path@).take(components(directory@).len() as int)[i]
                    == components(directory@)[i]);
            }
        }
    }
    true
}

/// Refuse a worker whose socket or frames lie outside its directory.
pub fn check_worker_paths(directory: &str, socket: &str, frame_dir: &str) -> (result: Result<
    (),
    String,
>)
    ensures
        are_worker_paths(directory@, socket@, frame_dir@) ==> result is Ok,
        !are_worker_paths(directory@, socket@, frame_dir@) ==> (result matches Err(message)
            && message@ == "offscreen worker resources must belong to its private directory"@),
{
    if extends(socket, directory, "cu.sock") && extends(frame_dir, directory, "frames") {
        return Ok(());
    }
    Err("offscreen worker resources must belong to its private directory".to_owned())
}

/// What is done with a private desktop's directory when it is cleaned up.
#[derive(Debug, Clone, Copy, PartialEq, Eq, Structural)]
pub enum CleanStep {
    /// Nothing is left of it.
    Gone,
    Remove,
}

/// What is done with a private desktop's directory: it is removed only where it is still the one
/// that was created.
pub fn remove_directory(
    path: &str,
    runtime: &str,
    identity: (u64, u64),
    found: Option<(u64, u64)>,
) -> (result: Result<CleanStep, String>)
    ensures
        match result {
            Ok(CleanStep::Remove) => is_worker_directory(path@, runtime@) && found == Some(
                identity,
            ),
            Ok(CleanStep::Gone) => is_worker_directory(path@, runtime@) && found is None,
            Err(message) => if is_worker_directory(path@, runtime@) {
                found is Some && found != Some(identity) && message@
                    == "private desktop directory identity changed"@
            } else {
                message@ == "offscreen worker requires a managed MCP desktop directory"@
            },
        },
{
    match validate_worker_directory(path, runtime) {
        Ok(()) => {},
        Err(message) => {
            return Err(message);
        },
    }
    match found {
        None => Ok(CleanStep::Gone),
        Some(found) => if found.0 == identity.0 && found.1 == identity.1 {
            Ok(CleanStep::Remove)
        } else {
            Err("private desktop directory identity changed".to_owned())
        },
    }
}

/// The display that a server reports: a colon and the number on its line.
pub open spec fn reported_display(line: Seq<char>) -> Option<Seq<char>> {
    match number_of(trimmed(line), u16::MAX as u64) {
        Ok(number) => Some(":"@ + decimal(number)),
        Err(_) => None,
    }
}

/// The display that a server reports.
pub fn parse_display(line: &str) -> (display: Option<String>)
    ensures
        crate::protocol::text_view(display) == reported_display(line@),
{
    match parse_number(&trim(line), u16::MAX as u64) {
        Ok(number) => {
            let mut display = ":".to_owned();
            push_decimal(&mut display, number);
            Some(display)
        },
        Err(_) => None,
    }
}

/// A character in a word in single quotes: a quote ends the quotes, stands behind a backslash, and
/// begins them again.
pub open spec fn shell_char(c: char) -> Seq<char> {
    if c == '\'' {
        "'\\''"@
    } else {
        seq![c]
    }
}

/// The characters of a word in single quotes.
pub open spec fn shell_chars(word: Seq<char>) -> Seq<char>
    decreases word.len(),
{
    if word.len() == 0 {
        Seq::empty()
    } else {
        shell_chars(word.drop_last()) + shell_char(word.last())
    }
}

/// The command that a window manager runs once it is ready.
pub open spec fn startup_text(executable: Seq<char>) -> Seq<char> {
    "'"@ + shell_chars(executable) + "' __desktop-ready"@
}

/// The command that a window manager runs once it is ready.
pub fn startup_command(executable: &str) -> (command: String)
    ensures
        command@ == startup_text(executable@),
{
    let chars = chars_of(executable);
    let mut command = "'".to_owned();
    let mut n: usize = 0;
    assert(executable@.take(0) =~= Seq::empty());
    assert(command@ =~= "'"@ + shell_chars(executable@.take(0)));
    while n < chars.len()
        invariant
            n <= chars.len(),
            chars@ == executable@,
            command@ == "'"@ + shell_chars(executable@.take(n as int)),
        decreases chars.len() - n,
    {
        assert(executable@.take(n + 1).drop_last() =~= executable@.take(n as int));
        if chars[n] == '\'' {
            command.append("'\\''");
        } else {
            push_char(&mut command, chars[n]);
        }
        n += 1;
        assert(command@ =~= "'"@ + shell_chars(executable@.take(n as int)));
    }
    assert(executable@.take(n as int) =~= executable@);
    command.append("' __desktop-ready");
    command
}

/// How a shell reads quoted text: whether it is inside quotes, and the characters read so far;
/// nothing where the text is not of this form.
pub open spec fn shell_read(text: Seq<char>) -> Option<(bool, bool, Seq<char>)>
    decreases text.len(),
{
    if text.len() == 0 {
        Some((false, false, Seq::empty()))
    } else {
        match shell_read(text.drop_last()) {
            None => None,
            Some((quoted, escaped, word)) => {
                let c = text.last();
                if quoted {
                    if c == '\'' {
                        Some((false, false, word))
                    } else {
                        Some((true, false, word.push(c)))
                    }
                } else if escaped {
                    Some((false, false, word.push(c)))
                } else if c == '\'' {
                    Some((true, false, word))
                } else if c == '\\' {
                    Some((false, true, word))
                } else {
                    None
                }
            },
        }
    }
}

/// A shell reads a quoted word back as it was.
pub proof fn quoted_words_read_back(word: Seq<char>)
    ensures
        shell_read("'"@ + shell_chars(word) + "'"@) == Some((false, false, word)),
{
    reveal_strlit("'");
    quoted_prefix_reads(word);
    let open = "'"@ + shell_chars(word);
    let closed = open + "'"@;
    assert(closed.drop_last() =~= open);
    assert(closed.last() == '\'');
}

proof fn quoted_prefix_reads(word: Seq<char>)
    ensures
        shell_read("'"@ + shell_chars(word)) == Some((true, false, word)),
    decreases word.len(),
{
    reveal_strlit("'");
    reveal_strlit("'\\''");
    let text = "'"@ + shell_chars(word);
    if word.len() == 0 {
        assert(text.drop_last() =~= Seq::empty());
        assert(shell_read(text.drop_last()) == Some((false, false, Seq::<char>::empty())));
        assert(text.last() == '\'');
        assert(word =~= Seq::empty());
    } else {
        let shorter = "'"@ + shell_chars(word.drop_last());
        quoted_prefix_reads(word.drop_last());
        assert(word =~= word.drop_last().push(word.last()));
        if word.last() == '\'' {
            let one = shorter.push('\'');
            let two = one.push('\\');
            let three = two.push('\'');
            assert(text =~= three.push('\''));
            assert(one.drop_last() =~= shorter);
            assert(two.drop_last() =~= one);
            assert(three.drop_last() =~= two);
            assert(text.drop_last() =~= three);
            assert(shell_read(one) == Some((false, false, word.drop_last())));
            assert(shell_read(two) == Some((false, true, word.drop_last())));
            assert(shell_read(three) == Some((false, false, word)));
        } else {
            assert(text =~= shorter.push(word.last()));
            assert(text.drop_last() =~= shorter);
        }
    }
}

/// A character of a JSON string.
pub open spec fn json_char(c: char) -> Seq<char> {
    if c == '"' {
        "\\\""@
    } else if c == '\\' {
        "\\\\"@
    } else if c == '\u{8}' {
        "\\b"@
    } else if c == '\t' {
        "\\t"@
    } else if c == '\n' {
        "\\n"@
    } else if c == '\u{c}' {
        "\\f"@
    } else if c == '\r' {
        "\\r"@
    } else if (c as u32) < 0x20 {
        "\\u00"@ + hex_digits(c as nat, 2)
    } else {
        seq![c]
    }
}

/// The characters of a JSON string.
pub open spec fn json_chars(text: Seq<char>) -> Seq<char>
    decreases text.len(),
{
    if text.len() == 0 {
        Seq::empty()
    } else {
        json_chars(text.drop_last()) + json_char(text.last())
    }
}

/// A text as a JSON string.
pub open spec fn json_string(text: Seq<char>) -> Seq<char> {
    "\""@ + json_chars(text) + "\""@
}

/// Calls `serde_json::to_string` on a text, which never fails.
///
/// Trusted: the result is the text in double quotes, with quotes, backslashes and control
/// characters below the space escaped.
#[verifier::external_body]
fn json_text(text: &str) -> (result: String)
    ensures
        result@ == json_string(text@),
{
    serde_json::to_string(text).unwrap_or_default()
}

/// The profile of a private desktop: its target, its authority file, and how to use it.
pub open spec fn private_text(target: Seq<char>, authority: Seq<char>, guidance: Seq<char>) -> Seq<
    char,
> {
    "Desktop connection: "@ + target + "\nXAUTHORITY="@ + json_string(authority) + "\n\n"@
        + guidance
}

/// The profile of a private desktop.
pub fn private_profile(target: &str, authority: &str, guidance: &str) -> (profile: String)
    ensures
        profile@ == private_text(target@, authority@, guidance@),
{
    let mut profile = "Desktop connection: ".to_owned();
    profile.append(target);
    profile.append("\nXAUTHORITY=");
    profile.append(&json_text(authority));
    profile.append("\n\n");
    profile.append(guidance);
    profile
}

/// What is reported of a part of a private desktop that stopped.
pub fn exited_message(name: &str, status: &str) -> (message: String)
    ensures
        message@ == name@ + " exited ("@ + status@
            + "); install Xvfb and Openbox if unavailable"@,
{
    let mut message = name.to_owned();
    message.append(" exited (");
    message.append(status);
    message.append("); install Xvfb and Openbox if unavailable");
    message
}

/// A private desktop's worker: its directory, and the directory's device and inode.
#[derive(Debug)]
pub struct WorkerRecord {
    pub directory: String,
    pub identity: (u64, u64),
}

/// What an MCP process knows of its private desktop.
#[derive(Debug)]
pub struct DesktopControl {
    pub closed: bool,
    pub worker: Option<WorkerRecord>,
}

/// What asking for the private desktop leads to.
pub enum LaunchStep {
    /// The session is closing.
    Refuse(String),
    /// The worker runs and listens at a socket.
    Reuse { socket: String },
    /// A worker is to be started, once what is left of a stopped one was cleaned up.
    Start { stopped: Option<WorkerRecord> },
}

impl DesktopControl {
    /// Whether the worker's desktop can be used as it is.
    pub open spec fn usable(self, running: bool) -> bool {
        !self.closed && self.worker is Some && running
    }

    /// No private desktop.
    pub fn new() -> (control: Self)
        ensures
            !control.closed,
            control.worker is None,
    {
        DesktopControl { closed: false, worker: None }
    }

    /// Ask for the private desktop. `running` tells whether its worker, if there is one, runs.
    pub fn launch(&mut self, running: bool) -> (step: LaunchStep)
        ensures
            final(self).closed == old(self).closed,
            if old(self).closed {
                &&& step matches LaunchStep::Refuse(message) && message@
                    == "MCP session is closing"@
                &&& final(self).worker == old(self).worker
            } else if old(self).worker is Some && running {
                &&& step matches LaunchStep::Reuse { socket } && socket@ == path_join(
                    old(self).worker->0.directory@,
                    "cu.sock"@,
                )
                &&& final(self).worker == old(self).worker
            } else {
                &&& step == (LaunchStep::Start { stopped: old(self).worker })
                &&& final(self).worker is None
            },
            step is Reuse <==> old(self).usable(running),
            step is Refuse <==> old(self).closed,
    {
        if self.closed {
            return LaunchStep::Refuse("MCP session is closing".to_owned());
        }
        if running {
            if let Some(worker) = &self.worker {
                return LaunchStep::Reuse { socket: join_path(&worker.directory, "cu.sock") };
            }
        }
        LaunchStep::Start { stopped: self.worker.take() }
    }

    /// Note the worker that was started.
    pub fn started(&mut self, worker: WorkerRecord)
        ensures
            final(self).worker == Some(worker),
            final(self).closed == old(self).closed,
    {
        self.worker = Some(worker);
    }

    /// Whether the private desktop can be used. `running` tells whether its worker runs.
    pub fn running(&self, running: bool) -> (result: bool)
        ensures
            result == (!self.closed && self.worker is Some && running),
            result == self.usable(running),
    {
        !self.closed && self.worker.is_some() && running
    }

    /// Start no further worker.
    pub fn stop(&mut self)
        ensures
            final(self).closed,
            final(self).worker == old(self).worker,
    {
        self.closed = true;
    }

    /// Give up the worker, which is then stopped and cleaned up.
    pub fn reset(&mut self) -> (worker: Option<WorkerRecord>)
        ensures
            worker == old(self).worker,
            final(self).worker is None,
            final(self).closed == old(self).closed,
    {
        self.worker.take()
    }
}

/// How asking a daemon for its profile ended.
pub enum Fetched {
    Profile(Option<String>),
    /// The diagnostic.
    Failed(String),
    TimedOut,
}

/// What connecting to the private desktop does next.
pub enum PrivateStep {
    Connected(Option<String>),
    /// Ask again after a moment: the desktop is still starting.
    Retry,
    Fail(String),
}

/// What connecting to the private desktop does next. A desktop that was just created may not
/// answer yet; one that existed has to.
pub fn connect_private(running: bool, fetched: Fetched, created: bool) -> (step: PrivateStep)
    ensures
        if !running {
            step matches PrivateStep::Fail(message) && message@
                == "private desktop stopped; check that Xvfb and Openbox are installed, then call computer_connect again"@
        } else {
            match fetched {
                Fetched::Profile(profile) => step == PrivateStep::Connected(profile),
                Fetched::Failed(detail) => if created {
                    step is Retry
                } else {
                    step == PrivateStep::Fail(detail)
                },
                Fetched::TimedOut => step matches PrivateStep::Fail(message) && message@
                    == "private desktop profile request timed out"@,
            }
        },
{
    if !running {
        return PrivateStep::Fail(
            "private desktop stopped; check that Xvfb and Openbox are installed, then call computer_connect again".to_owned(),
        );
    }
    match fetched {
        Fetched::Profile(profile) => PrivateStep::Connected(profile),
        Fetched::Failed(detail) => if created {
            PrivateStep::Retry
        } else {
            PrivateStep::Fail(detail)
        },
        Fetched::TimedOut => PrivateStep::Fail(
            "private desktop profile request timed out".to_owned(),
        ),
    }
}

/// A desktop is used as it is only while its worker runs and the session is open; a closed session uses
/// none, and without a worker there is none to use.
pub proof fn closed_sessions_use_no_desktop(control: DesktopControl, running: bool)
    ensures
        control.usable(running) ==> running && !control.closed && control.worker is Some,
        !control.closed && control.worker is Some ==> control.usable(true),
{
}

} // verus!
