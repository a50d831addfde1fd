//! The rules of the command line: which options go together, and how their values read.
use vstd::prelude::*;

use crate::backend::BackendChoice;
use crate::instance::InstanceName;
use crate::keys::{trim, trimmed};
use crate::protocol::{text_view, Rect};
use crate::store::MIN_RETAINED_FRAMES;
use crate::text::{chars_of, decimal, push_decimal};

verus! {

/// Frames that a daemon retains unless told otherwise.
pub const DEFAULT_MAX_FRAMES: usize = 32;

/// Most bytes of a desktop profile.
pub const MAX_PROFILE_BYTES: usize = 16_384;

/// Why a text is no number.
#[derive(Debug, Clone, Copy, PartialEq, Eq, Structural)]
pub enum NumberFault {
    Empty,
    InvalidDigit,
    TooLarge,
}

impl NumberFault {
    /// The description of the fault.
    pub open spec fn text(self) -> Seq<char> {
        match self {
            NumberFault::Empty => "cannot parse integer from empty string"@,
            NumberFault::InvalidDigit => "invalid digit found in string"@,
            NumberFault::TooLarge => "number too large to fit in target type"@,
        }
    }

    /// The description of the fault.
    pub fn message(self) -> (message: &'static str)
        ensures
            message@ == self.text(),
    {
        match self {
            NumberFault::Empty => "cannot parse integer from empty string",
            NumberFault::InvalidDigit => "invalid digit found in string",
            NumberFault::TooLarge => "number too large to fit in target type",
        }
    }
}

/// The number that decimal digits stand for, or the first fault from the left.
pub open spec fn digits_value(digits: Seq<char>, max: u64) -> Result<nat, NumberFault>
    decreases digits.len(),
{
    if digits.len() == 0 {
        Ok(0)
    } else {
        match digits_value(digits.drop_last(), max) {
            Err(fault) => Err(fault),
            Ok(value) => if !('0' <= digits.last() <= '9') {
                Err(NumberFault::InvalidDigit)
            } else {
                let longer = value * 10 + (digits.last() as u32 - '0' as u32) as nat;
                if longer > max {
                    Err(NumberFault::TooLarge)
                } else {
                    Ok(longer)
                }
            },
        }
    }
}

/// The number that a text stands for: decimal digits, with or without a plus sign before them.
pub open spec fn number_of(text: Seq<char>, max: u64) -> Result<nat, NumberFault> {
    if text.len() == 0 {
        Err(NumberFault::Empty)
    } else if text.len() == 1 && text[0] == '+' {
        Err(NumberFault::InvalidDigit)
    } else if text[0] == '+' {
        digits_value(text.skip(1), max)
    } else {
        digits_value(text, max)
    }
}

proof fn fault_of_prefix(digits: Seq<char>, max: u64, n: int)
    requires
        0 <= n <= digits.len(),
        digits_value(digits.take(n), max) is Err,
    ensures
        digits_value(digits, max) == digits_value(digits.take(n), max),
    decreases digits.len() - n,
{
    if n == digits.len() {
        assert(digits.take(n) =~= digits);
    } else {
        assert(digits.take(n + 1).drop_last() =~= digits.take(n));
        fault_of_prefix(digits, max, n + 1);
    }
}

fn value_of_digits(chars: &Vec<char>, from: usize, max: u64) -> (result: Result<u64, NumberFault>)
    requires
        from <= chars.len(),
    ensures
        match result {
            Ok(value) => digits_value(chars@.skip(from as int), max) == Ok::<nat, NumberFault>(
                value as nat,
            ),
            Err(fault) => digits_value(chars@.skip(from as int), max) == Err::<nat, NumberFault>(
                fault,
            ),
        },
{
    let ghost digits = chars@.skip(from as int);
    let mut value: u64 = 0;
    let mut n: usize = from;
    assert(digits.take(0) =~= Seq::empty());
    while n < chars.len()
        invariant
            from <= n <= chars.len(),
            digits == chars@.skip(from as int),
            value <= max,
            digits_value(digits.take(n - from), max) == Ok::<nat, NumberFault>(value as nat),
        decreases chars.len() - n,
    {
        let c = chars[n];
        let ghost at = n - from;
        assert(digits.take(at + 1).drop_last() =~= digits.take(at));
        assert(digits.take(at + 1).last() == c);
        if !('0' <= c && c <= '9') {
            proof {
                fault_of_prefix(digits, max, at + 1);
            }
            return Err(NumberFault::InvalidDigit);
        }
        let digit: u64 = (c as u32 - '0' as u32) as u64;
        let longer: u128 = value as u128 * 10 + digit as u128;
        if longer > max as u128 {
            proof {
                fault_of_prefix(digits, max, at + 1);
            }
            return Err(NumberFault::TooLarge);
        }
        value = longer as u64;
        n += 1;
    }
    assert(digits.take(digits.len() as int) =~= digits);
    Ok(value)
}

/// The number that a text stands for.
pub fn parse_number(text: &str, max: u64) -> (result: Result<u64, NumberFault>)
    ensures
        match result {
            Ok(value) => number_of(text@, max) == Ok::<nat, NumberFault>(value as nat),
            Err(fault) => number_of(text@, max) == Err::<nat, NumberFault>(fault),
        },
{
    let chars = chars_of(text);
    if chars.len() == 0 {
        return Err(NumberFault::Empty);
    }
    if chars[0] == '+' {
        if chars.len() == 1 {
            return Err(NumberFault::InvalidDigit);
        }
        return value_of_digits(&chars, 1, max);
    }
    assert(chars@.skip(0) =~= text@);
    value_of_digits(&chars, 0, max)
}

/// The number of frames to retain that a text stands for, or why it stands for none.
pub open spec fn frame_count(text: Seq<char>, largest: u64) -> Result<nat, Seq<char>> {
    match number_of(text, largest) {
        Err(fault) => Err("invalid frame count: "@ + fault.text()),
        Ok(count) => if count < MIN_RETAINED_FRAMES {
            Err("max-frames must be at least "@ + decimal(MIN_RETAINED_FRAMES as nat))
        } else {
            Ok(count)
        },
    }
}

/// The number of frames to retain that a text stands for.
pub fn parse_max_frames(value: &str) -> (result: Result<usize, String>)
    ensures
        match result {
            Ok(count) => frame_count(value@, usize::MAX as u64) == Ok::<nat, Seq<char>>(
                count as nat,
            ),
            Err(message) => frame_count(value@, usize::MAX as u64) == Err::<nat, Seq<char>>(
                message@,
            ),
        },
{
    match parse_number(value, usize::MAX as u64) {
        Err(fault) => {
            let mut message = "invalid frame count: ".to_owned();
            message.append(fault.message());
            Err(message)
        },
        Ok(count) => {
            proof {
                number_bound(value@, usize::MAX as u64);
            }
            if count < MIN_RETAINED_FRAMES as u64 {
                let mut message = "max-frames must be at least ".to_owned();
                push_decimal(&mut message, MIN_RETAINED_FRAMES as u64);
                Err(message)
            } else {
                Ok(count as usize)
            }
        },
    }
}

proof fn number_bound(text: Seq<char>, max: u64)
    ensures
        number_of(text, max) matches Ok(value) ==> value <= max,
{
}

/// A rectangle as four numbers with commas between them.
pub open spec fn rect_of(fields: Seq<Seq<char>>) -> Option<Rect> {
    if fields.len() != 4 {
        None
    } else {
        match (
            number_of(fields[0], u32::MAX as u64),
            number_of(fields[1], u32::MAX as u64),
            number_of(fields[2], u32::MAX as u64),
            number_of(fields[3], u32::MAX as u64),
        ) {
            (Ok(x), Ok(y), Ok(width), Ok(height)) => Some(
                Rect { x: x as u32, y: y as u32, width: width as u32, height: height as u32 },
            ),
            _ => None,
        }
    }
}

/// The texts between commas.
pub open spec fn comma_fields(text: Seq<char>) -> Seq<Seq<char>>
    decreases text.len(),
{
    if text.len() == 0 {
        seq![Seq::empty()]
    } else {
        let earlier = comma_fields(text.drop_last());
        if text.last() == ',' {
            earlier.push(Seq::empty())
        } else {
            earlier.drop_last().push(earlier.last().push(text.last()))
        }
    }
}

fn split_commas(text: &str) -> (fields: Vec<String>)
    ensures
        crate::protocol::texts(fields@) == comma_fields(text@),
{
    let chars = chars_of(text);
    let mut fields: Vec<String> = Vec::new();
    let mut field = String::new();
    let mut n: usize = 0;
    assert(text@.take(0) =~= Seq::empty());
    assert(crate::protocol::texts(fields@).push(field@) =~= comma_fields(text@.take(0)));
    while n < chars.len()
        invariant
            n <= chars.len(),
            chars@ == text@,
            crate::protocol::texts(fields@).push(field@) == comma_fields(text@.take(n as int)),
        decreases chars.len() - n,
    {
        let ghost before = crate::protocol::texts(fields@);
        let ghost earlier = comma_fields(text@.take(n as int));
        assert(text@.take(n + 1).drop_last() =~= text@.take(n as int));
        assert(text@.take(n + 1).last() == chars@[n as int]);
        assert(earlier.drop_last() =~= before);
        assert(earlier.last() == field@);
        if chars[n] == ',' {
            fields.push(field);
            assert(crate::protocol::texts(fields@) =~= earlier);
            field = String::new();
        } else {
            crate::text::push_char(&mut field, chars[n]);
        }
        n += 1;
        assert(crate::protocol::texts(fields@).push(field@) =~= comma_fields(text@.take(n as int)));
    }
    assert(text@.take(n as int) =~= text@);
    let ghost before = crate::protocol::texts(fields@).push(field@);
    fields.push(field);
    assert(crate::protocol::texts(fields@) =~= before);
    fields
}

/// The rectangle that `x,y,width,height` stands for.
pub fn parse_rect(text: &str) -> (rect: Option<Rect>)
    ensures
        rect == rect_of(comma_fields(text@)),
{
    let fields = split_commas(text);
    let ghost views = crate::protocol::texts(fields@);
    if fields.len() != 4 {
        return None;
    }
    proof {
        number_bound(views[0], u32::MAX as u64);
        number_bound(views[1], u32::MAX as u64);
        number_bound(views[2], u32::MAX as u64);
        number_bound(views[3], u32::MAX as u64);
    }
    match (
        parse_number(&fields[0], u32::MAX as u64),
        parse_number(&fields[1], u32::MAX as u64),
        parse_number(&fields[2], u32::MAX as u64),
        parse_number(&fields[3], u32::MAX as u64),
    ) {
        (Ok(x), Ok(y), Ok(width), Ok(height)) => Some(
            Rect { x: x as u32, y: y as u32, width: width as u32, height: height as u32 },
        ),
        _ => None,
    }
}

/// Why options cannot be used together.
#[derive(Debug, Clone, Copy, PartialEq, Eq, Structural)]
pub enum UsageError {
    DisplayAndOutput,
    InstanceAndSocket,
    InstanceAndFrameDir,
    SocketWithoutFrameDir,
    FrameDirWithoutSocket,
    SchemaAndInstance,
    SchemaAndSocket,
    SchemaAndRequestId,
}

impl UsageError {
    /// The message of the error.
    pub open spec fn text(self) -> Seq<char> {
        match self {
            UsageError::DisplayAndOutput =>
                "the argument '--display <DISPLAY>' cannot be used with '--output <OUTPUT>'"@,
            UsageError::InstanceAndSocket =>
                "the argument '--instance <NAME>' cannot be used with '--socket <SOCKET>'"@,
            UsageError::InstanceAndFrameDir =>
                "the argument '--instance <NAME>' cannot be used with '--frame-dir <FRAME_DIR>'"@,
            UsageError::SocketWithoutFrameDir =>
                "the argument '--socket <SOCKET>' requires '--frame-dir <FRAME_DIR>'"@,
            UsageError::FrameDirWithoutSocket =>
                "the argument '--frame-dir <FRAME_DIR>' requires '--socket <SOCKET>'"@,
            UsageError::SchemaAndInstance =>
                "the argument '--schema' cannot be used with '--instance <NAME>'"@,
            UsageError::SchemaAndSocket =>
                "the argument '--schema' cannot be used with '--socket <SOCKET>'"@,
            UsageError::SchemaAndRequestId =>
                "the argument '--schema' cannot be used with '--request-id <REQUEST_ID>'"@,
        }
    }

    /// The message of the error.
    pub fn message(self) -> (message: &'static str)
        ensures
            message@ == self.text(),
    {
        match self {
            UsageError::DisplayAndOutput =>
                "the argument '--display <DISPLAY>' cannot be used with '--output <OUTPUT>'",
            UsageError::InstanceAndSocket =>
                "the argument '--instance <NAME>' cannot be used with '--socket <SOCKET>'",
            UsageError::InstanceAndFrameDir =>
                "the argument '--instance <NAME>' cannot be used with '--frame-dir <FRAME_DIR>'",
            UsageError::SocketWithoutFrameDir =>
                "the argument '--socket <SOCKET>' requires '--frame-dir <FRAME_DIR>'",
            UsageError::FrameDirWithoutSocket =>
                "the argument '--frame-dir <FRAME_DIR>' requires '--socket <SOCKET>'",
            UsageError::SchemaAndInstance =>
                "the argument '--schema' cannot be used with '--instance <NAME>'",
            UsageError::SchemaAndSocket =>
                "the argument '--schema' cannot be used with '--socket <SOCKET>'",
            UsageError::SchemaAndRequestId =>
                "the argument '--schema' cannot be used with '--request-id <REQUEST_ID>'",
        }
    }
}

/// The options given to a daemon.
#[derive(Debug)]
pub struct DaemonArguments {
    /// Named socket and frame-store namespace.
    pub instance: Option<InstanceName>,
    pub backend: Option<BackendChoice>,
    /// X11 display.
    pub display: Option<String>,
    /// Wayland output.
    pub output: Option<String>,
    pub max_width: Option<u32>,
    pub max_height: Option<u32>,
    pub max_frames: Option<usize>,
    /// File with desktop-specific instructions.
    pub profile: Option<String>,
    /// Raw socket path.
    pub socket: Option<String>,
    /// Raw frame-store path.
    pub frame_dir: Option<String>,
}

/// What a daemon is started with.
#[derive(Debug)]
pub struct DaemonCommand {
    pub instance: Option<InstanceName>,
    pub backend: BackendChoice,
    pub display: Option<String>,
    pub output: Option<String>,
    pub max_width: Option<u32>,
    pub max_height: Option<u32>,
    pub max_frames: usize,
    pub profile: Option<String>,
    pub socket: Option<String>,
    pub frame_dir: Option<String>,
}

impl DaemonArguments {
    /// No options at all.
    pub fn none() -> (arguments: Self)
        ensures
            arguments.instance is None,
            arguments.backend is None,
            arguments.display is None,
            arguments.output is None,
            arguments.max_width is None,
            arguments.max_height is None,
            arguments.max_frames is None,
            arguments.profile is None,
            arguments.socket is None,
            arguments.frame_dir is None,
    {
        DaemonArguments {
            instance: None,
            backend: None,
            display: None,
            output: None,
            max_width: None,
            max_height: None,
            max_frames: None,
            profile: None,
            socket: None,
            frame_dir: None,
        }
    }

    /// Why the options cannot be used together, if they cannot.
    pub open spec fn fault(self) -> Option<UsageError> {
        if self.display is Some && self.output is Some {
            Some(UsageError::DisplayAndOutput)
        } else if self.instance is Some && self.socket is Some {
            Some(UsageError::InstanceAndSocket)
        } else if self.instance is Some && self.frame_dir is Some {
            Some(UsageError::InstanceAndFrameDir)
        } else if self.socket is Some && self.frame_dir is None {
            Some(UsageError::SocketWithoutFrameDir)
        } else if self.frame_dir is Some && self.socket is None {
            Some(UsageError::FrameDirWithoutSocket)
        } else {
            None
        }
    }

    /// What the arguments ask for, with what is meant where they do not say.
    pub open spec fn command(self) -> DaemonCommand {
        DaemonCommand {
            instance: self.instance,
            backend: match self.backend {
                Some(backend) => backend,
                None => BackendChoice::Auto,
            },
            display: self.display,
            output: self.output,
            max_width: self.max_width,
            max_height: self.max_height,
            max_frames: match self.max_frames {
                Some(count) => count,
                None => DEFAULT_MAX_FRAMES,
            },
            profile: self.profile,
            socket: self.socket,
            frame_dir: self.frame_dir,
        }
    }

    /// What the daemon is started with: the options, and defaults for those that were not given.
    pub fn resolve(self) -> (result: Result<DaemonCommand, UsageError>)
        ensures
            result matches Ok(command) ==> command == self.command(),
            match self.fault() {
                Some(fault) => result == Err::<DaemonCommand, UsageError>(fault),
                None => result == Ok::<DaemonCommand, UsageError>(
                    DaemonCommand {
                        instance: self.instance,
                        backend: match self.backend {
                            Some(backend) => backend,
                            None => BackendChoice::Auto,
                        },
                        display: self.display,
                        output: self.output,
                        max_width: self.max_width,
                        max_height: self.max_height,
                        max_frames: match self.max_frames {
                            Some(count) => count,
                            None => DEFAULT_MAX_FRAMES,
                        },
                        profile: self.profile,
                        socket: self.socket,
                        frame_dir: self.frame_dir,
                    },
                ),
            },
    {
        if self.display.is_some() && self.output.is_some() {
            return Err(UsageError::DisplayAndOutput);
        }
        if self.instance.is_some() && self.socket.is_some() {
            return Err(UsageError::InstanceAndSocket);
        }
        if self.instance.is_some() && self.frame_dir.is_some() {
            return Err(UsageError::InstanceAndFrameDir);
        }
        if self.socket.is_some() && self.frame_dir.is_none() {
            return Err(UsageError::SocketWithoutFrameDir);
        }
        if self.frame_dir.is_some() && self.socket.is_none() {
            return Err(UsageError::FrameDirWithoutSocket);
        }
        Ok(
            DaemonCommand {
                instance: self.instance,
                backend: match self.backend {
                    Some(backend) => backend,
                    None => BackendChoice::Auto,
                },
                display: self.display,
                output: self.output,
                max_width: self.max_width,
                max_height: self.max_height,
                max_frames: match self.max_frames {
                    Some(count) => count,
                    None => DEFAULT_MAX_FRAMES,
                },
                profile: self.profile,
                socket: self.socket,
                frame_dir: self.frame_dir,
            },
        )
    }
}

/// Refuse options of a client that name two daemons.
pub fn check_client_arguments(instance: &Option<InstanceName>, socket: &Option<String>) -> (result:
    Result<(), UsageError>)
    ensures
        result == (if instance is Some && socket is Some {
            Err::<(), UsageError>(UsageError::InstanceAndSocket)
        } else {
            Ok(())
        }),
{
    if instance.is_some() && socket.is_some() {
        return Err(UsageError::InstanceAndSocket);
    }
    Ok(())
}

/// Refuse options of an action request that do not go with asking for the schema, or that name two
/// daemons.
pub fn check_act_arguments(
    schema: bool,
    instance: &Option<InstanceName>,
    socket: &Option<String>,
    request_id: &Option<String>,
) -> (result: Result<(), UsageError>)
    ensures
        result == (if schema && instance is Some {
            Err::<(), UsageError>(UsageError::SchemaAndInstance)
        } else if schema && socket is Some {
            Err(UsageError::SchemaAndSocket)
        } else if schema && request_id is Some {
            Err(UsageError::SchemaAndRequestId)
        } else if instance is Some && socket is Some {
            Err(UsageError::InstanceAndSocket)
        } else {
            Ok(())
        }),
{
    if schema && instance.is_some() {
        return Err(UsageError::SchemaAndInstance);
    }
    if schema && socket.is_some() {
        return Err(UsageError::SchemaAndSocket);
    }
    if schema && request_id.is_some() {
        return Err(UsageError::SchemaAndRequestId);
    }
    check_client_arguments(instance, socket)
}

/// Why a file is no desktop profile.
#[derive(Debug, Clone, Copy, PartialEq, Eq, Structural)]
pub enum ProfileError {
    TooLong,
    NotUtf8,
    Empty,
}

/// Calls `String::from_utf8`.
///
/// Trusted: it returns the text that the bytes encode where they are valid UTF-8, and an error
/// where they are not.
#[verifier::external_body]
fn utf8_text(bytes: Vec<u8>) -> (text: Option<String>)
    ensures
        text is Some <==> vstd::utf8::valid_utf8(bytes@),
        text is Some ==> text->0@ == vstd::utf8::decode_utf8(bytes@),
{
    String::from_utf8(bytes).ok()
}

/// The profile that bytes hold: at most 16 KiB of UTF-8, without white space at its ends.
pub open spec fn profile_of(bytes: Seq<u8>) -> Result<Seq<char>, ProfileError> {
    if bytes.len() > MAX_PROFILE_BYTES {
        Err(ProfileError::TooLong)
    } else if !vstd::utf8::valid_utf8(bytes) {
        Err(ProfileError::NotUtf8)
    } else if trimmed(vstd::utf8::decode_utf8(bytes)).len() == 0 {
        Err(ProfileError::Empty)
    } else {
        Ok(trimmed(vstd::utf8::decode_utf8(bytes)))
    }
}

/// The profile that bytes hold.
pub fn read_profile(bytes: Vec<u8>) -> (result: Result<String, ProfileError>)
    ensures
        match result {
            Ok(profile) => profile_of(bytes@) == Ok::<Seq<char>, ProfileError>(profile@),
            Err(error) => profile_of(bytes@) == Err::<Seq<char>, ProfileError>(error),
        },
{
    if bytes.len() > MAX_PROFILE_BYTES {
        return Err(ProfileError::TooLong);
    }
    match utf8_text(bytes) {
        None => Err(ProfileError::NotUtf8),
        Some(text) => {
            let profile = trim(&text);
            if profile.as_str().is_empty() {
                Err(ProfileError::Empty)
            } else {
                Ok(profile)
            }
        },
    }
}

impl ProfileError {
    /// The message of the error for a file.
    pub open spec fn text(self, path: Seq<char>) -> Seq<char> {
        match self {
            ProfileError::TooLong => "desktop profile must be at most "@ + decimal(
                MAX_PROFILE_BYTES as nat,
            ) + " bytes"@,
            ProfileError::NotUtf8 => "desktop profile "@ + path + " is not UTF-8"@,
            ProfileError::Empty => "desktop profile must not be empty"@,
        }
    }

    /// The message of the error for a file.
    pub fn message(self, path: &str) -> (message: String)
        ensures
            message@ == self.text(path@),
    {
        match self {
            ProfileError::TooLong => {
                let mut message = "desktop profile must be at most ".to_owned();
                push_decimal(&mut message, MAX_PROFILE_BYTES as u64);
                message.append(" bytes");
                message
            },
            ProfileError::NotUtf8 => {
                let mut message = "desktop profile ".to_owned();
                message.append(path);
                message.append(" is not UTF-8");
                message
            },
            ProfileError::Empty => "desktop profile must not be empty".to_owned(),
        }
    }
}

/// The profile that a connection returns: the description of the target, and then the instructions
/// of the daemon's profile.
pub open spec fn connection_profile(target: Seq<char>, profile: Option<Seq<char>>) -> Seq<char> {
    "Desktop connection: "@ + target + (match profile {
        Some(profile) => "\n\n"@ + profile,
        None => Seq::empty(),
    })
}

/// The profile that a connection returns.
pub fn describe_connection(target: &str, profile: &Option<String>) -> (text: String)
    ensures
        text@ == connection_profile(target@, text_view(*profile)),
{
    let mut text = "Desktop connection: ".to_owned();
    text.append(target);
    if let Some(profile) = profile {
        text.append("\n\n");
        text.append(profile);
    }
    assert(text@ =~= connection_profile(target@, text_view(*profile)));
    text
}

} // verus!
