//! Where an instance keeps its socket and frames, what a command line asks for, and what a private
//! desktop is told.
use vstd::prelude::*;

use crate::command::{
    connection_profile, frame_count, profile_of, DaemonArguments, ProfileError, UsageError,
    DEFAULT_MAX_FRAMES,
};
use crate::desktop::{
    are_worker_paths, authority_record, is_hyphenated, is_private, is_uuid, is_worker_directory,
    json_char, json_chars, json_string, private_text, quoted_words_read_back, reported_display,
    shell_chars, shell_read, startup_text,
};
use crate::instance::{
    client_socket, connection_failure, daemon_paths, instance_paths, is_instance_name,
    runtime_path, socket_instance, sockets_tell_their_instance, start_command, PathError,
};
use crate::keys::trimmed;
use crate::path::{
    components, components_before, is_component, joined_paths_gain_a_component, kept, lies_under,
    lies_within, rooted, segment_start,
};
use crate::store::{path_join, FileFacts};
use crate::text::{decimal, hex_digits};
use crate::text_laws::{
    decimals_tell_their_number, is_numeral, numbers_are_read_from_digits, numeral_value,
};

verus! {

/// The runtime directory is `computer-use` in the directory that the environment names, or in the
/// user's own below `/run/user` where it names none.
pub proof fn runtime_directories_are_per_user(root: Option<Seq<char>>, uid: u32)
    requires
        root matches Some(root) ==> root.len() == 0 || root.last() != '/',
    ensures
        root is Some && root->0.len() > 0 ==> runtime_path(root, uid) == root->0
            + "/computer-use"@,
        root is None || root->0.len() == 0 ==> runtime_path(root, uid) == "/run/user/"@ + decimal(
            uid as nat,
        ) + "/computer-use"@,
{
    reveal_strlit("/");
    reveal_strlit("/run/user");
    reveal_strlit("/run/user/");
    reveal_strlit("computer-use");
    reveal_strlit("/computer-use");
    decimals_tell_their_number(uid as nat);
    let user = decimal(uid as nat);
    assert(user[0] != '/') by {
        assert(crate::text_laws::is_digit(user[0], 10));
    }
    assert(user.last() != '/') by {
        assert(crate::text_laws::is_digit(user[user.len() - 1], 10));
    }
    let own = path_join("/run/user"@, user);
    assert(own =~= "/run/user/"@ + user);
    assert(own.last() == user.last());
    assert(path_join(own, "computer-use"@) =~= own + "/computer-use"@);
    if let Some(root) = root {
        if root.len() > 0 {
            assert(path_join(root, "computer-use"@) =~= root + "/computer-use"@);
        }
    }
}

/// The socket and the frames of the unnamed instance lie in the runtime directory, and those of a
/// named one in a directory of its name below `instances`.
pub proof fn instances_lie_in_the_runtime_directory(runtime: Seq<char>, name: Seq<char>)
    requires
        runtime.len() > 0,
        runtime.last() != '/',
        is_instance_name(name),
    ensures
        instance_paths(runtime, None).socket == runtime + "/cu.sock"@,
        instance_paths(runtime, None).frame_dir == runtime + "/frames"@,
        instance_paths(runtime, None).instance_dir == Some(runtime),
        instance_paths(runtime, Some(name)).socket == runtime + "/instances/"@ + name
            + "/cu.sock"@,
        instance_paths(runtime, Some(name)).frame_dir == runtime + "/instances/"@ + name
            + "/frames"@,
        instance_paths(runtime, Some(name)).instance_dir == Some(runtime + "/instances/"@ + name),
{
    reveal_strlit("/");
    reveal_strlit("instances");
    reveal_strlit("/instances/");
    reveal_strlit("cu.sock");
    reveal_strlit("/cu.sock");
    reveal_strlit("frames");
    reveal_strlit("/frames");
    assert(crate::instance::is_name_char(name[0]));
    assert(crate::instance::is_name_char(name[name.len() - 1]));
    let list = path_join(runtime, "instances"@);
    assert(list + "/"@ =~= runtime + "/instances/"@);
    assert(list.last() == 's');
    let own = path_join(list, name);
    assert(own =~= runtime + "/instances/"@ + name);
    assert(own.last() == name[name.len() - 1]);
    assert(path_join(own, "cu.sock"@) =~= own + "/cu.sock"@);
    assert(path_join(own, "frames"@) =~= own + "/frames"@);
    assert(path_join(runtime, "cu.sock"@) =~= runtime + "/cu.sock"@);
    assert(path_join(runtime, "frames"@) =~= runtime + "/frames"@);
}

/// A daemon is given an instance, or a socket together with a frame directory of which neither
/// lies in the other, and nothing else; each fault is told by what was given. A client is given an
/// instance or a socket, and not both.
pub proof fn instances_and_raw_paths_exclude_each_other(
    runtime: Seq<char>,
    instance: Option<Seq<char>>,
    socket: Option<Seq<char>>,
    frame_dir: Option<Seq<char>>,
)
    ensures
        daemon_paths(runtime, instance, socket, frame_dir) is Ok <==> {
            ||| socket is None && frame_dir is None
            ||| instance is None && (socket matches Some(socket) && (frame_dir matches Some(
                frame_dir,
            ) && !lies_under(socket, frame_dir) && !lies_under(frame_dir, socket)))
        },
        daemon_paths(runtime, instance, socket, frame_dir) matches Ok(paths) ==> if socket is None {
            paths == instance_paths(runtime, instance)
        } else {
            Some(paths.socket) == socket && Some(paths.frame_dir) == frame_dir && paths.instance_dir
                is None
        },
        daemon_paths(runtime, instance, socket, frame_dir) matches Err(fault) ==> match fault {
            PathError::InstanceAndRaw => instance is Some && socket is Some && frame_dir is Some,
            PathError::SocketAlone => socket is Some && frame_dir is None,
            PathError::FrameDirAlone => socket is None && frame_dir is Some,
            PathError::SharedResources => instance is None && socket is Some && frame_dir is Some,
            PathError::InstanceAndSocket => false,
        },
        client_socket(runtime, instance, socket) == (if instance is Some && socket is Some {
            Err::<Seq<char>, PathError>(PathError::InstanceAndSocket)
        } else if socket is Some {
            Ok(socket->0)
        } else {
            Ok(instance_paths(runtime, instance).socket)
        }),
{
}

proof fn segments_hold_no_slash(path: Seq<char>, end: int)
    requires
        0 <= end <= path.len(),
    ensures
        0 <= segment_start(path, end) <= end,
        forall|i: int| segment_start(path, end) <= i < end ==> path[i] != '/',
    decreases end,
{
    if end > 0 && path[end - 1] != '/' {
        segments_hold_no_slash(path, end - 1);
    }
}

proof fn clean_components_before(path: Seq<char>, absolute: bool, end: int)
    requires
        0 <= end <= path.len(),
    ensures
        ({
            let list = components_before(path, absolute, end);
            &&& forall|i: int| 0 <= i < list.len() ==> (#[trigger] list[i]).len() > 0
            &&& forall|i: int, j: int|
                0 <= i < list.len() && 0 <= j < list[i].len() ==> list[i][j] != '/'
            &&& forall|i: int|
                0 <= i < list.len() && (absolute || i > 0) ==> #[trigger] list[i] != "."@
        }),
    decreases end,
{
    let start = segment_start(path, end);
    let segment = path.subrange(start, end);
    segments_hold_no_slash(path, end);
    let list = components_before(path, absolute, end);
    assert forall|j: int| 0 <= j < segment.len() implies segment[j] != '/' by {
        assert(segment[j] == path[start + j]);
    }
    if start > 0 {
        clean_components_before(path, absolute, start - 1);
        let earlier = components_before(path, absolute, start - 1);
        assert(list == kept(earlier, absolute, segment));
        assert forall|i: int, j: int| 0 <= i < list.len() && 0 <= j < list[i].len() implies list[i][j]
            != '/' by {
            if i < earlier.len() {
                assert(list[i] == earlier[i]);
            }
        }
        assert forall|i: int| 0 <= i < list.len() implies (#[trigger] list[i]).len() > 0 by {
            if i < earlier.len() {
                assert(list[i] == earlier[i]);
            }
        }
        assert forall|i: int| 0 <= i < list.len() && (absolute || i > 0) implies #[trigger] list[i]
            != "."@ by {
            if i < earlier.len() {
                assert(list[i] == earlier[i]);
            }
        }
    } else {
        assert(list == kept(Seq::empty(), absolute, segment));
    }
}

/// The components of a path are not empty and hold no slash, and none is a dot but the first one
/// of a path that is not absolute. A name put behind a path is its last component, and lies under
/// it.
pub proof fn components_are_what_slashes_part(path: Seq<char>, segment: Seq<char>)
    ensures
        ({
            let list = components(path);
            &&& forall|i: int| 0 <= i < list.len() ==> (#[trigger] list[i]).len() > 0
            &&& forall|i: int, j: int|
                0 <= i < list.len() && 0 <= j < list[i].len() ==> list[i][j] != '/'
            &&& forall|i: int|
                0 <= i < list.len() && ((path.len() > 0 && path[0] == '/') || i > 0)
                    ==> #[trigger] list[i] != "."@
        }),
        is_component(segment) ==> {
            let longer = path_join(path, segment);
            &&& components(longer).len() == components(path).len() + 1
            &&& components(longer).last() == segment
            &&& components(longer).drop_last() == components(path)
            &&& lies_under(longer, path)
            &&& lies_within(longer, path)
        },
        components(Seq::<char>::empty()).len() == 0,
{
    clean_components_before(path, rooted(path), path.len() as int);
    if is_component(segment) {
        joined_paths_gain_a_component(path, segment);
        assert(components(path).push(segment).drop_last() =~= components(path));
        assert(components(path).is_prefix_of(components(path).push(segment)));
    }
}

/// A daemon's command line is taken exactly where it names at most one of a display and an output,
/// and an instance, both raw paths, or neither of them.
pub proof fn daemon_arguments_are_taken_together(arguments: DaemonArguments)
    ensures
        arguments.fault() is None <==> {
            &&& arguments.display is None || arguments.output is None
            &&& arguments.socket is Some <==> arguments.frame_dir is Some
            &&& arguments.instance is None || arguments.socket is None
        },
        arguments.fault() matches Some(fault) ==> match fault {
            UsageError::DisplayAndOutput => arguments.display is Some && arguments.output is Some,
            UsageError::InstanceAndSocket => arguments.instance is Some && arguments.socket is Some,
            UsageError::InstanceAndFrameDir => arguments.instance is Some && arguments.frame_dir
                is Some,
            UsageError::SocketWithoutFrameDir => arguments.socket is Some && arguments.frame_dir
                is None,
            UsageError::FrameDirWithoutSocket => arguments.frame_dir is Some && arguments.socket
                is None,
            _ => false,
        },
        DEFAULT_MAX_FRAMES == 32,
{
}

/// A profile is at most 16384 bytes of UTF-8 that are not all white space, and is told without the
/// white space around it.
pub proof fn profiles_are_short_texts(bytes: Seq<u8>)
    ensures
        profile_of(bytes) is Ok <==> bytes.len() <= 16_384 && vstd::utf8::valid_utf8(bytes)
            && trimmed(vstd::utf8::decode_utf8(bytes)).len() > 0,
        profile_of(bytes) matches Ok(profile) ==> profile == trimmed(
            vstd::utf8::decode_utf8(bytes),
        ),
        profile_of(bytes) == Err::<Seq<char>, ProfileError>(ProfileError::TooLong) <==> bytes.len()
            > 16_384,
{
}

/// A directory of a private desktop is a real one that belongs to the user and that the user alone
/// can read, write and enter.
pub proof fn private_directories_are_the_users_alone(facts: FileFacts, euid: u32)
    ensures
        is_private(facts, euid) <==> facts.is_dir && !facts.is_symlink && facts.uid == euid
            && facts.mode % 512 == 448,
{
    let mode = facts.mode;
    assert((mode & 0o777 == 0o700) <==> mode % 512 == 448) by (bit_vector);
}

/// The directory of a private desktop lies directly below `mcp-desktops` in the runtime directory,
/// under the name of a unique identifier.
pub proof fn private_desktops_lie_below_the_runtime_directory(
    path: Seq<char>,
    runtime: Seq<char>,
)
    ensures
        is_worker_directory(path, runtime) <==> {
            &&& (path.len() > 0 && path[0] == '/') == (runtime.len() > 0 && runtime[0] == '/')
            &&& components(path).len() > 0
            &&& components(path).drop_last() == components(runtime).push("mcp-desktops"@)
            &&& is_uuid(components(path).last())
        },
{
    reveal_strlit("mcp-desktops");
    let name = "mcp-desktops"@;
    reveal_strlit(".");
    assert(name.len() > 1);
    assert(is_component(name)) by {
        assert("."@.len() == 1);
    }
    joined_paths_gain_a_component(runtime, name);
    let list = components(path);
    let base = components(runtime).push(name);
    if is_worker_directory(path, runtime) {
        assert(list.drop_last() =~= base) by {
            assert forall|i: int| 0 <= i < base.len() implies list[i] == base[i] by {
                assert(base == list.subrange(0, base.len() as int));
            }
        }
    }
    if list.len() > 0 && list.drop_last() == base {
        assert(list.subrange(0, base.len() as int) =~= base);
    }
}

/// A display server reports the number of its display, up to 65535, with white space around it or
/// not; the display is then that number behind a colon.
pub proof fn reported_displays_are_numbers(line: Seq<char>)
    ensures
        ({
            let text = trimmed(line);
            let digits = if text.len() > 0 && text[0] == '+' {
                text.subrange(1, text.len() as int)
            } else {
                text
            };
            let number = numeral_value(digits, 10);
            &&& reported_display(line) is Some <==> digits.len() > 0 && is_numeral(digits, 10)
                && number <= 65_535
            &&& reported_display(line) matches Some(display) ==> display[0] == ':' && numeral_value(
                display.subrange(1, display.len() as int),
                10,
            ) == number && is_numeral(display.subrange(1, display.len() as int), 10)
        }),
{
    reveal_strlit(":");
    numbers_are_read_from_digits(trimmed(line), u16::MAX as u64);
    if let Some(display) = reported_display(line) {
        let number = crate::command::number_of(trimmed(line), u16::MAX as u64)->Ok_0;
        decimals_tell_their_number(number);
        assert(display.subrange(1, display.len() as int) =~= decimal(number));
    }
}

/// The record that lets a client at a private display is for every address and every display, and
/// holds the name of the protocol and the cookie, each behind its length in two bytes.
pub proof fn authority_records_hold_the_cookie(cookie: Seq<u8>)
    requires
        cookie.len() <= u16::MAX,
    ensures
        ({
            let record = authority_record(cookie);
            let name = seq![
                77u8, 73u8, 84u8, 45u8, 77u8, 65u8, 71u8, 73u8, 67u8, 45u8, 67u8, 79u8, 79u8, 75u8,
                73u8, 69u8, 45u8, 49u8,
            ];
            &&& record.len() == 28 + cookie.len()
            &&& record[0] == 255 && record[1] == 255
            &&& record.subrange(2, 6) == seq![0u8, 0u8, 0u8, 0u8]
            &&& record[6] * 256 + record[7] == 18
            &&& record.subrange(8, 26) == name
            &&& record[26] * 256 + record[27] == cookie.len()
            &&& record.subrange(28, record.len() as int) == cookie
        }),
{
    let record = authority_record(cookie);
    assert(record.subrange(28, record.len() as int) =~= cookie);
    assert(record.subrange(2, 6) =~= seq![0u8, 0u8, 0u8, 0u8]);
    assert(record.subrange(8, 26) =~= seq![
        77u8, 73u8, 84u8, 45u8, 77u8, 65u8, 71u8, 73u8, 67u8, 45u8, 67u8, 79u8, 79u8, 75u8, 73u8,
        69u8, 45u8, 49u8,
    ]);
}

/// A unique identifier is written as 32 hexadecimal digits with hyphens behind the first eight and
/// behind each of the next three groups of four, within braces, behind a fixed prefix in any case,
/// or neither; without hyphens it is the digits alone.
pub proof fn identifiers_are_written_in_groups(text: Seq<char>)
    ensures
        is_hyphenated(text) ==> text.len() == 36 && text[8] == '-' && text[13] == '-' && text[18]
            == '-' && text[23] == '-' && forall|i: int|
            0 <= i < 36 && i != 8 && i != 13 && i != 18 && i != 23 ==> ('0' <= (#[trigger] text[i])
                <= '9' || 'a' <= text[i] <= 'f' || 'A' <= text[i] <= 'F'),
        is_uuid(text) ==> text.len() == 32 || text.len() == 36 || text.len() == 38 || text.len()
            == 45,
        text.len() == 32 ==> (is_uuid(text) <==> forall|i: int|
            0 <= i < 32 ==> ('0' <= (#[trigger] text[i]) <= '9' || 'a' <= text[i] <= 'f' || 'A'
                <= text[i] <= 'F')),
        text.len() == 36 ==> (is_uuid(text) <==> is_hyphenated(text)),
        text.len() == 38 ==> (is_uuid(text) <==> text[0] == '{' && text[37] == '}'
            && is_hyphenated(text.subrange(1, 37))),
        text.len() == 36 && text[8] == '-' && text[13] == '-' && text[18] == '-' && text[23] == '-'
            && (forall|i: int|
            0 <= i < 36 && i != 8 && i != 13 && i != 18 && i != 23 ==> ('0' <= (#[trigger] text[i])
                <= '9' || 'a' <= text[i] <= 'f' || 'A' <= text[i] <= 'F')) ==> is_hyphenated(text),
{
    if is_hyphenated(text) {
        assert(text[8] == '-');
        assert(text[13] == '-');
        assert(text[18] == '-');
        assert(text[23] == '-');
    }
    if text.len() == 32 && is_uuid(text) {
        assert forall|i: int| 0 <= i < 32 implies ('0' <= (#[trigger] text[i]) <= '9' || 'a'
            <= text[i] <= 'f' || 'A' <= text[i] <= 'F') by {
            assert(crate::text::is_hex_digit(text[i]));
        }
    }
}

/// What a string of a JSON text stands for, without its quotes, if it is one: characters as they
/// are, but for escapes, which start with a backslash; quotes and control characters are always
/// escaped.
pub open spec fn json_read(text: Seq<char>) -> Option<Seq<char>>
    decreases text.len(),
{
    if text.len() == 0 {
        Some(Seq::empty())
    } else if text[0] == '"' || (text[0] as u32) < 0x20 {
        None
    } else if text[0] != '\\' {
        match json_read(text.skip(1)) {
            Some(rest) => Some(seq![text[0]] + rest),
            None => None,
        }
    } else if text.len() < 2 {
        None
    } else if text[1] == 'u' {
        if text.len() < 6 {
            None
        } else {
            match json_read(text.skip(6)) {
                Some(rest) => Some(
                    seq![numeral_value(text.subrange(2, 6), 16) as char] + rest,
                ),
                None => None,
            }
        }
    } else {
        match json_read(text.skip(2)) {
            Some(rest) => Some(
                seq![
                    if text[1] == 'b' {
                        '\u{8}'
                    } else if text[1] == 't' {
                        '\u{9}'
                    } else if text[1] == 'n' {
                        '\u{a}'
                    } else if text[1] == 'f' {
                        '\u{c}'
                    } else if text[1] == 'r' {
                        '\u{d}'
                    } else {
                        text[1]
                    },
                ] + rest,
            ),
            None => None,
        }
    }
}

proof fn json_starts_with_its_first(c: char, rest: Seq<char>)
    ensures
        json_chars(seq![c] + rest) == json_char(c) + json_chars(rest),
    decreases rest.len(),
{
    let whole = seq![c] + rest;
    if rest.len() == 0 {
        assert(whole.drop_last() =~= Seq::empty());
        assert(whole.last() == c);
        assert(json_chars(whole.drop_last()) =~= Seq::empty());
        assert(json_chars(whole) =~= json_char(c) + json_chars(rest));
    } else {
        json_starts_with_its_first(c, rest.drop_last());
        assert(whole.drop_last() =~= seq![c] + rest.drop_last());
        assert(whole.last() == rest.last());
        assert(json_chars(whole) =~= json_char(c) + json_chars(rest));
    }
}

proof fn json_reads_one(c: char, rest: Seq<char>)
    requires
        json_read(rest) is Some,
    ensures
        json_read(json_char(c) + rest) == Some(seq![c] + json_read(rest)->0),
{
    reveal_strlit("\\\"");
    reveal_strlit("\\\\");
    reveal_strlit("\\b");
    reveal_strlit("\\t");
    reveal_strlit("\\n");
    reveal_strlit("\\f");
    reveal_strlit("\\r");
    reveal_strlit("\\u00");
    let text = json_char(c) + rest;
    if c == '"' || c == '\\' || c == '\u{8}' || c == '\t' || c == '\n' || c == '\u{c}' || c == '\r' {
        assert(json_char(c).len() == 2);
        assert(text[0] == '\\');
        assert(text.skip(2) =~= rest);
    } else if (c as u32) < 0x20 {
        let value = c as nat;
        let digits = hex_digits(value, 2);
        assert(vstd::arithmetic::power::pow(16, 2) == 256) by {
            reveal_with_fuel(vstd::arithmetic::power::pow, 3);
        }
        crate::text_laws::hex_digits_tell_their_number(value, 2);
        let four = text.subrange(2, 6);
        assert(json_char(c).len() == 6);
        assert(four =~= seq!['0', '0'] + digits);
        assert(numeral_value(four, 16) == value) by {
            let d0 = seq!['0', '0'];
            assert(numeral_value(d0, 16) == 0) by {
                assert(d0.drop_last() =~= seq!['0']);
                assert(seq!['0'].drop_last() =~= Seq::empty());
                assert(numeral_value(Seq::<char>::empty(), 16) == 0);
                assert(numeral_value(seq!['0'], 16) == 0);
            }
            let d1 = four.drop_last();
            assert(d1 =~= d0.push(digits[0]));
            assert(d1.drop_last() =~= d0);
            assert(digits.drop_last() =~= seq![digits[0]]);
            assert(seq![digits[0]].drop_last() =~= Seq::empty());
            assert(numeral_value(Seq::<char>::empty(), 16) == 0);
            assert(numeral_value(seq![digits[0]], 16) == crate::text_laws::digit_value(digits[0]));
            assert(numeral_value(d1, 16) == crate::text_laws::digit_value(digits[0]));
            assert(four.last() == digits.last());
        }
        assert(text[0] == '\\');
        assert(text[1] == 'u');
        assert(text.skip(6) =~= rest);
    } else {
        assert(text[0] == c);
        assert(text.skip(1) =~= rest);
    }
}

/// A quoted text is within quotes and reads back as itself.
pub proof fn quoted_texts_read_back(text: Seq<char>)
    ensures
        json_string(text).len() >= 2,
        json_string(text)[0] == '"',
        json_string(text).last() == '"',
        json_read(json_string(text).subrange(1, json_string(text).len() - 1)) == Some(text),
{
    reveal_strlit("\"");
    quoted_characters_read_back(text);
    assert(json_string(text).subrange(1, json_string(text).len() - 1) =~= json_chars(text));
}

proof fn quoted_characters_read_back(text: Seq<char>)
    ensures
        json_read(json_chars(text)) == Some(text),
    decreases text.len(),
{
    if text.len() == 0 {
        assert(text =~= Seq::empty());
        assert(json_chars(text) =~= Seq::empty());
    } else {
        let rest = text.skip(1);
        quoted_characters_read_back(rest);
        assert(text =~= seq![text[0]] + rest);
        json_starts_with_its_first(text[0], rest);
        json_reads_one(text[0], json_chars(rest));
    }
}

/// Frames are counted by a number of at least two.
pub proof fn frame_counts_are_at_least_two(text: Seq<char>, largest: u64)
    ensures
        ({
            let digits = if text.len() > 0 && text[0] == '+' {
                text.subrange(1, text.len() as int)
            } else {
                text
            };
            &&& frame_count(text, largest) is Ok <==> digits.len() > 0 && is_numeral(digits, 10) && 2
                <= numeral_value(digits, 10) <= largest
            &&& frame_count(text, largest) matches Ok(count) ==> count == numeral_value(digits, 10)
        }),
{
    numbers_are_read_from_digits(text, largest);
}

/// A private desktop's socket and frames are those two names in its directory.
pub proof fn private_desktops_keep_their_resources(directory: Seq<char>, socket: Seq<char>)
    ensures
        are_worker_paths(
            directory,
            path_join(directory, "cu.sock"@),
            path_join(directory, "frames"@),
        ),
        are_worker_paths(directory, socket, path_join(directory, "frames"@)) ==> components(socket)
            == components(directory).push("cu.sock"@),
        are_worker_paths(directory, path_join(directory, "cu.sock"@), socket) ==> components(socket)
            == components(directory).push("frames"@),
{
    reveal_strlit("cu.sock");
    reveal_strlit("frames");
    reveal_strlit(".");
    assert("."@.len() == 1);
    assert(is_component("cu.sock"@));
    assert(is_component("frames"@));
    joined_paths_gain_a_component(directory, "cu.sock"@);
    joined_paths_gain_a_component(directory, "frames"@);
}

/// A desktop is started by a shell's command: the program as one word, whatever its name holds,
/// and one argument behind it.
pub proof fn startup_commands_are_one_word_and_an_argument(executable: Seq<char>)
    ensures
        ({
            let text = startup_text(executable);
            let word = text.len() - " __desktop-ready"@.len();
            &&& 0 < word
            &&& shell_read(text.take(word)) == Some((false, false, executable))
            &&& text.skip(word) == " __desktop-ready"@
        }),
{
    reveal_strlit("'");
    reveal_strlit(" __desktop-ready");
    reveal_strlit("' __desktop-ready");
    let text = startup_text(executable);
    let word = text.len() - " __desktop-ready"@.len();
    assert(text.take(word) =~= "'"@ + shell_chars(executable) + "'"@);
    assert(text.skip(word) =~= " __desktop-ready"@);
    quoted_words_read_back(executable);
}

/// A client that finds no daemon is told the socket, what went wrong unless nothing listens there,
/// and the command that starts the daemon of that socket's instance.
pub proof fn missing_daemons_are_told(
    socket: Seq<char>,
    detail: Seq<char>,
    runtime: Seq<char>,
    name: Seq<char>,
)
    requires
        is_instance_name(name),
    ensures
        ("computer-use daemon is unavailable at "@ + socket).is_prefix_of(
            connection_failure(socket, true, detail),
        ),
        ("failed to connect to "@ + socket + ": "@ + detail).is_prefix_of(
            connection_failure(socket, false, detail),
        ),
        start_command(instance_paths(runtime, Some(name)).socket)
            == "`cu daemon --instance "@ + name + "`"@,
{
    sockets_tell_their_instance(runtime, name);
    let absent = "computer-use daemon is unavailable at "@ + socket;
    let told = connection_failure(socket, true, detail);
    assert(told.subrange(0, absent.len() as int) =~= absent);
    let failed = "failed to connect to "@ + socket + ": "@ + detail;
    let other = connection_failure(socket, false, detail);
    assert(other.subrange(0, failed.len() as int) =~= failed);
}

/// An instance is told from its socket's path exactly where that ends in `instances`, its name and
/// `cu.sock`, and the name is not the parent directory.
pub proof fn instances_are_told_by_the_end_of_their_socket(socket: Seq<char>, name: Seq<char>)
    ensures
        socket_instance(socket) == Some(name) <==> {
            let list = components(socket);
            let n = list.len() as int;
            &&& n >= 3
            &&& list.subrange(n - 3, n) == seq!["instances"@, name, "cu.sock"@]
            &&& name != ".."@
        },
{
    let list = components(socket);
    let n = list.len() as int;
    if n >= 3 {
        let end = list.subrange(n - 3, n);
        assert(end[0] == list[n - 3]);
        assert(end[1] == list[n - 2]);
        assert(end[2] == list[n - 1]);
        if socket_instance(socket) == Some(name) {
            assert(end =~= seq!["instances"@, name, "cu.sock"@]);
        }
        if end == seq!["instances"@, name, "cu.sock"@] {
            assert(end[0] == "instances"@ && end[1] == name && end[2] == "cu.sock"@);
        }
    }
}

/// What a client is told of a desktop starts with its connection and ends with the instructions
/// for it; for a private desktop the file that lets a client at it is quoted in between.
pub proof fn profiles_follow_the_connection(
    target: Seq<char>,
    authority: Seq<char>,
    instructions: Seq<char>,
)
    ensures
        connection_profile(target, None) == "Desktop connection: "@ + target,
        connection_profile(target, Some(instructions)) == "Desktop connection: "@ + target
            + "\n\n"@ + instructions,
        ("Desktop connection: "@ + target + "\nXAUTHORITY="@ + json_string(authority)).is_prefix_of(
            private_text(target, authority, instructions),
        ),
        instructions.is_suffix_of(private_text(target, authority, instructions)),
{
    let told = private_text(target, authority, instructions);
    let start = "Desktop connection: "@ + target + "\nXAUTHORITY="@ + json_string(authority);
    assert(connection_profile(target, None) =~= "Desktop connection: "@ + target);
    assert(connection_profile(target, Some(instructions)) =~= "Desktop connection: "@ + target
        + "\n\n"@ + instructions);
    assert(told.subrange(0, start.len() as int) =~= start);
    assert(told.subrange(told.len() - instructions.len(), told.len() as int) =~= instructions);
}

/// A path lies under another one exactly where both are absolute or both are not, and it starts
/// with all components of the other; everything lies under the path without components that is not
/// absolute. Two paths that lie under each other have the same components.
pub proof fn paths_lie_under_their_beginnings(path: Seq<char>, base: Seq<char>)
    ensures
        lies_under(path, base) <==> {
            let absolute = path.len() > 0 && path[0] == '/';
            let from_root = base.len() > 0 && base[0] == '/';
            let count = components(base).len() as int;
            ||| !from_root && count == 0
            ||| absolute == from_root && count <= components(path).len() && forall|i: int|
                0 <= i < count ==> #[trigger] components(base)[i] == components(path)[i]
        },
        lies_under(path, base) && lies_under(base, path) && rooted(path) && rooted(base)
            ==> components(path) == components(base),
{
    let list = components(path);
    let start = components(base);
    if start.is_prefix_of(list) {
        assert forall|i: int| 0 <= i < start.len() implies #[trigger] start[i] == list[i] by {
            assert(start == list.subrange(0, start.len() as int));
        }
    }
    if start.len() <= list.len() && (forall|i: int|
        0 <= i < start.len() ==> #[trigger] start[i] == list[i]) {
        assert(start =~= list.subrange(0, start.len() as int));
    }
    if start.is_prefix_of(list) && list.is_prefix_of(start) {
        assert(list =~= start);
    }
}

/// A daemon is given what its command line says; without a word on them, the backend is found by
/// the session and 32 frames are kept.
pub proof fn daemon_commands_fill_in_defaults(arguments: DaemonArguments)
    ensures
        ({
            let command = arguments.command();
            &&& arguments.backend matches Some(backend) ==> command.backend == backend
            &&& arguments.backend is None ==> command.backend is Auto
            &&& arguments.max_frames matches Some(count) ==> command.max_frames == count
            &&& arguments.max_frames is None ==> command.max_frames == 32
            &&& command.instance == arguments.instance
            &&& command.display == arguments.display
            &&& command.output == arguments.output
            &&& command.max_width == arguments.max_width
            &&& command.max_height == arguments.max_height
            &&& command.profile == arguments.profile
            &&& command.socket == arguments.socket
            &&& command.frame_dir == arguments.frame_dir
        }),
{
}

} // verus!
