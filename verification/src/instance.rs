//! Named daemon instances: their names, and where their sockets and frames are.
use vstd::prelude::*;

use crate::path::{
    components, is_component, joined_paths_gain_a_component, lies_under, path_components, rooted,
    starts_with,
};
use crate::protocol::text_view;
use crate::store::{join_path, path_join};
use crate::text::{chars_of, decimal, push_decimal, same_text};

verus! {

/// Most characters of an instance name.
pub const MAX_INSTANCE_NAME: usize = 64;

/// The name of a daemon instance.
#[derive(Debug, PartialEq, Eq)]
pub struct InstanceName {
    pub name: String,
}

impl View for InstanceName {
    type V = Seq<char>;

    open spec fn view(&self) -> Seq<char> {
        self.name@
    }
}

impl Clone for InstanceName {
    fn clone(&self) -> (copy: Self)
        ensures
            copy@ == self@,
    {
        InstanceName { name: self.name.clone() }
    }
}

/// Whether a character may stand in an instance name.
pub open spec fn is_name_char(c: char) -> bool {
    'a' <= c <= 'z' || 'A' <= c <= 'Z' || '0' <= c <= '9' || c == '_' || c == '-' || c == '.'
}

/// Whether a text can name an instance.
pub open spec fn is_instance_name(name: Seq<char>) -> bool {
    &&& 0 < name.len() <= MAX_INSTANCE_NAME
    &&& name != "."@
    &&& name != ".."@
    &&& forall|i: int| 0 <= i < name.len() ==> is_name_char(#[trigger] name[i])
}

/// The refusal of a text that can name no instance.
pub open spec fn invalid_name() -> Seq<char> {
    "instance must be 1-64 ASCII letters, digits, dots, underscores, or hyphens"@
}

/// Whether a text can name an instance.
pub fn names_instance(value: &str) -> (valid: bool)
    ensures
        valid == is_instance_name(value@),
{
    let chars = chars_of(value);
    if chars.len() == 0 || chars.len() > MAX_INSTANCE_NAME || same_text(value, ".") || same_text(
        value,
        "..",
    ) {
        return false;
    }
    let mut n: usize = 0;
    while n < chars.len()
        invariant
            n <= chars.len(),
            chars@ == value@,
            forall|i: int| 0 <= i < n ==> is_name_char(#[trigger] value@[i]),
        decreases chars.len() - n,
    {
        let c = chars[n];
        let good = ('a' <= c && c <= 'z') || ('A' <= c && c <= 'Z') || ('0' <= c && c <= '9') || c
            == '_' || c == '-' || c == '.';
        assert(good == is_name_char(value@[n as int]));
        if !good {
            return false;
        }
        n += 1;
    }
    true
}

impl InstanceName {
    /// The instance that a text names.
    pub fn parse(value: &str) -> (result: Result<Self, String>)
        ensures
            match result {
                Ok(name) => is_instance_name(value@) && name@ == value@,
                Err(message) => !is_instance_name(value@) && message@ == invalid_name(),
            },
    {
        if names_instance(value) {
            Ok(InstanceName { name: value.to_owned() })
        } else {
            Err(
                "instance must be 1-64 ASCII letters, digits, dots, underscores, or hyphens".to_owned(),
            )
        }
    }
}

/// The directory of this service below the user's runtime directory.
pub open spec fn runtime_path(xdg_runtime_dir: Option<Seq<char>>, uid: u32) -> Seq<char> {
    path_join(
        match xdg_runtime_dir {
            Some(root) if root.len() > 0 => root,
            _ => path_join("/run/user"@, decimal(uid as nat)),
        },
        "computer-use"@,
    )
}

/// The directory of this service below the user's runtime directory.
pub fn default_runtime_dir_from(xdg_runtime_dir: Option<&str>, effective_uid: u32) -> (path: String)
    ensures
        path@ == runtime_path(
            match xdg_runtime_dir {
                Some(root) => Some(root@),
                None => None,
            },
            effective_uid,
        ),
{
    if let Some(root) = xdg_runtime_dir {
        if !root.is_empty() {
            return join_path(root, "computer-use");
        }
    }
    let mut uid = String::new();
    push_decimal(&mut uid, effective_uid as u64);
    assert(uid@ =~= decimal(effective_uid as nat));
    join_path(&join_path("/run/user", &uid), "computer-use")
}

/// The directory of an instance: the service's own for the instance without a name.
pub open spec fn instance_path(runtime: Seq<char>, instance: Option<Seq<char>>) -> Seq<char> {
    match instance {
        None => runtime,
        Some(name) => path_join(path_join(runtime, "instances"@), name),
    }
}

/// The view of an optional name.
pub open spec fn name_view(instance: Option<InstanceName>) -> Option<Seq<char>> {
    match instance {
        Some(name) => Some(name@),
        None => None,
    }
}

/// The directory of an instance.
pub fn named_instance_dir(runtime: &str, instance: Option<&InstanceName>) -> (path: String)
    ensures
        path@ == instance_path(
            runtime@,
            match instance {
                Some(name) => Some(name@),
                None => None,
            },
        ),
{
    match instance {
        None => runtime.to_owned(),
        Some(name) => join_path(&join_path(runtime, "instances"), &name.name),
    }
}

/// Where a daemon has its socket and its frames.
#[derive(Debug, PartialEq, Eq)]
pub struct DaemonPaths {
    pub socket: String,
    pub frame_dir: String,
    /// The directory that holds both, where this service manages it.
    pub instance_dir: Option<String>,
}

/// A daemon's paths with their texts as sequences.
pub struct PathsView {
    pub socket: Seq<char>,
    pub frame_dir: Seq<char>,
    pub instance_dir: Option<Seq<char>>,
}

impl View for DaemonPaths {
    type V = PathsView;

    open spec fn view(&self) -> PathsView {
        PathsView {
            socket: self.socket@,
            frame_dir: self.frame_dir@,
            instance_dir: text_view(self.instance_dir),
        }
    }
}

/// Why given paths cannot be used.
#[derive(Debug, Clone, Copy, PartialEq, Eq, Structural)]
pub enum PathError {
    /// One of the two raw paths lies in the other.
    SharedResources,
    InstanceAndRaw,
    SocketAlone,
    FrameDirAlone,
    InstanceAndSocket,
}

impl PathError {
    /// The message of the error.
    pub open spec fn text(self) -> Seq<char> {
        match self {
            PathError::SharedResources =>
                "--socket and --frame-dir must identify separate resources"@,
            PathError::InstanceAndRaw =>
                "--instance cannot be combined with raw --socket and --frame-dir overrides"@,
            PathError::SocketAlone =>
                "daemon --socket requires --frame-dir; use --instance for a managed namespace"@,
            PathError::FrameDirAlone =>
                "daemon --frame-dir requires --socket; use --instance for a managed namespace"@,
            PathError::InstanceAndSocket => "--instance cannot be combined with --socket"@,
        }
    }

    /// The message of the error.
    pub fn message(self) -> (message: &'static str)
        ensures
            message@ == self.text(),
    {
        match self {
            PathError::SharedResources =>
                "--socket and --frame-dir must identify separate resources",
            PathError::InstanceAndRaw =>
                "--instance cannot be combined with raw --socket and --frame-dir overrides",
            PathError::SocketAlone =>
                "daemon --socket requires --frame-dir; use --instance for a managed namespace",
            PathError::FrameDirAlone =>
                "daemon --frame-dir requires --socket; use --instance for a managed namespace",
            PathError::InstanceAndSocket => "--instance cannot be combined with --socket",
        }
    }
}

/// The paths of an instance.
pub open spec fn instance_paths(runtime: Seq<char>, instance: Option<Seq<char>>) -> PathsView {
    let directory = instance_path(runtime, instance);
    PathsView {
        socket: path_join(directory, "cu.sock"@),
        frame_dir: path_join(directory, "frames"@),
        instance_dir: Some(directory),
    }
}

/// The paths of a daemon, or why they cannot be used: those of an instance, or a raw pair.
pub open spec fn daemon_paths(
    runtime: Seq<char>,
    instance: Option<Seq<char>>,
    socket: Option<Seq<char>>,
    frame_dir: Option<Seq<char>>,
) -> Result<PathsView, PathError> {
    match (instance, socket, frame_dir) {
        (instance, None, None) => Ok(instance_paths(runtime, instance)),
        (None, Some(socket), Some(frame_dir)) => if lies_under(socket, frame_dir) || lies_under(
            frame_dir,
            socket,
        ) {
            Err(PathError::SharedResources)
        } else {
            Ok(PathsView { socket, frame_dir, instance_dir: None })
        },
        (Some(_), Some(_), Some(_)) => Err(PathError::InstanceAndRaw),
        (_, Some(_), None) => Err(PathError::SocketAlone),
        (_, None, Some(_)) => Err(PathError::FrameDirAlone),
    }
}

/// The paths of a daemon.
pub fn resolve_daemon_paths(
    runtime: &str,
    instance: Option<InstanceName>,
    socket: Option<String>,
    frame_dir: Option<String>,
) -> (result: Result<DaemonPaths, PathError>)
    ensures
        ({
            let expected = daemon_paths(
                runtime@,
                name_view(instance),
                text_view(socket),
                text_view(frame_dir),
            );
            match result {
                Ok(paths) => expected == Ok::<PathsView, PathError>(paths@),
                Err(error) => expected == Err::<PathsView, PathError>(error),
            }
        }),
{
    match (socket, frame_dir) {
        (None, None) => {
            let directory = match &instance {
                Some(name) => named_instance_dir(runtime, Some(name)),
                None => named_instance_dir(runtime, None),
            };
            Ok(
                DaemonPaths {
                    socket: join_path(&directory, "cu.sock"),
                    frame_dir: join_path(&directory, "frames"),
                    instance_dir: Some(directory),
                },
            )
        },
        (Some(socket), Some(frame_dir)) => {
            if instance.is_some() {
                return Err(PathError::InstanceAndRaw);
            }
            if starts_with(&socket, &frame_dir) || starts_with(&frame_dir, &socket) {
                return Err(PathError::SharedResources);
            }
            Ok(DaemonPaths { socket, frame_dir, instance_dir: None })
        },
        (Some(_), None) => Err(PathError::SocketAlone),
        (None, Some(_)) => Err(PathError::FrameDirAlone),
    }
}

/// The socket that a client connects to.
pub open spec fn client_socket(
    runtime: Seq<char>,
    instance: Option<Seq<char>>,
    socket: Option<Seq<char>>,
) -> Result<Seq<char>, PathError> {
    match (instance, socket) {
        (Some(_), Some(_)) => Err(PathError::InstanceAndSocket),
        (None, Some(socket)) => Ok(socket),
        (instance, None) => Ok(instance_paths(runtime, instance).socket),
    }
}

/// The socket that a client connects to.
pub fn resolve_client_socket(
    runtime: &str,
    instance: Option<InstanceName>,
    socket: Option<String>,
) -> (result: Result<String, PathError>)
    ensures
        ({
            let expected = client_socket(runtime@, name_view(instance), text_view(socket));
            match result {
                Ok(path) => expected == Ok::<Seq<char>, PathError>(path@),
                Err(error) => expected == Err::<Seq<char>, PathError>(error),
            }
        }),
{
    match (instance, socket) {
        (Some(_), Some(_)) => Err(PathError::InstanceAndSocket),
        (None, Some(socket)) => Ok(socket),
        (Some(name), None) => Ok(join_path(&named_instance_dir(runtime, Some(&name)), "cu.sock")),
        (None, None) => Ok(join_path(&named_instance_dir(runtime, None), "cu.sock")),
    }
}

/// The directories that have to exist and be private before a managed instance starts, outermost
/// first.
pub fn managed_directories(runtime: &str, instance_dir: &str) -> (directories: Vec<String>)
    ensures
        crate::protocol::texts(directories@) == (if instance_dir@ == runtime@ {
            seq![runtime@]
        } else {
            seq![runtime@, path_join(runtime@, "instances"@), instance_dir@]
        }),
{
    let mut directories: Vec<String> = Vec::new();
    directories.push(runtime.to_owned());
    if !same_text(instance_dir, runtime) {
        directories.push(join_path(runtime, "instances"));
        directories.push(instance_dir.to_owned());
    }
    assert(crate::protocol::texts(directories@) =~= (if instance_dir@ == runtime@ {
        seq![runtime@]
    } else {
        seq![runtime@, path_join(runtime@, "instances"@), instance_dir@]
    }));
    directories
}

/// The name of the instance that a socket belongs to, where its path is that of a named instance.
pub open spec fn socket_instance(socket: Seq<char>) -> Option<Seq<char>> {
    let list = components(socket);
    let n = list.len();
    if n >= 3 && list[n - 1] == "cu.sock"@ && list[n - 3] == "instances"@ && list[n - 2] != ".."@ {
        Some(list[n - 2])
    } else {
        None
    }
}

/// The name of the instance that a socket belongs to.
pub fn named_instance_from_socket(socket: &str) -> (name: Option<String>)
    ensures
        text_view(name) == socket_instance(socket@),
{
    let list = path_components(socket);
    let n: usize = list.len();
    if n < 3 {
        return None;
    }
    assert(components(socket@)[n - 1] == list[n - 1]@);
    assert(components(socket@)[n - 2] == list[n - 2]@);
    assert(components(socket@)[n - 3] == list[n - 3]@);
    if same_text(&list[n - 1], "cu.sock") && same_text(&list[n - 3], "instances") && !same_text(
        &list[n - 2],
        "..",
    ) {
        Some(list[n - 2].clone())
    } else {
        None
    }
}

/// The command that starts the daemon of a socket.
pub open spec fn start_command(socket: Seq<char>) -> Seq<char> {
    match socket_instance(socket) {
        Some(instance) => "`cu daemon --instance "@ + instance + "`"@,
        None => "`cu daemon`"@,
    }
}

/// What a client reports where it cannot connect to a socket. `absent` tells that nothing listens
/// there; else `detail` is the operating system's diagnostic.
pub open spec fn connection_failure(socket: Seq<char>, absent: bool, detail: Seq<char>) -> Seq<
    char,
> {
    (if absent {
        "computer-use daemon is unavailable at "@ + socket
    } else {
        "failed to connect to "@ + socket + ": "@ + detail
    }) + "\nstart it separately, then retry: "@ + start_command(socket)
        + " (auto-detects the desktop); use `cu daemon --help` for an explicit backend override"@
}

/// What a client reports where it cannot connect to a socket.
pub fn connection_error(socket: &str, absent: bool, detail: &str) -> (message: String)
    ensures
        message@ == connection_failure(socket@, absent, detail@),
{
    let mut message = "failed to connect to ".to_owned();
    if absent {
        message = "computer-use daemon is unavailable at ".to_owned();
        message.append(socket);
    } else {
        message.append(socket);
        message.append(": ");
        message.append(detail);
    }
    message.append("\nstart it separately, then retry: ");
    match named_instance_from_socket(socket) {
        Some(instance) => {
            message.append("`cu daemon --instance ");
            message.append(&instance);
            message.append("`");
        },
        None => {
            message.append("`cu daemon`");
        },
    }
    message.append(
        " (auto-detects the desktop); use `cu daemon --help` for an explicit backend override",
    );
    assert(message@ =~= connection_failure(socket@, absent, detail@));
    message
}

/// An instance name is one component of a path, and leads out of no directory.
pub proof fn instance_names_are_components(name: Seq<char>)
    requires
        is_instance_name(name),
    ensures
        is_component(name),
        components(name) == seq![name],
        !rooted(name),
        name != ".."@,
{
    assert forall|i: int| 0 <= i < name.len() implies name[i] != '/' by {
        assert(is_name_char(name[i]));
    }
    joined_paths_gain_a_component(Seq::empty(), name);
    assert(path_join(Seq::empty(), name) =~= name);
    assert(Seq::<char>::empty().subrange(0, 0) =~= Seq::empty());
    assert(components(Seq::empty()) =~= Seq::empty());
    assert(components(name) =~= seq![name]);
}

/// The paths of a named instance lie in the directory of its name below the service's directory,
/// and its socket tells its name.
pub proof fn sockets_tell_their_instance(runtime: Seq<char>, name: Seq<char>)
    requires
        is_instance_name(name),
    ensures
        components(instance_paths(runtime, Some(name)).socket) == components(runtime)
            + seq!["instances"@, name, "cu.sock"@],
        components(instance_paths(runtime, Some(name)).frame_dir) == components(runtime)
            + seq!["instances"@, name, "frames"@],
        socket_instance(instance_paths(runtime, Some(name)).socket) == Some(name),
{
    instance_names_are_components(name);
    fixed_names_are_components();
    let list = path_join(runtime, "instances"@);
    let directory = path_join(list, name);
    joined_paths_gain_a_component(runtime, "instances"@);
    joined_paths_gain_a_component(list, name);
    joined_paths_gain_a_component(directory, "cu.sock"@);
    joined_paths_gain_a_component(directory, "frames"@);
    let socket = components(instance_paths(runtime, Some(name)).socket);
    assert(socket =~= components(runtime) + seq!["instances"@, name, "cu.sock"@]);
    assert(components(instance_paths(runtime, Some(name)).frame_dir) =~= components(runtime)
        + seq!["instances"@, name, "frames"@]);
    assert(socket[socket.len() - 2] == name);
}

proof fn fixed_names_are_components()
    ensures
        is_component("instances"@),
        is_component("cu.sock"@),
        is_component("frames"@),
        "cu.sock"@ != "frames"@,
{
    reveal_strlit("instances");
    reveal_strlit("cu.sock");
    reveal_strlit("frames");
    reveal_strlit(".");
    assert("instances"@.len() == 9);
    assert("cu.sock"@.len() == 7);
    assert("frames"@.len() == 6);
}

/// Instances of different names, one of which may be the one without a name, have different
/// sockets and different frame directories, and no instance's socket is its frame directory.
pub proof fn instances_share_nothing(
    runtime: Seq<char>,
    first: Option<Seq<char>>,
    second: Option<Seq<char>>,
)
    requires
        first is Some ==> is_instance_name(first->0),
        second is Some ==> is_instance_name(second->0),
        first != second,
    ensures
        instance_paths(runtime, first).socket != instance_paths(runtime, second).socket,
        instance_paths(runtime, first).frame_dir != instance_paths(runtime, second).frame_dir,
        instance_paths(runtime, first).socket != instance_paths(runtime, first).frame_dir,
{
    fixed_names_are_components();
    instance_tail(runtime, first);
    instance_tail(runtime, second);
    let base = components(runtime).len() as int;
    let a = components(instance_paths(runtime, first).socket);
    let b = components(instance_paths(runtime, second).socket);
    let c = components(instance_paths(runtime, first).frame_dir);
    let d = components(instance_paths(runtime, second).frame_dir);
    assert(a.last() == "cu.sock"@ && c.last() == "frames"@);
    if first is Some && second is Some {
        assert(a[base + 1] == first->0);
        assert(b[base + 1] == second->0);
        assert(c[base + 1] == first->0);
        assert(d[base + 1] == second->0);
    } else {
        assert(a.len() != b.len());
        assert(c.len() != d.len());
    }
}

proof fn instance_tail(runtime: Seq<char>, instance: Option<Seq<char>>)
    requires
        instance is Some ==> is_instance_name(instance->0),
    ensures
        ({
            let middle = match instance {
                Some(name) => seq!["instances"@, name],
                None => Seq::empty(),
            };
            &&& components(instance_paths(runtime, instance).socket) == components(runtime) + middle
                + seq!["cu.sock"@]
            &&& components(instance_paths(runtime, instance).frame_dir) == components(runtime)
                + middle + seq!["frames"@]
        }),
{
    fixed_names_are_components();
    match instance {
        Some(name) => {
            sockets_tell_their_instance(runtime, name);
            assert(components(instance_paths(runtime, instance).socket) =~= components(runtime)
                + seq!["instances"@, name] + seq!["cu.sock"@]);
            assert(components(instance_paths(runtime, instance).frame_dir) =~= components(runtime)
                + seq!["instances"@, name] + seq!["frames"@]);
        },
        None => {
            joined_paths_gain_a_component(runtime, "cu.sock"@);
            joined_paths_gain_a_component(runtime, "frames"@);
            assert(components(instance_paths(runtime, instance).socket) =~= components(runtime)
                + Seq::empty() + seq!["cu.sock"@]);
            assert(components(instance_paths(runtime, instance).frame_dir) =~= components(runtime)
                + Seq::empty() + seq!["frames"@]);
        },
    }
}

} // verus!
