//! Which desktop backend a daemon uses, and how its target is described.
use vstd::prelude::*;

use crate::engine::Desktop;
use crate::frame::CaptureLimits;
use crate::keys::{debug_text, lower, quoted, to_lower, trim, trimmed};
use crate::protocol::text_view;
use crate::store::{join_path, path_join};
use crate::text::{chars_of, decimal, push_char, push_decimal, same_text};

verus! {

/// A desktop backend, or the choice by the session.
#[derive(Debug, Clone, Copy, PartialEq, Eq, Structural)]
pub enum BackendChoice {
    Auto,
    Wayland,
    X11,
}

impl Default for BackendChoice {
    fn default() -> (choice: Self)
        ensures
            choice == BackendChoice::Auto,
    {
        BackendChoice::Auto
    }
}

/// What a daemon is asked to use.
#[derive(Debug)]
pub struct BackendOptions {
    pub choice: BackendChoice,
    /// An X11 display.
    pub display: Option<String>,
    /// A Wayland output.
    pub output: Option<String>,
    pub capture_limits: CaptureLimits,
}

/// A backend that was started, and a description of its target.
pub struct StartedBackend<D: Desktop> {
    pub desktop: D,
    pub target: String,
}

/// What a process knows of its desktop session.
#[derive(Debug, PartialEq, Eq)]
pub struct SessionEnvironment {
    /// Kind of the session, in lower case.
    pub session_type: Option<String>,
    pub wayland_display: Option<String>,
    pub runtime_dir: Option<String>,
    /// Whether the process was given a connection instead of a socket's name.
    pub inherited_wayland_socket: bool,
    pub x11_display: Option<String>,
}

/// What a process knows of its session, with texts as sequences.
pub struct EnvironmentView {
    pub session_type: Option<Seq<char>>,
    pub wayland_display: Option<Seq<char>>,
    pub runtime_dir: Option<Seq<char>>,
    pub inherited_wayland_socket: bool,
    pub x11_display: Option<Seq<char>>,
}

impl View for SessionEnvironment {
    type V = EnvironmentView;

    open spec fn view(&self) -> EnvironmentView {
        EnvironmentView {
            session_type: text_view(self.session_type),
            wayland_display: text_view(self.wayland_display),
            runtime_dir: text_view(self.runtime_dir),
            inherited_wayland_socket: self.inherited_wayland_socket,
            x11_display: text_view(self.x11_display),
        }
    }
}

impl Default for SessionEnvironment {
    fn default() -> (environment: Self)
        ensures
            environment@ == (EnvironmentView {
                session_type: None,
                wayland_display: None,
                runtime_dir: None,
                inherited_wayland_socket: false,
                x11_display: None,
            }),
    {
        SessionEnvironment {
            session_type: None,
            wayland_display: None,
            runtime_dir: None,
            inherited_wayland_socket: false,
            x11_display: None,
        }
    }
}

/// The backend that a daemon uses.
#[derive(Debug, PartialEq, Eq)]
pub enum ResolvedBackend {
    Wayland,
    X11 { display: String },
}

/// A backend with its texts as sequences.
pub enum ResolvedView {
    Wayland,
    X11 { display: Seq<char> },
}

impl View for ResolvedBackend {
    type V = ResolvedView;

    open spec fn view(&self) -> ResolvedView {
        match *self {
            ResolvedBackend::Wayland => ResolvedView::Wayland,
            ResolvedBackend::X11 { display } => ResolvedView::X11 { display: display@ },
        }
    }
}

/// Why no backend can be used.
#[derive(Debug, Clone, Copy, PartialEq, Eq, Structural)]
pub enum BackendError {
    /// Targets of both display systems were named.
    TwoTargets,
    /// An X11 display was named for the Wayland backend.
    DisplayNeedsX11,
    /// A Wayland output was named for the X11 backend.
    OutputNeedsWayland,
    NoWaylandDisplay,
    NoX11Display,
    NoSession,
}

impl BackendError {
    /// The message of the error.
    pub open spec fn text(self) -> Seq<char> {
        match self {
            BackendError::TwoTargets => "--display and --output target different display systems"@,
            BackendError::DisplayNeedsX11 => "--display requires --backend x11"@,
            BackendError::OutputNeedsWayland => "--output requires --backend wayland"@,
            BackendError::NoWaylandDisplay => "Wayland backend requires WAYLAND_DISPLAY"@,
            BackendError::NoX11Display => "X11 backend requires --display or DISPLAY"@,
            BackendError::NoSession =>
                "unable to detect a desktop session; set WAYLAND_DISPLAY or DISPLAY, or pass --backend"@,
        }
    }

    /// The message of the error.
    pub fn message(self) -> (message: &'static str)
        ensures
            message@ == self.text(),
    {
        match self {
            BackendError::TwoTargets => "--display and --output target different display systems",
            BackendError::DisplayNeedsX11 => "--display requires --backend x11",
            BackendError::OutputNeedsWayland => "--output requires --backend wayland",
            BackendError::NoWaylandDisplay => "Wayland backend requires WAYLAND_DISPLAY",
            BackendError::NoX11Display => "X11 backend requires --display or DISPLAY",
            BackendError::NoSession =>
                "unable to detect a desktop session; set WAYLAND_DISPLAY or DISPLAY, or pass --backend",
        }
    }
}

/// The value of an environment variable, unless it is blank.
pub open spec fn nonblank(value: Option<Seq<char>>) -> Option<Seq<char>> {
    match value {
        Some(text) if trimmed(text).len() > 0 => Some(text),
        _ => None,
    }
}

/// A text in ASCII lower case.
pub open spec fn lowered(text: Seq<char>) -> Seq<char> {
    text.map_values(|c: char| lower(c))
}

/// The value of an environment variable, unless it is blank.
pub fn environment_value(value: Option<String>) -> (result: Option<String>)
    ensures
        text_view(result) == nonblank(text_view(value)),
{
    match value {
        Some(text) => if trim(&text).as_str().is_empty() {
            None
        } else {
            Some(text)
        },
        None => None,
    }
}

fn lowercase(text: &str) -> (result: String)
    ensures
        result@ == lowered(text@),
{
    let chars = chars_of(text);
    let mut result = String::new();
    let mut n: usize = 0;
    while n < chars.len()
        invariant
            n <= chars.len(),
            chars@ == text@,
            result@ == lowered(text@).take(n as int),
        decreases chars.len() - n,
    {
        push_char(&mut result, to_lower(chars[n]));
        n += 1;
        assert(result@ =~= lowered(text@).take(n as int));
    }
    assert(result@ =~= lowered(text@));
    result
}

/// The X11 display that is asked for, or that of the session.
pub open spec fn x11_choice(display: Option<Seq<char>>, environment: EnvironmentView) -> Result<
    ResolvedView,
    BackendError,
> {
    match (display, environment.x11_display) {
        (Some(display), _) => Ok(ResolvedView::X11 { display }),
        (None, Some(display)) => Ok(ResolvedView::X11 { display }),
        (None, None) => Err(BackendError::NoX11Display),
    }
}

/// The Wayland backend, where the session has one.
pub open spec fn wayland_choice(environment: EnvironmentView) -> Result<
    ResolvedView,
    BackendError,
> {
    if environment.wayland_display is Some {
        Ok(ResolvedView::Wayland)
    } else {
        Err(BackendError::NoWaylandDisplay)
    }
}

/// The backend that the named target or else the session asks for. A Wayland session never falls
/// back to X11.
pub open spec fn auto_choice(
    display: Option<Seq<char>>,
    output: Option<Seq<char>>,
    environment: EnvironmentView,
) -> Result<ResolvedView, BackendError> {
    if display is Some {
        x11_choice(display, environment)
    } else if output is Some {
        wayland_choice(environment)
    } else if environment.session_type == Some("wayland"@) {
        wayland_choice(environment)
    } else if environment.session_type == Some("x11"@) {
        x11_choice(display, environment)
    } else if environment.wayland_display is Some {
        Ok(ResolvedView::Wayland)
    } else if environment.x11_display is Some {
        Ok(ResolvedView::X11 { display: environment.x11_display->0 })
    } else {
        Err(BackendError::NoSession)
    }
}

/// The backend that a daemon uses, or why none can be used.
pub open spec fn resolved(
    choice: BackendChoice,
    display: Option<Seq<char>>,
    output: Option<Seq<char>>,
    environment: EnvironmentView,
) -> Result<ResolvedView, BackendError> {
    if display is Some && output is Some {
        Err(BackendError::TwoTargets)
    } else {
        match choice {
            BackendChoice::Wayland => if display is Some {
                Err(BackendError::DisplayNeedsX11)
            } else {
                wayland_choice(environment)
            },
            BackendChoice::X11 => if output is Some {
                Err(BackendError::OutputNeedsWayland)
            } else {
                x11_choice(display, environment)
            },
            BackendChoice::Auto => auto_choice(display, output, environment),
        }
    }
}

/// The view of a resolved backend.
pub open spec fn resolved_view(result: Result<ResolvedBackend, BackendError>) -> Result<
    ResolvedView,
    BackendError,
> {
    match result {
        Ok(backend) => Ok(backend@),
        Err(error) => Err(error),
    }
}

/// The backend that a daemon uses.
pub fn resolve_backend(options: &BackendOptions, environment: &SessionEnvironment) -> (result: Result<
    ResolvedBackend,
    BackendError,
>)
    ensures
        resolved_view(result) == resolved(
            options.choice,
            text_view(options.display),
            text_view(options.output),
            environment@,
        ),
{
    if options.display.is_some() && options.output.is_some() {
        return Err(BackendError::TwoTargets);
    }
    match options.choice {
        BackendChoice::Wayland => {
            if options.display.is_some() {
                return Err(BackendError::DisplayNeedsX11);
            }
            require_wayland(environment)
        },
        BackendChoice::X11 => {
            if options.output.is_some() {
                return Err(BackendError::OutputNeedsWayland);
            }
            resolve_x11_display(options, environment)
        },
        BackendChoice::Auto => resolve_auto(options, environment),
    }
}

fn resolve_auto(options: &BackendOptions, environment: &SessionEnvironment) -> (result: Result<
    ResolvedBackend,
    BackendError,
>)
    ensures
        resolved_view(result) == auto_choice(
            text_view(options.display),
            text_view(options.output),
            environment@,
        ),
{
    if options.display.is_some() {
        return resolve_x11_display(options, environment);
    }
    if options.output.is_some() {
        return require_wayland(environment);
    }
    if let Some(session) = &environment.session_type {
        if same_text(session, "wayland") {
            return require_wayland(environment);
        }
        if same_text(session, "x11") {
            return resolve_x11_display(options, environment);
        }
    }
    if environment.wayland_display.is_some() {
        return Ok(ResolvedBackend::Wayland);
    }
    match &environment.x11_display {
        Some(display) => Ok(ResolvedBackend::X11 { display: display.clone() }),
        None => Err(BackendError::NoSession),
    }
}

fn require_wayland(environment: &SessionEnvironment) -> (result: Result<
    ResolvedBackend,
    BackendError,
>)
    ensures
        resolved_view(result) == wayland_choice(environment@),
{
    if environment.wayland_display.is_none() {
        return Err(BackendError::NoWaylandDisplay);
    }
    Ok(ResolvedBackend::Wayland)
}

fn resolve_x11_display(options: &BackendOptions, environment: &SessionEnvironment) -> (result: Result<
    ResolvedBackend,
    BackendError,
>)
    ensures
        resolved_view(result) == x11_choice(text_view(options.display), environment@),
{
    if let Some(display) = &options.display {
        return Ok(ResolvedBackend::X11 { display: display.clone() });
    }
    match &environment.x11_display {
        Some(display) => Ok(ResolvedBackend::X11 { display: display.clone() }),
        None => Err(BackendError::NoX11Display),
    }
}

/// A session of the Wayland kind uses X11 only where a display is named.
pub proof fn wayland_sessions_never_fall_back(
    choice: BackendChoice,
    display: Option<Seq<char>>,
    output: Option<Seq<char>>,
    environment: EnvironmentView,
)
    requires
        environment.session_type == Some("wayland"@),
        choice != BackendChoice::X11,
        display is None,
    ensures
        resolved(choice, display, output, environment) == wayland_choice(environment),
{
}

/// A path in the notation of Rust's debug output.
pub uninterp spec fn debug_path(path: Seq<char>) -> Seq<char>;

/// Calls the `Debug` formatting of `std::path::Path`, which quotes and escapes the path.
///
/// Trusted: the result depends on the path alone, and is named `debug_path`.
#[verifier::external_body]
fn quoted_path(path: &str) -> (result: String)
    ensures
        result@ == debug_path(path@),
{
    format!("{:?}", std::path::Path::new(path))
}

/// Whether a path starts at the root.
pub open spec fn is_absolute(path: Seq<char>) -> bool {
    path.len() > 0 && path[0] == '/'
}

/// Whether a path starts at the root.
pub fn starts_at_root(path: &str) -> (result: bool)
    ensures
        result == is_absolute(path@),
{
    !path.is_empty() && path.get_char(0) == '/'
}

impl EnvironmentView {
    /// The path of the session's Wayland socket, where it is known.
    pub open spec fn wayland_socket(self) -> Option<Seq<char>> {
        match self.wayland_display {
            None => None,
            Some(display) => if is_absolute(display) {
                Some(display)
            } else {
                match self.runtime_dir {
                    Some(directory) if is_absolute(directory) => Some(
                        path_join(directory, display),
                    ),
                    _ => None,
                }
            },
        }
    }
}

/// The description of a Wayland connection, given the quoted path of its socket.
pub open spec fn connection_text(inherited: bool, quoted_socket: Option<Seq<char>>) -> Seq<char> {
    if inherited {
        "connection=inherited_fd"@
    } else {
        match quoted_socket {
            Some(path) => "display="@ + path,
            None => "display=unknown"@,
        }
    }
}

/// The description of a Wayland target, given the quoted texts that it names.
pub open spec fn wayland_text(
    inherited: bool,
    quoted_socket: Option<Seq<char>>,
    quoted_output: Seq<char>,
    quoted_display: Option<Seq<char>>,
) -> Seq<char> {
    "backend=wayland, "@ + connection_text(inherited, quoted_socket) + ", output="@ + quoted_output
        + (match quoted_display {
        Some(display) => ", x11_display="@ + display,
        None => Seq::empty(),
    })
}

/// The description of a Wayland target, given the quoted texts that it names.
pub fn describe_wayland(
    inherited: bool,
    quoted_socket: Option<&str>,
    quoted_output: &str,
    quoted_display: Option<&str>,
) -> (target: String)
    ensures
        target@ == wayland_text(
            inherited,
            match quoted_socket {
                Some(path) => Some(path@),
                None => None,
            },
            quoted_output@,
            match quoted_display {
                Some(display) => Some(display@),
                None => None,
            },
        ),
{
    let mut connection = "display=unknown".to_owned();
    if inherited {
        connection = "connection=inherited_fd".to_owned();
    } else if let Some(path) = quoted_socket {
        connection = "display=".to_owned();
        connection.append(path);
    }
    let mut target = "backend=wayland, ".to_owned();
    target.append(&connection);
    target.append(", output=");
    target.append(quoted_output);
    if let Some(display) = quoted_display {
        target.append(", x11_display=");
        target.append(display);
    }
    assert(target@ =~= wayland_text(
        inherited,
        match quoted_socket {
            Some(path) => Some(path@),
            None => None,
        },
        quoted_output@,
        match quoted_display {
            Some(display) => Some(display@),
            None => None,
        },
    ));
    target
}

impl SessionEnvironment {
    /// What a process knows of its session, from its environment variables.
    pub fn from_values(
        session_type: Option<String>,
        wayland_display: Option<String>,
        runtime_dir: Option<String>,
        inherited_wayland_socket: bool,
        x11_display: Option<String>,
    ) -> (environment: Self)
        ensures
            environment@ == (EnvironmentView {
                session_type: match nonblank(text_view(session_type)) {
                    Some(kind) => Some(lowered(kind)),
                    None => None,
                },
                wayland_display: nonblank(text_view(wayland_display)),
                runtime_dir: text_view(runtime_dir),
                inherited_wayland_socket,
                x11_display: nonblank(text_view(x11_display)),
            }),
    {
        SessionEnvironment {
            session_type: match environment_value(session_type) {
                Some(kind) => Some(lowercase(&kind)),
                None => None,
            },
            wayland_display: environment_value(wayland_display),
            runtime_dir,
            inherited_wayland_socket,
            x11_display: environment_value(x11_display),
        }
    }

    /// The path of the session's Wayland socket, where it is known.
    pub fn wayland_socket(&self) -> (path: Option<String>)
        ensures
            text_view(path) == self@.wayland_socket(),
    {
        match &self.wayland_display {
            None => None,
            Some(display) => {
                if starts_at_root(display) {
                    return Some(display.clone());
                }
                match &self.runtime_dir {
                    Some(directory) => if starts_at_root(directory) {
                        Some(join_path(directory, display))
                    } else {
                        None
                    },
                    None => None,
                }
            },
        }
    }

    /// The description of a Wayland target.
    pub fn wayland_target(&self, output: &str) -> (target: String)
        ensures
            target@ == wayland_text(
                self@.inherited_wayland_socket,
                match self@.wayland_socket() {
                    Some(path) => Some(debug_path(path)),
                    None => None,
                },
                debug_text(output@),
                match self@.x11_display {
                    Some(display) => Some(debug_text(display)),
                    None => None,
                },
            ),
    {
        let socket = match self.wayland_socket() {
            Some(path) => Some(quoted_path(&path)),
            None => None,
        };
        let display = match &self.x11_display {
            Some(display) => Some(quoted(display)),
            None => None,
        };
        describe_wayland(
            self.inherited_wayland_socket,
            match &socket {
                Some(path) => Some(path.as_str()),
                None => None,
            },
            &quoted(output),
            match &display {
                Some(display) => Some(display.as_str()),
                None => None,
            },
        )
    }
}

/// The description of an X11 target, given the quoted name of the display.
pub open spec fn x11_text(quoted_display: Seq<char>, screen: nat) -> Seq<char> {
    "backend=x11, display="@ + quoted_display + ", screen="@ + decimal(screen)
}

/// The description of an X11 target, given the quoted name of the display.
pub fn describe_x11(quoted_display: &str, screen: usize) -> (target: String)
    ensures
        target@ == x11_text(quoted_display@, screen as nat),
{
    let mut target = "backend=x11, display=".to_owned();
    target.append(quoted_display);
    target.append(", screen=");
    push_decimal(&mut target, screen as u64);
    target
}

/// The description of an X11 target.
pub fn x11_target(display: &str, screen: usize) -> (target: String)
    ensures
        target@ == x11_text(debug_text(display@), screen as nat),
{
    describe_x11(&quoted(display), screen)
}

} // verus!
