//! The private frame store: names, paths, ownership and recovery decisions.
//!
//! Nothing here touches the file system: each function decides from what was found there.
use vstd::prelude::*;

use crate::protocol::{failure, CuError, CuErrorView, ErrorCode};
use crate::text::{
    all_hex, chars_of, decimal, hex_digits, is_hex_width, numerals_are_hex, push_decimal, push_hex,
    same_text, text_of,
};

verus! {

/// Fewest frames that a store may retain: the grounding frame and the result frame.
pub const MIN_RETAINED_FRAMES: usize = 2;

/// The path of an entry of a directory.
pub open spec fn path_join(directory: Seq<char>, name: Seq<char>) -> Seq<char> {
    if name.len() > 0 && name[0] == '/' {
        name
    } else if directory.len() == 0 || directory.last() == '/' {
        directory + name
    } else {
        directory + "/"@ + name
    }
}

/// The path of an entry of a directory.
pub fn join_path(directory: &str, name: &str) -> (path: String)
    ensures
        path@ == path_join(directory@, name@),
{
    let absolute = !name.is_empty() && name.get_char(0) == '/';
    if absolute {
        return name.to_owned();
    }
    let count: usize = directory.unicode_len();
    let mut path = directory.to_owned();
    if count > 0 && directory.get_char(count - 1) != '/' {
        path.append("/");
    }
    path.append(name);
    path
}

/// The identifier of a frame: the session and a revision of sixteen hexadecimal digits.
pub open spec fn frame_name(session: Seq<char>, revision: u64) -> Seq<char> {
    "f_"@ + session + "_"@ + hex_digits(revision as nat, 16)
}

/// The identifier of a frame.
pub fn frame_id(session: &str, revision: u64) -> (id: String)
    ensures
        id@ == frame_name(session@, revision),
{
    let mut id = "f_".to_owned();
    id.append(session);
    id.append("_");
    push_hex(&mut id, revision, 16);
    id
}

/// The path of a published frame.
pub open spec fn frame_path(directory: Seq<char>, id: Seq<char>) -> Seq<char> {
    path_join(directory, id + ".png"@)
}

/// The path under which a frame is written before it is published.
pub open spec fn temporary_path(directory: Seq<char>, id: Seq<char>) -> Seq<char> {
    path_join(directory, "."@ + id + ".tmp"@)
}

/// The path of a published frame.
pub fn published_path(directory: &str, id: &str) -> (path: String)
    ensures
        path@ == frame_path(directory@, id@),
{
    let mut name = id.to_owned();
    name.append(".png");
    join_path(directory, &name)
}

/// The path under which a frame is written before it is published.
pub fn unpublished_path(directory: &str, id: &str) -> (path: String)
    ensures
        path@ == temporary_path(directory@, id@),
{
    let mut name = ".".to_owned();
    name.append(id);
    name.append(".tmp");
    join_path(directory, &name)
}

/// Whether a file name is that of a frame: a session of 32 hexadecimal digits and a revision of 16,
/// as a published image or as an unpublished temporary file.
pub open spec fn is_frame_file(name: Seq<char>) -> bool {
    exists|session: Seq<char>, revision: Seq<char>|
        all_hex(session, 32) && all_hex(revision, 16) && (name == #[trigger] image_name(
            session,
            revision,
        ) || name == temporary_name(session, revision))
}

/// The file name of a published frame.
pub open spec fn image_name(session: Seq<char>, revision: Seq<char>) -> Seq<char> {
    "f_"@ + session + "_"@ + revision + ".png"@
}

/// The file name of an unpublished frame.
pub open spec fn temporary_name(session: Seq<char>, revision: Seq<char>) -> Seq<char> {
    ".f_"@ + session + "_"@ + revision + ".tmp"@
}

proof fn reveal_name_parts()
    ensures
        "f_"@ == seq!['f', '_'],
        ".f_"@ == seq!['.', 'f', '_'],
        "_"@ == seq!['_'],
        ".png"@ == seq!['.', 'p', 'n', 'g'],
        ".tmp"@ == seq!['.', 't', 'm', 'p'],
{
    reveal_strlit("f_");
    reveal_strlit(".f_");
    reveal_strlit("_");
    reveal_strlit(".png");
    reveal_strlit(".tmp");
    assert("f_"@ =~= seq!['f', '_']);
    assert(".f_"@ =~= seq!['.', 'f', '_']);
    assert("_"@ =~= seq!['_']);
    assert(".png"@ =~= seq!['.', 'p', 'n', 'g']);
    assert(".tmp"@ =~= seq!['.', 't', 'm', 'p']);
}

/// Whether a file name is that of a frame of this or an earlier owner of the store.
pub fn is_managed_frame_name(name: &str) -> (managed: bool)
    ensures
        managed == is_frame_file(name@),
{
    let chars = chars_of(name);
    proof {
        reveal_name_parts();
    }
    let count: usize = chars.len();
    let start: usize = if count == 55 {
        2
    } else {
        3
    };
    if count != 55 && count != 56 {
        return false;
    }
    let session = text_of(&chars, start, start + 32);
    let revision = text_of(&chars, start + 33, start + 49);
    let affixes = if count == 55 {
        chars[0] == 'f' && chars[1] == '_' && chars[51] == '.' && chars[52] == 'p' && chars[53]
            == 'n' && chars[54] == 'g'
    } else {
        chars[0] == '.' && chars[1] == 'f' && chars[2] == '_' && chars[52] == '.' && chars[53]
            == 't' && chars[54] == 'm' && chars[55] == 'p'
    };
    let managed = affixes && chars[start + 32] == '_' && is_hex_width(&session, 32)
        && is_hex_width(&revision, 16);
    proof {
        if managed {
            if count == 55 {
                assert(name@ =~= image_name(session@, revision@));
            } else {
                assert(name@ =~= temporary_name(session@, revision@));
                assert(image_name(session@, revision@) == image_name(session@, revision@));
            }
        }
        if is_frame_file(name@) {
            let (s, r) = choose|s: Seq<char>, r: Seq<char>|
                all_hex(s, 32) && all_hex(r, 16) && (name@ == #[trigger] image_name(s, r) || name@
                    == temporary_name(s, r));
            if name@ == image_name(s, r) {
                assert(name@.len() == 55);
            } else {
                assert(name@.len() == 56);
            }
            assert(session@ =~= s);
            assert(revision@ =~= r);
        }
    }
    managed
}

/// Every frame that a session publishes, and every temporary file that it writes, bears a name
/// that a later owner of the store recognises.
pub proof fn own_frames_are_managed(session: Seq<char>, revision: u64)
    requires
        all_hex(session, 32),
    ensures
        is_frame_file(frame_name(session, revision) + ".png"@),
        is_frame_file("."@ + frame_name(session, revision) + ".tmp"@),
{
    let digits = hex_digits(revision as nat, 16);
    numerals_are_hex(revision as nat, 16);
    reveal_name_parts();
    reveal_strlit(".");
    assert(frame_name(session, revision) + ".png"@ =~= image_name(session, digits));
    assert("."@ + frame_name(session, revision) + ".tmp"@ =~= temporary_name(session, digits));
}

/// What was found at a path, without following a symbolic link.
#[derive(Debug, Clone, Copy, PartialEq, Eq, Structural)]
pub struct FileFacts {
    pub is_file: bool,
    pub is_dir: bool,
    pub is_symlink: bool,
    pub uid: u32,
    pub mode: u32,
    pub nlink: u64,
    pub dev: u64,
    pub ino: u64,
}

/// How a file operation ended.
pub enum FileEvent {
    Done,
    Found(FileFacts),
    Missing,
    /// The operation would have had to wait for another owner.
    Blocked,
    /// The operating system's diagnostic.
    Failed(String),
}

/// A file operation's end with its diagnostic as a sequence.
pub enum FileEventView {
    Done,
    Found(FileFacts),
    Missing,
    Blocked,
    Failed(Seq<char>),
}

impl View for FileEvent {
    type V = FileEventView;

    open spec fn view(&self) -> FileEventView {
        match *self {
            FileEvent::Done => FileEventView::Done,
            FileEvent::Found(facts) => FileEventView::Found(facts),
            FileEvent::Missing => FileEventView::Missing,
            FileEvent::Blocked => FileEventView::Blocked,
            FileEvent::Failed(message) => FileEventView::Failed(message@),
        }
    }
}

/// An internal failure.
pub open spec fn internal(message: Seq<char>) -> CuErrorView {
    failure(ErrorCode::Internal, message)
}

pub(crate) fn internal_error(message: &str) -> (error: CuError)
    ensures
        error@ == internal(message@),
{
    CuError::new(ErrorCode::Internal, message)
}

/// A failure whose message is two texts.
pub(crate) fn joined_error(code: ErrorCode, first: &str, second: &str) -> (error: CuError)
    ensures
        error@ == failure(code, first@ + second@),
{
    let mut message = first.to_owned();
    message.append(second);
    CuError::new(code, &message)
}

/// A failure whose message is a prefix, a name, a middle part and a diagnostic.
pub(crate) fn diagnosed_error(prefix: &str, name: &str, middle: &str, detail: &str) -> (error:
    CuError)
    ensures
        error@ == internal(prefix@ + name@ + middle@ + detail@),
{
    let mut message = prefix.to_owned();
    message.append(name);
    message.append(middle);
    message.append(detail);
    CuError::new(ErrorCode::Internal, &message)
}

/// The operation that acquiring an exclusive lease performs next.
#[derive(Debug, Clone, Copy, PartialEq, Eq, Structural)]
pub enum LeaseStep {
    /// Open or create the lock file without following a symbolic link.
    Open,
    /// Look at the opened file.
    Inspect,
    /// Restrict the opened file to its owner.
    Protect,
    /// Lock the opened file without waiting.
    Lock,
    /// Look at the path of the lock file.
    Verify,
    /// Empty the lock file.
    Reset,
    /// Go to the start of the lock file.
    Seek,
    /// Write the owner's record.
    Record,
    /// The lease is held.
    Held,
}

/// An attempt to acquire the exclusive lease of one resource.
pub struct LeaseAttempt {
    pub kind: String,
    pub euid: u32,
    pub step: LeaseStep,
    /// What the opened lock file was found to be.
    pub opened: Option<FileFacts>,
}

/// Whether an opened lock file may serve as a lease.
pub open spec fn lease_file_ok(facts: FileFacts, euid: u32) -> bool {
    facts.is_file && facts.uid == euid && facts.nlink == 1
}

/// Whether what stands at the lock path is the opened lock file.
pub open spec fn same_lease_file(opened: Option<FileFacts>, found: FileFacts) -> bool {
    opened matches Some(opened) && !found.is_symlink && found.dev == opened.dev && found.ino
        == opened.ino
}

impl LeaseAttempt {
    /// Whether an event can be the end of the attempt's next operation.
    pub open spec fn expects(self, event: FileEventView) -> bool {
        match self.step {
            LeaseStep::Inspect | LeaseStep::Verify => event is Found || event is Failed,
            LeaseStep::Lock => event is Done || event is Blocked || event is Failed,
            LeaseStep::Held => false,
            _ => event is Done || event is Failed,
        }
    }

    /// Whether the lock file was found fit before anything was done to it.
    pub open spec fn sound(self) -> bool {
        self.step is Open || self.step is Inspect || (self.opened matches Some(facts)
            && lease_file_ok(facts, self.euid))
    }

    /// The next operation after an event, or the failure that ends the attempt.
    pub open spec fn next(self, event: FileEventView) -> Result<LeaseStep, CuErrorView> {
        let kind = self.kind@;
        match (self.step, event) {
            (LeaseStep::Open, FileEventView::Failed(detail)) => Err(
                internal("failed to open "@ + kind + " lease: "@ + detail),
            ),
            (LeaseStep::Open, _) => Ok(LeaseStep::Inspect),
            (LeaseStep::Inspect, FileEventView::Failed(detail)) => Err(
                internal("failed to inspect "@ + kind + " lease: "@ + detail),
            ),
            (LeaseStep::Inspect, FileEventView::Found(facts)) => if lease_file_ok(
                facts,
                self.euid,
            ) {
                Ok(LeaseStep::Protect)
            } else {
                Err(
                    internal(
                        kind + " lease must be a singly linked regular file owned by this user"@,
                    ),
                )
            },
            (LeaseStep::Protect, FileEventView::Failed(detail)) => Err(
                internal("failed to protect "@ + kind + " lease: "@ + detail),
            ),
            (LeaseStep::Protect, _) => Ok(LeaseStep::Lock),
            (LeaseStep::Lock, FileEventView::Blocked) => Err(
                failure(
                    ErrorCode::LeaseConflict,
                    "another computer-use process owns the "@ + kind,
                ),
            ),
            (LeaseStep::Lock, FileEventView::Failed(detail)) => Err(
                internal("failed to acquire "@ + kind + " lease: "@ + detail),
            ),
            (LeaseStep::Lock, _) => Ok(LeaseStep::Verify),
            (LeaseStep::Verify, FileEventView::Failed(detail)) => Err(
                internal("failed to verify "@ + kind + " lease path: "@ + detail),
            ),
            (LeaseStep::Verify, FileEventView::Found(facts)) => if same_lease_file(
                self.opened,
                facts,
            ) {
                Ok(LeaseStep::Reset)
            } else {
                Err(internal(kind + " lease path changed during acquisition"@))
            },
            (LeaseStep::Reset, FileEventView::Failed(detail)) => Err(
                internal("failed to reset "@ + kind + " lease metadata: "@ + detail),
            ),
            (LeaseStep::Reset, _) => Ok(LeaseStep::Seek),
            (LeaseStep::Seek, FileEventView::Failed(detail)) => Err(
                internal("failed to seek "@ + kind + " lease metadata: "@ + detail),
            ),
            (LeaseStep::Seek, _) => Ok(LeaseStep::Record),
            (LeaseStep::Record, FileEventView::Failed(detail)) => Err(
                internal("failed to write "@ + kind + " lease metadata: "@ + detail),
            ),
            (LeaseStep::Record, _) => Ok(LeaseStep::Held),
            _ => Ok(self.step),
        }
    }

    /// An attempt that has done nothing yet.
    pub fn new(kind: &str, euid: u32) -> (attempt: Self)
        ensures
            attempt.kind@ == kind@,
            attempt.euid == euid,
            attempt.step == LeaseStep::Open,
            attempt.opened is None,
            attempt.sound(),
    {
        LeaseAttempt { kind: kind.to_owned(), euid, step: LeaseStep::Open, opened: None }
    }

    /// Take the end of the attempt's operation and return the next one.
    pub fn advance(&mut self, event: FileEvent) -> (result: Result<LeaseStep, CuError>)
        requires
            old(self).expects(event@),
        ensures
            match result {
                Ok(step) => old(self).next(event@) == Ok::<LeaseStep, CuErrorView>(step)
                    && final(self).step == step,
                Err(error) => old(self).next(event@) == Err::<LeaseStep, CuErrorView>(error@)
                    && final(self).step == old(self).step,
            },
            old(self).sound() ==> final(self).sound(),
            final(self).kind == old(self).kind,
            final(self).euid == old(self).euid,
            final(self).opened == (if old(self).step is Inspect && event is Found && result is Ok {
                Some(event->Found_0)
            } else {
                old(self).opened
            }),
    {
        let next = match self.step {
            LeaseStep::Open => match event {
                FileEvent::Failed(detail) => Err(
                    diagnosed_error("failed to open ", &self.kind, " lease: ", &detail),
                ),
                _ => Ok(LeaseStep::Inspect),
            },
            LeaseStep::Inspect => match event {
                FileEvent::Failed(detail) => Err(
                    diagnosed_error("failed to inspect ", &self.kind, " lease: ", &detail),
                ),
                FileEvent::Found(facts) => if facts.is_file && facts.uid == self.euid && facts.nlink
                    == 1 {
                    self.opened = Some(facts);
                    Ok(LeaseStep::Protect)
                } else {
                    Err(
                        joined_error(
                            ErrorCode::Internal,
                            &self.kind,
                            " lease must be a singly linked regular file owned by this user",
                        ),
                    )
                },
                _ => Ok(LeaseStep::Inspect),
            },
            LeaseStep::Protect => match event {
                FileEvent::Failed(detail) => Err(
                    diagnosed_error("failed to protect ", &self.kind, " lease: ", &detail),
                ),
                _ => Ok(LeaseStep::Lock),
            },
            LeaseStep::Lock => match event {
                FileEvent::Blocked => Err(
                    joined_error(
                        ErrorCode::LeaseConflict,
                        "another computer-use process owns the ",
                        &self.kind,
                    ),
                ),
                FileEvent::Failed(detail) => Err(
                    diagnosed_error("failed to acquire ", &self.kind, " lease: ", &detail),
                ),
                _ => Ok(LeaseStep::Verify),
            },
            LeaseStep::Verify => match event {
                FileEvent::Failed(detail) => Err(
                    diagnosed_error("failed to verify ", &self.kind, " lease path: ", &detail),
                ),
                FileEvent::Found(facts) => {
                    let same = match self.opened {
                        Some(opened) => !facts.is_symlink && facts.dev == opened.dev && facts.ino
                            == opened.ino,
                        None => false,
                    };
                    if same {
                        Ok(LeaseStep::Reset)
                    } else {
                        Err(
                            joined_error(
                                ErrorCode::Internal,
                                &self.kind,
                                " lease path changed during acquisition",
                            ),
                        )
                    }
                },
                _ => Ok(LeaseStep::Verify),
            },
            LeaseStep::Reset => match event {
                FileEvent::Failed(detail) => Err(
                    diagnosed_error("failed to reset ", &self.kind, " lease metadata: ", &detail),
                ),
                _ => Ok(LeaseStep::Seek),
            },
            LeaseStep::Seek => match event {
                FileEvent::Failed(detail) => Err(
                    diagnosed_error("failed to seek ", &self.kind, " lease metadata: ", &detail),
                ),
                _ => Ok(LeaseStep::Record),
            },
            LeaseStep::Record => match event {
                FileEvent::Failed(detail) => Err(
                    diagnosed_error("failed to write ", &self.kind, " lease metadata: ", &detail),
                ),
                _ => Ok(LeaseStep::Held),
            },
            LeaseStep::Held => Ok(LeaseStep::Held),
        };
        if let Ok(step) = &next {
            self.step = *step;
        }
        next
    }
}

/// The record that the owner of a lease leaves in the lock file.
pub fn lease_record(pid: u32) -> (record: String)
    ensures
        record@ == "pid="@ + decimal(pid as nat) + "\n"@,
{
    let mut record = "pid=".to_owned();
    push_decimal(&mut record, pid as u64);
    record.append("\n");
    record
}

/// The name of the lock file beside a resource.
pub open spec fn lock_file_name(name: Seq<char>) -> Seq<char> {
    "."@ + name + ".lock"@
}

/// The lock path of a resource whose parent directory was resolved.
///
/// `parent` and `name` are absent where the resource's path has none.
pub fn resource_lock_path(parent: Option<&str>, name: Option<&str>) -> (path: Result<
    String,
    CuError,
>)
    ensures
        parent is None ==> (path matches Err(error) && error@ == internal(
            "leased resource path has no parent directory"@,
        )),
        parent is Some && name is None ==> (path matches Err(error) && error@ == internal(
            "leased resource path has no file name"@,
        )),
        parent is Some && name is Some ==> (path matches Ok(path) && path@ == path_join(
            parent->0@,
            lock_file_name(name->0@),
        )),
{
    match (parent, name) {
        (None, _) => Err(internal_error("leased resource path has no parent directory")),
        (_, None) => Err(internal_error("leased resource path has no file name")),
        (Some(parent), Some(name)) => {
            let mut lock = ".".to_owned();
            lock.append(name);
            lock.append(".lock");
            Ok(join_path(parent, &lock))
        },
    }
}

/// The operation that making a store's parent directory performs next.
#[derive(Debug, Clone, Copy, PartialEq, Eq, Structural)]
pub enum ParentStep {
    /// Look whether the parent exists.
    Inspect,
    Create,
    /// Restrict the created parent to its owner.
    Protect,
    Ready,
}

impl ParentStep {
    /// Whether an event can be the end of this operation.
    pub open spec fn expects(self, event: FileEventView) -> bool {
        match self {
            ParentStep::Inspect => event is Found || event is Missing,
            ParentStep::Ready => false,
            _ => event is Done || event is Failed,
        }
    }

    /// The next operation after an event, or the failure that ends the work. An existing parent is
    /// left as it is.
    pub open spec fn next(self, event: FileEventView) -> Result<ParentStep, CuErrorView> {
        match (self, event) {
            (ParentStep::Inspect, FileEventView::Missing) => Ok(ParentStep::Create),
            (ParentStep::Create, FileEventView::Failed(detail)) => Err(
                internal("failed to create frame-store parent: "@ + detail),
            ),
            (ParentStep::Create, _) => Ok(ParentStep::Protect),
            (ParentStep::Protect, FileEventView::Failed(detail)) => Err(
                internal("failed to protect frame-store parent: "@ + detail),
            ),
            _ => Ok(ParentStep::Ready),
        }
    }
}

/// Take the end of an operation on a store's parent directory and return the next one.
pub fn ensure_resource_parent(step: ParentStep, event: FileEvent) -> (result: Result<
    ParentStep,
    CuError,
>)
    requires
        step.expects(event@),
    ensures
        match result {
            Ok(next) => step.next(event@) == Ok::<ParentStep, CuErrorView>(next),
            Err(error) => step.next(event@) == Err::<ParentStep, CuErrorView>(error@),
        },
{
    match step {
        ParentStep::Inspect => match event {
            FileEvent::Missing => Ok(ParentStep::Create),
            _ => Ok(ParentStep::Ready),
        },
        ParentStep::Create => match event {
            FileEvent::Failed(detail) => Err(
                joined_error(ErrorCode::Internal, "failed to create frame-store parent: ", &detail),
            ),
            _ => Ok(ParentStep::Protect),
        },
        ParentStep::Protect => match event {
            FileEvent::Failed(detail) => Err(
                joined_error(
                    ErrorCode::Internal,
                    "failed to protect frame-store parent: ",
                    &detail,
                ),
            ),
            _ => Ok(ParentStep::Ready),
        },
        ParentStep::Ready => Ok(ParentStep::Ready),
    }
}

/// The operation that opening the store's directory performs next.
#[derive(Debug, Clone, Copy, PartialEq, Eq, Structural)]
pub enum DirectoryStep {
    /// Look at the directory's path.
    Inspect,
    /// Create the directory.
    Create,
    /// Restrict the created directory to its owner.
    Protect,
    /// The directory can be used.
    Ready,
}

impl DirectoryStep {
    /// Whether an event can be the end of this operation.
    pub open spec fn expects(self, event: FileEventView) -> bool {
        match self {
            DirectoryStep::Inspect => event is Found || event is Missing || event is Failed,
            DirectoryStep::Ready => false,
            _ => event is Done || event is Failed,
        }
    }

    /// The next operation after an event, or the failure that ends the preparation.
    pub open spec fn next(self, event: FileEventView, euid: u32, path: Seq<char>) -> Result<
        DirectoryStep,
        CuErrorView,
    > {
        match (self, event) {
            (DirectoryStep::Inspect, FileEventView::Found(facts)) => if facts.is_symlink
                || !facts.is_dir {
                Err(internal("frame store must be a real directory, not a file or symlink"@))
            } else if facts.uid != euid {
                Err(internal("frame store must be owned by the effective user"@))
            } else if facts.mode & 0o077 != 0 {
                Err(internal("frame store must not be accessible by group or other users"@))
            } else {
                Ok(DirectoryStep::Ready)
            },
            (DirectoryStep::Inspect, FileEventView::Failed(detail)) => Err(
                internal("failed to inspect frame store: "@ + detail),
            ),
            (DirectoryStep::Inspect, _) => Ok(DirectoryStep::Create),
            (DirectoryStep::Create, FileEventView::Failed(detail)) => Err(
                internal("failed to create frame store: "@ + detail),
            ),
            (DirectoryStep::Create, _) => Ok(DirectoryStep::Protect),
            (DirectoryStep::Protect, FileEventView::Failed(detail)) => Err(
                internal("failed to protect directory "@ + path + ": "@ + detail),
            ),
            _ => Ok(DirectoryStep::Ready),
        }
    }
}

/// Take the end of an operation on the store's directory and return the next one.
pub fn prepare_private_store_directory(
    step: DirectoryStep,
    event: FileEvent,
    euid: u32,
    path: &str,
) -> (result: Result<DirectoryStep, CuError>)
    requires
        step.expects(event@),
    ensures
        match result {
            Ok(next) => step.next(event@, euid, path@) == Ok::<DirectoryStep, CuErrorView>(next),
            Err(error) => step.next(event@, euid, path@) == Err::<DirectoryStep, CuErrorView>(
                error@,
            ),
        },
{
    match step {
        DirectoryStep::Inspect => match event {
            FileEvent::Found(facts) => {
                if facts.is_symlink || !facts.is_dir {
                    Err(
                        internal_error(
                            "frame store must be a real directory, not a file or symlink",
                        ),
                    )
                } else if facts.uid != euid {
                    Err(internal_error("frame store must be owned by the effective user"))
                } else if facts.mode & 0o077 != 0 {
                    Err(
                        internal_error(
                            "frame store must not be accessible by group or other users",
                        ),
                    )
                } else {
                    Ok(DirectoryStep::Ready)
                }
            },
            FileEvent::Failed(detail) => Err(
                joined_error(ErrorCode::Internal, "failed to inspect frame store: ", &detail),
            ),
            _ => Ok(DirectoryStep::Create),
        },
        DirectoryStep::Create => match event {
            FileEvent::Failed(detail) => Err(
                joined_error(ErrorCode::Internal, "failed to create frame store: ", &detail),
            ),
            _ => Ok(DirectoryStep::Protect),
        },
        DirectoryStep::Protect => match event {
            FileEvent::Failed(detail) => Err(
                diagnosed_error("failed to protect directory ", path, ": ", &detail),
            ),
            _ => Ok(DirectoryStep::Ready),
        },
        DirectoryStep::Ready => Ok(DirectoryStep::Ready),
    }
}

/// The name of the file that marks a directory as a frame store.
pub open spec fn marker_name() -> Seq<char> {
    ".cu-frames"@
}

/// The contents of the marker file.
pub open spec fn marker_version() -> Seq<char> {
    "cu-frames 1\n"@
}

/// The name of the marker file.
pub fn frame_store_marker() -> (name: &'static str)
    ensures
        name@ == marker_name(),
{
    ".cu-frames"
}

/// The contents of the marker file.
pub fn frame_store_version() -> (version: &'static str)
    ensures
        version@ == marker_version(),
{
    "cu-frames 1\n"
}

/// How an operation on the store's entries ended.
pub enum StoreEvent {
    Done,
    Found(FileFacts),
    Missing,
    /// The contents of a file.
    Contents(String),
    /// The name of the next entry, absent where it is not Unicode.
    Entry(Option<String>),
    /// There is no further entry.
    End,
    /// The operating system's diagnostic.
    Failed(String),
}

/// An operation's end with its texts as sequences.
pub enum StoreEventView {
    Done,
    Found(FileFacts),
    Missing,
    Contents(Seq<char>),
    Entry(Option<Seq<char>>),
    End,
    Failed(Seq<char>),
}

impl View for StoreEvent {
    type V = StoreEventView;

    open spec fn view(&self) -> StoreEventView {
        match *self {
            StoreEvent::Done => StoreEventView::Done,
            StoreEvent::Found(facts) => StoreEventView::Found(facts),
            StoreEvent::Missing => StoreEventView::Missing,
            StoreEvent::Contents(text) => StoreEventView::Contents(text@),
            StoreEvent::Entry(name) => StoreEventView::Entry(
                match name {
                    Some(name) => Some(name@),
                    None => None,
                },
            ),
            StoreEvent::End => StoreEventView::End,
            StoreEvent::Failed(message) => StoreEventView::Failed(message@),
        }
    }
}

/// The operation that preparing the marker performs next.
#[derive(Debug, Clone, Copy, PartialEq, Eq, Structural)]
pub enum MarkerStep {
    /// Look at the marker's path.
    Inspect,
    /// Read the marker.
    Read,
    /// Open the unmarked directory.
    OpenDirectory,
    /// Take the directory's next entry.
    NextEntry,
    /// Look at that entry.
    InspectEntry,
    /// Create the marker, refusing an existing one.
    Create,
    /// Write the marker's contents.
    Write,
    /// The store is marked.
    Ready,
}

/// Whether an entry may be the frame of an earlier owner.
pub open spec fn managed_entry(name: Option<Seq<char>>) -> bool {
    name matches Some(name) && is_frame_file(name)
}

/// Whether what was found is a regular file and no symbolic link.
pub open spec fn regular(facts: FileFacts) -> bool {
    facts.is_file && !facts.is_symlink
}

impl MarkerStep {
    /// Whether an event can be the end of this operation.
    pub open spec fn expects(self, event: StoreEventView) -> bool {
        match self {
            MarkerStep::Inspect => event is Found || event is Missing || event is Failed,
            MarkerStep::Read => event is Contents || event is Failed,
            MarkerStep::NextEntry => event is Entry || event is End || event is Failed,
            MarkerStep::InspectEntry => event is Found || event is Failed,
            MarkerStep::Ready => false,
            _ => event is Done || event is Failed,
        }
    }

    /// The next operation after an event, or the failure that ends the preparation.
    pub open spec fn next(self, event: StoreEventView, directory: Seq<char>) -> Result<
        MarkerStep,
        CuErrorView,
    > {
        match (self, event) {
            (MarkerStep::Inspect, StoreEventView::Failed(detail)) => Err(
                internal("failed to inspect frame-store marker: "@ + detail),
            ),
            (MarkerStep::Inspect, StoreEventView::Found(facts)) => if regular(facts) {
                Ok(MarkerStep::Read)
            } else {
                Err(internal("frame-store marker is not a regular file"@))
            },
            (MarkerStep::Inspect, _) => Ok(MarkerStep::OpenDirectory),
            (MarkerStep::Read, StoreEventView::Failed(detail)) => Err(
                internal("failed to read frame-store marker: "@ + detail),
            ),
            (MarkerStep::Read, StoreEventView::Contents(text)) => if text == marker_version() {
                Ok(MarkerStep::Ready)
            } else {
                Err(internal("frame-store marker has an unsupported version"@))
            },
            (MarkerStep::OpenDirectory, StoreEventView::Failed(detail)) => Err(
                internal("failed to inspect legacy frame store: "@ + detail),
            ),
            (MarkerStep::OpenDirectory, _) => Ok(MarkerStep::NextEntry),
            (MarkerStep::NextEntry, StoreEventView::Failed(detail)) => Err(
                internal("failed to inspect legacy frame entry: "@ + detail),
            ),
            (MarkerStep::NextEntry, StoreEventView::Entry(name)) => if managed_entry(name) {
                Ok(MarkerStep::InspectEntry)
            } else {
                Err(
                    internal(
                        "refusing to adopt non-empty unmarked frame directory "@ + directory,
                    ),
                )
            },
            (MarkerStep::NextEntry, _) => Ok(MarkerStep::Create),
            (MarkerStep::InspectEntry, StoreEventView::Failed(detail)) => Err(
                internal("failed to inspect legacy frame: "@ + detail),
            ),
            (MarkerStep::InspectEntry, StoreEventView::Found(facts)) => if regular(facts) {
                Ok(MarkerStep::NextEntry)
            } else {
                Err(internal("legacy frame entry must be a regular file"@))
            },
            (MarkerStep::Create, StoreEventView::Failed(detail)) => Err(
                internal("failed to create frame-store marker: "@ + detail),
            ),
            (MarkerStep::Create, _) => Ok(MarkerStep::Write),
            (MarkerStep::Write, StoreEventView::Failed(detail)) => Err(
                internal("failed to write frame-store marker: "@ + detail),
            ),
            (MarkerStep::Write, _) => Ok(MarkerStep::Ready),
            _ => Ok(self),
        }
    }
}

fn entry_is_managed(name: &Option<String>) -> (managed: bool)
    ensures
        managed == managed_entry(
            match *name {
                Some(name) => Some(name@),
                None => None,
            },
        ),
{
    match name {
        Some(name) => is_managed_frame_name(name),
        None => false,
    }
}

fn failed<T>(message: &str, detail: &str) -> (result: Result<T, CuError>)
    ensures
        result matches Err(error) && error@ == internal(message@ + detail@),
{
    Err(joined_error(ErrorCode::Internal, message, detail))
}

/// Take the end of an operation of the marker's preparation and return the next one.
pub fn prepare_store_marker(step: MarkerStep, event: StoreEvent, directory: &str) -> (result:
    Result<MarkerStep, CuError>)
    requires
        step.expects(event@),
    ensures
        match result {
            Ok(next) => step.next(event@, directory@) == Ok::<MarkerStep, CuErrorView>(next),
            Err(error) => step.next(event@, directory@) == Err::<MarkerStep, CuErrorView>(error@),
        },
{
    match step {
        MarkerStep::Inspect => match event {
            StoreEvent::Failed(detail) => failed("failed to inspect frame-store marker: ", &detail),
            StoreEvent::Found(facts) => if facts.is_file && !facts.is_symlink {
                Ok(MarkerStep::Read)
            } else {
                Err(internal_error("frame-store marker is not a regular file"))
            },
            _ => Ok(MarkerStep::OpenDirectory),
        },
        MarkerStep::Read => match event {
            StoreEvent::Failed(detail) => failed("failed to read frame-store marker: ", &detail),
            StoreEvent::Contents(text) => if same_text(&text, frame_store_version()) {
                Ok(MarkerStep::Ready)
            } else {
                Err(internal_error("frame-store marker has an unsupported version"))
            },
            _ => Ok(MarkerStep::Read),
        },
        MarkerStep::OpenDirectory => match event {
            StoreEvent::Failed(detail) => failed("failed to inspect legacy frame store: ", &detail),
            _ => Ok(MarkerStep::NextEntry),
        },
        MarkerStep::NextEntry => match event {
            StoreEvent::Failed(detail) => failed("failed to inspect legacy frame entry: ", &detail),
            StoreEvent::Entry(name) => if entry_is_managed(&name) {
                Ok(MarkerStep::InspectEntry)
            } else {
                failed("refusing to adopt non-empty unmarked frame directory ", directory)
            },
            _ => Ok(MarkerStep::Create),
        },
        MarkerStep::InspectEntry => match event {
            StoreEvent::Failed(detail) => failed("failed to inspect legacy frame: ", &detail),
            StoreEvent::Found(facts) => if facts.is_file && !facts.is_symlink {
                Ok(MarkerStep::NextEntry)
            } else {
                Err(internal_error("legacy frame entry must be a regular file"))
            },
            _ => Ok(MarkerStep::InspectEntry),
        },
        MarkerStep::Create => match event {
            StoreEvent::Failed(detail) => failed("failed to create frame-store marker: ", &detail),
            _ => Ok(MarkerStep::Write),
        },
        MarkerStep::Write => match event {
            StoreEvent::Failed(detail) => failed("failed to write frame-store marker: ", &detail),
            _ => Ok(MarkerStep::Ready),
        },
        MarkerStep::Ready => Ok(MarkerStep::Ready),
    }
}

/// The operation that recovering a store performs next.
#[derive(Debug, Clone, Copy, PartialEq, Eq, Structural)]
pub enum RecoveryStep {
    /// Open the store's directory.
    OpenDirectory,
    /// Take the directory's next entry.
    NextEntry,
    /// Report that the entry is foreign, and take the next one.
    Ignore,
    /// Look at the entry.
    InspectEntry,
    /// Remove the entry.
    Remove,
    /// The store holds no frame of an earlier owner.
    Ready,
}

impl RecoveryStep {
    /// Whether an event can be the end of this operation.
    pub open spec fn expects(self, event: StoreEventView) -> bool {
        match self {
            RecoveryStep::NextEntry | RecoveryStep::Ignore => event is Entry || event is End
                || event is Failed,
            RecoveryStep::InspectEntry => event is Found || event is Failed,
            RecoveryStep::Ready => false,
            _ => event is Done || event is Failed,
        }
    }

    /// The next operation after an event, or the failure that ends the recovery.
    pub open spec fn next(self, event: StoreEventView) -> Result<RecoveryStep, CuErrorView> {
        match (self, event) {
            (RecoveryStep::OpenDirectory, StoreEventView::Failed(detail)) => Err(
                internal("failed to scan retained frames: "@ + detail),
            ),
            (RecoveryStep::OpenDirectory, _) => Ok(RecoveryStep::NextEntry),
            (RecoveryStep::NextEntry | RecoveryStep::Ignore, StoreEventView::Failed(detail)) => Err(
                internal("failed to inspect retained frame: "@ + detail),
            ),
            (RecoveryStep::NextEntry | RecoveryStep::Ignore, StoreEventView::Entry(name)) => if name
                == Some(marker_name()) {
                Ok(RecoveryStep::NextEntry)
            } else if managed_entry(name) {
                Ok(RecoveryStep::InspectEntry)
            } else {
                Ok(RecoveryStep::Ignore)
            },
            (RecoveryStep::NextEntry | RecoveryStep::Ignore, _) => Ok(RecoveryStep::Ready),
            (RecoveryStep::InspectEntry, StoreEventView::Failed(detail)) => Err(
                internal("failed to inspect managed frame: "@ + detail),
            ),
            (RecoveryStep::InspectEntry, StoreEventView::Found(facts)) => if regular(facts) {
                Ok(RecoveryStep::Remove)
            } else {
                Err(internal("managed frame entry must be a regular file"@))
            },
            (RecoveryStep::Remove, StoreEventView::Failed(detail)) => Err(
                internal("failed to clean retained frame: "@ + detail),
            ),
            (RecoveryStep::Remove, _) => Ok(RecoveryStep::NextEntry),
            _ => Ok(self),
        }
    }
}

/// Take the end of an operation of the store's recovery and return the next one.
pub fn recover_managed_frames(step: RecoveryStep, event: StoreEvent) -> (result: Result<
    RecoveryStep,
    CuError,
>)
    requires
        step.expects(event@),
    ensures
        match result {
            Ok(next) => step.next(event@) == Ok::<RecoveryStep, CuErrorView>(next),
            Err(error) => step.next(event@) == Err::<RecoveryStep, CuErrorView>(error@),
        },
{
    match step {
        RecoveryStep::OpenDirectory => match event {
            StoreEvent::Failed(detail) => failed("failed to scan retained frames: ", &detail),
            _ => Ok(RecoveryStep::NextEntry),
        },
        RecoveryStep::NextEntry | RecoveryStep::Ignore => match event {
            StoreEvent::Failed(detail) => failed("failed to inspect retained frame: ", &detail),
            StoreEvent::Entry(name) => {
                let marker = match &name {
                    Some(name) => same_text(name, frame_store_marker()),
                    None => false,
                };
                if marker {
                    Ok(RecoveryStep::NextEntry)
                } else if entry_is_managed(&name) {
                    Ok(RecoveryStep::InspectEntry)
                } else {
                    Ok(RecoveryStep::Ignore)
                }
            },
            _ => Ok(RecoveryStep::Ready),
        },
        RecoveryStep::InspectEntry => match event {
            StoreEvent::Failed(detail) => failed("failed to inspect managed frame: ", &detail),
            StoreEvent::Found(facts) => if facts.is_file && !facts.is_symlink {
                Ok(RecoveryStep::Remove)
            } else {
                Err(internal_error("managed frame entry must be a regular file"))
            },
            _ => Ok(RecoveryStep::InspectEntry),
        },
        RecoveryStep::Remove => match event {
            StoreEvent::Failed(detail) => failed("failed to clean retained frame: ", &detail),
            _ => Ok(RecoveryStep::NextEntry),
        },
        RecoveryStep::Ready => Ok(RecoveryStep::Ready),
    }
}

/// The step after a series of events, or nothing where a failure ended the recovery.
pub open spec fn recovery_after(events: Seq<StoreEventView>) -> Option<RecoveryStep>
    decreases events.len(),
{
    if events.len() == 0 {
        Some(RecoveryStep::OpenDirectory)
    } else {
        match recovery_after(events.drop_last()) {
            Some(step) => match step.next(events.last()) {
                Ok(next) => Some(next),
                Err(_) => None,
            },
            None => None,
        }
    }
}

/// Recovery removes an entry only directly after the entry was found to be a regular file under
/// a frame's name.
pub proof fn recovery_removes_only_frames(events: Seq<StoreEventView>)
    requires
        recovery_after(events) == Some(RecoveryStep::Remove),
        forall|i: int|
            0 <= i < events.len() ==> (recovery_after(#[trigger] events.take(i)) matches Some(step)
                && step.expects(events[i])),
    ensures
        events.len() >= 2,
        events[events.len() - 2] matches StoreEventView::Entry(name) && managed_entry(name),
        events.last() matches StoreEventView::Found(facts) && regular(facts),
{
    let last = events.len() - 1;
    let before = events.drop_last();
    assert(events.take(last) =~= before);
    assert(recovery_after(before) == Some(RecoveryStep::InspectEntry));
    assert(before.len() > 0);
    let earlier = before.drop_last();
    assert(events.take(last - 1) =~= earlier);
    assert(before.last() == events[last - 1]);
}

} // verus!
