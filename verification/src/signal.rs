//! The files that results of background waits are published in: a private directory for each
//! session, written under a temporary name and renamed when complete.
use vstd::prelude::*;

use crate::path::{
    components, is_component, joined_paths_gain_a_component, lies_within, parts, path_components,
    is_within,
};
use crate::protocol::{CuError, CuErrorView, ErrorCode};
use crate::store::{internal, internal_error, join_path, joined_error, path_join, FileFacts};

verus! {

/// How an operation on the store's files ended.
pub enum SignalEvent {
    Done,
    /// A directory exists already.
    Exists,
    Found(FileFacts),
    /// A directory is not empty.
    NotEmpty,
    /// The operating system's diagnostic.
    Failed(String),
}

/// An operation's end with its text as a sequence.
pub enum SignalEventView {
    Done,
    Exists,
    Found(FileFacts),
    NotEmpty,
    Failed(Seq<char>),
}

impl View for SignalEvent {
    type V = SignalEventView;

    open spec fn view(&self) -> SignalEventView {
        match *self {
            SignalEvent::Done => SignalEventView::Done,
            SignalEvent::Exists => SignalEventView::Exists,
            SignalEvent::Found(facts) => SignalEventView::Found(facts),
            SignalEvent::NotEmpty => SignalEventView::NotEmpty,
            SignalEvent::Failed(detail) => SignalEventView::Failed(detail@),
        }
    }
}

/// What the store's files are used for.
#[derive(Debug, Clone, Copy, PartialEq, Eq, Structural)]
pub enum SignalPurpose {
    /// A result is expected.
    Prepare,
    /// A result is there; `own` tells whether its file belongs to this session.
    Publish { own: bool },
    /// The session is over.
    Cleanup,
}

/// What is done with the store's files next.
#[derive(Debug, Clone, Copy, PartialEq, Eq, Structural)]
pub enum SignalStep {
    CreateRuntime,
    CheckRuntime,
    CreateWaits,
    CheckWaits,
    CreateSession,
    /// Look at the session's directory for the first time.
    ClaimSession,
    VerifyRuntime,
    VerifyWaits,
    VerifySession,
    /// Create the temporary file.
    OpenStaging,
    /// Write the result to the temporary file.
    Write,
    /// Give the temporary file its final name.
    Rename,
    /// Remove the session's directory if it is empty.
    RemoveSession,
    Done,
}

/// The directory of a session's results, and what is known of it.
#[derive(Debug)]
pub struct SignalStore {
    pub runtime_dir: String,
    pub session_dir: String,
    /// Device and inode of the session's directory, once it was created.
    pub identity: Option<(u64, u64)>,
    pub closed: bool,
}

/// A store with its paths as sequences.
pub struct SignalView {
    pub runtime_dir: Seq<char>,
    pub session_dir: Seq<char>,
    pub identity: Option<(u64, u64)>,
    pub closed: bool,
}

impl View for SignalStore {
    type V = SignalView;

    open spec fn view(&self) -> SignalView {
        SignalView {
            runtime_dir: self.runtime_dir@,
            session_dir: self.session_dir@,
            identity: self.identity,
            closed: self.closed,
        }
    }
}

/// The directory of all sessions' results.
pub open spec fn waits_path(runtime: Seq<char>) -> Seq<char> {
    path_join(runtime, "mcp-waits"@)
}

/// Why a directory cannot be used, if it cannot: it has to be a real one, owned by the user and
/// accessible to nobody else.
pub open spec fn directory_fault(facts: FileFacts, euid: u32) -> Option<CuErrorView> {
    if !facts.is_dir || facts.is_symlink {
        Some(internal("wait runtime path must be a real directory"@))
    } else if facts.uid != euid {
        Some(internal("wait runtime directory must be owned by the effective user"@))
    } else if facts.mode & 0o077 != 0 {
        Some(internal("wait runtime directory must be private to its owner"@))
    } else {
        None
    }
}

/// Refuse a directory that cannot be used.
pub fn validate_private_directory(facts: FileFacts, euid: u32) -> (result: Result<(), CuError>)
    ensures
        crate::validate::refusal(result) == directory_fault(facts, euid),
{
    if !facts.is_dir || facts.is_symlink {
        return Err(internal_error("wait runtime path must be a real directory"));
    }
    if facts.uid != euid {
        return Err(internal_error("wait runtime directory must be owned by the effective user"));
    }
    if facts.mode & 0o077 != 0 {
        return Err(internal_error("wait runtime directory must be private to its owner"));
    }
    Ok(())
}

/// The failure of a store that is closed.
pub open spec fn closed_store() -> CuErrorView {
    internal("MCP wait signal store is closed"@)
}

impl SignalView {
    /// The first step for a purpose; none is taken in a store that is closed, nor to clean up where
    /// this store created nothing.
    pub open spec fn first_step(self, purpose: SignalPurpose) -> SignalStep {
        if self.closed || (purpose is Cleanup && self.identity is None) {
            SignalStep::Done
        } else if purpose is Prepare {
            SignalStep::CreateRuntime
        } else {
            SignalStep::VerifyRuntime
        }
    }

    /// Whether an event can be the end of a step.
    pub open spec fn expects(self, step: SignalStep, event: SignalEventView) -> bool {
        event is Failed || match step {
            SignalStep::CreateRuntime | SignalStep::CreateWaits => event is Done || event
                is Exists,
            SignalStep::CheckRuntime | SignalStep::CheckWaits | SignalStep::ClaimSession
            | SignalStep::VerifyRuntime | SignalStep::VerifyWaits | SignalStep::VerifySession =>
                event is Found,
            SignalStep::RemoveSession => event is Done || event is NotEmpty,
            SignalStep::Done => false,
            _ => event is Done,
        }
    }

    /// The failure of a step.
    pub open spec fn step_failure(step: SignalStep, detail: Seq<char>) -> CuErrorView {
        match step {
            SignalStep::CreateRuntime | SignalStep::CreateWaits => internal(
                "failed to create wait runtime directory: "@ + detail,
            ),
            SignalStep::CreateSession => internal(
                "failed to create wait session directory: "@ + detail,
            ),
            SignalStep::OpenStaging => internal("failed to create wait signal: "@ + detail),
            SignalStep::Write => internal("failed to write wait signal result: "@ + detail),
            SignalStep::Rename => internal("failed to publish wait signal result: "@ + detail),
            SignalStep::RemoveSession => internal(
                "failed to remove empty wait session directory: "@ + detail,
            ),
            _ => internal("failed to inspect wait runtime directory: "@ + detail),
        }
    }

    /// The step that follows once the session's directory was verified.
    pub open spec fn verified(purpose: SignalPurpose) -> Result<SignalStep, CuErrorView> {
        match purpose {
            SignalPurpose::Prepare => Ok(SignalStep::OpenStaging),
            SignalPurpose::Publish { own } => if own {
                Ok(SignalStep::Write)
            } else {
                Err(internal("wait signal belongs to a different session"@))
            },
            SignalPurpose::Cleanup => Ok(SignalStep::RemoveSession),
        }
    }

    /// The step after one that looked at a directory.
    pub open spec fn inspected(
        self,
        purpose: SignalPurpose,
        step: SignalStep,
        facts: FileFacts,
    ) -> Result<SignalStep, CuErrorView> {
        match step {
            SignalStep::CheckRuntime => Ok(SignalStep::CreateWaits),
            SignalStep::CheckWaits => if self.identity is None {
                Ok(SignalStep::CreateSession)
            } else {
                Ok(SignalStep::VerifyRuntime)
            },
            SignalStep::ClaimSession => Ok(SignalStep::VerifyRuntime),
            SignalStep::VerifyRuntime => Ok(SignalStep::VerifyWaits),
            SignalStep::VerifyWaits => Ok(SignalStep::VerifySession),
            _ => if self.identity == Some((facts.dev, facts.ino)) {
                Self::verified(purpose)
            } else {
                Err(internal("wait session directory identity changed"@))
            },
        }
    }

    /// The step that follows an event, or the failure that ends the work.
    pub open spec fn next(
        self,
        purpose: SignalPurpose,
        step: SignalStep,
        event: SignalEventView,
        euid: u32,
    ) -> Result<SignalStep, CuErrorView> {
        match event {
            SignalEventView::Failed(detail) => Err(Self::step_failure(step, detail)),
            SignalEventView::Found(facts) => match directory_fault(facts, euid) {
                Some(error) => Err(error),
                None => self.inspected(purpose, step, facts),
            },
            _ => match step {
                SignalStep::CreateRuntime => Ok(SignalStep::CheckRuntime),
                SignalStep::CreateWaits => Ok(SignalStep::CheckWaits),
                SignalStep::CreateSession => Ok(SignalStep::ClaimSession),
                SignalStep::Write => Ok(SignalStep::Rename),
                _ => Ok(SignalStep::Done),
            },
        }
    }

    /// The store after an event: the session's directory is known once it was looked at.
    pub open spec fn after(self, step: SignalStep, event: SignalEventView, euid: u32) -> SignalView {
        match event {
            SignalEventView::Found(facts) if step is ClaimSession && directory_fault(facts, euid)
                is None => SignalView { identity: Some((facts.dev, facts.ino)), ..self },
            _ => self,
        }
    }
}

impl SignalStore {
    /// The store of a session.
    pub fn new(runtime_dir: &str, session_id: &str) -> (store: Self)
        ensures
            store@ == (SignalView {
                runtime_dir: runtime_dir@,
                session_dir: path_join(waits_path(runtime_dir@), session_id@),
                identity: None,
                closed: false,
            }),
    {
        SignalStore {
            runtime_dir: runtime_dir.to_owned(),
            session_dir: join_path(&join_path(runtime_dir, "mcp-waits"), session_id),
            identity: None,
            closed: false,
        }
    }

    /// The final and the temporary path of a result.
    pub fn signal_paths(&self, id: &str) -> (paths: (String, String))
        ensures
            (paths.0)@ == path_join(self@.session_dir, id@ + ".json"@),
            (paths.1)@ == path_join(self@.session_dir, "."@ + id@ + ".json.tmp"@),
    {
        let mut name = id.to_owned();
        name.append(".json");
        let mut staging = ".".to_owned();
        staging.append(id);
        staging.append(".json.tmp");
        (join_path(&self.session_dir, &name), join_path(&self.session_dir, &staging))
    }

    /// Whether a result's path lies directly in the session's directory.
    pub fn owns_signal(&self, path: &str) -> (own: bool)
        ensures
            own == owned(self@, path@),
    {
        let list = path_components(path);
        let base = path_components(&self.session_dir);
        assert(parts(list@).len() == list.len());
        assert(parts(base@).len() == base.len());
        list.len() > 0 && list.len() - 1 == base.len() && is_within(path, &self.session_dir)
    }

    /// Begin to expect a result.
    pub fn begin_prepare(&self) -> (result: Result<SignalStep, CuError>)
        ensures
            self@.closed ==> (result matches Err(error) && error@ == closed_store()),
            !self@.closed ==> result == Ok::<SignalStep, CuError>(SignalStep::CreateRuntime),
            result matches Ok(step) ==> step == self@.first_step(SignalPurpose::Prepare),
            result is Ok <==> !(self@.first_step(SignalPurpose::Prepare) is Done),
    {
        if self.closed {
            return Err(internal_error("MCP wait signal store is closed"));
        }
        Ok(SignalStep::CreateRuntime)
    }

    /// Begin to publish a result.
    pub fn begin_publish(&self) -> (result: Result<SignalStep, CuError>)
        ensures
            self@.closed ==> (result matches Err(error) && error@ == closed_store()),
            !self@.closed ==> result == Ok::<SignalStep, CuError>(SignalStep::VerifyRuntime),
            forall|own: bool|
                result matches Ok(step) ==> step == #[trigger] self@.first_step(
                    SignalPurpose::Publish { own },
                ),
            forall|own: bool|
                result is Ok <==> !(#[trigger] self@.first_step(SignalPurpose::Publish { own })
                    is Done),
    {
        if self.closed {
            return Err(internal_error("MCP wait signal store is closed"));
        }
        Ok(SignalStep::VerifyRuntime)
    }

    /// Close the store and begin to clean up after it: nothing is done to a directory that this
    /// store did not create.
    pub fn begin_cleanup(&mut self) -> (step: SignalStep)
        ensures
            final(self)@ == (SignalView { closed: true, ..old(self)@ }),
            step == (if old(self)@.closed || old(self)@.identity is None {
                SignalStep::Done
            } else {
                SignalStep::VerifyRuntime
            }),
            step == old(self)@.first_step(SignalPurpose::Cleanup),
    {
        if self.closed || self.identity.is_none() {
            self.closed = true;
            return SignalStep::Done;
        }
        self.closed = true;
        SignalStep::VerifyRuntime
    }

    /// Take the end of a step and return the next one.
    pub fn advance(
        &mut self,
        purpose: SignalPurpose,
        step: SignalStep,
        event: SignalEvent,
        euid: u32,
    ) -> (result: Result<SignalStep, CuError>)
        requires
            old(self)@.expects(step, event@),
        ensures
            match result {
                Ok(next) => old(self)@.next(purpose, step, event@, euid) == Ok::<
                    SignalStep,
                    CuErrorView,
                >(next),
                Err(error) => old(self)@.next(purpose, step, event@, euid) == Err::<
                    SignalStep,
                    CuErrorView,
                >(error@),
            },
            final(self)@ == old(self)@.after(step, event@, euid),
    {
        match event {
            SignalEvent::Failed(detail) => Err(
                joined_error(
                    ErrorCode::Internal,
                    match step {
                        SignalStep::CreateRuntime | SignalStep::CreateWaits =>
                            "failed to create wait runtime directory: ",
                        SignalStep::CreateSession => "failed to create wait session directory: ",
                        SignalStep::OpenStaging => "failed to create wait signal: ",
                        SignalStep::Write => "failed to write wait signal result: ",
                        SignalStep::Rename => "failed to publish wait signal result: ",
                        SignalStep::RemoveSession =>
                            "failed to remove empty wait session directory: ",
                        _ => "failed to inspect wait runtime directory: ",
                    },
                    &detail,
                ),
            ),
            SignalEvent::Found(facts) => {
                match validate_private_directory(facts, euid) {
                    Ok(()) => {},
                    Err(error) => {
                        return Err(error);
                    },
                }
                self.inspect(purpose, step, facts)
            },
            _ => match step {
                SignalStep::CreateRuntime => Ok(SignalStep::CheckRuntime),
                SignalStep::CreateWaits => Ok(SignalStep::CheckWaits),
                SignalStep::CreateSession => Ok(SignalStep::ClaimSession),
                SignalStep::Write => Ok(SignalStep::Rename),
                _ => Ok(SignalStep::Done),
            },
        }
    }

    fn inspect(&mut self, purpose: SignalPurpose, step: SignalStep, facts: FileFacts) -> (result:
        Result<SignalStep, CuError>)
        ensures
            match result {
                Ok(next) => old(self)@.inspected(purpose, step, facts) == Ok::<
                    SignalStep,
                    CuErrorView,
                >(next),
                Err(error) => old(self)@.inspected(purpose, step, facts) == Err::<
                    SignalStep,
                    CuErrorView,
                >(error@),
            },
            final(self)@ == (if step is ClaimSession {
                SignalView { identity: Some((facts.dev, facts.ino)), ..old(self)@ }
            } else {
                old(self)@
            }),
    {
        match step {
            SignalStep::CheckRuntime => Ok(SignalStep::CreateWaits),
            SignalStep::CheckWaits => if self.identity.is_none() {
                Ok(SignalStep::CreateSession)
            } else {
                Ok(SignalStep::VerifyRuntime)
            },
            SignalStep::ClaimSession => {
                self.identity = Some((facts.dev, facts.ino));
                Ok(SignalStep::VerifyRuntime)
            },
            SignalStep::VerifyRuntime => Ok(SignalStep::VerifyWaits),
            SignalStep::VerifyWaits => Ok(SignalStep::VerifySession),
            _ => {
                let same = match self.identity {
                    Some(identity) => identity.0 == facts.dev && identity.1 == facts.ino,
                    None => false,
                };
                if !same {
                    return Err(internal_error("wait session directory identity changed"));
                }
                match purpose {
                    SignalPurpose::Prepare => Ok(SignalStep::OpenStaging),
                    SignalPurpose::Publish { own } => if own {
                        Ok(SignalStep::Write)
                    } else {
                        Err(internal_error("wait signal belongs to a different session"))
                    },
                    SignalPurpose::Cleanup => Ok(SignalStep::RemoveSession),
                }
            },
        }
    }

    /// Forget the session's directory once it was cleaned up, or could not be.
    pub fn end_cleanup(&mut self)
        ensures
            final(self)@ == (SignalView { identity: None, ..old(self)@ }),
    {
        self.identity = None;
    }
}

/// Whether a result's path lies directly in the session's directory.
pub open spec fn owned(store: SignalView, path: Seq<char>) -> bool {
    &&& lies_within(path, store.session_dir)
    &&& components(path).len() == components(store.session_dir).len() + 1
}

/// The results that a store expects lie directly in its session's directory, and those of a store
/// of another session do not.
pub proof fn signals_belong_to_their_session(
    store: SignalView,
    other: SignalView,
    id: Seq<char>,
)
    requires
        is_component(id + ".json"@),
        components(store.session_dir) != components(other.session_dir),
    ensures
        owned(store, path_join(store.session_dir, id + ".json"@)),
        !owned(other, path_join(store.session_dir, id + ".json"@)),
{
    let path = path_join(store.session_dir, id + ".json"@);
    let base = components(store.session_dir);
    joined_paths_gain_a_component(store.session_dir, id + ".json"@);
    assert(components(path).take(base.len() as int) =~= base);
    if owned(other, path) {
        let base2 = components(other.session_dir);
        assert(base2 =~= components(path).take(base2.len() as int));
        assert(base2 =~= base);
    }
}

/// A result is written only in a directory that was just found to be the session's own and private,
/// and a directory is removed only then.
pub proof fn sessions_touch_only_their_own_directory(
    store: SignalView,
    purpose: SignalPurpose,
    step: SignalStep,
    event: SignalEventView,
    euid: u32,
    next: SignalStep,
)
    requires
        store.expects(step, event),
        store.next(purpose, step, event, euid) == Ok::<SignalStep, CuErrorView>(next),
        next is OpenStaging || next is Write || next is RemoveSession,
    ensures
        step is VerifySession,
        event matches SignalEventView::Found(facts) && store.identity == Some(
            (facts.dev, facts.ino),
        ) && directory_fault(facts, euid) is None,
        next is Write ==> purpose == (SignalPurpose::Publish { own: true }),
{
}

} // verus!
