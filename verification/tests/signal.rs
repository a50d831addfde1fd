use std::collections::{BTreeMap, BTreeSet};

use cu::protocol::CuError;
use cu::signal::{
    validate_private_directory, SignalEvent, SignalPurpose, SignalStep, SignalStore,
};
use cu::store::FileFacts;

const USER: u32 = 1_000;

/// Directories and files in memory.
#[derive(Default)]
struct Disk {
    directories: BTreeMap<String, FileFacts>,
    files: BTreeSet<String>,
    next: u64,
}

impl Disk {
    fn create(&mut self, path: &str) -> SignalEvent {
        if self.directories.contains_key(path) {
            return SignalEvent::Exists;
        }
        self.next += 1;
        self.directories.insert(
            path.to_owned(),
            FileFacts {
                is_file: false,
                is_dir: true,
                is_symlink: false,
                uid: USER,
                mode: 0o40700,
                nlink: 2,
                dev: 1,
                ino: self.next,
            },
        );
        SignalEvent::Done
    }

    fn find(&self, path: &str) -> SignalEvent {
        match self.directories.get(path) {
            Some(facts) => SignalEvent::Found(*facts),
            None => SignalEvent::Failed("not found".to_owned()),
        }
    }
}

/// Run the work of one purpose on a result's paths.
fn run(
    store: &mut SignalStore,
    disk: &mut Disk,
    purpose: SignalPurpose,
    first: SignalStep,
    (path, staging): (&str, &str),
) -> Result<(), CuError> {
    let waits = format!("{}/mcp-waits", store.runtime_dir);
    let mut step = first;
    loop {
        let event = match step {
            SignalStep::CreateRuntime => disk.create(&store.runtime_dir),
            SignalStep::CheckRuntime | SignalStep::VerifyRuntime => disk.find(&store.runtime_dir),
            SignalStep::CreateWaits => disk.create(&waits),
            SignalStep::CheckWaits | SignalStep::VerifyWaits => disk.find(&waits),
            SignalStep::CreateSession => match disk.create(&store.session_dir) {
                SignalEvent::Exists => SignalEvent::Failed("exists".to_owned()),
                event => event,
            },
            SignalStep::ClaimSession | SignalStep::VerifySession => disk.find(&store.session_dir),
            SignalStep::OpenStaging => {
                disk.files.insert(staging.to_owned());
                SignalEvent::Done
            }
            SignalStep::Write => SignalEvent::Done,
            SignalStep::Rename => {
                assert!(disk.files.remove(staging));
                disk.files.insert(path.to_owned());
                SignalEvent::Done
            }
            SignalStep::RemoveSession => {
                if disk.files.iter().any(|file| file.starts_with(&store.session_dir)) {
                    SignalEvent::NotEmpty
                } else {
                    disk.directories.remove(&store.session_dir);
                    SignalEvent::Done
                }
            }
            SignalStep::Done => return Ok(()),
        };
        step = store.advance(purpose, step, event, USER)?;
    }
}

fn prepare(store: &mut SignalStore, disk: &mut Disk, id: &str) -> Result<(String, String), CuError> {
    let paths = store.signal_paths(id);
    let first = store.begin_prepare()?;
    run(store, disk, SignalPurpose::Prepare, first, (&paths.0, &paths.1))?;
    Ok(paths)
}

fn publish(
    store: &mut SignalStore,
    disk: &mut Disk,
    paths: &(String, String),
) -> Result<(), CuError> {
    let own = store.owns_signal(&paths.0);
    let result = match store.begin_publish() {
        Ok(first) => run(
            store,
            disk,
            SignalPurpose::Publish { own },
            first,
            (&paths.0, &paths.1),
        ),
        Err(error) => Err(error),
    };
    disk.files.remove(&paths.1);
    result
}

fn cleanup(store: &mut SignalStore, disk: &mut Disk) {
    let first = store.begin_cleanup();
    let _ = run(store, disk, SignalPurpose::Cleanup, first, ("", ""));
    store.end_cleanup();
}

fn store(session: &str) -> SignalStore {
    SignalStore::new("/run/computer-use", session)
}

#[test]
fn publishes_private_complete_json_for_a_late_detector() {
    let mut disk = Disk::default();
    let mut store = store("one");
    let paths = prepare(&mut store, &mut disk, "a").unwrap();
    assert_eq!(paths.0, "/run/computer-use/mcp-waits/one/a.json");
    assert_eq!(paths.1, "/run/computer-use/mcp-waits/one/.a.json.tmp");
    assert!(!disk.files.contains(&paths.0) && disk.files.contains(&paths.1));
    publish(&mut store, &mut disk, &paths).unwrap();
    assert!(disk.files.contains(&paths.0));
    assert_eq!(disk.files.len(), 1);
}

#[test]
fn next_prepare_preserves_previous_results_for_late_detectors() {
    let mut disk = Disk::default();
    let mut store = store("one");
    let first = prepare(&mut store, &mut disk, "a").unwrap();
    publish(&mut store, &mut disk, &first).unwrap();
    let second = prepare(&mut store, &mut disk, "b").unwrap();
    assert_ne!(first.0, second.0);
    publish(&mut store, &mut disk, &second).unwrap();
    assert!(disk.files.contains(&first.0) && disk.files.contains(&second.0));
}

#[test]
fn rejects_symlinks_and_insecure_managed_directories() {
    let mut disk = Disk::default();
    disk.create("/run/computer-use");
    let private = disk.directories["/run/computer-use"];
    for bad in [
        FileFacts { is_symlink: true, ..private },
        FileFacts { is_dir: false, ..private },
        FileFacts { mode: 0o40755, ..private },
        FileFacts { uid: USER + 1, ..private },
    ] {
        assert!(validate_private_directory(bad, USER).is_err());
        disk.directories.insert("/run/computer-use".to_owned(), bad);
        assert!(prepare(&mut store("one"), &mut disk, "a").is_err());
        assert_eq!(disk.directories.len(), 1);
    }
    assert!(validate_private_directory(private, USER).is_ok());
}

#[test]
fn cleanup_removes_only_its_own_empty_session_and_prevents_reuse() {
    let mut disk = Disk::default();
    let mut first = store("one");
    let mut second = store("two");
    let unpublished = prepare(&mut first, &mut disk, "a").unwrap();
    disk.files.remove(&unpublished.1);
    let paths = prepare(&mut second, &mut disk, "b").unwrap();
    publish(&mut second, &mut disk, &paths).unwrap();
    cleanup(&mut first, &mut disk);
    assert!(!disk.directories.contains_key(&first.session_dir));
    assert!(disk.files.contains(&paths.0));
    assert!(prepare(&mut first, &mut disk, "c").is_err());
    cleanup(&mut second, &mut disk);
    assert!(disk.files.contains(&paths.0));
    assert!(prepare(&mut second, &mut disk, "d").is_err());
}

#[test]
fn cannot_claim_an_existing_session_or_publish_another_sessions_signal() {
    let mut disk = Disk::default();
    let mut first = store("one");
    let pending = prepare(&mut first, &mut disk, "a").unwrap();
    let mut duplicate = store("one");
    assert!(prepare(&mut duplicate, &mut disk, "b").is_err());
    cleanup(&mut duplicate, &mut disk);
    assert!(disk.directories.contains_key(&first.session_dir));
    let mut second = store("two");
    let own = prepare(&mut second, &mut disk, "c").unwrap();
    let error = publish(&mut second, &mut disk, &pending).unwrap_err();
    assert_eq!(error.message, "wait signal belongs to a different session");
    assert!(!disk.files.contains(&pending.0));
    assert!(disk.files.contains(&own.1));
}

#[test]
fn cleanup_refuses_a_replaced_session_directory() {
    let mut disk = Disk::default();
    let mut store = store("one");
    let paths = prepare(&mut store, &mut disk, "a").unwrap();
    disk.files.remove(&paths.1);
    disk.directories.get_mut(&store.session_dir).unwrap().ino = 99;
    cleanup(&mut store, &mut disk);
    assert!(disk.directories.contains_key(&store.session_dir));
}

#[test]
fn cleaned_session_cannot_publish_a_late_result() {
    let mut disk = Disk::default();
    let mut store = store("one");
    let late = prepare(&mut store, &mut disk, "a").unwrap();
    let retained = prepare(&mut store, &mut disk, "b").unwrap();
    publish(&mut store, &mut disk, &retained).unwrap();
    cleanup(&mut store, &mut disk);
    assert!(publish(&mut store, &mut disk, &late).is_err());
    assert!(!disk.files.contains(&late.0));
    assert!(disk.files.contains(&retained.0));
}

#[test]
fn failed_prepare_preserves_the_previous_result() {
    let mut disk = Disk::default();
    let mut store = store("one");
    let paths = prepare(&mut store, &mut disk, "a").unwrap();
    publish(&mut store, &mut disk, &paths).unwrap();
    disk.directories.get_mut(&store.session_dir).unwrap().mode = 0o40755;
    assert!(prepare(&mut store, &mut disk, "b").is_err());
    assert!(disk.files.contains(&paths.0));
}

#[test]
fn failures_name_the_operation() {
    let mut store = store("one");
    for (step, message) in [
        (SignalStep::CreateRuntime, "failed to create wait runtime directory: full"),
        (SignalStep::CreateSession, "failed to create wait session directory: full"),
        (SignalStep::CheckWaits, "failed to inspect wait runtime directory: full"),
        (SignalStep::OpenStaging, "failed to create wait signal: full"),
        (SignalStep::Write, "failed to write wait signal result: full"),
        (SignalStep::Rename, "failed to publish wait signal result: full"),
        (SignalStep::RemoveSession, "failed to remove empty wait session directory: full"),
    ] {
        let event = SignalEvent::Failed("full".to_owned());
        let error = store.advance(SignalPurpose::Prepare, step, event, USER).unwrap_err();
        assert_eq!(error.message, message);
    }
}
