use std::collections::{BTreeMap, BTreeSet};

use cu::protocol::{CuError, ErrorCode};
use cu::store::{
    ensure_resource_parent, frame_id, frame_store_marker, frame_store_version,
    is_managed_frame_name, join_path, lease_record, prepare_private_store_directory,
    prepare_store_marker, published_path, recover_managed_frames, resource_lock_path,
    unpublished_path, DirectoryStep, FileEvent, FileFacts, LeaseAttempt, LeaseStep, MarkerStep,
    ParentStep, RecoveryStep, StoreEvent,
};

const USER: u32 = 1_000;
const LEGACY: &str = "f_0123456789abcdef0123456789abcdef_0000000000000001.png";
const TEMPORARY: &str = ".f_0123456789abcdef0123456789abcdef_0000000000000002.tmp";

fn file(ino: u64) -> FileFacts {
    FileFacts {
        is_file: true,
        is_dir: false,
        is_symlink: false,
        uid: USER,
        mode: 0o100600,
        nlink: 1,
        dev: 1,
        ino,
    }
}

fn symlink(ino: u64) -> FileFacts {
    FileFacts { is_file: false, is_symlink: true, ..file(ino) }
}

fn directory(ino: u64) -> FileFacts {
    FileFacts { is_file: false, is_dir: true, mode: 0o40700, nlink: 2, ..file(ino) }
}

/// A file system in memory.
#[derive(Default)]
struct Disk {
    entries: BTreeMap<String, (FileFacts, String)>,
    locked: BTreeSet<u64>,
    ignored: Vec<String>,
    next: u64,
}

impl Disk {
    fn put(&mut self, path: &str, make: fn(u64) -> FileFacts, text: &str) {
        self.next += 1;
        self.entries.insert(path.to_owned(), (make(self.next), text.to_owned()));
    }

    fn has(&self, path: &str) -> bool {
        self.entries.contains_key(path)
    }

    fn names(&self, directory: &str) -> Vec<String> {
        let prefix = format!("{directory}/");
        self.entries
            .keys()
            .filter_map(|path| path.strip_prefix(&prefix))
            .map(str::to_owned)
            .collect()
    }

    fn lease(&mut self, path: &str) -> Result<u64, CuError> {
        let mut attempt = LeaseAttempt::new("frame store", USER);
        loop {
            let event = match attempt.step {
                LeaseStep::Open => match self.entries.get(path) {
                    Some((facts, _)) if facts.is_symlink => {
                        FileEvent::Failed("too many levels of symbolic links".to_owned())
                    }
                    Some(_) => FileEvent::Done,
                    None => {
                        self.put(path, file, "");
                        FileEvent::Done
                    }
                },
                LeaseStep::Inspect | LeaseStep::Verify => FileEvent::Found(self.entries[path].0),
                LeaseStep::Lock => {
                    if self.locked.insert(self.entries[path].0.ino) {
                        FileEvent::Done
                    } else {
                        FileEvent::Blocked
                    }
                }
                LeaseStep::Record => {
                    self.entries.get_mut(path).unwrap().1 = lease_record(42);
                    FileEvent::Done
                }
                LeaseStep::Held => return Ok(self.entries[path].0.ino),
                _ => FileEvent::Done,
            };
            attempt.advance(event)?;
        }
    }

    fn open_store(&mut self, store: &str) -> Result<(), CuError> {
        let (parent, name) = store.rsplit_once('/').unwrap();
        self.lease(&resource_lock_path(Some(parent), Some(name))?)?;
        let mut step = DirectoryStep::Inspect;
        while step != DirectoryStep::Ready {
            let event = match step {
                DirectoryStep::Inspect => match self.entries.get(store) {
                    Some((facts, _)) => FileEvent::Found(*facts),
                    None => FileEvent::Missing,
                },
                DirectoryStep::Create => {
                    self.put(store, directory, "");
                    FileEvent::Done
                }
                _ => FileEvent::Done,
            };
            step = prepare_private_store_directory(step, event, USER, store)?;
        }
        self.mark(store)?;
        self.recover(store)
    }

    fn mark(&mut self, store: &str) -> Result<(), CuError> {
        let marker = join_path(store, frame_store_marker());
        let mut names = Vec::new();
        let mut entry = String::new();
        let mut step = MarkerStep::Inspect;
        while step != MarkerStep::Ready {
            let event = match step {
                MarkerStep::Inspect => match self.entries.get(&marker) {
                    Some((facts, _)) => StoreEvent::Found(*facts),
                    None => StoreEvent::Missing,
                },
                MarkerStep::Read => StoreEvent::Contents(self.entries[&marker].1.clone()),
                MarkerStep::OpenDirectory => {
                    names = self.names(store);
                    StoreEvent::Done
                }
                MarkerStep::NextEntry => match names.pop() {
                    Some(name) => {
                        entry = join_path(store, &name);
                        StoreEvent::Entry(Some(name))
                    }
                    None => StoreEvent::End,
                },
                MarkerStep::InspectEntry => StoreEvent::Found(self.entries[&entry].0),
                MarkerStep::Create => {
                    self.put(&marker, file, "");
                    StoreEvent::Done
                }
                MarkerStep::Write => {
                    self.entries.get_mut(&marker).unwrap().1 = frame_store_version().to_owned();
                    StoreEvent::Done
                }
                MarkerStep::Ready => unreachable!(),
            };
            step = prepare_store_marker(step, event, store)?;
        }
        Ok(())
    }

    fn recover(&mut self, store: &str) -> Result<(), CuError> {
        let mut names = Vec::new();
        let mut entry = String::new();
        let mut step = RecoveryStep::OpenDirectory;
        while step != RecoveryStep::Ready {
            if step == RecoveryStep::Ignore {
                self.ignored.push(entry.clone());
            }
            let event = match step {
                RecoveryStep::OpenDirectory => {
                    names = self.names(store);
                    StoreEvent::Done
                }
                RecoveryStep::NextEntry | RecoveryStep::Ignore => match names.pop() {
                    Some(name) => {
                        entry = join_path(store, &name);
                        StoreEvent::Entry(Some(name))
                    }
                    None => StoreEvent::End,
                },
                RecoveryStep::InspectEntry => StoreEvent::Found(self.entries[&entry].0),
                RecoveryStep::Remove => {
                    self.entries.remove(&entry);
                    StoreEvent::Done
                }
                RecoveryStep::Ready => unreachable!(),
            };
            step = recover_managed_frames(step, event)?;
        }
        Ok(())
    }
}

#[test]
fn distinct_frame_stores_can_be_owned_concurrently() {
    let mut disk = Disk::default();
    disk.open_store("/run/first").unwrap();
    disk.open_store("/run/second").unwrap();
}

#[test]
fn resource_lease_refuses_a_preplanted_symlink() {
    let mut disk = Disk::default();
    disk.put("/run/outside", file, "do not truncate");
    disk.put("/run/.frames.lock", symlink, "/run/outside");

    let error = disk.open_store("/run/frames").unwrap_err();

    assert_eq!(error.code, ErrorCode::Internal);
    assert_eq!(disk.entries["/run/outside"].1, "do not truncate");
}

#[test]
fn one_frame_store_rejects_a_second_live_owner() {
    let mut disk = Disk::default();
    disk.open_store("/run/frames").unwrap();
    assert_eq!(disk.entries["/run/.frames.lock"].1, "pid=42\n");

    let error = disk.open_store("/run/frames").unwrap_err();

    assert_eq!(error.code, ErrorCode::LeaseConflict);
    assert_eq!(
        error.message,
        "another computer-use process owns the frame store"
    );
}

#[test]
fn restart_cleans_legacy_frames_and_temporary_files() {
    let mut disk = Disk::default();
    disk.put("/run/frames", directory, "");
    let legacy = format!("/run/frames/{LEGACY}");
    let temporary = format!("/run/frames/{TEMPORARY}");
    disk.put(&legacy, file, "1");
    disk.put(&temporary, file, "2");

    disk.open_store("/run/frames").unwrap();

    assert!(!disk.has(&legacy));
    assert!(!disk.has(&temporary));
    assert_eq!(disk.entries["/run/frames/.cu-frames"].1, frame_store_version());
}

#[test]
fn legacy_recovery_never_follows_a_frame_shaped_symlink() {
    let mut disk = Disk::default();
    disk.put("/run/frames", directory, "");
    disk.put("/run/outside.png", file, "1");
    let disguised = format!("/run/frames/{LEGACY}");
    disk.put(&disguised, symlink, "/run/outside.png");

    let error = disk.open_store("/run/frames").unwrap_err();

    assert_eq!(error.code, ErrorCode::Internal);
    assert!(disk.has("/run/outside.png"));
    assert!(disk.entries[&disguised].0.is_symlink);
    assert!(!disk.has("/run/frames/.cu-frames"));
}

#[test]
fn marked_stores_keep_what_they_do_not_manage() {
    let mut disk = Disk::default();
    disk.open_store("/run/frames").unwrap();
    disk.put("/run/frames/notes.txt", file, "mine");
    disk.locked.clear();
    disk.open_store("/run/frames").unwrap();
    assert!(disk.has("/run/frames/notes.txt"));
    assert_eq!(disk.ignored, ["/run/frames/notes.txt"]);
}

#[test]
fn unmarked_directories_with_other_files_are_refused() {
    let mut disk = Disk::default();
    disk.put("/run/frames", directory, "");
    disk.put("/run/frames/notes.txt", file, "mine");
    let error = disk.open_store("/run/frames").unwrap_err();
    assert_eq!(
        error.message,
        "refusing to adopt non-empty unmarked frame directory /run/frames"
    );

    let mut old = Disk::default();
    old.put("/run/frames", directory, "");
    old.put("/run/frames/.cu-frames", file, "cu-frames 0\n");
    let error = old.open_store("/run/frames").unwrap_err();
    assert_eq!(error.message, "frame-store marker has an unsupported version");
}

#[test]
fn stores_are_private_directories() {
    for bad in [
        FileFacts { mode: 0o40750, ..directory(1) },
        FileFacts { uid: USER + 1, ..directory(1) },
        symlink(1),
        file(1),
    ] {
        let result = prepare_private_store_directory(
            DirectoryStep::Inspect,
            FileEvent::Found(bad),
            USER,
            "/run/frames",
        );
        assert_eq!(result.unwrap_err().code, ErrorCode::Internal);
    }
}

#[test]
fn leases_need_a_private_file_that_stays_where_it_is() {
    let inspect = |facts: FileFacts| {
        let mut attempt = LeaseAttempt::new("frame store", USER);
        attempt.advance(FileEvent::Done).unwrap();
        attempt.advance(FileEvent::Found(facts))
    };
    assert_eq!(inspect(file(1)).unwrap(), LeaseStep::Protect);
    assert!(inspect(FileFacts { nlink: 2, ..file(1) }).is_err());
    assert!(inspect(FileFacts { uid: USER + 1, ..file(1) }).is_err());
    assert!(inspect(directory(1)).is_err());

    let mut moved = LeaseAttempt::new("frame store", USER);
    for event in [FileEvent::Done, FileEvent::Found(file(1)), FileEvent::Done, FileEvent::Done] {
        moved.advance(event).unwrap();
    }
    let error = moved.advance(FileEvent::Found(file(2))).unwrap_err();
    assert_eq!(error.message, "frame store lease path changed during acquisition");
}

#[test]
fn missing_parents_are_created_and_protected() {
    assert_eq!(
        ensure_resource_parent(ParentStep::Inspect, FileEvent::Missing).unwrap(),
        ParentStep::Create
    );
    assert_eq!(
        ensure_resource_parent(ParentStep::Create, FileEvent::Done).unwrap(),
        ParentStep::Protect
    );
    assert_eq!(
        ensure_resource_parent(ParentStep::Inspect, FileEvent::Found(directory(1))).unwrap(),
        ParentStep::Ready
    );
    assert_eq!(
        ensure_resource_parent(ParentStep::Create, FileEvent::Failed("full".to_owned()))
            .unwrap_err()
            .message,
        "failed to create frame-store parent: full"
    );
}

#[test]
fn frame_names_are_recognised() {
    let session = "0123456789abcdef0123456789abcdef";
    let id = frame_id(session, 0x2a);
    assert_eq!(id, "f_0123456789abcdef0123456789abcdef_000000000000002a");
    assert_eq!(published_path("/run", &id), format!("/run/{id}.png"));
    assert_eq!(unpublished_path("/run", &id), format!("/run/.{id}.tmp"));
    assert!(is_managed_frame_name(&format!("{id}.png")));
    assert!(is_managed_frame_name(&format!(".{id}.tmp")));
    assert!(is_managed_frame_name(LEGACY) && is_managed_frame_name(TEMPORARY));
    for other in [
        "f_1.png",
        "notes.txt",
        ".cu-frames",
        "f_0123456789abcdef0123456789abcdeg_0000000000000001.png",
        "f_0123456789abcdef0123456789abcdef_0000000000000001.tmp",
        ".f_0123456789abcdef0123456789abcdef_0000000000000001.png",
    ] {
        assert!(!is_managed_frame_name(other), "{other}");
    }
}

#[test]
fn locks_stand_beside_what_they_lock() {
    assert_eq!(
        resource_lock_path(Some("/run"), Some("frames")).unwrap(),
        "/run/.frames.lock"
    );
    assert!(resource_lock_path(None, Some("frames")).is_err());
    assert!(resource_lock_path(Some("/run"), None).is_err());
}
