//! Who may have a frame store, what is taken for a frame in it, and where frames are kept.
use vstd::prelude::*;

use crate::protocol::CuErrorView;
use crate::store::{
    frame_name, frame_path, image_name, is_frame_file, lock_file_name, path_join, temporary_name,
    temporary_path, DirectoryStep, FileEventView, LeaseAttempt, LeaseStep, MarkerStep, ParentStep,
    RecoveryStep, StoreEventView,
};
use crate::text::{all_hex, hex_digits};
use crate::text_laws::{hex_digits_tell_their_number, is_numeral, numeral_value};

verus! {

/// Whether the characters of a text from one place to another are hexadecimal digits.
pub open spec fn hex_between(text: Seq<char>, from: int, to: int) -> bool {
    forall|i: int|
        from <= i < to ==> ('0' <= (#[trigger] text[i]) <= '9' || 'a' <= text[i] <= 'f' || 'A'
            <= text[i] <= 'F')
}

/// A file is taken for a frame exactly by its name: `f_`, 32 hexadecimal digits, an underscore, 16
/// hexadecimal digits and `.png`, or the same behind a dot with `.tmp`.
pub proof fn frames_are_told_by_their_name(name: Seq<char>)
    ensures
        is_frame_file(name) <==> {
            ||| {
                &&& name.len() == 55
                &&& name[0] == 'f' && name[1] == '_' && name[34] == '_'
                &&& hex_between(name, 2, 34) && hex_between(name, 35, 51)
                &&& name[51] == '.' && name[52] == 'p' && name[53] == 'n' && name[54] == 'g'
            }
            ||| {
                &&& name.len() == 56
                &&& name[0] == '.' && name[1] == 'f' && name[2] == '_' && name[35] == '_'
                &&& hex_between(name, 3, 35) && hex_between(name, 36, 52)
                &&& name[52] == '.' && name[53] == 't' && name[54] == 'm' && name[55] == 'p'
            }
        },
{
    reveal_strlit("f_");
    reveal_strlit(".f_");
    reveal_strlit("_");
    reveal_strlit(".png");
    reveal_strlit(".tmp");
    if is_frame_file(name) {
        let (session, revision) = choose|session: Seq<char>, revision: Seq<char>|
            all_hex(session, 32) && all_hex(revision, 16) && (name == #[trigger] image_name(
                session,
                revision,
            ) || name == temporary_name(session, revision));
        let start: int = if name == image_name(session, revision) {
            2
        } else {
            3
        };
        assert forall|i: int| start <= i < start + 32 implies ('0' <= (#[trigger] name[i]) <= '9'
            || 'a' <= name[i] <= 'f' || 'A' <= name[i] <= 'F') by {
            assert(name[i] == session[i - start]);
        }
        assert forall|i: int| start + 33 <= i < start + 49 implies ('0' <= (#[trigger] name[i])
            <= '9' || 'a' <= name[i] <= 'f' || 'A' <= name[i] <= 'F') by {
            assert(name[i] == revision[i - start - 33]);
        }
    }
    if name.len() == 55 && hex_between(name, 2, 34) && hex_between(name, 35, 51) {
        let session = name.subrange(2, 34);
        let revision = name.subrange(35, 51);
        assert forall|i: int| 0 <= i < 32 implies crate::text::is_hex_digit(
            #[trigger] session[i],
        ) by {
            assert(session[i] == name[i + 2]);
        }
        assert forall|i: int| 0 <= i < 16 implies crate::text::is_hex_digit(
            #[trigger] revision[i],
        ) by {
            assert(revision[i] == name[i + 35]);
        }
        if name[0] == 'f' && name[1] == '_' && name[34] == '_' && name[51] == '.' && name[52] == 'p'
            && name[53] == 'n' && name[54] == 'g' {
            assert(name =~= image_name(session, revision));
        }
    }
    if name.len() == 56 && hex_between(name, 3, 35) && hex_between(name, 36, 52) {
        let session = name.subrange(3, 35);
        let revision = name.subrange(36, 52);
        assert forall|i: int| 0 <= i < 32 implies crate::text::is_hex_digit(
            #[trigger] session[i],
        ) by {
            assert(session[i] == name[i + 3]);
        }
        assert forall|i: int| 0 <= i < 16 implies crate::text::is_hex_digit(
            #[trigger] revision[i],
        ) by {
            assert(revision[i] == name[i + 36]);
        }
        if name[0] == '.' && name[1] == 'f' && name[2] == '_' && name[35] == '_' && name[52] == '.'
            && name[53] == 't' && name[54] == 'm' && name[55] == 'p' {
            assert(name =~= temporary_name(session, revision));
            assert(image_name(session, revision) == image_name(session, revision));
        }
    }
}

/// A frame lies in its directory under its identifier and `.png`; while it is written it lies
/// there under another name. Different identifiers have different paths.
pub proof fn frames_lie_in_their_directory(directory: Seq<char>, id: Seq<char>, other: Seq<char>)
    requires
        directory.len() > 0,
        directory.last() != '/',
        id.len() > 0,
        id[0] != '/',
        other.len() > 0,
        other[0] != '/',
    ensures
        frame_path(directory, id) == directory.push('/') + id + seq!['.', 'p', 'n', 'g'],
        temporary_path(directory, id) == directory.push('/').push('.') + id + seq![
            '.',
            't',
            'm',
            'p',
        ],
        frame_path(directory, id) != temporary_path(directory, other),
        frame_path(directory, id) == frame_path(directory, other) ==> id == other,
{
    reveal_strlit("/");
    reveal_strlit(".");
    reveal_strlit(".png");
    reveal_strlit(".tmp");
    let path = frame_path(directory, id);
    let unpublished = temporary_path(directory, other);
    assert((id + ".png"@)[0] == id[0]);
    assert(("."@ + id + ".tmp"@)[0] == '.');
    assert(("."@ + other + ".tmp"@)[0] == '.');
    assert((other + ".png"@)[0] == other[0]);
    assert(path =~= directory.push('/') + id + seq!['.', 'p', 'n', 'g']);
    assert(temporary_path(directory, id) =~= directory.push('/').push('.') + id + seq![
        '.',
        't',
        'm',
        'p',
    ]);
    assert(path[path.len() - 1] == 'g');
    assert(unpublished[unpublished.len() - 1] == 'p');
    if path == frame_path(directory, other) {
        let start = directory.len() as int + 1;
        assert(id =~= path.subrange(start, path.len() - 4));
        assert(other =~= path.subrange(start, path.len() - 4));
    }
}

/// A path under a directory is the directory, one slash and the name; an absolute name stays as it
/// is.
pub proof fn paths_are_joined_by_one_slash(directory: Seq<char>, name: Seq<char>)
    ensures
        name.len() > 0 && name[0] == '/' ==> path_join(directory, name) == name,
        !(name.len() > 0 && name[0] == '/') && directory.len() > 0 && directory.last() != '/'
            ==> path_join(directory, name) == directory.push('/') + name,
        !(name.len() > 0 && name[0] == '/') && (directory.len() == 0 || directory.last() == '/')
            ==> path_join(directory, name) == directory + name,
{
    reveal_strlit("/");
    if directory.len() > 0 {
        assert(directory + "/"@ =~= directory.push('/'));
    }
}

/// A lease is taken in one order. Its file has to be a regular one with one name that belongs to
/// the user; it is restricted before it is locked, and after the lock its path has to lead to the
/// very file that was opened, and not over a link. A lock that another process has is a conflict,
/// and everything else that fails is internal.
pub proof fn leases_are_taken_step_by_step(attempt: LeaseAttempt, event: FileEventView)
    requires
        attempt.expects(event),
    ensures
        event is Failed ==> (attempt.next(event) matches Err(error) && error.code is Internal),
        event is Blocked ==> attempt.step is Lock && (attempt.next(event) matches Err(error)
            && error.code is LeaseConflict),
        event is Done ==> attempt.next(event) == Ok::<LeaseStep, CuErrorView>(
            match attempt.step {
                LeaseStep::Open => LeaseStep::Inspect,
                LeaseStep::Protect => LeaseStep::Lock,
                LeaseStep::Lock => LeaseStep::Verify,
                LeaseStep::Reset => LeaseStep::Seek,
                LeaseStep::Seek => LeaseStep::Record,
                _ => LeaseStep::Held,
            },
        ),
        attempt.step is Inspect ==> (event matches FileEventView::Found(facts) ==> if facts.is_file
            && facts.uid == attempt.euid && facts.nlink == 1 {
            attempt.next(event) == Ok::<LeaseStep, CuErrorView>(LeaseStep::Protect)
        } else {
            attempt.next(event) matches Err(error) && error.code is Internal
        }),
        attempt.step is Verify ==> (event matches FileEventView::Found(facts) ==> if !facts.is_symlink
            && (attempt.opened matches Some(opened) && facts.dev == opened.dev && facts.ino
            == opened.ino) {
            attempt.next(event) == Ok::<LeaseStep, CuErrorView>(LeaseStep::Reset)
        } else {
            attempt.next(event) matches Err(error) && error.code is Internal
        }),
{
}

/// A directory that exists is used exactly where it is a real one that belongs to the user and that
/// nobody else can reach; one that does not is created and then restricted, and so is its parent.
pub proof fn directories_are_private(
    step: DirectoryStep,
    parent: ParentStep,
    event: FileEventView,
    euid: u32,
    path: Seq<char>,
)
    ensures
        step.expects(event) && event is Failed ==> step.next(event, euid, path) is Err,
        parent.expects(event) && event is Failed ==> parent.next(event) is Err,
        step is Inspect ==> (event matches FileEventView::Found(facts) ==> if facts.is_dir
            && !facts.is_symlink && facts.uid == euid && facts.mode % 64 == 0 {
            step.next(event, euid, path) == Ok::<DirectoryStep, CuErrorView>(DirectoryStep::Ready)
        } else {
            step.next(event, euid, path) matches Err(error) && error.code is Internal
        }),
        step is Inspect && event is Missing ==> step.next(event, euid, path) == Ok::<
            DirectoryStep,
            CuErrorView,
        >(DirectoryStep::Create),
        step is Create && event is Done ==> step.next(event, euid, path) == Ok::<
            DirectoryStep,
            CuErrorView,
        >(DirectoryStep::Protect),
        step is Protect && event is Done ==> step.next(event, euid, path) == Ok::<
            DirectoryStep,
            CuErrorView,
        >(DirectoryStep::Ready),
        parent is Inspect && event is Found ==> parent.next(event) == Ok::<ParentStep, CuErrorView>(
            ParentStep::Ready,
        ),
        parent is Inspect && event is Missing ==> parent.next(event) == Ok::<
            ParentStep,
            CuErrorView,
        >(ParentStep::Create),
        parent is Create && event is Done ==> parent.next(event) == Ok::<ParentStep, CuErrorView>(
            ParentStep::Protect,
        ),
        parent is Protect && event is Done ==> parent.next(event) == Ok::<ParentStep, CuErrorView>(
            ParentStep::Ready,
        ),
{
    if let FileEventView::Found(facts) = event {
        let mode = facts.mode;
        assert(mode & 0o077 == mode % 64) by (bit_vector);
    }
}

/// A store is adopted by its marker, which has to be a regular file with the known version, or,
/// without a marker, where every entry is a frame and a regular file; the marker is then created
/// and written.
pub proof fn stores_are_adopted_by_their_marker(
    step: MarkerStep,
    event: StoreEventView,
    directory: Seq<char>,
)
    requires
        step.expects(event),
    ensures
        event is Failed ==> (step.next(event, directory) matches Err(error) && error.code
            is Internal),
        step is Inspect ==> match event {
            StoreEventView::Found(facts) => if facts.is_file && !facts.is_symlink {
                step.next(event, directory) == Ok::<MarkerStep, CuErrorView>(MarkerStep::Read)
            } else {
                step.next(event, directory) is Err
            },
            StoreEventView::Missing => step.next(event, directory) == Ok::<MarkerStep, CuErrorView>(
                MarkerStep::OpenDirectory,
            ),
            _ => true,
        },
        step is Read ==> (event matches StoreEventView::Contents(text) ==> if text
            == "cu-frames 1\n"@ {
            step.next(event, directory) == Ok::<MarkerStep, CuErrorView>(MarkerStep::Ready)
        } else {
            step.next(event, directory) is Err
        }),
        step is OpenDirectory && event is Done ==> step.next(event, directory) == Ok::<
            MarkerStep,
            CuErrorView,
        >(MarkerStep::NextEntry),
        step is NextEntry ==> match event {
            StoreEventView::Entry(name) => if name is Some && is_frame_file(name->0) {
                step.next(event, directory) == Ok::<MarkerStep, CuErrorView>(
                    MarkerStep::InspectEntry,
                )
            } else {
                step.next(event, directory) is Err
            },
            StoreEventView::End => step.next(event, directory) == Ok::<MarkerStep, CuErrorView>(
                MarkerStep::Create,
            ),
            _ => true,
        },
        step is InspectEntry ==> (event matches StoreEventView::Found(facts) ==> if facts.is_file
            && !facts.is_symlink {
            step.next(event, directory) == Ok::<MarkerStep, CuErrorView>(MarkerStep::NextEntry)
        } else {
            step.next(event, directory) is Err
        }),
        step is Create && event is Done ==> step.next(event, directory) == Ok::<
            MarkerStep,
            CuErrorView,
        >(MarkerStep::Write),
        step is Write && event is Done ==> step.next(event, directory) == Ok::<
            MarkerStep,
            CuErrorView,
        >(MarkerStep::Ready),
{
}

/// What an earlier owner left in a store is removed entry by entry: a frame that is a regular file
/// is removed, one that is not ends the recovery, and the marker and every other entry stay.
pub proof fn leftovers_are_removed_one_by_one(step: RecoveryStep, event: StoreEventView)
    requires
        step.expects(event),
    ensures
        event is Failed ==> (step.next(event) matches Err(error) && error.code is Internal),
        step is OpenDirectory && event is Done ==> step.next(event) == Ok::<
            RecoveryStep,
            CuErrorView,
        >(RecoveryStep::NextEntry),
        step is NextEntry || step is Ignore ==> match event {
            StoreEventView::Entry(name) => if name == Some(".cu-frames"@) {
                step.next(event) == Ok::<RecoveryStep, CuErrorView>(RecoveryStep::NextEntry)
            } else if name is Some && is_frame_file(name->0) {
                step.next(event) == Ok::<RecoveryStep, CuErrorView>(RecoveryStep::InspectEntry)
            } else {
                step.next(event) == Ok::<RecoveryStep, CuErrorView>(RecoveryStep::Ignore)
            },
            StoreEventView::End => step.next(event) == Ok::<RecoveryStep, CuErrorView>(
                RecoveryStep::Ready,
            ),
            _ => true,
        },
        step is InspectEntry ==> (event matches StoreEventView::Found(facts) ==> if facts.is_file
            && !facts.is_symlink {
            step.next(event) == Ok::<RecoveryStep, CuErrorView>(RecoveryStep::Remove)
        } else {
            step.next(event) is Err
        }),
        step is Remove && event is Done ==> step.next(event) == Ok::<RecoveryStep, CuErrorView>(
            RecoveryStep::NextEntry,
        ),
{
}

/// The identifier of a frame is `f_`, the session, an underscore, and sixteen hexadecimal digits
/// in lower case that stand for its revision.
pub proof fn identifiers_tell_their_revision(session: Seq<char>, revision: u64)
    ensures
        ({
            let id = frame_name(session, revision);
            let n = session.len() as int;
            &&& id.len() == n + 19
            &&& id[0] == 'f' && id[1] == '_'
            &&& id.subrange(2, n + 2) == session
            &&& id[n + 2] == '_'
            &&& numeral_value(id.subrange(n + 3, n + 19), 16) == revision
            &&& is_numeral(id.subrange(n + 3, n + 19), 16)
        }),
{
    reveal_strlit("f_");
    reveal_strlit("_");
    assert(vstd::arithmetic::power::pow(16, 16) == 0x1_0000_0000_0000_0000) by {
        reveal_with_fuel(vstd::arithmetic::power::pow, 17);
    }
    hex_digits_tell_their_number(revision as nat, 16);
    let id = frame_name(session, revision);
    let n = session.len() as int;
    assert(id.subrange(2, n + 2) =~= session);
    assert(id.subrange(n + 3, n + 19) =~= hex_digits(revision as nat, 16));
}

/// The lock of a resource is a hidden file beside it; different resources have different locks.
pub proof fn locks_are_hidden_beside_their_resource(name: Seq<char>, other: Seq<char>)
    ensures
        lock_file_name(name).len() == name.len() + 6,
        lock_file_name(name)[0] == '.',
        lock_file_name(name).subrange(1, name.len() as int + 1) == name,
        lock_file_name(name) == lock_file_name(other) ==> name == other,
{
    reveal_strlit(".");
    reveal_strlit(".lock");
    assert(lock_file_name(name).subrange(1, name.len() as int + 1) =~= name);
    if lock_file_name(name) == lock_file_name(other) {
        assert(lock_file_name(other).subrange(1, other.len() as int + 1) =~= other);
    }
}

} // verus!
