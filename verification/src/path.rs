//! The components of Unix paths.
use vstd::prelude::*;

use crate::store::path_join;
use crate::text::{chars_of, same_text, text_of};

verus! {

/// A component as it is kept: nothing for an empty one, and nothing for the current directory but
/// at the start of a relative path.
pub open spec fn kept(earlier: Seq<Seq<char>>, absolute: bool, segment: Seq<char>) -> Seq<Seq<char>> {
    if segment.len() == 0 || (segment == "."@ && (absolute || earlier.len() > 0)) {
        earlier
    } else {
        earlier.push(segment)
    }
}

/// The place after the last separator before `end`, or the start.
pub open spec fn segment_start(path: Seq<char>, end: int) -> int
    decreases end,
{
    if end <= 0 {
        0
    } else if path[end - 1] == '/' {
        end
    } else {
        segment_start(path, end - 1)
    }
}

/// The components of the part of a path before `end`, where a component ends.
pub open spec fn components_before(path: Seq<char>, absolute: bool, end: int) -> Seq<Seq<char>>
    decreases end,
{
    if end < 0 || end > path.len() {
        Seq::empty()
    } else {
        let start = segment_start(path, end);
        let segment = path.subrange(start, end);
        if start <= 0 || start > end {
            kept(Seq::empty(), absolute, segment)
        } else {
            kept(components_before(path, absolute, start - 1), absolute, segment)
        }
    }
}

/// Whether a path starts at the root.
pub open spec fn rooted(path: Seq<char>) -> bool {
    path.len() > 0 && path[0] == '/'
}

/// The components of a path after its root: the texts between separators, without empty ones and
/// without the current directory but at the start of a relative path.
pub open spec fn components(path: Seq<char>) -> Seq<Seq<char>> {
    components_before(path, rooted(path), path.len() as int)
}

proof fn segment_starts_at(path: Seq<char>, start: int, end: int)
    requires
        0 <= start <= end <= path.len(),
        start == 0 || path[start - 1] == '/',
        forall|i: int| start <= i < end ==> path[i] != '/',
    ensures
        segment_start(path, end) == start,
    decreases end - start,
{
    if end > start {
        segment_starts_at(path, start, end - 1);
    }
}

/// The texts of a list of components.
pub open spec fn parts(list: Seq<String>) -> Seq<Seq<char>> {
    Seq::new(list.len(), |i: int| list[i]@)
}

fn keep(list: &mut Vec<String>, absolute: bool, segment: String)
    ensures
        parts(final(list)@) == kept(parts(old(list)@), absolute, segment@),
{
    if segment.as_str().is_empty() {
        return;
    }
    if (absolute || list.len() > 0) && same_text(&segment, ".") {
        return;
    }
    let ghost before = parts(list@);
    list.push(segment);
    assert(parts(list@) =~= before.push(segment@));
}

/// The components of a path after its root.
pub fn path_components(path: &str) -> (list: Vec<String>)
    ensures
        parts(list@) == components(path@),
{
    let chars = chars_of(path);
    let absolute = chars.len() > 0 && chars[0] == '/';
    let mut list: Vec<String> = Vec::new();
    let mut start: usize = 0;
    let mut n: usize = 0;
    assert(parts(list@) =~= Seq::empty());
    while n < chars.len()
        invariant
            chars@ == path@,
            absolute == rooted(path@),
            start <= n <= chars.len(),
            start == 0 || path@[start - 1] == '/',
            forall|i: int| start <= i < n ==> path@[i] != '/',
            start == 0 ==> parts(list@) == Seq::<Seq<char>>::empty(),
            start > 0 ==> parts(list@) == components_before(path@, absolute, start - 1),
        decreases chars.len() - n,
    {
        if chars[n] == '/' {
            let segment = text_of(&chars, start, n);
            proof {
                segment_starts_at(path@, start as int, n as int);
            }
            keep(&mut list, absolute, segment);
            start = n + 1;
        }
        n += 1;
    }
    let segment = text_of(&chars, start, n);
    proof {
        segment_starts_at(path@, start as int, n as int);
    }
    keep(&mut list, absolute, segment);
    list
}

/// Whether a path starts at the same place as another one and has its components first.
pub open spec fn lies_within(path: Seq<char>, base: Seq<char>) -> bool {
    rooted(path) == rooted(base) && components(base).is_prefix_of(components(path))
}

/// Whether a path lies at or below another one. Every path lies below one that names nothing.
pub open spec fn lies_under(path: Seq<char>, base: Seq<char>) -> bool {
    lies_within(path, base) || (!rooted(base) && components(base).len() == 0)
}

/// Whether a path starts at the same place as another one and has its components first.
pub fn is_within(path: &str, base: &str) -> (result: bool)
    ensures
        result == lies_within(path@, base@),
{
    let path_rooted = !path.is_empty() && path.get_char(0) == '/';
    let base_rooted = !base.is_empty() && base.get_char(0) == '/';
    if path_rooted != base_rooted {
        return false;
    }
    let path_list = path_components(path);
    let base_list = path_components(base);
    if base_list.len() > path_list.len() {
        return false;
    }
    let mut n: usize = 0;
    while n < base_list.len()
        invariant
            n <= base_list.len() <= path_list.len(),
            parts(base_list@) == components(base@),
            parts(path_list@) == components(path@),
            forall|i: int| 0 <= i < n ==> components(base@)[i] == components(path@)[i],
        decreases base_list.len() - n,
    {
        assert(components(base@)[n as int] == base_list[n as int]@);
        assert(components(path@)[n as int] == path_list[n as int]@);
        if !same_text(&base_list[n], &path_list[n]) {
            return false;
        }
        n += 1;
    }
    assert(components(base@) =~= components(path@).take(components(base@).len() as int));
    true
}

/// Whether a path lies at or below another one.
pub fn starts_with(path: &str, base: &str) -> (result: bool)
    ensures
        result == lies_under(path@, base@),
{
    let base_rooted = !base.is_empty() && base.get_char(0) == '/';
    let list = path_components(base);
    assert(parts(list@).len() == list.len());
    (!base_rooted && list.len() == 0) || is_within(path, base)
}

/// A path lies under itself, and under whatever a path lies under that it lies under.
pub proof fn lying_under_is_a_preorder(first: Seq<char>, second: Seq<char>, third: Seq<char>)
    ensures
        lies_under(first, first),
        lies_under(first, second) && lies_under(second, third) ==> lies_under(first, third),
{
    if lies_under(first, second) && lies_under(second, third) {
        let a = components(first);
        let b = components(second);
        let c = components(third);
        assert(c =~= a.take(c.len() as int)) by {
            assert forall|i: int| 0 <= i < c.len() implies c[i] == a[i] by {
                assert(c[i] == b[i]);
                assert(b[i] == a[i]);
            }
        }
    }
}

/// Whether a text is one component of a path.
pub open spec fn is_component(segment: Seq<char>) -> bool {
    &&& segment.len() > 0
    &&& segment != "."@
    &&& forall|i: int| 0 <= i < segment.len() ==> segment[i] != '/'
}

proof fn segment_start_is_local(path: Seq<char>, longer: Seq<char>, end: int)
    requires
        0 <= end <= path.len() <= longer.len(),
        forall|i: int| 0 <= i < end ==> path[i] == longer[i],
    ensures
        segment_start(path, end) == segment_start(longer, end),
        0 <= segment_start(path, end) <= end,
    decreases end,
{
    if end > 0 && path[end - 1] != '/' {
        segment_start_is_local(path, longer, end - 1);
    }
}

proof fn components_are_local(path: Seq<char>, longer: Seq<char>, absolute: bool, end: int)
    requires
        0 <= end <= path.len() <= longer.len(),
        forall|i: int| 0 <= i < end ==> path[i] == longer[i],
    ensures
        components_before(path, absolute, end) == components_before(longer, absolute, end),
    decreases end,
{
    segment_start_is_local(path, longer, end);
    let start = segment_start(path, end);
    assert(path.subrange(start, end) =~= longer.subrange(start, end));
    if start > 0 {
        components_are_local(path, longer, absolute, start - 1);
    }
}

/// Joining a component to a path adds it to the path's components, and keeps the path's root.
pub proof fn joined_paths_gain_a_component(path: Seq<char>, segment: Seq<char>)
    requires
        is_component(segment),
    ensures
        components(path_join(path, segment)) == components(path).push(segment),
        rooted(path_join(path, segment)) == rooted(path),
{
    let joined = path_join(path, segment);
    let absolute = rooted(joined);
    let end = joined.len() as int;
    if path.len() == 0 {
        assert(joined =~= segment);
        segment_starts_at(joined, 0, end);
        assert(joined.subrange(0, end) =~= segment);
        assert(path.subrange(0, 0) =~= Seq::empty());
    } else if path.last() == '/' {
        let start = path.len() as int;
        segment_starts_at(joined, start, end);
        assert(joined.subrange(start, end) =~= segment);
        segment_starts_at(path, start, start);
        assert(path.subrange(start, start) =~= Seq::empty());
        components_are_local(path, joined, absolute, start - 1);
    } else {
        reveal_strlit("/");
        let start = path.len() as int + 1;
        assert(joined[start - 1] == '/');
        segment_starts_at(joined, start, end);
        assert(joined.subrange(start, end) =~= segment);
        components_are_local(path, joined, absolute, start - 1);
    }
}

} // verus!
