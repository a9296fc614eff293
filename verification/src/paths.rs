//! Paths as byte strings, with `/` between components.
//!
//! A path is read the way a Unix file system reads it: separators that
//! repeat or trail count for nothing, and a lone `.` between separators
//! names the directory it stands in. The functions here find the name at the
//! end of a path, part it into stem and extension, and build and compare
//! paths, each against a mathematical statement of the result.

use vstd::prelude::*;

verus! {

/// The byte between two components of a path.
pub const SEPARATOR: u8 = 47;

/// The byte between a stem and its extension.
pub const DOT: u8 = 46;

/// Whether the last byte of `path` belongs to no component's name: it is a
/// separator, or a dot that makes up a component by itself.
pub open spec fn ends_in_filler(path: Seq<u8>) -> bool {
    path.len() > 0 && (path.last() == SEPARATOR || (path.last() == DOT && (path.len() == 1
        || path[path.len() - 2] == SEPARATOR)))
}

/// `path` without the separators and lone dots at its end.
pub open spec fn trimmed(path: Seq<u8>) -> Seq<u8>
    decreases path.len(),
{
    if ends_in_filler(path) {
        trimmed(path.drop_last())
    } else {
        path
    }
}

/// Where the last component of `path` begins: behind its last separator, or
/// at the start where it has none.
pub open spec fn last_component_start(path: Seq<u8>) -> int
    decreases path.len(),
{
    if path.len() == 0 {
        0
    } else if path.last() == SEPARATOR {
        path.len() as int
    } else {
        last_component_start(path.drop_last())
    }
}

/// The component that names the parent directory.
pub open spec fn parent_component() -> Seq<u8> {
    seq![DOT, DOT]
}

/// The name at the end of `path`: its last component, unless the path is
/// empty, is only a root, or ends in `..`.
pub open spec fn file_name_of(path: Seq<u8>) -> Option<Seq<u8>> {
    let kept = trimmed(path);
    let name = kept.subrange(last_component_start(kept), kept.len() as int);
    if kept.len() == 0 || name == parent_component() {
        None
    } else {
        Some(name)
    }
}

/// The index of the last dot in `name`.
pub open spec fn last_dot(name: Seq<u8>) -> Option<int>
    decreases name.len(),
{
    if name.len() == 0 {
        None
    } else if name.last() == DOT {
        Some(name.len() - 1)
    } else {
        last_dot(name.drop_last())
    }
}

/// Where `name` parts into stem and extension: at its last dot, unless that
/// dot is the first byte of the name.
pub open spec fn split_point(name: Seq<u8>) -> Option<int> {
    match last_dot(name) {
        Some(i) => if i > 0 {
            Some(i)
        } else {
            None
        },
        None => None,
    }
}

/// The stem of the name at the end of `path`: the name up to its split
/// point, or the whole name where it has none.
pub open spec fn file_stem_of(path: Seq<u8>) -> Option<Seq<u8>> {
    match file_name_of(path) {
        Some(name) => match split_point(name) {
            Some(i) => Some(name.subrange(0, i)),
            None => Some(name),
        },
        None => None,
    }
}

/// The extension of the name at the end of `path`: what follows its split
/// point, where it has one.
pub open spec fn extension_of(path: Seq<u8>) -> Option<Seq<u8>> {
    match file_name_of(path) {
        Some(name) => match split_point(name) {
            Some(i) => Some(name.subrange(i + 1, name.len() as int)),
            None => None,
        },
        None => None,
    }
}

/// `name` appended to `directory` as one more component. A name that
/// begins with a separator is a path from the root and stands alone.
pub open spec fn joined(directory: Seq<u8>, name: Seq<u8>) -> Seq<u8> {
    if name.len() > 0 && name[0] == SEPARATOR {
        name
    } else if directory.len() > 0 && directory.last() != SEPARATOR {
        directory + seq![SEPARATOR] + name
    } else {
        directory + name
    }
}

/// Whether `inner` is `outer` or lies below it. Both are resolved paths:
/// from the root, with one separator before each component and none at the
/// end; [`law_within_by_components`] says what the test comes to for them.
pub open spec fn is_within(inner: Seq<u8>, outer: Seq<u8>) -> bool {
    &&& outer.is_prefix_of(inner)
    &&& (inner.len() == outer.len() || outer.len() == 0 || outer.last() == SEPARATOR
        || inner[outer.len() as int] == SEPARATOR)
}

/// Whether `name` can be a component of a resolved path: it is not empty
/// and holds no separator.
pub open spec fn is_name(name: Seq<u8>) -> bool {
    name.len() > 0 && forall|j: int| 0 <= j < name.len() ==> name[j] != SEPARATOR
}

/// Whether all of `names` can be components of a resolved path.
pub open spec fn are_names(names: Seq<Seq<u8>>) -> bool {
    forall|i: int| 0 <= i < names.len() ==> is_name(#[trigger] names[i])
}

/// The components `names` in a row, a separator before each.
pub open spec fn below_root(names: Seq<Seq<u8>>) -> Seq<u8>
    decreases names.len(),
{
    if names.len() == 0 {
        Seq::empty()
    } else {
        seq![SEPARATOR] + names.first() + below_root(names.drop_first())
    }
}

/// The resolved path with the components `names`; the root where there are
/// none.
pub open spec fn resolved(names: Seq<Seq<u8>>) -> Seq<u8> {
    if names.len() == 0 {
        seq![SEPARATOR]
    } else {
        below_root(names)
    }
}

/// Components in a row begin with a separator and do not end in one.
proof fn lemma_below_root(names: Seq<Seq<u8>>)
    requires
        are_names(names),
        names.len() > 0,
    ensures
        below_root(names).len() >= 2,
        below_root(names)[0] == SEPARATOR,
        below_root(names).last() != SEPARATOR,
    decreases names.len(),
{
    let rest = names.drop_first();
    assert(is_name(names[0]));
    if rest.len() > 0 {
        assert forall|i: int| 0 <= i < rest.len() implies is_name(#[trigger] rest[i]) by {
            assert(rest[i] == names[i + 1]);
        }
        lemma_below_root(rest);
    } else {
        assert(below_root(rest) =~= Seq::empty());
        assert(below_root(names) =~= seq![SEPARATOR] + names[0]);
    }
}

/// Components that continue others continue their text.
proof fn lemma_below_root_of_prefix(inner: Seq<Seq<u8>>, outer: Seq<Seq<u8>>)
    requires
        outer.is_prefix_of(inner),
    ensures
        below_root(inner) == below_root(outer) + below_root(inner.skip(outer.len() as int)),
    decreases outer.len(),
{
    if outer.len() == 0 {
        assert(inner.skip(0) =~= inner);
        assert(below_root(outer) + below_root(inner) =~= below_root(inner));
    } else {
        assert(inner[0] == outer[0]);
        assert(outer.drop_first().is_prefix_of(inner.drop_first())) by {
            assert(outer.drop_first() =~= inner.drop_first().subrange(0, outer.len() - 1));
        }
        lemma_below_root_of_prefix(inner.drop_first(), outer.drop_first());
        assert(inner.drop_first().skip(outer.len() - 1) =~= inner.skip(outer.len() as int));
        assert(below_root(inner) =~= below_root(outer) + below_root(
            inner.skip(outer.len() as int),
        ));
    }
}

/// Whether the text of `outer` ends in the text of `inner` where a
/// component of `inner` ends.
spec fn ends_at_component(inner: Seq<Seq<u8>>, outer: Seq<Seq<u8>>) -> bool {
    &&& below_root(outer).is_prefix_of(below_root(inner))
    &&& (below_root(inner).len() == below_root(outer).len() || below_root(inner)[below_root(
        outer,
    ).len() as int] == SEPARATOR)
}

/// A text that ends where a component ends is the text of the first
/// components.
proof fn lemma_components_of_prefix(inner: Seq<Seq<u8>>, outer: Seq<Seq<u8>>)
    requires
        are_names(inner),
        are_names(outer),
        outer.len() > 0,
        ends_at_component(inner, outer),
    ensures
        outer.is_prefix_of(inner),
    decreases outer.len(),
{
    let whole = below_root(inner);
    let part = below_root(outer);
    lemma_below_root(outer);
    if inner.len() == 0 {
        assert(whole.len() == 0);
    } else {
        let first = inner[0];
        let wanted = outer[0];
        let rest = inner.drop_first();
        let others = outer.drop_first();
        assert(is_name(first));
        assert(is_name(wanted));
        assert forall|i: int| 0 <= i < rest.len() implies is_name(#[trigger] rest[i]) by {
            assert(rest[i] == inner[i + 1]);
        }
        assert forall|i: int| 0 <= i < others.len() implies is_name(#[trigger] others[i]) by {
            assert(others[i] == outer[i + 1]);
        }
        let after = below_root(rest);
        let behind = below_root(others);
        assert(whole == seq![SEPARATOR] + first + after);
        assert(part == seq![SEPARATOR] + wanted + behind);
        assert(part =~= whole.subrange(0, part.len() as int));
        if rest.len() > 0 {
            lemma_below_root(rest);
        } else {
            assert(after.len() == 0);
        }
        if others.len() > 0 {
            lemma_below_root(others);
        } else {
            assert(behind.len() == 0);
        }
        if wanted.len() < first.len() {
            let at = wanted.len() as int + 1;
            assert(whole[at] == first[wanted.len() as int]);
            if others.len() > 0 {
                assert(part[at] == behind[0]);
                assert(part[at] == whole[at]);
            }
            assert(false);
        }
        if wanted.len() > first.len() {
            let at = first.len() as int + 1;
            assert(part[at] == wanted[first.len() as int]);
            assert(part[at] == whole[at]);
            assert(whole[at] == after[0]);
            assert(false);
        }
        assert(wanted =~= first) by {
            assert forall|j: int| 0 <= j < first.len() implies wanted[j] == first[j] by {
                assert(part[1 + j] == wanted[j]);
                assert(whole[1 + j] == first[j]);
                assert(part[1 + j] == whole[1 + j]);
            }
        }
        let start = first.len() as int + 1;
        if others.len() > 0 {
            assert(behind =~= after.subrange(0, behind.len() as int)) by {
                assert forall|j: int| 0 <= j < behind.len() implies behind[j] == after[j] by {
                    assert(part[start + j] == behind[j]);
                    assert(part[start + j] == whole[start + j]);
                    assert(whole[start + j] == after[j]);
                }
            }
            if whole.len() != part.len() {
                assert(whole[part.len() as int] == after[behind.len() as int]);
            }
            lemma_components_of_prefix(rest, others);
            assert(others =~= rest.subrange(0, others.len() as int));
        }
        assert(outer =~= inner.subrange(0, outer.len() as int)) by {
            assert forall|i: int| 0 <= i < outer.len() implies outer[i] == inner[i] by {
                if i > 0 {
                    assert(outer[i] == others[i - 1]);
                    assert(inner[i] == rest[i - 1]);
                }
            }
        }
    }
}

/// Of two resolved paths, one is within the other exactly when it begins
/// with all the components of the other.
pub proof fn law_within_by_components(inner: Seq<Seq<u8>>, outer: Seq<Seq<u8>>)
    requires
        are_names(inner),
        are_names(outer),
    ensures
        is_within(resolved(inner), resolved(outer)) <==> outer.is_prefix_of(inner),
{
    if outer.len() == 0 {
        assert(outer.is_prefix_of(inner)) by {
            assert(outer =~= inner.subrange(0, 0));
        }
        if inner.len() > 0 {
            lemma_below_root(inner);
            assert(resolved(outer) =~= resolved(inner).subrange(0, 1));
        }
    } else {
        lemma_below_root(outer);
        if outer.is_prefix_of(inner) {
            let rest = inner.skip(outer.len() as int);
            lemma_below_root_of_prefix(inner, outer);
            assert(below_root(outer) =~= below_root(inner).subrange(
                0,
                below_root(outer).len() as int,
            ));
            if rest.len() > 0 {
                assert forall|i: int| 0 <= i < rest.len() implies is_name(#[trigger] rest[i]) by {
                    assert(rest[i] == inner[i + outer.len()]);
                }
                lemma_below_root(rest);
                assert(below_root(inner)[below_root(outer).len() as int] == below_root(rest)[0]);
            } else {
                assert(below_root(rest) =~= Seq::empty());
            }
        }
        if is_within(resolved(inner), resolved(outer)) {
            if inner.len() == 0 {
                assert(resolved(inner).len() == 1);
            } else {
                lemma_components_of_prefix(inner, outer);
            }
        }
    }
}

/// The last dot of a name is a dot, and no dot follows it.
pub proof fn lemma_last_dot(name: Seq<u8>)
    ensures
        match last_dot(name) {
            Some(i) => 0 <= i < name.len() && name[i] == DOT && forall|j: int|
                i < j < name.len() ==> name[j] != DOT,
            None => forall|j: int| 0 <= j < name.len() ==> name[j] != DOT,
        },
    decreases name.len(),
{
    if name.len() > 0 && name.last() != DOT {
        let front = name.drop_last();
        lemma_last_dot(front);
        assert forall|j: int| 0 <= j < name.len() - 1 implies name[j] == front[j] by {}
    }
}

/// What is left of a trimmed path is a prefix of the path that does not end
/// in filler.
pub proof fn lemma_trimmed(path: Seq<u8>)
    ensures
        trimmed(path).is_prefix_of(path),
        !ends_in_filler(trimmed(path)),
    decreases path.len(),
{
    if ends_in_filler(path) {
        lemma_trimmed(path.drop_last());
    }
}

/// The last component begins inside the path, behind a separator or at the
/// start, and holds no separator.
pub proof fn lemma_last_component(path: Seq<u8>)
    ensures
        0 <= last_component_start(path) <= path.len(),
        last_component_start(path) > 0 ==> path[last_component_start(path) - 1] == SEPARATOR,
        forall|j: int| last_component_start(path) <= j < path.len() ==> path[j] != SEPARATOR,
    decreases path.len(),
{
    if path.len() > 0 && path.last() != SEPARATOR {
        let front = path.drop_last();
        lemma_last_component(front);
        assert forall|j: int| 0 <= j < path.len() - 1 implies path[j] == front[j] by {}
    }
}

/// A file name is a piece of its path, is not empty, holds no separator, and
/// is neither `.` nor `..`.
pub proof fn lemma_file_name(path: Seq<u8>)
    requires
        file_name_of(path) is Some,
    ensures
        ({
            let name = file_name_of(path)->0;
            let start = last_component_start(trimmed(path));
            &&& name.len() > 0
            &&& 0 <= start && start + name.len() <= path.len()
            &&& name == path.subrange(start, start + name.len())
            &&& forall|j: int| 0 <= j < name.len() ==> name[j] != SEPARATOR
            &&& name != seq![DOT]
            &&& name != parent_component()
        }),
{
    let kept = trimmed(path);
    let start = last_component_start(kept);
    let name = kept.subrange(start, kept.len() as int);
    lemma_trimmed(path);
    lemma_last_component(kept);
    assert(name =~= path.subrange(start, start + name.len()));
    if start == kept.len() {
        assert(kept[start - 1] == SEPARATOR);
    }
    if name == seq![DOT] {
        assert(name.len() == 1);
        assert(name[0] == DOT);
        assert(kept.last() == DOT);
        assert(kept.len() >= 2 ==> kept[kept.len() - 2] == SEPARATOR);
    }
}

/// Stem, dot and extension make up the name again; a name without an
/// extension is its own stem.
pub proof fn lemma_stem_and_extension(path: Seq<u8>)
    requires
        file_name_of(path) is Some,
    ensures
        file_stem_of(path) is Some,
        file_stem_of(path)->0.len() > 0,
        forall|j: int| 0 <= j < file_stem_of(path)->0.len() ==> file_stem_of(path)->0[j] != SEPARATOR,
        match extension_of(path) {
            Some(extension) => {
                &&& file_name_of(path)->0 == file_stem_of(path)->0 + seq![DOT] + extension
                &&& forall|j: int|
                    0 <= j < extension.len() ==> extension[j] != SEPARATOR && extension[j] != DOT
            },
            None => file_name_of(path)->0 == file_stem_of(path)->0,
        },
{
    let name = file_name_of(path)->0;
    lemma_file_name(path);
    lemma_last_dot(name);
    match split_point(name) {
        Some(i) => {
            assert(name =~= name.subrange(0, i) + seq![DOT] + name.subrange(i + 1, name.len() as int));
        },
        None => {},
    }
}

/// Whether the first `n` bytes of `path` end in filler.
fn filler_ends(path: &Vec<u8>, n: usize) -> (b: bool)
    requires
        n <= path.len(),
    ensures
        b == ends_in_filler(path@.subrange(0, n as int)),
{
    if n == 0 {
        false
    } else if path[n - 1] == SEPARATOR {
        true
    } else if path[n - 1] == DOT {
        n == 1 || path[n - 2] == SEPARATOR
    } else {
        false
    }
}

/// The length of `path` without the filler at its end.
fn trimmed_len(path: &Vec<u8>) -> (n: usize)
    ensures
        n <= path.len(),
        trimmed(path@) == path@.subrange(0, n as int),
{
    let mut n: usize = path.len();
    assert(path@.subrange(0, n as int) =~= path@);
    while filler_ends(path, n)
        invariant
            n <= path.len(),
            trimmed(path@) == trimmed(path@.subrange(0, n as int)),
        decreases n,
    {
        assert(path@.subrange(0, n as int).drop_last() =~= path@.subrange(0, n - 1));
        n = n - 1;
    }
    n
}

/// Where the last component of the first `end` bytes of `path` begins.
fn component_start(path: &Vec<u8>, end: usize) -> (start: usize)
    requires
        end <= path.len(),
    ensures
        start <= end,
        start == last_component_start(path@.subrange(0, end as int)),
{
    let mut start: usize = end;
    let ghost whole = path@.subrange(0, end as int);
    assert(whole.subrange(0, end as int) =~= whole);
    while start > 0 && path[start - 1] != SEPARATOR
        invariant
            start <= end <= path.len(),
            whole == path@.subrange(0, end as int),
            last_component_start(whole) == last_component_start(whole.subrange(0, start as int)),
        decreases start,
    {
        assert(whole.subrange(0, start as int).drop_last() =~= whole.subrange(0, start - 1));
        start = start - 1;
    }
    start
}

/// The bytes of `bytes` from `from` up to `to`.
pub fn copy_range(bytes: &Vec<u8>, from: usize, to: usize) -> (piece: Vec<u8>)
    requires
        from <= to <= bytes.len(),
    ensures
        piece@ == bytes@.subrange(from as int, to as int),
{
    let mut piece: Vec<u8> = Vec::new();
    let mut i: usize = from;
    while i < to
        invariant
            from <= i <= to <= bytes.len(),
            piece@ == bytes@.subrange(from as int, i as int),
        decreases to - i,
    {
        piece.push(bytes[i]);
        i = i + 1;
        assert(piece@ =~= bytes@.subrange(from as int, i as int));
    }
    piece
}

/// Where the file name of `path` begins and ends in it.
fn name_bounds(path: &Vec<u8>) -> (bounds: Option<(usize, usize)>)
    ensures
        match bounds {
            Some((start, end)) => start <= end <= path.len() && file_name_of(path@) == Some(
                path@.subrange(start as int, end as int),
            ),
            None => file_name_of(path@) is None,
        },
{
    let end = trimmed_len(path);
    if end == 0 {
        return None;
    }
    let start = component_start(path, end);
    let ghost kept = path@.subrange(0, end as int);
    let ghost name = kept.subrange(start as int, end as int);
    assert(name =~= path@.subrange(start as int, end as int));
    if end - start == 2 && path[start] == DOT && path[start + 1] == DOT {
        assert(name =~= parent_component());
        None
    } else {
        assert(name != parent_component()) by {
            if name == parent_component() {
                assert(name.len() == 2);
                assert(name[0] == DOT && name[1] == DOT);
            }
        }
        Some((start, end))
    }
}

/// Where the name that fills `path` from `start` to `end` parts into stem
/// and extension.
fn dot_between(path: &Vec<u8>, start: usize, end: usize) -> (dot: Option<usize>)
    requires
        start <= end <= path.len(),
    ensures
        match dot {
            Some(i) => start < i < end && split_point(path@.subrange(start as int, end as int))
                == Some(i - start),
            None => split_point(path@.subrange(start as int, end as int)) is None,
        },
{
    let ghost name = path@.subrange(start as int, end as int);
    let mut i: usize = end;
    assert(name.subrange(0, i - start) =~= name);
    while i > start && path[i - 1] != DOT
        invariant
            start <= i <= end <= path.len(),
            name == path@.subrange(start as int, end as int),
            last_dot(name) == last_dot(name.subrange(0, i - start)),
        decreases i,
    {
        assert(name.subrange(0, i - start).drop_last() =~= name.subrange(0, i - 1 - start));
        i = i - 1;
    }
    if i - start > 1 {
        Some(i - 1)
    } else {
        None
    }
}

/// Bytes that may be missing, as a mathematical value.
pub open spec fn bytes_view(bytes: Option<Vec<u8>>) -> Option<Seq<u8>> {
    match bytes {
        Some(bytes) => Some(bytes@),
        None => None,
    }
}

/// The name at the end of `path`.
pub fn file_name(path: &Vec<u8>) -> (name: Option<Vec<u8>>)
    ensures
        bytes_view(name) == file_name_of(path@),
{
    match name_bounds(path) {
        Some((start, end)) => Some(copy_range(path, start, end)),
        None => None,
    }
}

/// The stem of the name at the end of `path`.
pub fn file_stem(path: &Vec<u8>) -> (stem: Option<Vec<u8>>)
    ensures
        bytes_view(stem) == file_stem_of(path@),
{
    match name_bounds(path) {
        Some((start, end)) => {
            let ghost name = path@.subrange(start as int, end as int);
            match dot_between(path, start, end) {
                Some(dot) => {
                    assert(name.subrange(0, dot - start) =~= path@.subrange(
                        start as int,
                        dot as int,
                    ));
                    Some(copy_range(path, start, dot))
                },
                None => Some(copy_range(path, start, end)),
            }
        },
        None => None,
    }
}

/// The extension of the name at the end of `path`.
pub fn extension(path: &Vec<u8>) -> (extension: Option<Vec<u8>>)
    ensures
        bytes_view(extension) == extension_of(path@),
{
    match name_bounds(path) {
        Some((start, end)) => {
            let ghost name = path@.subrange(start as int, end as int);
            match dot_between(path, start, end) {
                Some(dot) => {
                    assert(name.subrange(dot - start + 1, name.len() as int) =~= path@.subrange(
                        dot + 1,
                        end as int,
                    ));
                    Some(copy_range(path, dot + 1, end))
                },
                None => None,
            }
        },
        None => None,
    }
}

/// `name` appended to `directory` as one more component.
pub fn join(directory: &Vec<u8>, name: &Vec<u8>) -> (path: Vec<u8>)
    ensures
        path@ == joined(directory@, name@),
{
    let mut path: Vec<u8> = Vec::new();
    if !(name.len() > 0 && name[0] == SEPARATOR) {
        path = copy_range(directory, 0, directory.len());
        assert(path@ =~= directory@);
        if directory.len() > 0 && directory[directory.len() - 1] != SEPARATOR {
            path.push(SEPARATOR);
        }
    }
    let ghost front = path@;
    let mut i: usize = 0;
    while i < name.len()
        invariant
            i <= name.len(),
            path@ == front + name@.subrange(0, i as int),
        decreases name.len() - i,
    {
        path.push(name[i]);
        i = i + 1;
        assert(path@ =~= front + name@.subrange(0, i as int));
    }
    assert(name@.subrange(0, i as int) =~= name@);
    assert(Seq::<u8>::empty() + name@ =~= name@);
    path
}

/// Whether the resolved path `inner` is the resolved path `outer` or lies
/// below it.
pub fn starts_with(inner: &Vec<u8>, outer: &Vec<u8>) -> (within: bool)
    ensures
        within == is_within(inner@, outer@),
{
    if outer.len() > inner.len() {
        return false;
    }
    let mut i: usize = 0;
    while i < outer.len()
        invariant
            i <= outer.len() <= inner.len(),
            forall|j: int| 0 <= j < i ==> inner[j] == outer[j],
        decreases outer.len() - i,
    {
        if inner[i] != outer[i] {
            return false;
        }
        i = i + 1;
    }
    assert(outer@ =~= inner@.subrange(0, outer.len() as int));
    inner.len() == outer.len() || outer.len() == 0 || outer[outer.len() - 1] == SEPARATOR
        || inner[outer.len()] == SEPARATOR
}

} // verus!
