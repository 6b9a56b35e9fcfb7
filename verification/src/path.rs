//! The grammar of paths.
//!
//! A path is a run of segments divided by `/`. An empty segment and the
//! segment `.` name nothing. The file name of a path is its last segment that
//! names something, unless that segment is `..`. This is how `std::path`
//! reads a path on Unix.
//!
//! The model finds the final segment by its bounds, [`name_start`] and
//! [`name_end`]. [`lemma_parts`] and [`lemma_final_segment`] say what these
//! bounds are without naming how they are found: the one division of the path
//! into what precedes the segment, the segment, and a rest that names
//! nothing.

use vstd::prelude::*;
use vstd::string::StrSliceExecFns;

verus! {

/// Where the last segment that names something ends: `path` without the
/// separators and `.` segments that trail it.
pub open spec fn name_end(path: Seq<char>) -> nat
    decreases path.len(),
{
    if path.len() == 0 {
        0
    } else if path.last() == '/' {
        name_end(path.drop_last())
    } else if path.last() == '.' && (path.len() == 1 || path[path.len() - 2] == '/') {
        name_end(path.drop_last())
    } else {
        path.len()
    }
}

/// Where the segment that ends at `end` starts: behind the nearest separator
/// before `end`, or at 0.
pub open spec fn segment_start(path: Seq<char>, end: nat) -> nat
    decreases end,
{
    if end == 0 || path[end - 1] == '/' {
        end
    } else {
        segment_start(path, (end - 1) as nat)
    }
}

/// Where the last segment that names something starts.
pub open spec fn name_start(path: Seq<char>) -> nat {
    segment_start(path, name_end(path))
}

/// The last segment of `path` that names something.
pub open spec fn final_segment(path: Seq<char>) -> Seq<char> {
    path.subrange(name_start(path) as int, name_end(path) as int)
}

/// The file name of `path`: its final segment, where there is one and it is
/// not `..`.
pub open spec fn spec_file_name(path: Seq<char>) -> Option<Seq<char>> {
    let name = final_segment(path);
    if name.len() == 0 || name =~= seq!['.', '.'] {
        None
    } else {
        Some(name)
    }
}

/// `path` with `name` in the place of its final segment. What trails the
/// final segment is dropped; what precedes it stays as it is written.
pub open spec fn with_file_name(path: Seq<char>, name: Seq<char>) -> Seq<char> {
    path.subrange(0, name_start(path) as int) + name
}

/// A segment that names something: not empty, without a separator, and not
/// `.`.
pub open spec fn is_segment(segment: Seq<char>) -> bool {
    &&& segment.len() > 0
    &&& !segment.contains('/')
    &&& segment != seq!['.']
}

/// A name that can stand as the file name of a path: a segment that names
/// something and is not `..`.
pub open spec fn is_name(name: Seq<char>) -> bool {
    is_segment(name) && name != seq!['.', '.']
}

/// Whether no segment of `rest` names anything: every character is a
/// separator, or a dot that stands alone between separators or the ends.
pub open spec fn names_nothing(rest: Seq<char>) -> bool {
    forall|i: int|
        0 <= i < rest.len() ==> #[trigger] rest[i] == '/' || (rest[i] == '.' && (i == 0 || rest[i
            - 1] == '/') && (i + 1 == rest.len() || rest[i + 1] == '/'))
}

/// Every path is made of three parts: what stands before the final segment,
/// ending with a separator where it is not empty; the final segment, which
/// names something where it is not empty; and what trails it, which starts
/// with a separator and names nothing. Where the final segment is empty, the
/// whole path names nothing.
pub proof fn lemma_parts(path: Seq<char>)
    ensures
        name_start(path) <= name_end(path) <= path.len(),
        name_start(path) > 0 ==> path[name_start(path) - 1] == '/',
        forall|i: int| name_start(path) <= i < name_end(path) ==> path[i] != '/',
        final_segment(path).len() > 0 ==> is_segment(final_segment(path)),
        final_segment(path).len() == 0 ==> name_end(path) == 0,
        0 < name_end(path) < path.len() ==> path[name_end(path) as int] == '/',
        names_nothing(path.skip(name_end(path) as int)),
{
    lemma_name_end(path);
    lemma_segment_start(path, name_end(path));
    let name = final_segment(path);
    if name.len() > 0 {
        if name.contains('/') {
            let i = choose|i: int| 0 <= i < name.len() && name[i] == '/';
            assert(path[name_start(path) + i] == '/');
        }
        if name == seq!['.'] {
            assert(name.len() == 1);
            assert(name[0] == '.');
        }
    }
}

/// The three parts determine the final segment: a segment that names
/// something, standing at the start of the path or behind a separator and
/// trailed by nothing that names anything, is the final segment.
pub proof fn lemma_final_segment(parent: Seq<char>, segment: Seq<char>, rest: Seq<char>)
    requires
        parent.len() == 0 || parent.last() == '/',
        is_segment(segment),
        rest.len() == 0 || rest[0] == '/',
        names_nothing(rest),
    ensures
        name_start(parent + segment + rest) == parent.len(),
        name_end(parent + segment + rest) == parent.len() + segment.len(),
        final_segment(parent + segment + rest) == segment,
    decreases rest.len(),
{
    let path = parent + segment + rest;
    let end = parent.len() + segment.len();
    assert forall|i: int| 0 <= i < segment.len() implies segment[i] != '/' by {
        if segment[i] == '/' {
            assert(segment.contains('/'));
        }
    }
    if rest.len() == 0 {
        assert(path.last() == segment.last());
        if segment.last() == '.' {
            if segment.len() == 1 {
                assert(segment == seq!['.']);
            }
            assert(path[path.len() - 2] == segment[segment.len() - 2]);
        }
        assert(name_end(path) == end);
    } else {
        let shorter = rest.drop_last();
        let last = rest.len() - 1;
        assert(rest[last] == '/' || rest[last] == '.');
        assert(path.last() == rest[last]);
        if rest[last] == '.' {
            assert(last > 0 && rest[last - 1] == '/');
            assert(path[path.len() - 2] == rest[last - 1]);
        }
        assert(path.drop_last() == parent + segment + shorter);
        assert(names_nothing(shorter)) by {
            assert forall|i: int| 0 <= i < shorter.len() implies #[trigger] shorter[i] == '/' || (
            shorter[i] == '.' && (i == 0 || shorter[i - 1] == '/') && (i + 1 == shorter.len()
                || shorter[i + 1] == '/')) by {
                assert(rest[i] == shorter[i]);
            }
        }
        lemma_final_segment(parent, segment, shorter);
        assert(name_end(path) == end);
    }
    assert(parent.len() > 0 ==> path[parent.len() - 1] == parent.last());
    assert forall|i: int| parent.len() <= i < end implies path[i] != '/' by {
        assert(path[i] == segment[i - parent.len()]);
    }
    lemma_segment_over_name(path, parent.len(), segment.len());
    assert(path.subrange(parent.len() as int, end as int) == segment);
}

/// A path of which no segment names anything has no file name, and a path
/// without a final segment is such a path.
pub proof fn lemma_names_nothing(path: Seq<char>)
    ensures
        names_nothing(path) <==> final_segment(path).len() == 0,
        names_nothing(path) ==> spec_file_name(path) is None,
    decreases path.len(),
{
    lemma_parts(path);
    if names_nothing(path) {
        if path.len() > 0 {
            let shorter = path.drop_last();
            let last = path.len() - 1;
            assert(path[last] == '/' || path[last] == '.');
            assert(names_nothing(shorter)) by {
                assert forall|i: int| 0 <= i < shorter.len() implies #[trigger] shorter[i] == '/'
                    || (shorter[i] == '.' && (i == 0 || shorter[i - 1] == '/') && (i + 1
                    == shorter.len() || shorter[i + 1] == '/')) by {
                    assert(path[i] == shorter[i]);
                }
            }
            lemma_names_nothing(shorter);
            lemma_parts(shorter);
            assert(name_end(path) == name_end(shorter));
        }
        assert(name_end(path) == 0);
    } else if final_segment(path).len() == 0 {
        assert(path.skip(0) == path);
    }
}

/// Putting a name in the place of the final segment makes it the file name:
/// the new path ends with it, starts it where the old final segment started,
/// and keeps what stood before.
pub proof fn lemma_with_file_name(path: Seq<char>, name: Seq<char>)
    requires
        is_name(name),
    ensures
        name_end(with_file_name(path, name)) == with_file_name(path, name).len(),
        name_start(with_file_name(path, name)) == name_start(path),
        with_file_name(path, name).subrange(0, name_start(path) as int) == path.subrange(
            0,
            name_start(path) as int,
        ),
        spec_file_name(with_file_name(path, name)) == Some(name),
        forall|other: Seq<char>| #[trigger]
            with_file_name(with_file_name(path, name), other) == with_file_name(path, other),
{
    lemma_parts(path);
    let start = name_start(path);
    let parent = path.subrange(0, start as int);
    let dest = with_file_name(path, name);
    lemma_final_segment(parent, name, Seq::empty());
    assert(parent + name + Seq::<char>::empty() == dest);
    assert(dest.subrange(0, start as int) == parent);
    assert forall|other: Seq<char>| #[trigger]
        with_file_name(dest, other) == with_file_name(path, other) by {}
}

proof fn lemma_name_end(path: Seq<char>)
    ensures
        name_end(path) <= path.len(),
        name_end(path) > 0 ==> path[name_end(path) - 1] != '/',
        name_end(path) > 0 && path[name_end(path) - 1] == '.' ==> name_end(path) >= 2
            && path[name_end(path) - 2] != '/',
        0 < name_end(path) < path.len() ==> path[name_end(path) as int] == '/',
        names_nothing(path.skip(name_end(path) as int)),
    decreases path.len(),
{
    if path.len() > 0 {
        let shorter = path.drop_last();
        lemma_name_end(shorter);
        let end = name_end(path);
        if end < path.len() {
            let rest = path.skip(end as int);
            let before = shorter.skip(end as int);
            assert(end == name_end(shorter));
            assert forall|i: int| 0 <= i < rest.len() implies #[trigger] rest[i] == '/' || (rest[i]
                == '.' && (i == 0 || rest[i - 1] == '/') && (i + 1 == rest.len() || rest[i + 1]
                == '/')) by {
                if i + 1 < rest.len() {
                    assert(before[i] == rest[i]);
                    if i + 2 < rest.len() {
                        assert(before[i + 1] == rest[i + 1]);
                    }
                    if i > 0 {
                        assert(before[i - 1] == rest[i - 1]);
                    }
                }
            }
        } else {
            assert(path.skip(end as int).len() == 0);
        }
    }
}

proof fn lemma_segment_start(path: Seq<char>, end: nat)
    requires
        end <= path.len(),
    ensures
        segment_start(path, end) <= end,
        segment_start(path, end) > 0 ==> path[segment_start(path, end) - 1] == '/',
        forall|i: int| segment_start(path, end) <= i < end ==> path[i] != '/',
    decreases end,
{
    if end > 0 && path[end - 1] != '/' {
        lemma_segment_start(path, (end - 1) as nat);
    }
}

/// A segment that holds no separator and stands behind one, or at the start
/// of the path, starts there.
proof fn lemma_segment_over_name(path: Seq<char>, start: nat, len: nat)
    requires
        start + len <= path.len(),
        start > 0 ==> path[start - 1] == '/',
        forall|i: int| start <= i < start + len ==> path[i] != '/',
    ensures
        segment_start(path, start + len) == start,
    decreases len,
{
    if len > 0 {
        lemma_segment_over_name(path, start, (len - 1) as nat);
    }
}

/// The characters of `s`, for access by index.
pub(crate) fn chars_of(s: &str) -> (chars: Vec<char>)
    ensures
        chars@ == s@,
{
    let mut chars: Vec<char> = Vec::new();
    for c in it: s.chars()
        invariant
            chars@ == it.seq().take(it.index() as int),
    {
        chars.push(c);
    }
    chars
}

/// The bounds of the final segment of a path, given by its characters.
fn name_bounds(chars: &Vec<char>) -> (bounds: (usize, usize))
    ensures
        bounds.0 == name_start(chars@),
        bounds.1 == name_end(chars@),
{
    let mut end: usize = chars.len();
    assert(chars@.take(end as int) == chars@);
    while end > 0 && (chars[end - 1] == '/' || (chars[end - 1] == '.' && (end == 1 || chars[end
        - 2] == '/')))
        invariant
            end <= chars.len(),
            name_end(chars@) == name_end(chars@.take(end as int)),
        decreases end,
    {
        assert(chars@.take(end as int).drop_last() == chars@.take(end - 1));
        end -= 1;
    }
    let mut start: usize = end;
    while start > 0 && chars[start - 1] != '/'
        invariant
            start <= end <= chars.len(),
            segment_start(chars@, end as nat) == segment_start(chars@, start as nat),
        decreases start,
    {
        start -= 1;
    }
    (start, end)
}

/// Divides `path` before its file name: what precedes the name, and the
/// name. `None` where the path has no file name.
pub fn split_file_name(path: &str) -> (parts: Option<(&str, &str)>)
    ensures
        match parts {
            Some((parent, name)) => {
                &&& spec_file_name(path@) == Some(name@)
                &&& parent@ == path@.subrange(0, name_start(path@) as int)
            },
            None => spec_file_name(path@) is None,
        },
{
    let chars = chars_of(path);
    let (start, end) = name_bounds(&chars);
    proof {
        lemma_parts(path@);
    }
    if start == end || (end - start == 2 && chars[start] == '.' && chars[start + 1] == '.') {
        None
    } else {
        let parent = path.substring_char(0, start);
        let name = path.substring_char(start, end);
        assert(name@ != seq!['.', '.']) by {
            let dots = seq!['.', '.'];
            if name@ == dots {
                assert(dots.len() == 2 && dots[0] == '.' && dots[1] == '.');
                assert(name@[0] == chars@[start as int] && name@[1] == chars@[start + 1]);
            }
        }
        Some((parent, name))
    }
}

/// The file name of `path`, or `None` where it has none: where no segment
/// names anything (`/`, `.`, the empty path) and where the last one that does
/// is `..`.
pub fn file_name(path: &str) -> (name: Option<&str>)
    ensures
        match name {
            Some(n) => spec_file_name(path@) == Some(n@),
            None => spec_file_name(path@) is None,
        },
{
    match split_file_name(path) {
        Some((_, name)) => Some(name),
        None => None,
    }
}

} // verus!
