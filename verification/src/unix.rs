//! Hidden files on Unix: a file is hidden when its name starts with a dot,
//! and it is hidden or shown by a rename.
//!
//! Showing a file strips every leading dot of its name, not only the first:
//! `..foo.txt` becomes `foo.txt`. A name made of dots alone has nothing left
//! to be shown as, and is refused.

use vstd::prelude::*;
use vstd::string::StrSliceExecFns;
use vstd::string::StringExecFns;
use crate::change::Change;
use crate::error::{Error, ErrorKind};
use crate::path::{
    chars_of, is_name, lemma_parts, lemma_with_file_name, name_end, spec_file_name,
    split_file_name, with_file_name,
};

verus! {

/// Whether a file name marks its file as hidden: it starts with a dot.
pub open spec fn is_dotted(name: Seq<char>) -> bool {
    name.len() > 0 && name[0] == '.'
}

/// How many dots stand at the start of `name`.
pub open spec fn leading_dots(name: Seq<char>) -> nat
    decreases name.len(),
{
    if is_dotted(name) {
        1 + leading_dots(name.drop_first())
    } else {
        0
    }
}

/// `name` without the dots at its start.
pub open spec fn undotted(name: Seq<char>) -> Seq<char> {
    name.skip(leading_dots(name) as int)
}

/// Whether the file at `path` is hidden, where the path has a file name.
pub open spec fn hidden(path: Seq<char>) -> Option<bool> {
    match spec_file_name(path) {
        Some(name) => Some(is_dotted(name)),
        None => None,
    }
}

/// The path that the file at `path` has once it is hidden: the same path
/// with a dot before the file name. `None` where the path has no file name
/// and where the file is hidden already.
pub open spec fn hidden_path(path: Seq<char>) -> Option<Seq<char>> {
    match spec_file_name(path) {
        Some(name) if !is_dotted(name) => Some(with_file_name(path, seq!['.'] + name)),
        _ => None,
    }
}

/// The path that the file at `path` has once it is shown: the same path
/// with the file name stripped of its leading dots. `None` where the path has
/// no file name, where the file is not hidden, and where the name is made of
/// dots alone.
pub open spec fn normal_path(path: Seq<char>) -> Option<Seq<char>> {
    match spec_file_name(path) {
        Some(name) if is_dotted(name) && undotted(name).len() > 0 => Some(
            with_file_name(path, undotted(name)),
        ),
        _ => None,
    }
}

/// What `is_hidden` returns for a path.
pub open spec fn is_hidden_outcome(path: Seq<char>, r: Result<bool, Error>) -> bool {
    match r {
        Ok(h) => hidden(path) == Some(h),
        Err(e) => hidden(path) is None && e.kind() == ErrorKind::InvalidInput,
    }
}

/// What `hide_path` returns for a path.
pub open spec fn hide_outcome(path: Seq<char>, r: Result<Change, Error>) -> bool {
    match r {
        Ok(change) => hidden_path(path) matches Some(dest) && change.renames(path, dest),
        Err(e) => hidden_path(path) is None && e.kind() == ErrorKind::InvalidInput,
    }
}

/// What `show` returns for a path.
pub open spec fn show_outcome(path: Seq<char>, r: Result<Change, Error>) -> bool {
    match r {
        Ok(change) => normal_path(path) matches Some(dest) && change.renames(path, dest),
        Err(e) => normal_path(path) is None && e.kind() == ErrorKind::InvalidInput,
    }
}

/// The leading dots are dots, and what is left of a name without them does
/// not start with a dot and holds a separator only where the name did.
pub proof fn lemma_undotted(name: Seq<char>)
    ensures
        leading_dots(name) <= name.len(),
        forall|i: int| 0 <= i < leading_dots(name) ==> name[i] == '.',
        !is_dotted(undotted(name)),
        !name.contains('/') ==> !undotted(name).contains('/'),
        !is_dotted(name) ==> undotted(name) == name,
    decreases name.len(),
{
    if is_dotted(name) {
        let rest = name.drop_first();
        lemma_undotted(rest);
        assert(undotted(name) == undotted(rest));
        assert forall|i: int| 0 <= i < leading_dots(name) implies name[i] == '.' by {
            if i > 0 {
                assert(name[i] == rest[i - 1]);
            }
        }
        if rest.contains('/') {
            let i = choose|i: int| 0 <= i < rest.len() && rest[i] == '/';
            assert(name[i + 1] == '/');
        }
    } else {
        assert(name.skip(0) == name);
    }
}

/// A file that was hidden is hidden: the path that `hidden_path` gives has a
/// file name, and the name starts with a dot.
pub proof fn lemma_hidden_after_hide(path: Seq<char>)
    requires
        hidden_path(path) is Some,
    ensures
        hidden(hidden_path(path)->0) == Some(true),
{
    let name = spec_file_name(path)->0;
    lemma_hidden_name(path);
    lemma_with_file_name(path, seq!['.'] + name);
}

/// A file that was shown is not hidden: the path that `normal_path` gives
/// has a file name, and the name does not start with a dot.
pub proof fn lemma_visible_after_show(path: Seq<char>)
    requires
        normal_path(path) is Some,
    ensures
        hidden(normal_path(path)->0) == Some(false),
{
    let name = spec_file_name(path)->0;
    lemma_visible_name(path);
    lemma_undotted(name);
    lemma_with_file_name(path, undotted(name));
}

/// Hiding is refused for a hidden file, so it cannot be done twice: the
/// path that `hidden_path` gives has no hidden path of its own.
pub proof fn lemma_hide_once(path: Seq<char>)
    ensures
        hidden(path) == Some(true) ==> hidden_path(path) is None,
        hidden_path(path) is Some ==> hidden_path(hidden_path(path)->0) is None,
{
    if hidden_path(path) is Some {
        lemma_hidden_after_hide(path);
    }
}

/// Showing is refused for a file that is not hidden, so it cannot be done
/// twice: the path that `normal_path` gives has no normal path of its own.
pub proof fn lemma_show_once(path: Seq<char>)
    ensures
        hidden(path) == Some(false) ==> normal_path(path) is None,
        normal_path(path) is Some ==> normal_path(normal_path(path)->0) is None,
{
    if normal_path(path) is Some {
        lemma_visible_after_show(path);
    }
}

/// Showing undoes hiding: the normal path of the hidden path of `path` is
/// `path` again, without the separators and `.` segments that trailed its
/// file name.
pub proof fn lemma_show_undoes_hide(path: Seq<char>)
    requires
        hidden_path(path) is Some,
    ensures
        normal_path(hidden_path(path)->0) == Some(path.subrange(0, name_end(path) as int)),
{
    let name = spec_file_name(path)->0;
    let dotted = seq!['.'] + name;
    lemma_hidden_name(path);
    lemma_with_file_name(path, dotted);
    lemma_parts(path);
    assert(dotted.drop_first() == name);
    assert(is_dotted(dotted) && leading_dots(name) == 0);
    assert(leading_dots(dotted) == 1);
    assert(undotted(dotted) == name);
    assert(with_file_name(hidden_path(path)->0, name) == with_file_name(path, name));
    assert(with_file_name(path, name) == path.subrange(0, name_end(path) as int));
}

/// For a plain name that does not start with a dot, hiding puts one dot
/// before it and showing gives the name back.
pub proof fn lemma_show_undoes_hide_of_name(name: Seq<char>)
    requires
        is_name(name),
        !is_dotted(name),
    ensures
        hidden_path(name) == Some(seq!['.'] + name),
        normal_path(seq!['.'] + name) == Some(name),
{
    let empty = Seq::<char>::empty();
    lemma_with_file_name(empty, name);
    assert(with_file_name(empty, name) == name);
    assert(with_file_name(name, seq!['.'] + name) == seq!['.'] + name);
    lemma_show_undoes_hide(name);
    assert(name.subrange(0, name.len() as int) == name);
}

/// Hiding undoes showing where a single dot was stripped: the hidden path of
/// the normal path of `path` is `path` again, without what trailed its file
/// name.
pub proof fn lemma_hide_undoes_show(path: Seq<char>)
    requires
        normal_path(path) is Some,
        leading_dots(spec_file_name(path)->0) == 1,
    ensures
        hidden_path(normal_path(path)->0) == Some(path.subrange(0, name_end(path) as int)),
{
    let name = spec_file_name(path)->0;
    lemma_visible_name(path);
    lemma_undotted(name);
    lemma_with_file_name(path, undotted(name));
    lemma_parts(path);
    assert(seq!['.'] + undotted(name) == name);
    assert(with_file_name(normal_path(path)->0, name) == with_file_name(path, name));
    assert(with_file_name(path, name) == path.subrange(0, name_end(path) as int));
}

/// The file name of a hidden path is a name.
proof fn lemma_hidden_name(path: Seq<char>)
    requires
        hidden_path(path) is Some,
    ensures
        is_name(seq!['.'] + spec_file_name(path)->0),
{
    let name = spec_file_name(path)->0;
    let dotted = seq!['.'] + name;
    lemma_parts(path);
    if dotted.contains('/') {
        let i = choose|i: int| 0 <= i < dotted.len() && dotted[i] == '/';
        assert(name[i - 1] == '/');
    }
    if dotted == seq!['.', '.'] {
        assert(name.len() == 1);
        assert(name[0] == dotted[1]);
        assert(name == seq!['.']);
    }
    if dotted == seq!['.'] {
        assert(dotted.len() == 1);
    }
}

/// The file name of a normal path is a name.
proof fn lemma_visible_name(path: Seq<char>)
    requires
        normal_path(path) is Some,
    ensures
        is_name(undotted(spec_file_name(path)->0)),
{
    let name = spec_file_name(path)->0;
    lemma_parts(path);
    lemma_undotted(name);
    if name.contains('/') {
        let i = choose|i: int| 0 <= i < name.len() && name[i] == '/';
        assert(path[crate::path::name_start(path) + i] == '/');
    }
    let shown = undotted(name);
    if shown == seq!['.'] || shown == seq!['.', '.'] {
        assert(shown[0] == '.');
    }
}

/// Whether the file at `path` is hidden: whether its file name starts with
/// a dot. Fails with `InvalidInput` where the path has no file name.
pub fn is_hidden(path: &str) -> (r: Result<bool, Error>)
    ensures
        is_hidden_outcome(path@, r),
{
    match split_file_name(path) {
        Some((_, name)) => Ok(name.get_char(0) == '.'),
        None => Err(Error::new(ErrorKind::InvalidInput)),
    }
}

/// The path of the file at `path` once it is hidden, or `None` where the
/// path has no file name or the file is hidden already.
pub fn hidden_file_name(path: &str) -> (dest: Option<String>)
    ensures
        match dest {
            Some(d) => hidden_path(path@) == Some(d@),
            None => hidden_path(path@) is None,
        },
{
    match split_file_name(path) {
        Some((parent, name)) => {
            if name.get_char(0) == '.' {
                None
            } else {
                proof {
                    reveal_strlit(".");
                    assert("."@ == seq!['.']);
                }
                let dest = String::from_str(parent).concat(".").concat(name);
                assert(dest@ == with_file_name(path@, seq!['.'] + name@));
                Some(dest)
            }
        },
        None => None,
    }
}

/// The number of dots at the start of `name`.
fn count_leading_dots(name: &Vec<char>) -> (count: usize)
    ensures
        count == leading_dots(name@),
        count <= name.len(),
{
    let mut count: usize = 0;
    assert(name@.skip(0) == name@);
    while count < name.len() && name[count] == '.'
        invariant
            count <= name.len(),
            leading_dots(name@) == count + leading_dots(name@.skip(count as int)),
        decreases name.len() - count,
    {
        assert(name@.skip(count as int).drop_first() == name@.skip(count + 1));
        count += 1;
    }
    count
}

/// The path of the file at `path` once it is shown, or `None` where the path
/// has no file name, the file is not hidden, or its name is made of dots
/// alone.
pub fn normal_file_name(path: &str) -> (dest: Option<String>)
    ensures
        match dest {
            Some(d) => normal_path(path@) == Some(d@),
            None => normal_path(path@) is None,
        },
{
    match split_file_name(path) {
        Some((parent, name)) => {
            let chars = chars_of(name);
            let dots = count_leading_dots(&chars);
            if dots == 0 || dots == chars.len() {
                None
            } else {
                let shown = name.substring_char(dots, chars.len());
                assert(shown@ == undotted(name@));
                let dest = String::from_str(parent).concat(shown);
                Some(dest)
            }
        },
        None => None,
    }
}

/// Hides the file at `path`: returns the rename that puts a dot before its
/// file name. Fails with `InvalidInput` where the path has no file name and
/// where the file is hidden already; a hidden file is not hidden again.
pub fn hide_path(path: &str) -> (r: Result<Change, Error>)
    ensures
        hide_outcome(path@, r),
{
    match hidden_file_name(path) {
        Some(to) => Ok(Change::Rename { from: String::from_str(path), to }),
        None => Err(Error::new(ErrorKind::InvalidInput)),
    }
}

/// Shows the file at `path`: returns the rename that strips the leading dots
/// of its file name. Fails with `InvalidInput` where the path has no file
/// name, where the file is not hidden, and where its name is made of dots
/// alone.
pub fn show(path: &str) -> (r: Result<Change, Error>)
    ensures
        show_outcome(path@, r),
{
    match normal_file_name(path) {
        Some(to) => Ok(Change::Rename { from: String::from_str(path), to }),
        None => Err(Error::new(ErrorKind::InvalidInput)),
    }
}

} // verus!
