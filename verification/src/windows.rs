//! Hidden files on Windows: a file is hidden when its attribute word has the
//! hidden bit, and it is hidden or shown by storing a new word. The name of
//! the file plays no part.
//!
//! The caller asks the system for the attribute word of the file and hands
//! over what the query returned, the word or the error.

use vstd::prelude::*;
use vstd::string::StringExecFns;
use crate::change::Change;
use crate::error::{Error, ErrorKind};

verus! {

/// The bit of the attribute word that marks a file as hidden.
pub const FILE_ATTRIBUTE_HIDDEN: u32 = 0x2;

/// Whether `attributes` has the hidden bit.
pub open spec fn has_hidden_bit(attributes: u32) -> bool {
    attributes & FILE_ATTRIBUTE_HIDDEN != 0
}

/// `attributes` with the hidden bit set.
pub open spec fn with_hidden_bit(attributes: u32) -> u32 {
    attributes | FILE_ATTRIBUTE_HIDDEN
}

/// `attributes` with the hidden bit cleared.
pub open spec fn without_hidden_bit(attributes: u32) -> u32 {
    attributes & !FILE_ATTRIBUTE_HIDDEN
}

/// Whether the system call that stores an attribute word can take `path`:
/// its encoding ends a path at the first NUL, so the path must hold none.
pub open spec fn encodable(path: Seq<char>) -> bool {
    !path.contains('\0')
}

/// Setting the hidden bit hides, clearing it shows, and neither touches
/// another bit.
pub proof fn lemma_hidden_bit(attributes: u32)
    ensures
        has_hidden_bit(with_hidden_bit(attributes)),
        !has_hidden_bit(without_hidden_bit(attributes)),
        with_hidden_bit(attributes) & !FILE_ATTRIBUTE_HIDDEN == attributes
            & !FILE_ATTRIBUTE_HIDDEN,
        without_hidden_bit(attributes) & !FILE_ATTRIBUTE_HIDDEN == attributes
            & !FILE_ATTRIBUTE_HIDDEN,
{
    assert((attributes | 2u32) & 2u32 != 0) by (bit_vector);
    assert((attributes & !2u32) & 2u32 == 0) by (bit_vector);
    assert((attributes | 2u32) & !2u32 == attributes & !2u32) by (bit_vector);
    assert((attributes & !2u32) & !2u32 == attributes & !2u32) by (bit_vector);
}

/// Hiding a hidden file and showing a visible one leave the attribute word
/// as it is.
pub proof fn lemma_hidden_bit_idempotent(attributes: u32)
    ensures
        has_hidden_bit(attributes) ==> with_hidden_bit(attributes) == attributes,
        !has_hidden_bit(attributes) ==> without_hidden_bit(attributes) == attributes,
        with_hidden_bit(with_hidden_bit(attributes)) == with_hidden_bit(attributes),
        without_hidden_bit(without_hidden_bit(attributes)) == without_hidden_bit(attributes),
{
    assert(attributes & 2u32 != 0 ==> attributes | 2u32 == attributes) by (bit_vector);
    assert(attributes & 2u32 == 0 ==> attributes & !2u32 == attributes) by (bit_vector);
    assert((attributes | 2u32) | 2u32 == attributes | 2u32) by (bit_vector);
    assert((attributes & !2u32) & !2u32 == attributes & !2u32) by (bit_vector);
}

/// Showing undoes hiding for a file that was visible, and hiding undoes
/// showing for a file that was hidden.
pub proof fn lemma_hidden_bit_round_trip(attributes: u32)
    ensures
        !has_hidden_bit(attributes) ==> without_hidden_bit(with_hidden_bit(attributes))
            == attributes,
        has_hidden_bit(attributes) ==> with_hidden_bit(without_hidden_bit(attributes))
            == attributes,
{
    assert(attributes & 2u32 == 0 ==> (attributes | 2u32) & !2u32 == attributes)
        by (bit_vector);
    assert(attributes & 2u32 != 0 ==> (attributes & !2u32) | 2u32 == attributes)
        by (bit_vector);
}

/// Whether `path` holds no NUL.
fn is_encodable(path: &str) -> (r: bool)
    ensures
        r == encodable(path@),
{
    let chars = crate::path::chars_of(path);
    let mut i: usize = 0;
    while i < chars.len()
        invariant
            i <= chars.len(),
            chars@ == path@,
            forall|j: int| 0 <= j < i ==> chars@[j] != '\0',
        decreases chars.len() - i,
    {
        if chars[i] == '\0' {
            return false;
        }
        i += 1;
    }
    true
}

/// What `is_hidden` returns for what the query for the attribute word
/// returned.
pub open spec fn is_hidden_outcome(attributes: Result<u32, Error>, r: Result<bool, Error>) -> bool {
    r == match attributes {
        Ok(word) => Ok::<bool, Error>(has_hidden_bit(word)),
        Err(e) => Err(e),
    }
}

/// What `hide_path` returns for a path and what the query for its attribute
/// word returned.
pub open spec fn hide_outcome(path: Seq<char>, attributes: Result<u32, Error>, r: Result<
    Change,
    Error,
>) -> bool {
    match attributes {
        Err(e) => r == Err::<Change, Error>(e),
        Ok(word) => if encodable(path) {
            r is Ok && r->Ok_0.stores(path, with_hidden_bit(word))
        } else {
            r is Err && r->Err_0.kind() == ErrorKind::Other
        },
    }
}

/// What `show` returns for a path and what the query for its attribute word
/// returned.
pub open spec fn show_outcome(path: Seq<char>, attributes: Result<u32, Error>, r: Result<
    Change,
    Error,
>) -> bool {
    match attributes {
        Err(e) => r == Err::<Change, Error>(e),
        Ok(word) => if encodable(path) {
            r is Ok && r->Ok_0.stores(path, without_hidden_bit(word))
        } else {
            r is Err && r->Err_0.kind() == ErrorKind::Other
        },
    }
}

/// Whether the file is hidden, from what the query for its attribute word
/// returned: whether the word has the hidden bit. Fails with the error of
/// the query where it failed.
pub fn is_hidden(attributes: Result<u32, Error>) -> (r: Result<bool, Error>)
    ensures
        is_hidden_outcome(attributes, r),
{
    match attributes {
        Ok(word) => Ok((word & FILE_ATTRIBUTE_HIDDEN) != 0),
        Err(e) => Err(e),
    }
}

/// Hides the file at `path`: returns the attribute word to store, the one
/// that the query returned with the hidden bit set. A file that is hidden
/// already is given its own word again. Fails with the error of the query
/// where it failed, and with `Other` where `path` holds a NUL.
pub fn hide_path(path: &str, attributes: Result<u32, Error>) -> (r: Result<Change, Error>)
    ensures
        hide_outcome(path@, attributes, r),
{
    match attributes {
        Err(e) => Err(e),
        Ok(word) => {
            if is_encodable(path) {
                Ok(
                    Change::SetAttributes {
                        path: String::from_str(path),
                        attributes: word | FILE_ATTRIBUTE_HIDDEN,
                    },
                )
            } else {
                Err(Error::new(ErrorKind::Other))
            }
        },
    }
}

/// Shows the file at `path`: returns the attribute word to store, the one
/// that the query returned with the hidden bit cleared. A file that is
/// visible already is given its own word again. Fails with the error of the
/// query where it failed, and with `Other` where `path` holds a NUL.
pub fn show(path: &str, attributes: Result<u32, Error>) -> (r: Result<Change, Error>)
    ensures
        show_outcome(path@, attributes, r),
{
    match attributes {
        Err(e) => Err(e),
        Ok(word) => {
            if is_encodable(path) {
                Ok(
                    Change::SetAttributes {
                        path: String::from_str(path),
                        attributes: word & !FILE_ATTRIBUTE_HIDDEN,
                    },
                )
            } else {
                Err(Error::new(ErrorKind::Other))
            }
        },
    }
}

} // verus!
