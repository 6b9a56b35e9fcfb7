//! The three operations under one name each, for either platform.
//!
//! A [`Target`] says which platform the file is on and holds what that
//! platform's rule looks at. Each operation hands the target to the backend
//! of its platform and returns what the backend returns.

use vstd::prelude::*;
use crate::change::Change;
use crate::error::Error;
use crate::unix;
use crate::windows;

verus! {

/// A file to ask about or to change, as its platform sees it.
#[derive(Debug)]
pub enum Target<'a> {
    /// A file on Unix, known by its path.
    Unix { path: &'a str },
    /// A file on Windows, known by its path and by what the query for its
    /// attribute word returned.
    Windows { path: &'a str, attributes: Result<u32, Error> },
}

/// Whether the file is hidden. On Unix, whether its name starts with a dot;
/// on Windows, whether its attribute word has the hidden bit.
pub fn is_hidden(target: &Target) -> (r: Result<bool, Error>)
    ensures
        match *target {
            Target::Unix { path } => unix::is_hidden_outcome(path@, r),
            Target::Windows { path, attributes } => windows::is_hidden_outcome(attributes, r),
        },
{
    match target {
        Target::Unix { path } => unix::is_hidden(path),
        Target::Windows { path: _, attributes } => windows::is_hidden(*attributes),
    }
}

/// Hides the file: returns the change that hides it. On Unix, the rename
/// that puts a dot before its name; on Windows, the attribute word with the
/// hidden bit set.
pub fn hide_path(target: &Target) -> (r: Result<Change, Error>)
    ensures
        match *target {
            Target::Unix { path } => unix::hide_outcome(path@, r),
            Target::Windows { path, attributes } => windows::hide_outcome(path@, attributes, r),
        },
{
    match target {
        Target::Unix { path } => unix::hide_path(path),
        Target::Windows { path, attributes } => windows::hide_path(path, *attributes),
    }
}

/// Shows the file: returns the change that shows it. On Unix, the rename
/// that strips the leading dots of its name; on Windows, the attribute word
/// with the hidden bit cleared.
pub fn show(target: &Target) -> (r: Result<Change, Error>)
    ensures
        match *target {
            Target::Unix { path } => unix::show_outcome(path@, r),
            Target::Windows { path, attributes } => windows::show_outcome(path@, attributes, r),
        },
{
    match target {
        Target::Unix { path } => unix::show(path),
        Target::Windows { path, attributes } => windows::show(path, *attributes),
    }
}

} // verus!
