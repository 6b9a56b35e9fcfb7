//! What hiding or showing a file asks of the file system.

use vstd::prelude::*;

verus! {

/// One change to the file system. The operations of this library return it;
/// the caller carries it out, and its outcome is the outcome of the
/// operation.
#[derive(Debug, PartialEq, Eq)]
pub enum Change {
    /// Rename `from` to `to`, in one step.
    Rename { from: String, to: String },
    /// Store `attributes` as the attribute word of `path`.
    SetAttributes { path: String, attributes: u32 },
}

impl Change {
    /// This change renames `from` to `to`.
    pub open spec fn renames(self, from: Seq<char>, to: Seq<char>) -> bool {
        self matches Change::Rename { from: f, to: t } && f@ == from && t@ == to
    }

    /// This change stores `attributes` as the attribute word of `path`.
    pub open spec fn stores(self, path: Seq<char>, attributes: u32) -> bool {
        self matches Change::SetAttributes { path: p, attributes: a } && p@ == path && a
            == attributes
    }
}

} // verus!
