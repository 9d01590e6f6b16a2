//! Identifiers of commits and operations.

use vstd::prelude::*;

use crate::text::{truncate, truncated};

verus! {

/// Identifier of a commit.
#[derive(Debug)]
pub struct CommitId {
    /// The identifier in hexadecimal notation.
    pub hex: String,
}

/// Identifier of an operation.
#[derive(Debug)]
pub struct OperationId {
    /// The identifier in hexadecimal notation.
    pub hex: String,
}

/// The short form of an identifier: its first twelve hexadecimal digits.
pub open spec fn short_hash(hex: Seq<char>) -> Seq<char> {
    truncated(hex, 12)
}

impl View for CommitId {
    type V = Seq<char>;

    open spec fn view(&self) -> Seq<char> {
        self.hex@
    }
}

impl View for OperationId {
    type V = Seq<char>;

    open spec fn view(&self) -> Seq<char> {
        self.hex@
    }
}

impl Clone for CommitId {
    fn clone(&self) -> (r: Self)
        ensures
            r == *self,
    {
        CommitId { hex: self.hex.clone() }
    }
}

impl CommitId {
    /// Whether both identify the same commit.
    pub fn same_as(&self, other: &CommitId) -> (r: bool)
        ensures
            r == (self@ == other@),
    {
        self.hex == other.hex
    }
}

/// The short form in which a commit is named to the user.
pub fn short_commit_hash(commit_id: &CommitId) -> (r: String)
    ensures
        r@ == short_hash(commit_id@),
{
    truncate(commit_id.hex.as_str(), 12)
}

/// The short form in which an operation is named to the user.
pub fn short_operation_hash(operation_id: &OperationId) -> (r: String)
    ensures
        r@ == short_hash(operation_id@),
{
    truncate(operation_id.hex.as_str(), 12)
}

} // verus!
