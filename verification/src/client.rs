//! Shared network client handle: reference-counted and immutable after
//! construction, so concurrent calls copy it cheaply instead of sharing
//! mutable state. Construction of the real client is an outside
//! collaborator; the dispatch core only passes the handle through.

use vstd::prelude::*;

verus! {

/// Identifies one constructed network client.
#[derive(Clone, Copy, Debug, PartialEq, Eq, Structural)]
pub struct ClientHandle {
    pub id: u64,
}

} // verus!
