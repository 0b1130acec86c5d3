//! The records of the board.
use vstd::prelude::*;

verus! {

/// A stored message, as the store hands it back.
pub struct Message {
    pub id: i32,
    pub username: String,
    pub message: String,
    pub timestamp: i64,
}

/// A message on its way into the store.
pub struct NewMessage {
    pub username: String,
    pub message: String,
}

/// Optional bounds on the timestamps of a listing; an absent bound is unbounded.
#[derive(Clone, Copy, PartialEq, Eq, Structural, Debug)]
pub struct TimeRange {
    pub before: Option<i64>,
    pub after: Option<i64>,
}

} // verus!
