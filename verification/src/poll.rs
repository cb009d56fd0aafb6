//! Answers to the question whether something has arrived.

use vstd::prelude::*;

verus! {

/// What a poll gives: a value, or nothing yet.
#[derive(Debug, PartialEq, Eq)]
pub enum Poll<T> {
    /// The value is there.
    Ready(T),
    /// The value is not there yet.
    Pending,
}

} // verus!
