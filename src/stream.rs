//! Choices made when reading from a message stream.

use vstd::prelude::*;

verus! {

/// Where a stream consumer starts reading.
#[derive(Debug, Clone, Copy, PartialEq, Eq, Structural)]
pub enum Offset {
    First,
    Last,
    Next,
    Offset(u64),
}

impl Offset {
    /// The starting point actually used: the one asked for, or the next
    /// message when none was.
    pub fn or_next(offset: Option<Offset>) -> (r: Offset)
        ensures
            r == match offset {
                Some(o) => o,
                None => Offset::Next,
            },
    {
        match offset {
            Some(o) => o,
            None => Offset::Next,
        }
    }
}

} // verus!
