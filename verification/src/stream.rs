//! The token that stands for an opened stream.

use vstd::prelude::*;

verus! {

/// A stream that the session's actor has opened.
///
/// To the control handle a stream is only a value to carry from the actor to
/// the caller: the handle reads nothing in it. The number tells one stream of
/// a session from another.
#[derive(Debug, PartialEq, Eq, Structural)]
pub struct StreamHandle {
    /// The number of the stream within its session.
    pub id: u32,
}

impl StreamHandle {
    /// A handle for the stream with the number `id`.
    pub fn new(id: u32) -> (handle: StreamHandle)
        ensures
            handle == (StreamHandle { id }),
    {
        StreamHandle { id }
    }

    /// The number of the stream.
    pub fn id(&self) -> (id: u32)
        ensures
            id == self.id,
    {
        self.id
    }
}

} // verus!
