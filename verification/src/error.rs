//! The error of the control handle.

use vstd::prelude::*;

verus! {

/// Why a call on a control handle failed.
#[derive(Clone, Copy, Debug, PartialEq, Eq, Structural)]
pub enum Error {
    /// The session is gone: its command channel is closed, or its actor let
    /// go of the reply slot without filling it.
    SessionShutdown,
}

} // verus!
