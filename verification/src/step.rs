//! Where a piece of work stands, and what is to happen next.

use crate::error::Error;
use vstd::prelude::*;

verus! {

/// Where the work stands.
#[derive(Clone, Copy, Debug, PartialEq, Eq, Structural)]
pub enum Phase {
    /// Nothing has been asked yet.
    Created,
    /// A request is out, and its reply is awaited.
    Awaiting,
    /// Every round has brought its code.
    Done,
    /// A round has failed. Nothing follows.
    Failed,
}

/// What is to happen next.
#[derive(Clone, Debug, PartialEq, Eq)]
pub enum Step<Q> {
    /// Send this request, and hand the response to `reply`.
    Send(Q),
    /// Every round has brought its code.
    Done,
    /// A round has failed, for this reason.
    Failed(Error),
}

} // verus!
