//! What a resumable computation reports each time it is polled.

use vstd::prelude::*;
use crate::error::Error;
use crate::shim::Interest;

verus! {

/// The report of one poll of a resumable computation.
#[derive(Debug)]
pub enum Progress<T> {
    /// The computation is complete, with this value.
    Ready(T),
    /// The computation must be parked until the transport is ready in the
    /// given direction, and polled again after that.
    Suspend(Interest),
    /// The computation failed for good.
    Failed(Error),
}

impl<T> Progress<T> {
    /// The outcome if the computation has ended, and nothing while it is suspended.
    pub open spec fn outcome(self) -> Option<Result<T, Error>> {
        match self {
            Progress::Ready(value) => Some(Ok(value)),
            Progress::Suspend(_) => None,
            Progress::Failed(error) => Some(Err(error)),
        }
    }

    /// The outcome if the computation has ended, and nothing while it is suspended.
    pub fn into_outcome(self) -> (r: Option<Result<T, Error>>)
        ensures
            r == self.outcome(),
    {
        match self {
            Progress::Ready(value) => Some(Ok(value)),
            Progress::Suspend(_) => None,
            Progress::Failed(error) => Some(Err(error)),
        }
    }

    /// Whether the computation asked to be parked.
    pub fn is_suspended(&self) -> (r: bool)
        ensures
            r == (*self is Suspend),
    {
        match self {
            Progress::Suspend(_) => true,
            _ => false,
        }
    }
}

} // verus!
