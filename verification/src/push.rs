//! The decision of a secure push once the branches themselves have been
//! pushed: stop, or go round again from fetching the RSL.

use vstd::prelude::*;

use crate::errors::Error;

verus! {

/// What a secure push does after pushing its branches to the remote.
#[derive(Debug)]
pub enum AfterPush {
    /// The branches reached the remote: the push is done.
    Done,
    /// The remote refused the branches, for this reason: report it, then
    /// fetch and validate the RSL again and record a new push entry.
    Retry(Error),
}

/// The step after pushing the branches, from the outcome of that push.
pub fn after_branch_push(outcome: Result<(), Error>) -> (res: AfterPush)
    ensures
        outcome is Ok <==> res is Done,
        outcome matches Err(reason) ==> res == AfterPush::Retry(reason),
{
    match outcome {
        Ok(()) => AfterPush::Done,
        Err(reason) => AfterPush::Retry(reason),
    }
}

} // verus!
