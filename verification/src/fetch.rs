//! The decisions of a secure fetch: when to retry fetching the RSL and the
//! branches, and when to give up storing the new nonce bag.

use vstd::prelude::*;

use crate::errors::{Error, ErrorKind};
use crate::push_entry::PushEntry;

verus! {

/// How often a secure fetch tries to store its new nonce bag on the remote.
pub const STORE_ATTEMPTS: u32 = 5;

/// How often, per store attempt, a secure fetch fetches until the branch tips
/// match their newest push entries.
pub const FETCH_ATTEMPTS: u32 = 5;

/// The retry state of a secure fetch.
#[derive(Debug)]
pub struct SecureFetch {
    store_attempts_left: u32,
    fetch_attempts_left: u32,
    last_store_error: Option<Error>,
}

impl SecureFetch {
    pub closed spec fn store_attempts_left(self) -> nat {
        self.store_attempts_left as nat
    }

    pub closed spec fn fetch_attempts_left(self) -> nat {
        self.fetch_attempts_left as nat
    }

    pub closed spec fn last_store_error(self) -> Option<Error> {
        self.last_store_error
    }

    /// A secure fetch that has tried nothing yet.
    pub fn new() -> (res: SecureFetch)
        ensures
            res.store_attempts_left() == STORE_ATTEMPTS,
            res.fetch_attempts_left() == FETCH_ATTEMPTS,
            res.last_store_error() is None,
    {
        SecureFetch {
            store_attempts_left: STORE_ATTEMPTS,
            fetch_attempts_left: FETCH_ATTEMPTS,
            last_store_error: None,
        }
    }

    /// Starts an attempt to store the nonce bag; fails, with the error of the
    /// last failed push as its cause, once all attempts are spent.
    pub fn begin_store_round(&mut self) -> (res: Result<(), Error>)
        ensures
            old(self).store_attempts_left() > 0 ==> res is Ok && final(self).store_attempts_left()
                == old(self).store_attempts_left() && final(self).fetch_attempts_left()
                == FETCH_ATTEMPTS && final(self).last_store_error() == old(
                self,
            ).last_store_error(),
            old(self).store_attempts_left() == 0 ==> (res matches Err(e) && e.is_msg(
                "Couldn't store new fetch entry in RSL; check your connection and try again"@,
            ) && (old(self).last_store_error() matches Some(c) ==> e.cause == Some(Box::new(c)))
                && (old(self).last_store_error() is None ==> (e.cause matches Some(c) && c.is_msg(
                ""@,
            )))) && final(self).store_attempts_left() == 0,
    {
        if self.store_attempts_left == 0 {
            let cause = match self.last_store_error.take() {
                Some(c) => c,
                None => Error::msg(""),
            };
            return Err(
                cause.chain(
                    ErrorKind::Msg(
                        "Couldn't store new fetch entry in RSL; check your connection and try again".to_string(),
                    ),
                ),
            );
        }
        self.fetch_attempts_left = FETCH_ATTEMPTS;
        Ok(())
    }

    /// Starts a round of fetching; fails once all rounds of this store
    /// attempt are spent.
    pub fn begin_fetch_round(&self) -> (res: Result<(), Error>)
        ensures
            self.fetch_attempts_left() > 0 ==> res is Ok,
            self.fetch_attempts_left() == 0 ==> (res matches Err(e) && e.is_msg(
                "Couldn't fetch; No push entry for latest commit on target branch. It is likely that someone pushed without using git-rsl. Please have that developer secure-push the branch and try again."@,
            )),
    {
        if self.fetch_attempts_left == 0 {
            return Err(
                Error::msg(
                    "Couldn't fetch; No push entry for latest commit on target branch. It is likely that someone pushed without using git-rsl. Please have that developer secure-push the branch and try again.",
                ),
            );
        }
        Ok(())
    }

    /// Ends a round of fetching: done where the fetched branch tips are the
    /// commits of their newest push entries; otherwise one round fewer is left.
    pub fn end_fetch_round(&mut self, all_in_fetch_head: bool) -> (done: bool)
        requires
            old(self).fetch_attempts_left() > 0,
        ensures
            done == all_in_fetch_head,
            done ==> final(self).fetch_attempts_left() == old(self).fetch_attempts_left(),
            !done ==> final(self).fetch_attempts_left() == old(self).fetch_attempts_left() - 1,
            final(self).store_attempts_left() == old(self).store_attempts_left(),
            final(self).last_store_error() == old(self).last_store_error(),
    {
        if all_in_fetch_head {
            true
        } else {
            self.fetch_attempts_left = self.fetch_attempts_left - 1;
            false
        }
    }

    /// Ends an attempt to store the nonce bag with the outcome of pushing the
    /// RSL: done where it succeeded; otherwise the error is kept and one
    /// attempt fewer is left.
    pub fn end_store_round(&mut self, pushed: Result<(), Error>) -> (done: bool)
        requires
            old(self).store_attempts_left() > 0,
        ensures
            done == pushed is Ok,
            done ==> final(self).store_attempts_left() == old(self).store_attempts_left(),
            !done ==> final(self).store_attempts_left() == old(self).store_attempts_left() - 1
                && (pushed matches Err(e) && final(self).last_store_error() == Some(e)),
            final(self).fetch_attempts_left() == old(self).fetch_attempts_left(),
    {
        match pushed {
            Ok(()) => true,
            Err(e) => {
                self.last_store_error = Some(e);
                self.store_attempts_left = self.store_attempts_left - 1;
                false
            },
        }
    }
}

/// Checks that a branch to be fetched has a push entry on the remote RSL:
/// `found` is the outcome of looking for its newest one.
pub fn check_branch_recorded(found: Result<Option<PushEntry>, Error>) -> (res: Result<(), Error>)
    ensures
        found matches Ok(Some(_)) ==> res is Ok,
        found matches Ok(None) ==> (res matches Err(e) && e.is_msg(
            "no push records for the ref you are attempting to fetch"@,
        )),
        found matches Err(c) ==> (res matches Err(e) && e.is_msg(
            "couldn't check that provided refs are valid"@,
        ) && e.cause == Some(Box::new(c))),
{
    match found {
        Ok(Some(_)) => Ok(()),
        Ok(None) => Err(Error::msg("no push records for the ref you are attempting to fetch")),
        Err(c) => Err(c.chain(ErrorKind::Msg("couldn't check that provided refs are valid".to_string()))),
    }
}

/// What a secure fetch or push does once the remote RSL has been validated.
#[derive(Debug)]
pub enum AfterValidation {
    /// The remote RSL is valid: go on.
    Proceed,
    /// The remote RSL is invalid: set the fetched remote RSL back to the local
    /// head, the last trusted state, then stop with this error.
    ResetRemoteThenFail(Error),
}

/// The step after validating the remote RSL, from the outcome of validation.
pub fn after_validation(outcome: Result<(), Error>) -> (res: AfterValidation)
    ensures
        outcome is Ok ==> res is Proceed,
        outcome matches Err(reason) ==> (res matches AfterValidation::ResetRemoteThenFail(e)
            && e.kind == ErrorKind::InvalidRSL && e.cause == Some(Box::new(reason))),
{
    match outcome {
        Ok(()) => AfterValidation::Proceed,
        Err(reason) => AfterValidation::ResetRemoteThenFail(invalid_rsl(reason)),
    }
}

/// The error that a secure fetch or push reports where the remote RSL does
/// not validate, with the reason as its cause.
pub fn invalid_rsl(reason: Error) -> (res: Error)
    ensures
        res.kind == ErrorKind::InvalidRSL,
        res.cause == Some(Box::new(reason)),
{
    reason.chain(ErrorKind::InvalidRSL)
}

} // verus!
