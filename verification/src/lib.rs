//! Reference State Log (RSL) bookkeeping for git: nonces, nonce bags, push
//! entries and the validation of an RSL history.

use vstd::prelude::*;

pub mod errors;
pub mod text;
pub mod digest;
pub mod oid;
pub mod nonce;
pub mod nonce_bag;
pub mod push_entry;
pub mod rsl;
pub mod fetch;
pub mod push;
pub mod refs;
pub mod credentials;

use crate::errors::Error;

verus! {

/// A branch name, wrapped so that it is not mixed up with a remote name.
#[derive(Clone, Debug)]
pub struct BranchName<'a>(pub &'a str);

impl<'a> BranchName<'a> {
    pub fn new(source: &'a str) -> (res: BranchName<'a>)
        ensures
            res.0@ == source@,
    {
        BranchName(source)
    }

    pub fn as_ref(&self) -> (res: &str)
        ensures
            res@ == self.0@,
    {
        self.0
    }
}

/// A remote name, wrapped so that it is not mixed up with a branch name.
#[derive(Clone, Debug)]
pub struct RemoteName<'a>(pub &'a str);

impl<'a> RemoteName<'a> {
    pub fn new(source: &'a str) -> (res: RemoteName<'a>)
        ensures
            res.0@ == source@,
    {
        RemoteName(source)
    }

    pub fn as_ref(&self) -> (res: &str)
        ensures
            res@ == self.0@,
    {
        self.0
    }
}

/// The secure operations work with the remote named `origin` only.
pub fn check_remote_name(remote_name: &RemoteName) -> (res: Result<(), Error>)
    ensures
        remote_name.0@ == "origin"@ ==> res is Ok,
        remote_name.0@ != "origin"@ ==> (res matches Err(e) && e.is_msg(
            "Remote name must be \"origin\""@,
        )),
{
    if remote_name.0.to_string() == "origin".to_string() {
        Ok(())
    } else {
        Err(Error::msg("Remote name must be \"origin\""))
    }
}

} // verus!
