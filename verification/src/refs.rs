//! The text that the library hands to git: reference names, push refspecs,
//! and the signed content of a commit.

use vstd::prelude::*;

use crate::errors::Error;

verus! {

/// `refs/heads/<branch>`: the full name of a local branch.
pub open spec fn spec_branch_ref(branch: Seq<char>) -> Seq<char> {
    "refs/heads/"@ + branch
}

/// The full name of local branch `branch`.
pub fn branch_ref(branch: &str) -> (res: String)
    ensures
        res@ == spec_branch_ref(branch@),
{
    let mut out = String::new();
    out.append("refs/heads/");
    out.append(branch);
    out
}

/// `refs/heads/<name>:refs/heads/<name>`: the refspec that pushes local
/// branch `name` to the branch of the same name on the remote.
pub fn push_refspec(name: &str) -> (res: String)
    ensures
        res@ == spec_branch_ref(name@) + ":"@ + spec_branch_ref(name@),
{
    let mut out = branch_ref(name);
    out.append(":");
    let target = branch_ref(name);
    out.append(target.as_str());
    out
}

/// The content that signing a commit covers: its raw header, a line break and
/// its raw message. `message` and `header` are `None` where git finds them not
/// to be valid UTF-8.
pub fn commit_as_str(header: Option<&str>, message: Option<&str>) -> (res: Result<String, Error>)
    ensures
        message is None ==> (res matches Err(e) && e.is_msg("invalid utf8"@)),
        message is Some && header is None ==> (res matches Err(e) && e.is_msg("invalid utf8"@)),
        message matches Some(m) ==> (header matches Some(h) ==> (res matches Ok(s) && s@ == h@
            + seq!['\n'] + m@)),
{
    let m = match message {
        Some(m) => m,
        None => return Err(Error::msg("invalid utf8")),
    };
    let h = match header {
        Some(h) => h,
        None => return Err(Error::msg("invalid utf8")),
    };
    let mut out = h.to_string();
    proof { reveal_strlit("\n"); }
    out.append("\n");
    out.append(m);
    Ok(out)
}

/// Whether there are local changes to stash before working on the RSL branch:
/// where the repository is in the middle of an operation, or the working tree
/// differs from the index (untracked files included).
pub fn stash_needed(repository_clean: bool, changed_files: usize) -> (res: bool)
    ensures
        res == !(repository_clean && changed_files == 0),
{
    !(repository_clean && changed_files == 0)
}

} // verus!
