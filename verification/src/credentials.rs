//! How the library answers git's requests for credentials when it fetches
//! from or pushes to a remote: which kind of credential to offer, and which
//! user names to try for SSH.

use vstd::prelude::*;

verus! {

/// The kinds of credential that git accepts for a request.
#[derive(Clone, Copy, Debug, PartialEq, Eq, Structural)]
pub struct AllowedCredentials {
    pub username: bool,
    pub ssh_key: bool,
    pub user_pass_plaintext: bool,
    pub default: bool,
}

/// What to answer a request in the first authentication session.
#[derive(Clone, Copy, Debug, PartialEq, Eq, Structural)]
pub enum FirstChoice {
    /// Git asks for a user name: refuse, and try user names in later sessions.
    DeferUsername,
    /// Offer the key that the SSH agent holds for the user name in the URL.
    SshAgent,
    /// Ask git's credential helper for a user name and password.
    CredentialHelper,
    /// Offer the default credential.
    DefaultCredential,
    /// Refuse: no authentication available.
    NoneAvailable,
}

/// What to answer a request in a later session that tries one user name.
#[derive(Clone, Copy, Debug, PartialEq, Eq, Structural)]
pub enum RetryChoice {
    /// Give the user name being tried.
    Username,
    /// Offer the SSH agent's key for the user name being tried.
    SshAgent,
    /// Refuse: no authentication available.
    NoneAvailable,
}

/// What the first authentication session has done so far.
#[derive(Clone, Copy, Debug, PartialEq, Eq, Structural)]
pub struct FirstSession {
    /// Git asked for a user name, so user names are to be tried afterwards.
    pub username_requested: bool,
    /// The SSH agent has been asked once already.
    pub tried_sshkey: bool,
    /// Git has asked for a credential at all.
    pub any_attempts: bool,
}

/// The answer to a request of the first session, in the order of preference
/// user name, SSH agent (once), credential helper, default credential.
pub open spec fn spec_first_choice(s: FirstSession, allowed: AllowedCredentials) -> FirstChoice {
    if allowed.username {
        FirstChoice::DeferUsername
    } else if allowed.ssh_key && !s.tried_sshkey {
        FirstChoice::SshAgent
    } else if allowed.user_pass_plaintext {
        FirstChoice::CredentialHelper
    } else if allowed.default {
        FirstChoice::DefaultCredential
    } else {
        FirstChoice::NoneAvailable
    }
}

impl FirstSession {
    /// A session in which git has asked for nothing yet.
    pub fn new() -> (res: FirstSession)
        ensures
            !res.username_requested && !res.tried_sshkey && !res.any_attempts,
    {
        FirstSession { username_requested: false, tried_sshkey: false, any_attempts: false }
    }

    /// Answers one request of the first session and records it.
    pub fn answer(&mut self, allowed: AllowedCredentials) -> (res: FirstChoice)
        ensures
            res == spec_first_choice(*old(self), allowed),
            final(self).any_attempts,
            final(self).username_requested == (old(self).username_requested || allowed.username),
            final(self).tried_sshkey == (old(self).tried_sshkey || res == FirstChoice::SshAgent),
    {
        self.any_attempts = true;
        if allowed.username {
            self.username_requested = true;
            FirstChoice::DeferUsername
        } else if allowed.ssh_key && !self.tried_sshkey {
            self.tried_sshkey = true;
            FirstChoice::SshAgent
        } else if allowed.user_pass_plaintext {
            FirstChoice::CredentialHelper
        } else if allowed.default {
            FirstChoice::DefaultCredential
        } else {
            FirstChoice::NoneAvailable
        }
    }
}

/// The user names to try for SSH, in the order of trying: the credential
/// helper's user name for the URL, the account's user name, then `git`.
pub fn username_candidates(account_user: Option<String>, helper_user: Option<String>) -> (res: Vec<
    String,
>)
    ensures
        res@.len() == 1 + (if account_user is Some { 1int } else { 0 }) + (if helper_user is Some {
            1int
        } else {
            0
        }),
        res@.last()@ == "git"@,
        helper_user matches Some(h) ==> res@[0]@ == h@,
        account_user matches Some(a) ==> res@[res@.len() - 2]@ == a@,
{
    let mut out: Vec<String> = Vec::new();
    match helper_user {
        Some(h) => out.push(h),
        None => {},
    }
    match account_user {
        Some(a) => out.push(a),
        None => {},
    }
    out.push("git".to_string());
    out
}

/// Answers one request of a session that tries one user name; `attempts`
/// counts the times the SSH agent was asked in this session.
pub fn retry_choice(attempts: &mut u32, allowed: AllowedCredentials) -> (res: RetryChoice)
    requires
        *old(attempts) < u32::MAX,
    ensures
        allowed.username ==> res == RetryChoice::Username && *final(attempts) == *old(attempts),
        !allowed.username && allowed.ssh_key ==> *final(attempts) == *old(attempts) + 1 && res == (
        if *old(attempts) == 0 {
            RetryChoice::SshAgent
        } else {
            RetryChoice::NoneAvailable
        }),
        !allowed.username && !allowed.ssh_key ==> res == RetryChoice::NoneAvailable
            && *final(attempts) == *old(attempts),
{
    if allowed.username {
        return RetryChoice::Username;
    }
    if allowed.ssh_key {
        *attempts = *attempts + 1;
        if *attempts == 1 {
            return RetryChoice::SshAgent;
        }
    }
    RetryChoice::NoneAvailable
}

/// Whether to go on to the next user name after a session: only where the
/// agent's key was offered and refused, so that nothing but the user name
/// failed.
pub fn try_next_username(attempts: u32) -> (res: bool)
    ensures
        res == (attempts == 2),
{
    attempts == 2
}

} // verus!
