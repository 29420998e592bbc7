use git_rsl::credentials::{
    retry_choice, try_next_username, username_candidates, AllowedCredentials, FirstChoice,
    FirstSession, RetryChoice,
};
use git_rsl::refs::{branch_ref, commit_as_str, push_refspec, stash_needed};
use git_rsl::{check_remote_name, BranchName, RemoteName};

fn allowed(username: bool, ssh_key: bool, plain: bool, default: bool) -> AllowedCredentials {
    AllowedCredentials { username, ssh_key, user_pass_plaintext: plain, default }
}

#[test]
fn names() {
    assert_eq!(BranchName::new("master").as_ref(), "master");
    assert_eq!(RemoteName::new("origin").as_ref(), "origin");
}

#[test]
fn remote_must_be_origin() {
    assert!(check_remote_name(&RemoteName::new("origin")).is_ok());
    let err = check_remote_name(&RemoteName::new("upstream")).unwrap_err();
    assert_eq!(err.description(), "Remote name must be \"origin\"");
}

#[test]
fn ref_texts() {
    assert_eq!(branch_ref("RSL"), "refs/heads/RSL");
    assert_eq!(push_refspec("master"), "refs/heads/master:refs/heads/master");
    assert_eq!(commit_as_str(Some("tree abc\nauthor x"), Some("msg")).unwrap(), "tree abc\nauthor x\nmsg");
    assert_eq!(commit_as_str(Some("h"), None).unwrap_err().description(), "invalid utf8");
    assert_eq!(commit_as_str(None, Some("m")).unwrap_err().description(), "invalid utf8");
}

#[test]
fn stash_decision() {
    assert!(!stash_needed(true, 0));
    assert!(stash_needed(true, 2));
    assert!(stash_needed(false, 0));
}

#[test]
fn first_session_preferences() {
    let mut s = FirstSession::new();
    assert_eq!(s.answer(allowed(false, true, true, true)), FirstChoice::SshAgent);
    assert_eq!(s.answer(allowed(false, true, true, true)), FirstChoice::CredentialHelper);
    assert_eq!(s.answer(allowed(false, false, false, true)), FirstChoice::DefaultCredential);
    assert_eq!(s.answer(allowed(false, false, false, false)), FirstChoice::NoneAvailable);
    assert!(!s.username_requested);
    assert_eq!(s.answer(allowed(true, true, false, false)), FirstChoice::DeferUsername);
    assert!(s.username_requested && s.any_attempts);
}

#[test]
fn username_order() {
    let names = username_candidates(Some(String::from("alice")), Some(String::from("helper")));
    assert_eq!(names, vec!["helper".to_string(), "alice".to_string(), "git".to_string()]);
    assert_eq!(username_candidates(None, None), vec!["git".to_string()]);
}

#[test]
fn retry_session() {
    let mut attempts = 0u32;
    assert_eq!(retry_choice(&mut attempts, allowed(true, false, false, false)), RetryChoice::Username);
    assert_eq!(retry_choice(&mut attempts, allowed(false, true, false, false)), RetryChoice::SshAgent);
    assert_eq!(retry_choice(&mut attempts, allowed(false, true, false, false)), RetryChoice::NoneAvailable);
    assert_eq!(attempts, 2);
    assert!(try_next_username(attempts));
    assert!(!try_next_username(1));
}
