use git_rsl::errors::{Error, ErrorKind};
use git_rsl::nonce::Nonce;
use git_rsl::nonce_bag::NonceBag;
use git_rsl::oid::Oid;
use git_rsl::push_entry::PushEntry;
use git_rsl::rsl::{
    all_push_entries_in_fetch_head, fast_forward_check, find_last_push_entry,
    find_last_remote_push_entry_for_branch, init_rsl_action, RslInit, RSL,
};

const MY_NONCE: Nonce = Nonce { bytes: [7; 32] };
const OTHER_NONCE: Nonce = Nonce { bytes: [9; 32] };

fn oid(b: u8) -> Oid {
    Oid::from_bytes([b; 20])
}

fn bag_with(nonces: &[Nonce]) -> NonceBag {
    let mut bag = NonceBag::new();
    for n in nonces {
        bag.insert(*n).unwrap();
    }
    bag
}

fn first_entry() -> PushEntry {
    PushEntry::new(String::from("RSL"), oid(1), String::from("First Push Entry"), bag_with(&[MY_NONCE]))
}

fn rsl_with(bag: NonceBag) -> RSL {
    RSL::new(oid(1), oid(2), first_entry(), first_entry(), bag, MY_NONCE, String::from("dev"))
}

#[test]
fn honest_history_validates() {
    let rsl = rsl_with(bag_with(&[MY_NONCE]));
    let e1 = rsl.add_push_entry(String::from("refs/heads/master"), oid(3));
    assert_eq!(e1.prev_hash(), first_entry().hash());
    let e2 = PushEntry::new(String::from("refs/heads/master"), oid(4), e1.hash(), bag_with(&[OTHER_NONCE]));
    let remaining = vec![None, Some(e1), None, Some(e2)];
    assert!(rsl.validate(true, &remaining, Ok(true)).is_ok());
}

#[test]
fn broken_link_is_refused() {
    let rsl = rsl_with(bag_with(&[MY_NONCE]));
    let e1 = rsl.add_push_entry(String::from("refs/heads/master"), oid(3));
    let forged = PushEntry::new(String::from("refs/heads/master"), oid(4), String::from("bogus"), NonceBag::new());
    let err = rsl.validate(true, &vec![Some(e1), Some(forged)], Ok(true)).unwrap_err();
    assert_eq!(err.description(), "invalid RSL entry");
}

#[test]
fn rolled_back_first_entry_is_refused() {
    let rsl = rsl_with(bag_with(&[MY_NONCE]));
    let stale = PushEntry::new(String::from("refs/heads/master"), oid(3), String::from("First Push Entry"), NonceBag::new());
    let err = rsl.validate(true, &vec![Some(stale)], Ok(true)).unwrap_err();
    assert_eq!(err.description(), "invalid RSL entry");
}

#[test]
fn missing_nonce_is_refused() {
    let rsl = rsl_with(bag_with(&[OTHER_NONCE]));
    let e1 = PushEntry::new(String::from("refs/heads/master"), oid(3), first_entry().hash(), bag_with(&[OTHER_NONCE]));
    let err = rsl.validate(true, &vec![Some(e1)], Ok(true)).unwrap_err();
    assert_eq!(err.description(), "invalid RSL entry");
}

#[test]
fn nonce_in_new_entry_suffices() {
    let rsl = rsl_with(bag_with(&[OTHER_NONCE]));
    let e1 = PushEntry::new(String::from("refs/heads/master"), oid(3), first_entry().hash(), bag_with(&[MY_NONCE]));
    assert!(rsl.validate(true, &vec![Some(e1)], Ok(true)).is_ok());
}

#[test]
fn no_path_is_refused() {
    let rsl = rsl_with(bag_with(&[MY_NONCE]));
    let err = rsl.validate(false, &vec![], Ok(true)).unwrap_err();
    assert_eq!(err.description(), "RSL invalid: No path to get from Local RSL to Remote RSL");
}

#[test]
fn same_heads_validate_without_path() {
    let rsl = RSL::new(oid(1), oid(1), first_entry(), first_entry(), bag_with(&[MY_NONCE]), MY_NONCE, String::from("dev"));
    assert!(rsl.validate(false, &vec![], Ok(true)).is_ok());
}

#[test]
fn bad_signature_is_refused() {
    let rsl = rsl_with(bag_with(&[MY_NONCE]));
    let err = rsl.validate(true, &vec![], Ok(false)).unwrap_err();
    assert_eq!(err.description(), "GPG signature of remote RSL head invalid");
    let err2 = rsl.validate(true, &vec![], Err(Error::msg("gpg verification failed"))).unwrap_err();
    assert_eq!(err2.description(), "gpg verification failed");
}

#[test]
fn update_nonce_bag_swaps_nonce() {
    let mut rsl = rsl_with(bag_with(&[OTHER_NONCE, MY_NONCE]));
    rsl.update_nonce_bag().unwrap();
    assert_ne!(rsl.nonce, MY_NONCE);
    assert!(rsl.nonce_bag.contains(&rsl.nonce));
    assert!(!rsl.nonce_bag.contains(&MY_NONCE));
    assert!(rsl.nonce_bag.contains(&OTHER_NONCE));
    assert_eq!(rsl.nonce_bag.len(), 2);
}

#[test]
fn replace_nonce_adds_fresh_nonce() {
    let fresh = Nonce { bytes: [3; 32] };
    let mut rsl = rsl_with(bag_with(&[OTHER_NONCE]));
    rsl.replace_nonce(fresh);
    assert_eq!(rsl.nonce, fresh);
    assert_eq!(rsl.nonce_bag.nonces().clone(), vec![OTHER_NONCE, fresh]);
    assert_eq!(rsl.username, "dev");
    assert_eq!(rsl.local_head, oid(1));
}

#[test]
fn replace_nonce_keeps_bag_when_already_there() {
    let mut rsl = rsl_with(bag_with(&[OTHER_NONCE, MY_NONCE]));
    rsl.replace_nonce(OTHER_NONCE);
    assert_eq!(rsl.nonce, OTHER_NONCE);
    assert_eq!(rsl.nonce_bag.nonces().clone(), vec![OTHER_NONCE, MY_NONCE]);
}

#[test]
fn update_nonce_bag_without_own_nonce_fails() {
    let mut rsl = rsl_with(bag_with(&[OTHER_NONCE]));
    let err = rsl.update_nonce_bag().unwrap_err();
    assert_eq!(err.description(), "Your local '.git/NONCE' does not match the one fetched from the remote reference state log. Someone may have tampered with the remote repo.");
    assert_eq!(rsl.nonce, MY_NONCE);
    assert_eq!(rsl.nonce_bag.len(), 1);
}

#[test]
fn update_local_and_reset() {
    let mut rsl = rsl_with(bag_with(&[MY_NONCE]));
    rsl.reset_remote_to_local();
    assert_eq!(rsl.remote_head, oid(1));
    let mut rsl2 = rsl_with(bag_with(&[MY_NONCE]));
    let newest = rsl2.add_push_entry(String::from("refs/heads/master"), oid(5));
    rsl2.update_local(vec![Ok(None), Ok(Some(newest)), Ok(Some(first_entry()))]).unwrap();
    assert_eq!(rsl2.local_head, oid(2));
    assert_eq!(rsl2.last_local_push_entry.oid(), oid(5));
}

#[test]
fn update_local_without_push_entry_fails() {
    let mut rsl = rsl_with(bag_with(&[MY_NONCE]));
    let err = rsl.update_local(vec![Ok(None)]).unwrap_err();
    assert_eq!(err.description(), "no push entries on this branch");
    assert_eq!(rsl.local_head, oid(2));
    assert_eq!(rsl.last_local_push_entry, first_entry());
}

#[test]
fn initial_entry_fields() {
    let e = git_rsl::rsl::initial_push_entry(String::from("refs/heads/RSL"), oid(6), MY_NONCE);
    assert_eq!(e.prev_hash(), "First Push Entry");
    assert_eq!(e.ref_name(), "refs/heads/RSL");
    assert_eq!(e.oid(), oid(6));
    assert_eq!(e.get_nonce_bag().nonces(), &vec![MY_NONCE]);
}

#[test]
fn find_last_push_entry_skips_other_commits() {
    let walk = vec![Ok(None), Ok(None), Ok(Some(first_entry())), Err(Error::msg("unreachable"))];
    assert_eq!(find_last_push_entry(walk).unwrap(), first_entry());
    let err = find_last_push_entry(vec![Ok(None)]).unwrap_err();
    assert_eq!(err.description(), "no push entries on this branch");
    let err2 = find_last_push_entry(vec![Ok(None), Err(Error::msg("could not find commit for push entry"))]).unwrap_err();
    assert_eq!(err2.description(), "could not find commit for push entry");
}

#[test]
fn find_last_remote_push_entry_for_branch_matches_reference() {
    let master = PushEntry::new(String::from("refs/heads/master"), oid(3), String::from("x"), NonceBag::new());
    let walk = vec![Ok(None), Ok(Some(first_entry())), Ok(Some(master))];
    let found = find_last_remote_push_entry_for_branch(walk, "refs/heads/master").unwrap().unwrap();
    assert_eq!(found.oid(), oid(3));
    let none = find_last_remote_push_entry_for_branch(vec![Ok(Some(first_entry()))], "refs/heads/dev").unwrap();
    assert!(none.is_none());
}

#[test]
fn init_actions() {
    assert_eq!(init_rsl_action(false, false).unwrap(), RslInit::Global);
    assert_eq!(init_rsl_action(true, false).unwrap(), RslInit::Local);
    assert_eq!(init_rsl_action(true, true).unwrap(), RslInit::Ready);
    let err = init_rsl_action(false, true).unwrap_err();
    assert_eq!(err.description(), "RSL exists locally but not globally. Somebody has deleted the remote RSL for this project, or else you are interacting with a remote that does not have an RSL.");
}

#[test]
fn fetch_heads_subset() {
    assert!(all_push_entries_in_fetch_head(&vec![oid(1), oid(2)], &vec![oid(2)]));
    assert!(all_push_entries_in_fetch_head(&vec![oid(1)], &vec![]));
    assert!(!all_push_entries_in_fetch_head(&vec![oid(1)], &vec![oid(1), oid(3)]));
}

#[test]
fn fast_forward_verdicts() {
    assert!(fast_forward_check(Ok(true)).is_ok());
    let msg = "Local RSL cannot be fastforwarded to match remote. This may indicate that someone has tampered with the RSL history. Use caution before proceeding.";
    assert_eq!(fast_forward_check(Ok(false)).unwrap_err().description(), msg);
    let err = fast_forward_check(Err(Error::from_kind(ErrorKind::Git(String::from("merge analysis failed"))))).unwrap_err();
    assert_eq!(err.descriptions(), vec![msg.to_string(), "merge analysis failed".to_string()]);
}

#[test]
fn other_commits_do_not_change_validation() {
    let rsl = rsl_with(bag_with(&[MY_NONCE]));
    let e1 = rsl.add_push_entry(String::from("refs/heads/master"), oid(3));
    let e1_again = rsl.add_push_entry(String::from("refs/heads/master"), oid(3));
    assert!(rsl.validate(true, &vec![Some(e1)], Ok(true)).is_ok());
    assert!(rsl.validate(true, &vec![Some(e1_again), None, None], Ok(true)).is_ok());
    let unlinked = PushEntry::new(String::from("refs/heads/master"), oid(4), String::from("nope"), NonceBag::new());
    assert!(rsl.validate(true, &vec![None, Some(unlinked), None], Ok(true)).is_err());
}
