//! The reference state log: what a developer knows of the local and the
//! remote RSL, and the decisions that validating and extending it take.

use vstd::prelude::*;

use crate::errors::{Error, ErrorKind};
use crate::nonce::Nonce;
use crate::nonce_bag::NonceBag;
use crate::oid::Oid;
use crate::push_entry::PushEntry;

verus! {

/// The name of the branch that holds the RSL.
pub const RSL_BRANCH: &'static str = "RSL";

/// The state of the RSL as a developer reads it from their repository.
#[derive(Debug)]
pub struct RSL {
    /// The tip of the local RSL branch.
    pub local_head: Oid,
    /// The tip of the RSL branch as fetched from the remote.
    pub remote_head: Oid,
    /// The newest push entry on the local RSL branch.
    pub last_local_push_entry: PushEntry,
    /// The newest push entry on the remote RSL branch.
    pub last_remote_push_entry: PushEntry,
    /// The nonce bag of the working tree of the RSL branch.
    pub nonce_bag: NonceBag,
    /// This developer's current nonce.
    pub nonce: Nonce,
    /// This developer's git user name.
    pub username: String,
}

/// Whether this developer's nonce appears in the nonce bag or in entry `e`.
pub open spec fn nonce_seen(rsl: &RSL, e: PushEntry) -> bool {
    rsl.nonce_bag@.contains(rsl.nonce) || e.spec_nonce_bag().contains(rsl.nonce)
}

/// One step of validating the remote RSL: `acc` is the hash of the newest push
/// entry so far (`None` once validation has failed), `item` the next commit
/// (`None` where it is not a push entry).
pub open spec fn chain_step(rsl: &RSL, acc: Option<Seq<char>>, item: Option<PushEntry>) -> Option<
    Seq<char>,
> {
    match item {
        None => acc,
        Some(e) => {
            if e.spec_prev_hash() == rsl.last_local_push_entry.spec_hash() && !nonce_seen(rsl, e) {
                None
            } else if acc == Some(e.spec_prev_hash()) {
                Some(e.spec_hash())
            } else {
                None
            }
        },
    }
}

/// Validating the commits `items` of the remote RSL that are new since the
/// local RSL, oldest first.
pub open spec fn chain_result(rsl: &RSL, items: Seq<Option<PushEntry>>) -> Option<Seq<char>>
    decreases items.len(),
{
    if items.len() == 0 {
        Some(rsl.last_local_push_entry.spec_hash())
    } else {
        chain_step(rsl, chain_result(rsl, items.drop_last()), items.last())
    }
}

impl RSL {
    /// The RSL state read from a repository.
    pub fn new(
        local_head: Oid,
        remote_head: Oid,
        last_local_push_entry: PushEntry,
        last_remote_push_entry: PushEntry,
        nonce_bag: NonceBag,
        nonce: Nonce,
        username: String,
    ) -> (res: RSL)
        ensures
            res.local_head == local_head,
            res.remote_head == remote_head,
            res.last_local_push_entry == last_local_push_entry,
            res.last_remote_push_entry == last_remote_push_entry,
            res.nonce_bag == nonce_bag,
            res.nonce == nonce,
            res.username == username,
    {
        RSL {
            local_head,
            remote_head,
            last_local_push_entry,
            last_remote_push_entry,
            nonce_bag,
            nonce,
            username,
        }
    }

    /// Validates the remote RSL against the local one.
    ///
    /// `remote_descends_from_local` says whether git finds the remote head to
    /// be a descendant of the local head; `remaining` holds the commits of the
    /// remote RSL that the local one lacks, oldest first, each as its push
    /// entry or `None` where it is not one; `remote_head_signature` is the
    /// outcome of verifying the GnuPG signature of the remote head.
    pub fn validate(
        &self,
        remote_descends_from_local: bool,
        remaining: &Vec<Option<PushEntry>>,
        remote_head_signature: Result<bool, Error>,
    ) -> (res: Result<(), Error>)
        ensures
            !remote_descends_from_local && self.local_head != self.remote_head ==> (res matches Err(
                e,
            ) && e.is_msg("RSL invalid: No path to get from Local RSL to Remote RSL"@)),
            (remote_descends_from_local || self.local_head == self.remote_head) && chain_result(
                self,
                remaining@,
            ) is None ==> (res matches Err(e) && e.is_msg("invalid RSL entry"@)),
            (remote_descends_from_local || self.local_head == self.remote_head) && chain_result(
                self,
                remaining@,
            ) is Some ==> match remote_head_signature {
                Err(e) => res == Err::<(), Error>(e),
                Ok(false) => res matches Err(e) && e.is_msg(
                    "GPG signature of remote RSL head invalid"@,
                ),
                Ok(true) => res is Ok,
            },
    {
        if !remote_descends_from_local && self.local_head != self.remote_head {
            return Err(Error::msg("RSL invalid: No path to get from Local RSL to Remote RSL"));
        }
        let local_hash = self.last_local_push_entry.hash();
        let mut acc: Option<String> = Some(local_hash.clone());
        let mut i: usize = 0;
        while i < remaining.len()
            invariant
                i <= remaining@.len(),
                local_hash@ == self.last_local_push_entry.spec_hash(),
                match acc {
                    Some(h) => chain_result(self, remaining@.take(i as int)) == Some(h@),
                    None => chain_result(self, remaining@.take(i as int)) is None,
                },
            decreases remaining@.len() - i,
        {
            assert(remaining@.take(i + 1).drop_last() =~= remaining@.take(i as int));
            match &remaining[i] {
                None => {},
                Some(e) => {
                    let p = e.prev_hash();
                    if p == local_hash && !self.nonce_bag.contains(&self.nonce)
                        && !e.get_nonce_bag().contains(&self.nonce) {
                        acc = None;
                    } else {
                        let linked = match &acc {
                            Some(h) => *h == p,
                            None => false,
                        };
                        if linked {
                            acc = Some(e.hash());
                        } else {
                            acc = None;
                        }
                    }
                },
            }
            i = i + 1;
        }
        assert(remaining@.take(remaining@.len() as int) =~= remaining@);
        if acc.is_none() {
            return Err(Error::msg("invalid RSL entry"));
        }
        match remote_head_signature {
            Err(e) => Err(e),
            Ok(true) => Ok(()),
            Ok(false) => Err(Error::msg("GPG signature of remote RSL head invalid")),
        }
    }

    /// The push entry that records pushing reference `ref_name` (its full
    /// name) at commit `oid`: it follows the newest remote push entry and
    /// carries the current nonce bag.
    pub fn add_push_entry(&self, ref_name: String, oid: Oid) -> (res: PushEntry)
        ensures
            res.spec_ref_name() == ref_name@,
            res.spec_oid() == oid,
            res.spec_prev_hash() == self.last_remote_push_entry.spec_hash(),
            res.spec_nonce_bag() == self.nonce_bag@,
    {
        let prev_hash = self.last_remote_push_entry.hash();
        PushEntry::new(ref_name, oid, prev_hash, self.nonce_bag.clone())
    }

    /// Replaces this developer's nonce in the bag by a fresh random one.
    ///
    /// Fails where the current nonce is not in the bag, which may mean that
    /// someone has tampered with the remote RSL; fails too where no random
    /// nonce can be had, after the old nonce has left the bag. Which nonce the
    /// operating system gives is left unsaid; `replace_nonce` puts it in place.
    pub fn update_nonce_bag(&mut self) -> (res: Result<(), Error>)
        ensures
            final(self).local_head == old(self).local_head,
            final(self).remote_head == old(self).remote_head,
            final(self).last_local_push_entry == old(self).last_local_push_entry,
            final(self).last_remote_push_entry == old(self).last_remote_push_entry,
            final(self).username == old(self).username,
            !old(self).nonce_bag@.contains(old(self).nonce) ==> final(self).nonce_bag@ == old(
                self,
            ).nonce_bag@ && final(self).nonce == old(self).nonce && (res matches Err(e) && e.is_msg(
                "Your local '.git/NONCE' does not match the one fetched from the remote reference state log. Someone may have tampered with the remote repo."@,
            )),
            old(self).nonce_bag@.contains(old(self).nonce) ==> ({
                let without = old(self).nonce_bag@.remove(
                    old(self).nonce_bag@.index_of(old(self).nonce),
                );
                match res {
                    Ok(()) => {
                        &&& final(self).nonce_bag@ == if without.contains(final(self).nonce) {
                            without
                        } else {
                            without.push(final(self).nonce)
                        }
                        &&& final(self).nonce_bag@.contains(final(self).nonce)
                    },
                    Err(e) => {
                        &&& e.is_msg("no randum number generator"@)
                        &&& final(self).nonce_bag@ == without
                        &&& final(self).nonce == old(self).nonce
                    },
                }
            }),
    {
        if self.nonce_bag.remove(&self.nonce).is_err() {
            return Err(
                Error::msg(
                    "Your local '.git/NONCE' does not match the one fetched from the remote reference state log. Someone may have tampered with the remote repo.",
                ),
            );
        }
        let new_nonce = match Nonce::new() {
            Ok(n) => n,
            Err(e) => return Err(e),
        };
        self.replace_nonce(new_nonce);
        Ok(())
    }

    /// Makes `fresh` this developer's nonce and adds it to the nonce bag,
    /// where it is not there already; the rest of the state stays as it was.
    pub fn replace_nonce(&mut self, fresh: Nonce)
        ensures
            final(self).nonce == fresh,
            final(self).nonce_bag@ == if old(self).nonce_bag@.contains(fresh) {
                old(self).nonce_bag@
            } else {
                old(self).nonce_bag@.push(fresh)
            },
            final(self).nonce_bag@.contains(fresh),
            final(self).local_head == old(self).local_head,
            final(self).remote_head == old(self).remote_head,
            final(self).last_local_push_entry == old(self).last_local_push_entry,
            final(self).last_remote_push_entry == old(self).last_remote_push_entry,
            final(self).username == old(self).username,
    {
        self.nonce = fresh;
        let ghost before = self.nonce_bag@;
        let _ = self.nonce_bag.insert(fresh);
        proof {
            if !before.contains(fresh) {
                assert(self.nonce_bag@[self.nonce_bag@.len() - 1] == fresh);
            }
        }
    }

    /// After the local RSL branch has been fast-forwarded to the remote one:
    /// the local head becomes the remote head, and the newest local push
    /// entry becomes the newest push entry of `walk`, the commits of the new
    /// local head backwards, read as for `find_last_push_entry`. Where the
    /// walk holds no push entry, or an error comes first, that error is
    /// returned and the newest local push entry stays as it was.
    pub fn update_local(&mut self, walk: Vec<Result<Option<PushEntry>, Error>>) -> (res: Result<
        (),
        Error,
    >)
        ensures
            final(self).local_head == old(self).remote_head,
            final(self).remote_head == old(self).remote_head,
            final(self).last_remote_push_entry == old(self).last_remote_push_entry,
            final(self).nonce_bag == old(self).nonce_bag,
            final(self).nonce == old(self).nonce,
            final(self).username == old(self).username,
            first_push_entry(walk@) matches Some(Ok(pe)) ==> res is Ok
                && final(self).last_local_push_entry == pe,
            first_push_entry(walk@) matches Some(Err(e)) ==> res == Err::<(), Error>(e)
                && final(self).last_local_push_entry == old(self).last_local_push_entry,
            first_push_entry(walk@) is None ==> (res matches Err(e) && e.is_msg(
                "no push entries on this branch"@,
            )) && final(self).last_local_push_entry == old(self).last_local_push_entry,
    {
        self.local_head = self.remote_head;
        match find_last_push_entry(walk) {
            Ok(pe) => {
                self.last_local_push_entry = pe;
                Ok(())
            },
            Err(e) => Err(e),
        }
    }

    /// After the fetched remote RSL reference has been set back to the local
    /// head: the remote head becomes the local head, the last trusted state.
    pub fn reset_remote_to_local(&mut self)
        ensures
            final(self).remote_head == old(self).local_head,
            final(self).local_head == old(self).local_head,
            final(self).last_local_push_entry == old(self).last_local_push_entry,
            final(self).last_remote_push_entry == old(self).last_remote_push_entry,
            final(self).nonce_bag == old(self).nonce_bag,
            final(self).nonce == old(self).nonce,
            final(self).username == old(self).username,
    {
        self.remote_head = self.local_head;
    }
}

/// What fast-forwarding the local RSL to the remote one needs: `possible` is
/// git's answer to whether the fast-forward is possible.
pub fn fast_forward_check(possible: Result<bool, Error>) -> (res: Result<(), Error>)
    ensures
        possible matches Ok(true) ==> res is Ok,
        possible matches Ok(false) ==> (res matches Err(e) && e.is_msg(
            "Local RSL cannot be fastforwarded to match remote. This may indicate that someone has tampered with the RSL history. Use caution before proceeding."@,
        )),
        possible matches Err(c) ==> (res matches Err(e) && e.is_msg(
            "Local RSL cannot be fastforwarded to match remote. This may indicate that someone has tampered with the RSL history. Use caution before proceeding."@,
        ) && e.cause == Some(Box::new(c))),
{
    match possible {
        Ok(true) => Ok(()),
        Ok(false) => Err(
            Error::msg(
                "Local RSL cannot be fastforwarded to match remote. This may indicate that someone has tampered with the RSL history. Use caution before proceeding.",
            ),
        ),
        Err(c) => Err(
            c.chain(
                ErrorKind::Msg(
                    "Local RSL cannot be fastforwarded to match remote. This may indicate that someone has tampered with the RSL history. Use caution before proceeding.".to_string(),
                ),
            ),
        ),
    }
}

} // verus!

verus! {

/// The push entries among `items`, in their order.
pub open spec fn entries_of(items: Seq<Option<PushEntry>>) -> Seq<PushEntry>
    decreases items.len(),
{
    if items.len() == 0 {
        Seq::empty()
    } else {
        match items.last() {
            Some(e) => entries_of(items.drop_last()).push(e),
            None => entries_of(items.drop_last()),
        }
    }
}

/// The hash of the newest of `es`, or `h0` where there is none.
pub open spec fn head_hash(h0: Seq<char>, es: Seq<PushEntry>) -> Seq<char> {
    if es.len() == 0 {
        h0
    } else {
        es.last().spec_hash()
    }
}

/// Each of `es` names as its previous hash the hash of the entry before it,
/// the first one `h0`.
pub open spec fn links_to(h0: Seq<char>, es: Seq<PushEntry>) -> bool
    decreases es.len(),
{
    if es.len() == 0 {
        true
    } else {
        links_to(h0, es.drop_last()) && es.last().spec_prev_hash() == head_hash(h0, es.drop_last())
    }
}

/// Each of `es` that follows the newest local entry directly carries this
/// developer's nonce, in its bag or in the local bag.
pub open spec fn nonces_accounted(rsl: &RSL, es: Seq<PushEntry>) -> bool {
    forall|i: int|
        0 <= i < es.len() && (#[trigger] es[i]).spec_prev_hash()
            == rsl.last_local_push_entry.spec_hash() ==> rsl.nonce_bag@.contains(rsl.nonce)
            || es[i].spec_nonce_bag().contains(rsl.nonce)
}

/// Validation of the new part of the remote RSL succeeds exactly when its push
/// entries form a hash chain from the newest local push entry and each entry
/// that follows that one directly accounts for this developer's nonce; it then
/// ends at the hash of the newest remote push entry. Commits that are not push
/// entries are passed over.
pub proof fn law_validation_accepts_exactly_hash_chains(rsl: &RSL, items: Seq<Option<PushEntry>>)
    ensures
        chain_result(rsl, items) == if links_to(
            rsl.last_local_push_entry.spec_hash(),
            entries_of(items),
        ) && nonces_accounted(rsl, entries_of(items)) {
            Some(head_hash(rsl.last_local_push_entry.spec_hash(), entries_of(items)))
        } else {
            None::<Seq<char>>
        },
    decreases items.len(),
{
    let h0 = rsl.last_local_push_entry.spec_hash();
    if items.len() > 0 {
        let init = items.drop_last();
        law_validation_accepts_exactly_hash_chains(rsl, init);
        let es0 = entries_of(init);
        match items.last() {
            None => {},
            Some(e) => {
                let es = entries_of(items);
                assert(es == es0.push(e));
                assert(es.drop_last() =~= es0);
                assert(es.last() == e);
                if nonces_accounted(rsl, es) {
                    assert forall|i: int|
                        0 <= i < es0.len() && (#[trigger] es0[i]).spec_prev_hash() == h0 implies nonce_seen(
                        rsl,
                        es0[i],
                    ) by {
                        assert(es[i] == es0[i]);
                    }
                }
                if nonces_accounted(rsl, es0) && (e.spec_prev_hash() == h0 ==> nonce_seen(rsl, e)) {
                    assert forall|i: int|
                        0 <= i < es.len() && (#[trigger] es[i]).spec_prev_hash() == h0 implies nonce_seen(
                        rsl,
                        es[i],
                    ) by {
                        if i < es0.len() {
                            assert(es[i] == es0[i]);
                        }
                    }
                }
                if e.spec_prev_hash() == h0 && !nonce_seen(rsl, e) {
                    assert(es[es.len() - 1] == e);
                    assert(!nonces_accounted(rsl, es));
                }
            },
        }
    }
}

/// A forged or rolled-back history is refused: where a push entry among the
/// new commits does not name the hash of the push entry before it (the newest
/// local one for the first), validation fails.
pub proof fn law_broken_link_is_refused(rsl: &RSL, items: Seq<Option<PushEntry>>, i: int)
    requires
        0 <= i < entries_of(items).len(),
        entries_of(items)[i].spec_prev_hash() != head_hash(
            rsl.last_local_push_entry.spec_hash(),
            entries_of(items).take(i),
        ),
    ensures
        chain_result(rsl, items) is None,
{
    law_validation_accepts_exactly_hash_chains(rsl, items);
    let h0 = rsl.last_local_push_entry.spec_hash();
    let es = entries_of(items);
    if links_to(h0, es) {
        lemma_links_prefix(h0, es, i + 1);
        let pre = es.take(i + 1);
        assert(pre.drop_last() =~= es.take(i));
        assert(pre.last() == es[i]);
    }
}

proof fn lemma_links_prefix(h0: Seq<char>, es: Seq<PushEntry>, n: int)
    requires
        0 <= n <= es.len(),
        links_to(h0, es),
    ensures
        links_to(h0, es.take(n)),
    decreases es.len(),
{
    if n < es.len() {
        assert(es.drop_last().take(n) =~= es.take(n));
        lemma_links_prefix(h0, es.drop_last(), n);
    } else {
        assert(es.take(n) =~= es);
    }
}

} // verus!

verus! {

/// The first decisive commit of a walk down an RSL branch: an error in reading
/// a commit, or a push entry. `None` where there is neither.
pub open spec fn first_push_entry(walk: Seq<Result<Option<PushEntry>, Error>>) -> Option<
    Result<PushEntry, Error>,
>
    decreases walk.len(),
{
    if walk.len() == 0 {
        None
    } else {
        match walk[0] {
            Err(e) => Some(Err(e)),
            Ok(Some(pe)) => Some(Ok(pe)),
            Ok(None) => first_push_entry(walk.drop_first()),
        }
    }
}

/// Like `first_push_entry`, but passing over push entries for other references.
pub open spec fn first_push_entry_for(
    walk: Seq<Result<Option<PushEntry>, Error>>,
    reference: Seq<char>,
) -> Option<Result<PushEntry, Error>>
    decreases walk.len(),
{
    if walk.len() == 0 {
        None
    } else {
        match walk[0] {
            Err(e) => Some(Err(e)),
            Ok(Some(pe)) => if pe.spec_ref_name() == reference {
                Some(Ok(pe))
            } else {
                first_push_entry_for(walk.drop_first(), reference)
            },
            Ok(None) => first_push_entry_for(walk.drop_first(), reference),
        }
    }
}

/// What one commit of a walk down an RSL branch settles: the error in reading
/// it, or its push entry; `None` where it is another commit.
pub open spec fn decisive(item: Result<Option<PushEntry>, Error>) -> Option<Result<PushEntry, Error>> {
    match item {
        Err(e) => Some(Err(e)),
        Ok(Some(pe)) => Some(Ok(pe)),
        Ok(None) => None,
    }
}

/// Like `decisive`, but a push entry for another reference than `reference`
/// settles nothing.
pub open spec fn decisive_for(item: Result<Option<PushEntry>, Error>, reference: Seq<char>) -> Option<
    Result<PushEntry, Error>,
> {
    match item {
        Err(e) => Some(Err(e)),
        Ok(Some(pe)) => if pe.spec_ref_name() == reference {
            Some(Ok(pe))
        } else {
            None
        },
        Ok(None) => None,
    }
}

/// Walking down an RSL branch from its tip, the first commit that is a push
/// entry or cannot be read decides the newest push entry, the tip itself
/// included; the commits after it do not matter.
pub proof fn law_first_decisive_commit_wins(walk: Seq<Result<Option<PushEntry>, Error>>, k: int)
    requires
        0 <= k < walk.len(),
        decisive(walk[k]) is Some,
        forall|j: int| 0 <= j < k ==> decisive(#[trigger] walk[j]) is None,
    ensures
        first_push_entry(walk) == decisive(walk[k]),
    decreases k,
{
    if k > 0 {
        assert(decisive(walk[0]) is None);
        let rest = walk.drop_first();
        assert forall|j: int| 0 <= j < k - 1 implies decisive(#[trigger] rest[j]) is None by {
            assert(rest[j] == walk[j + 1]);
        }
        assert(rest[k - 1] == walk[k]);
        law_first_decisive_commit_wins(rest, k - 1);
    }
}

/// A walk in which no commit is a push entry or unreadable has no newest push
/// entry.
pub proof fn law_no_decisive_commit(walk: Seq<Result<Option<PushEntry>, Error>>)
    requires
        forall|j: int| 0 <= j < walk.len() ==> decisive(#[trigger] walk[j]) is None,
    ensures
        first_push_entry(walk) is None,
    decreases walk.len(),
{
    if walk.len() > 0 {
        assert(decisive(walk[0]) is None);
        let rest = walk.drop_first();
        assert forall|j: int| 0 <= j < rest.len() implies decisive(#[trigger] rest[j]) is None by {
            assert(rest[j] == walk[j + 1]);
        }
        law_no_decisive_commit(rest);
    }
}

/// Walking down the remote RSL from its tip, the first commit that is a push
/// entry for `reference` or cannot be read decides the newest push entry for
/// that reference; push entries for other references are passed over.
pub proof fn law_first_entry_for_reference_wins(
    walk: Seq<Result<Option<PushEntry>, Error>>,
    reference: Seq<char>,
    k: int,
)
    requires
        0 <= k < walk.len(),
        decisive_for(walk[k], reference) is Some,
        forall|j: int| 0 <= j < k ==> decisive_for(#[trigger] walk[j], reference) is None,
    ensures
        first_push_entry_for(walk, reference) == decisive_for(walk[k], reference),
    decreases k,
{
    if k > 0 {
        assert(decisive_for(walk[0], reference) is None);
        let rest = walk.drop_first();
        assert forall|j: int| 0 <= j < k - 1 implies decisive_for(#[trigger] rest[j], reference) is None by {
            assert(rest[j] == walk[j + 1]);
        }
        assert(rest[k - 1] == walk[k]);
        law_first_entry_for_reference_wins(rest, reference, k - 1);
    }
}

/// A walk with no push entry for `reference` and no unreadable commit has no
/// push entry for that reference.
pub proof fn law_no_entry_for_reference(walk: Seq<Result<Option<PushEntry>, Error>>, reference: Seq<char>)
    requires
        forall|j: int| 0 <= j < walk.len() ==> decisive_for(#[trigger] walk[j], reference) is None,
    ensures
        first_push_entry_for(walk, reference) is None,
    decreases walk.len(),
{
    if walk.len() > 0 {
        assert(decisive_for(walk[0], reference) is None);
        let rest = walk.drop_first();
        assert forall|j: int| 0 <= j < rest.len() implies decisive_for(#[trigger] rest[j], reference) is None by {
            assert(rest[j] == walk[j + 1]);
        }
        law_no_entry_for_reference(rest, reference);
    }
}

/// The newest push entry of an RSL branch. `walk` holds the commits of the
/// branch from its tip backwards, each read as its push entry, as `None` where
/// it is not one, or as the error in reading it; only the part up to the first
/// push entry or error matters.
pub fn find_last_push_entry(walk: Vec<Result<Option<PushEntry>, Error>>) -> (res: Result<
    PushEntry,
    Error,
>)
    ensures
        first_push_entry(walk@) matches Some(r) ==> res == r,
        first_push_entry(walk@) is None ==> (res matches Err(e) && e.is_msg(
            "no push entries on this branch"@,
        )),
        forall|k: int|
            0 <= k < walk@.len() && #[trigger] decisive(walk@[k]) is Some && (forall|j: int|
                0 <= j < k ==> decisive(walk@[j]) is None) ==> decisive(walk@[k]) == Some(res),
        (forall|j: int| 0 <= j < walk@.len() ==> decisive(#[trigger] walk@[j]) is None) ==> (res matches Err(
            e,
        ) && e.is_msg("no push entries on this branch"@)),
{
    proof {
        assert forall|k: int|
            0 <= k < walk@.len() && #[trigger] decisive(walk@[k]) is Some && (forall|j: int|
                0 <= j < k ==> decisive(walk@[j]) is None) implies first_push_entry(walk@) == decisive(
            walk@[k],
        ) by {
            law_first_decisive_commit_wins(walk@, k);
        }
        if forall|j: int| 0 <= j < walk@.len() ==> decisive(#[trigger] walk@[j]) is None {
            law_no_decisive_commit(walk@);
        }
    }
    let mut rest = walk;
    while rest.len() > 0
        invariant
            first_push_entry(rest@) == first_push_entry(walk@),
            forall|k: int|
                0 <= k < walk@.len() && #[trigger] decisive(walk@[k]) is Some && (forall|j: int|
                    0 <= j < k ==> decisive(walk@[j]) is None) ==> first_push_entry(walk@)
                    == decisive(walk@[k]),
            (forall|j: int| 0 <= j < walk@.len() ==> decisive(#[trigger] walk@[j]) is None)
                ==> first_push_entry(walk@) is None,
        decreases rest@.len(),
    {
        let ghost before = rest@;
        let item = rest.remove(0);
        assert(rest@ =~= before.drop_first());
        match item {
            Err(e) => return Err(e),
            Ok(Some(pe)) => return Ok(pe),
            Ok(None) => {},
        }
    }
    Err(Error::msg("no push entries on this branch"))
}

/// Whether two strings are the same.
fn same_text(a: &str, b: &str) -> (res: bool)
    ensures
        res == (a@ == b@),
{
    a.to_string() == b.to_string()
}

/// The newest push entry for `reference` (a full reference name) on the
/// remote RSL branch, whose commits `walk` holds from the tip backwards as for
/// `find_last_push_entry`.
pub fn find_last_remote_push_entry_for_branch(
    walk: Vec<Result<Option<PushEntry>, Error>>,
    reference: &str,
) -> (res: Result<Option<PushEntry>, Error>)
    ensures
        first_push_entry_for(walk@, reference@) matches Some(Ok(pe)) ==> res == Ok::<
            Option<PushEntry>,
            Error,
        >(Some(pe)),
        first_push_entry_for(walk@, reference@) matches Some(Err(e)) ==> res == Err::<
            Option<PushEntry>,
            Error,
        >(e),
        first_push_entry_for(walk@, reference@) is None ==> res == Ok::<Option<PushEntry>, Error>(
            None,
        ),
        forall|k: int|
            0 <= k < walk@.len() && #[trigger] decisive_for(walk@[k], reference@) is Some && (forall|
                j: int,
            | 0 <= j < k ==> decisive_for(walk@[j], reference@) is None) ==> match decisive_for(
                walk@[k],
                reference@,
            ) {
                Some(Ok(pe)) => res == Ok::<Option<PushEntry>, Error>(Some(pe)),
                Some(Err(e)) => res == Err::<Option<PushEntry>, Error>(e),
                None => false,
            },
        (forall|j: int| 0 <= j < walk@.len() ==> decisive_for(#[trigger] walk@[j], reference@) is None)
            ==> res == Ok::<Option<PushEntry>, Error>(None),
{
    proof {
        assert forall|k: int|
            0 <= k < walk@.len() && #[trigger] decisive_for(walk@[k], reference@) is Some && (forall|
                j: int,
            | 0 <= j < k ==> decisive_for(walk@[j], reference@) is None) implies first_push_entry_for(
            walk@,
            reference@,
        ) == decisive_for(walk@[k], reference@) by {
            law_first_entry_for_reference_wins(walk@, reference@, k);
        }
        if forall|j: int| 0 <= j < walk@.len() ==> decisive_for(#[trigger] walk@[j], reference@) is None {
            law_no_entry_for_reference(walk@, reference@);
        }
    }
    let mut rest = walk;
    while rest.len() > 0
        invariant
            first_push_entry_for(rest@, reference@) == first_push_entry_for(walk@, reference@),
            forall|k: int|
                0 <= k < walk@.len() && #[trigger] decisive_for(walk@[k], reference@) is Some && (
                forall|j: int| 0 <= j < k ==> decisive_for(walk@[j], reference@) is None)
                    ==> first_push_entry_for(walk@, reference@) == decisive_for(walk@[k], reference@),
            (forall|j: int| 0 <= j < walk@.len() ==> decisive_for(#[trigger] walk@[j], reference@) is None)
                ==> first_push_entry_for(walk@, reference@) is None,
        decreases rest@.len(),
    {
        let ghost before = rest@;
        let item = rest.remove(0);
        assert(rest@ =~= before.drop_first());
        match item {
            Err(e) => return Err(e),
            Ok(Some(pe)) => {
                if same_text(pe.ref_name(), reference) {
                    return Ok(Some(pe));
                }
            },
            Ok(None) => {},
        }
    }
    Ok(None)
}

/// The push entry with which the RSL of a repository starts: it records
/// reference `ref_name` at commit `oid`, follows no entry (its previous hash
/// is the text `First Push Entry`), and its bag holds the first nonce only.
pub fn initial_push_entry(ref_name: String, oid: Oid, nonce: Nonce) -> (res: PushEntry)
    ensures
        res.spec_ref_name() == ref_name@,
        res.spec_oid() == oid,
        res.spec_prev_hash() == "First Push Entry"@,
        res.spec_nonce_bag() == seq![nonce],
{
    PushEntry::new(ref_name, oid, "First Push Entry".to_string(), NonceBag::with_nonce(nonce))
}

/// What setting up the RSL for this developer takes.
#[derive(Debug, PartialEq, Eq, Structural)]
pub enum RslInit {
    /// Neither a remote nor a local RSL exists: create the RSL for the repository.
    Global,
    /// The remote RSL exists, the local one not: join it.
    Local,
    /// Both exist.
    Ready,
}

/// Decides how to set up the RSL, from whether the remote and the local RSL
/// branches exist.
pub fn init_rsl_action(remote_rsl_exists: bool, local_rsl_exists: bool) -> (res: Result<
    RslInit,
    Error,
>)
    ensures
        !remote_rsl_exists && !local_rsl_exists ==> res == Ok::<RslInit, Error>(RslInit::Global),
        remote_rsl_exists && !local_rsl_exists ==> res == Ok::<RslInit, Error>(RslInit::Local),
        remote_rsl_exists && local_rsl_exists ==> res == Ok::<RslInit, Error>(RslInit::Ready),
        !remote_rsl_exists && local_rsl_exists ==> (res matches Err(e) && e.is_msg(
            "RSL exists locally but not globally. Somebody has deleted the remote RSL for this project, or else you are interacting with a remote that does not have an RSL."@,
        )),
{
    if remote_rsl_exists {
        if local_rsl_exists {
            Ok(RslInit::Ready)
        } else {
            Ok(RslInit::Local)
        }
    } else if local_rsl_exists {
        Err(
            Error::msg(
                "RSL exists locally but not globally. Somebody has deleted the remote RSL for this project, or else you are interacting with a remote that does not have an RSL.",
            ),
        )
    } else {
        Ok(RslInit::Global)
    }
}

/// Whether every fetched branch tip is the commit of some newest push entry:
/// `push_entry_heads` holds the commits of the newest push entries of the
/// branches, `fetch_heads` the fetched tips.
pub fn all_push_entries_in_fetch_head(push_entry_heads: &Vec<Oid>, fetch_heads: &Vec<Oid>) -> (res:
    bool)
    ensures
        res == (forall|i: int|
            0 <= i < fetch_heads@.len() ==> push_entry_heads@.contains(#[trigger] fetch_heads@[i])),
{
    let mut i: usize = 0;
    while i < fetch_heads.len()
        invariant
            i <= fetch_heads@.len(),
            forall|k: int| 0 <= k < i ==> push_entry_heads@.contains(#[trigger] fetch_heads@[k]),
        decreases fetch_heads@.len() - i,
    {
        let mut found = false;
        let mut j: usize = 0;
        while j < push_entry_heads.len()
            invariant
                j <= push_entry_heads@.len(),
                i < fetch_heads@.len(),
                found ==> push_entry_heads@.contains(fetch_heads@[i as int]),
                !found ==> forall|k: int| 0 <= k < j ==> push_entry_heads@[k] != fetch_heads@[i as int],
            decreases push_entry_heads@.len() - j,
        {
            if push_entry_heads[j] == fetch_heads[i] {
                found = true;
                assert(push_entry_heads@[j as int] == fetch_heads@[i as int]);
            }
            j = j + 1;
        }
        if !found {
            assert(!push_entry_heads@.contains(fetch_heads@[i as int]));
            return false;
        }
        i = i + 1;
    }
    true
}

} // verus!

verus! {

/// A history in which every push entry names the hash of the one before it
/// (the newest local one for the first), and the entries that follow the
/// local one account for this developer's nonce, validates, ending at its
/// newest push entry.
pub proof fn law_honest_history_validates(rsl: &RSL, items: Seq<Option<PushEntry>>)
    requires
        links_to(rsl.last_local_push_entry.spec_hash(), entries_of(items)),
        nonces_accounted(rsl, entries_of(items)),
    ensures
        chain_result(rsl, items) == Some(
            head_hash(rsl.last_local_push_entry.spec_hash(), entries_of(items)),
        ),
{
    law_validation_accepts_exactly_hash_chains(rsl, items);
}

/// A push entry recorded on top of the newest push entry that a developer
/// has validated, and whose nonce bag holds the developer's nonce, validates
/// as the one new entry of the RSL.
pub proof fn law_recorded_entry_validates(rsl: &RSL, e: PushEntry)
    requires
        e.spec_prev_hash() == rsl.last_local_push_entry.spec_hash(),
        e.spec_nonce_bag().contains(rsl.nonce),
    ensures
        chain_result(rsl, seq![Some(e)]) == Some(e.spec_hash()),
{
    let items = seq![Some(e)];
    assert(items.drop_last() =~= Seq::<Option<PushEntry>>::empty());
    assert(chain_result(rsl, items.drop_last()) == Some(rsl.last_local_push_entry.spec_hash()));
    assert(items.last() == Some(e));
    assert(nonce_seen(rsl, e));
}

/// Where the local nonce bag holds this developer's nonce, a push entry that
/// follows the newest local one validates as the one new entry of the RSL,
/// whatever its own nonce bag holds.
pub proof fn law_own_nonce_in_local_bag_suffices(rsl: &RSL, e: PushEntry)
    requires
        e.spec_prev_hash() == rsl.last_local_push_entry.spec_hash(),
        rsl.nonce_bag@.contains(rsl.nonce),
    ensures
        chain_result(rsl, seq![Some(e)]) == Some(e.spec_hash()),
{
    let items = seq![Some(e)];
    assert(items.drop_last() =~= Seq::<Option<PushEntry>>::empty());
    assert(chain_result(rsl, items.drop_last()) == Some(rsl.last_local_push_entry.spec_hash()));
    assert(items.last() == Some(e));
}

/// A push entry that follows the newest local one is refused where neither
/// the local nonce bag nor the entry's own bag holds this developer's nonce,
/// whatever came before it.
pub proof fn law_unseen_nonce_is_refused(rsl: &RSL, items: Seq<Option<PushEntry>>, e: PushEntry)
    requires
        e.spec_prev_hash() == rsl.last_local_push_entry.spec_hash(),
        !rsl.nonce_bag@.contains(rsl.nonce),
        !e.spec_nonce_bag().contains(rsl.nonce),
    ensures
        chain_result(rsl, items.push(Some(e))) is None,
{
    assert(items.push(Some(e)).drop_last() =~= items);
}

/// With no new commits on the remote RSL, validation ends where the local
/// RSL does.
pub proof fn law_nothing_new_validates(rsl: &RSL)
    ensures
        chain_result(rsl, Seq::empty()) == Some(rsl.last_local_push_entry.spec_hash()),
{
}

} // verus!

verus! {

/// Validation goes on through one more push entry exactly when that entry
/// names the hash at which validation stood, and accounts for this
/// developer's nonce where it follows the newest local entry directly.
pub proof fn law_append_linked_entry(rsl: &RSL, items: Seq<Option<PushEntry>>, e: PushEntry)
    requires
        chain_result(rsl, items) is Some,
    ensures
        chain_result(rsl, items.push(Some(e))) == if chain_result(rsl, items) == Some(
            e.spec_prev_hash(),
        ) && (e.spec_prev_hash() == rsl.last_local_push_entry.spec_hash() ==> rsl.nonce_bag@.contains(
            rsl.nonce,
        ) || e.spec_nonce_bag().contains(rsl.nonce)) {
            Some(e.spec_hash())
        } else {
            None::<Seq<char>>
        },
{
    assert(items.push(Some(e)).drop_last() =~= items);
}

/// Commits that are not push entries do not change the outcome of validation.
pub proof fn law_other_commits_ignored(rsl: &RSL, items: Seq<Option<PushEntry>>)
    ensures
        chain_result(rsl, items.push(None)) == chain_result(rsl, items),
{
    assert(items.push(None).drop_last() =~= items);
}

} // verus!
