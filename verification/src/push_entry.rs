//! Push entries: the records of the RSL, one per secure push.

use vstd::prelude::*;

use crate::digest::{sha3_512_digest, sha3_512_hex};
use crate::nonce::Nonce;
use crate::nonce_bag::{NonceBag, bag_json_pretty};
use crate::oid::Oid;
use crate::text::{hex_lower, json_string, push_json_string};

verus! {

/// One record of the RSL: which reference was pushed, to which commit, the
/// hash of the push entry before it, and the nonce bag at the time.
#[derive(Debug)]
pub struct PushEntry {
    ref_name: String,
    oid: Oid,
    prev_hash: String,
    nonce_bag: NonceBag,
}

/// The pretty-printed JSON form of a push entry with these fields; it is the
/// message of the commit that records the entry, and what its hash is taken of.
pub open spec fn entry_json(ref_name: Seq<char>, oid: Oid, prev_hash: Seq<char>, bag: Seq<Nonce>) -> Seq<
    char,
> {
    "{\n  \"ref_name\": "@ + json_string(ref_name) + ",\n  \"oid\": {\n    \"raw\": "@ + json_string(
        hex_lower(oid.bytes@),
    ) + "\n  },\n  \"prev_hash\": "@ + json_string(prev_hash) + ",\n  \"nonce_bag\": "@
        + bag_json_pretty(bag, 1) + "\n}"@
}

impl PushEntry {
    pub closed spec fn spec_ref_name(self) -> Seq<char> {
        self.ref_name@
    }

    pub closed spec fn spec_oid(self) -> Oid {
        self.oid
    }

    pub closed spec fn spec_prev_hash(self) -> Seq<char> {
        self.prev_hash@
    }

    pub closed spec fn spec_nonce_bag(self) -> Seq<Nonce> {
        self.nonce_bag@
    }

    /// The JSON text of the entry.
    pub open spec fn spec_json(self) -> Seq<char> {
        entry_json(self.spec_ref_name(), self.spec_oid(), self.spec_prev_hash(), self.spec_nonce_bag())
    }

    /// The hash of the entry: SHA3-512 of its JSON text, in hexadecimal.
    pub open spec fn spec_hash(self) -> Seq<char> {
        hex_lower(sha3_512_digest(self.spec_json()))
    }

    /// A push entry for reference `ref_name` (its full name) at commit `oid`,
    /// after the entry whose hash is `prev`, with nonce bag `nonce_bag`.
    pub fn new(ref_name: String, oid: Oid, prev: String, nonce_bag: NonceBag) -> (res: PushEntry)
        ensures
            res.spec_ref_name() == ref_name@,
            res.spec_oid() == oid,
            res.spec_prev_hash() == prev@,
            res.spec_nonce_bag() == nonce_bag@,
    {
        PushEntry { ref_name, oid, prev_hash: prev, nonce_bag }
    }

    /// The hash of the push entry before this one.
    pub fn prev_hash(&self) -> (res: String)
        ensures
            res@ == self.spec_prev_hash(),
    {
        self.prev_hash.clone()
    }

    /// The commit that the reference pointed to.
    pub fn oid(&self) -> (res: Oid)
        ensures
            res == self.spec_oid(),
    {
        self.oid
    }

    /// The full name of the reference that was pushed.
    pub fn ref_name(&self) -> (res: &str)
        ensures
            res@ == self.spec_ref_name(),
    {
        self.ref_name.as_str()
    }

    /// The nonce bag recorded with the entry.
    pub fn get_nonce_bag(&self) -> (res: &NonceBag)
        ensures
            res@ == self.spec_nonce_bag(),
    {
        &self.nonce_bag
    }

    /// The entry as pretty-printed JSON, the message of its commit.
    pub fn to_string(&self) -> (res: String)
        ensures
            res@ == self.spec_json(),
    {
        let mut out = String::new();
        out.append("{\n  \"ref_name\": ");
        push_json_string(&mut out, self.ref_name.as_str());
        out.append(",\n  \"oid\": {\n    \"raw\": ");
        let hex = self.oid.to_hex();
        push_json_string(&mut out, hex.as_str());
        out.append("\n  },\n  \"prev_hash\": ");
        push_json_string(&mut out, self.prev_hash.as_str());
        out.append(",\n  \"nonce_bag\": ");
        self.nonce_bag.push_json_pretty(&mut out, 1);
        out.append("\n}");
        out
    }

    /// The hash of the entry: SHA3-512 of its JSON text, in lower-case hexadecimal.
    pub fn hash(&self) -> (res: String)
        ensures
            res@ == self.spec_hash(),
            res@ == hex_lower(sha3_512_digest(self.spec_json())),
            res@.len() == 128,
    {
        let text = self.to_string();
        sha3_512_hex(text.as_str())
    }
}

impl PartialEq for PushEntry {
    fn eq(&self, other: &PushEntry) -> (res: bool) {
        self.ref_name == other.ref_name && self.oid == other.oid && self.prev_hash == other.prev_hash
            && self.nonce_bag == other.nonce_bag
    }
}

impl vstd::std_specs::cmp::PartialEqSpecImpl for PushEntry {
    open spec fn obeys_eq_spec() -> bool {
        true
    }

    open spec fn eq_spec(&self, other: &PushEntry) -> bool {
        &&& self.spec_ref_name() == other.spec_ref_name()
        &&& self.spec_oid() == other.spec_oid()
        &&& self.spec_prev_hash() == other.spec_prev_hash()
        &&& self.spec_nonce_bag().to_set() == other.spec_nonce_bag().to_set()
    }
}

impl Eq for PushEntry {}

/// The hash of a push entry is the SHA3-512 digest, in lower-case
/// hexadecimal, of its whole JSON text (the message of its commit), with its
/// reference, commit, previous hash and nonce bag all in it.
pub proof fn law_hash_covers_whole_entry(e: PushEntry)
    ensures
        e.spec_hash() == hex_lower(
            sha3_512_digest(
                entry_json(e.spec_ref_name(), e.spec_oid(), e.spec_prev_hash(), e.spec_nonce_bag()),
            ),
        ),
{
}

} // verus!
