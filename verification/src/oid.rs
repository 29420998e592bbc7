//! The identity of a git object.

use vstd::prelude::*;

use crate::text::{hex_lower};
use crate::digest::hex_encode;

verus! {

/// The 20-byte identity of a git object (a commit, in an RSL).
#[derive(Clone, Copy, Debug)]
pub struct Oid {
    pub bytes: [u8; 20],
}

impl Oid {
    /// The object id with these bytes.
    pub fn from_bytes(bytes: [u8; 20]) -> (res: Oid)
        ensures
            res.bytes == bytes,
    {
        Oid { bytes }
    }

    /// The forty lower-case hexadecimal digits of the id.
    pub open spec fn spec_hex(self) -> Seq<char> {
        hex_lower(self.bytes@)
    }

    /// The forty lower-case hexadecimal digits of the id, as git prints it.
    pub fn to_hex(&self) -> (res: String)
        ensures
            res@ == self.spec_hex(),
    {
        hex_encode(&self.bytes)
    }
}

/// Two bytes arrays are equal exactly when they hold the same bytes.
pub fn bytes_equal(a: &[u8], b: &[u8]) -> (res: bool)
    ensures
        res == (a@ == b@),
{
    if a.len() != b.len() {
        return false;
    }
    let mut i: usize = 0;
    while i < a.len()
        invariant
            i <= a@.len(),
            a@.len() == b@.len(),
            forall|j: int| 0 <= j < i ==> a@[j] == b@[j],
        decreases a@.len() - i,
    {
        if a[i] != b[i] {
            return false;
        }
        i = i + 1;
    }
    assert(a@ =~= b@);
    true
}

impl PartialEq for Oid {
    fn eq(&self, other: &Oid) -> (res: bool) {
        let r = bytes_equal(&self.bytes, &other.bytes);
        proof {
            if r {
                assert(self.bytes == other.bytes);
            }
        }
        r
    }
}

impl vstd::std_specs::cmp::PartialEqSpecImpl for Oid {
    open spec fn obeys_eq_spec() -> bool {
        true
    }

    open spec fn eq_spec(&self, other: &Oid) -> bool {
        *self == *other
    }
}

impl Eq for Oid {}

} // verus!
