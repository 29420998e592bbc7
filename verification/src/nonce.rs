//! The random nonce with which a developer marks that they have seen the RSL.

use vstd::prelude::*;

use vstd::string::StringSliceAdditionalSpecFns;

use crate::errors::{Error, ErrorKind};
use crate::text::{u8_list, u8_list_pretty, indent, push_u8_list, push_u8_list_pretty, push_indent};

verus! {

/// The number of bytes in a nonce.
pub const NONCE_LEN: usize = 32;

/// A 32-byte random value.
#[derive(Clone, Copy, Debug, Hash)]
pub struct Nonce {
    pub bytes: [u8; 32],
}

impl View for Nonce {
    type V = Seq<u8>;

    open spec fn view(&self) -> Seq<u8> {
        self.bytes@
    }
}

/// `{"bytes":[...]}`: a nonce as compact JSON.
pub open spec fn nonce_json(n: Nonce) -> Seq<char> {
    "{\"bytes\":"@ + u8_list(n.bytes@) + "}"@
}

/// A nonce as pretty-printed JSON whose braces stand at `level`.
pub open spec fn nonce_json_pretty(n: Nonce, level: nat) -> Seq<char> {
    "{"@ + seq!['\n'] + indent(level + 1) + "\"bytes\": "@ + u8_list_pretty(n.bytes@, level + 1)
        + seq!['\n'] + indent(level) + "}"@
}

/// What reading a nonce file with content `data` gives: its first 32 bytes,
/// or nothing where it holds fewer.
pub open spec fn nonce_file_read(data: Seq<u8>) -> Option<Seq<u8>> {
    if data.len() >= 32 {
        Some(data.take(32))
    } else {
        None
    }
}

/// The content of the nonce file that holds `n`: its 32 bytes.
pub open spec fn nonce_file_bytes(n: Nonce) -> Seq<u8> {
    n.bytes@
}

/// Reads 32 random bytes from the operating system's generator.
///
/// Calls `rand::os::OsRng::new` and `Rng::fill_bytes` of rand 0.4. Returns
/// the text of the `io::Error` where the generator cannot be opened. Nothing
/// is claimed of the bytes or of the text.
#[verifier::external_body]
fn os_random_bytes() -> (res: Result<[u8; 32], String>) {
    let mut rng = rand::os::OsRng::new().map_err(|e| e.to_string())?;
    let mut bytes: [u8; 32] = [0; 32];
    rand::Rng::fill_bytes(&mut rng, &mut bytes);
    Ok(bytes)
}

impl Nonce {
    /// A fresh random nonce.
    pub fn new() -> (res: Result<Nonce, Error>)
        ensures
            res matches Err(e) ==> e.is_msg("no randum number generator"@) && (e.cause matches Some(
                c,
            ) && c.kind is IO && c.cause is None),
    {
        match os_random_bytes() {
            Ok(bytes) => Ok(Nonce { bytes }),
            Err(text) => Err(
                Error::from_kind(ErrorKind::IO(text)).chain(
                    ErrorKind::Msg("no randum number generator".to_string()),
                ),
            ),
        }
    }

    /// The nonce made of the first 32 bytes of `data`, if it has as many.
    pub fn from_bytes(data: &[u8]) -> (res: Option<Nonce>)
        ensures
            res is Some <==> nonce_file_read(data@) is Some,
            res matches Some(n) ==> Some(n.bytes@) == nonce_file_read(data@),
    {
        if data.len() < NONCE_LEN {
            return None;
        }
        let mut bytes: [u8; 32] = [0; 32];
        let mut i: usize = 0;
        while i < NONCE_LEN
            invariant
                i <= 32,
                data@.len() >= 32,
                forall|j: int| 0 <= j < i ==> bytes@[j] == data@[j],
            decreases 32 - i,
        {
            bytes[i] = data[i];
            i = i + 1;
        }
        assert(bytes@ =~= data@.take(32));
        Some(Nonce { bytes })
    }

    /// The nonce made of the first 32 bytes of the UTF-8 form of `string`.
    pub fn from_str(string: &str) -> (res: Result<Nonce, Error>)
        ensures
            res is Ok <==> string.spec_bytes().len() >= 32,
            res matches Ok(n) ==> n.bytes@ == string.spec_bytes().take(32),
            res matches Err(e) ==> e.is_msg("nonce read error"@),
    {
        match Nonce::from_bytes(string.as_bytes()) {
            Some(n) => Ok(n),
            None => Err(
                Error::from_kind(ErrorKind::IO("failed to fill whole buffer".to_string())).chain(
                    ErrorKind::Msg("nonce read error".to_string()),
                ),
            ),
        }
    }

    /// The nonce as compact JSON: `{"bytes":[...]}`.
    pub fn to_string(&self) -> (res: String)
        ensures
            res@ == nonce_json(*self),
    {
        let mut out = String::new();
        out.append("{\"bytes\":");
        push_u8_list(&mut out, &self.bytes);
        out.append("}");
        out
    }

    /// Appends the nonce as pretty-printed JSON whose braces stand at `level`.
    pub fn push_json_pretty(&self, out: &mut String, level: usize)
        requires
            level + 2 < usize::MAX,
        ensures
            final(out)@ == old(out)@ + nonce_json_pretty(*self, level as nat),
    {
        let ghost start = out@;
        proof { reveal_strlit("\n"); }
        out.append("{");
        out.append("\n");
        push_indent(out, level + 1);
        out.append("\"bytes\": ");
        push_u8_list_pretty(out, &self.bytes, level + 1);
        out.append("\n");
        push_indent(out, level);
        out.append("}");
        assert(out@ =~= start + nonce_json_pretty(*self, level as nat));
    }
}

impl PartialEq for Nonce {
    fn eq(&self, other: &Nonce) -> (res: bool) {
        let r = crate::oid::bytes_equal(&self.bytes, &other.bytes);
        proof {
            if r {
                assert(self.bytes == other.bytes);
            }
        }
        r
    }
}

impl vstd::std_specs::cmp::PartialEqSpecImpl for Nonce {
    open spec fn obeys_eq_spec() -> bool {
        true
    }

    open spec fn eq_spec(&self, other: &Nonce) -> bool {
        *self == *other
    }
}

impl Eq for Nonce {}

} // verus!

verus! {

/// Reading back the nonce file that a nonce writes gives the same nonce.
pub proof fn law_nonce_file_roundtrip(n: Nonce)
    ensures
        nonce_file_read(nonce_file_bytes(n)) == Some(n.bytes@),
{
    assert(n.bytes@.take(32) =~= n.bytes@);
}

} // verus!
