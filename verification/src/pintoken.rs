use vstd::prelude::*;
use crate::crypto::hmac_sha256;
use crate::crypto::hmac_sha256_of;

verus! {

/// A PIN/UV auth token: opaque key material negotiated with the
/// authenticator beforehand and supplied to this library by the caller.
pub struct PinToken {
    pub key: Vec<u8>,
}

impl PinToken {
    pub fn new(data: &[u8]) -> (r: Self)
        ensures
            r.key@ == data@,
    {
        Self { key: vstd::slice::slice_to_vec(data) }
    }
}

/// The pinUvAuthParam for a message under a token key: the first 16 bytes
/// of HMAC-SHA-256(key, message).
pub open spec fn spec_authenticate(key: Seq<u8>, message: Seq<u8>) -> Seq<u8> {
    hmac_sha256_of(key, message).take(16)
}

/// Computes the pinUvAuthParam signature that privileged CTAP2 commands
/// embed: the HMAC-SHA-256 tag over the token key and the message,
/// truncated to its first 16 bytes.
pub fn authenticate(key: &[u8], message: &[u8]) -> (r: Vec<u8>)
    ensures
        r@ == spec_authenticate(key@, message@),
        r@.len() == 16,
{
    let tag = hmac_sha256(key, message);
    let mut out: Vec<u8> = Vec::new();
    let mut i: usize = 0;
    while i < 16
        invariant
            i <= 16,
            tag@.len() == 32,
            tag@ == hmac_sha256_of(key@, message@),
            out@ == tag@.take(i as int),
        decreases 16 - i,
    {
        out.push(tag[i]);
        i = i + 1;
        proof {
            assert(out@ =~= tag@.take(i as int));
        }
    }
    proof {
        assert(out@ =~= spec_authenticate(key@, message@));
    }
    out
}

} // verus!
