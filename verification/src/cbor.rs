use vstd::prelude::*;

verus! {

use vstd::string::StringSliceAdditionalSpecFns;

// CTAP2 payloads are canonical CBOR maps keyed by small integers. The
// encoding below follows RFC 8949: each data item starts with a head byte
// holding a major type in its top three bits and an argument in the low
// five, the argument spilling into 1, 2, 4 or 8 following big-endian bytes
// when it does not fit. Canonical form uses the shortest head that holds
// the argument.

pub open spec fn spec_u16_be(x: u64) -> Seq<u8> {
    seq![(x >> 8) as u8, x as u8]
}

pub open spec fn spec_u32_be(x: u64) -> Seq<u8> {
    seq![(x >> 24) as u8, (x >> 16) as u8, (x >> 8) as u8, x as u8]
}

pub open spec fn spec_u64_be(x: u64) -> Seq<u8> {
    seq![
        (x >> 56) as u8,
        (x >> 48) as u8,
        (x >> 40) as u8,
        (x >> 32) as u8,
        (x >> 24) as u8,
        (x >> 16) as u8,
        (x >> 8) as u8,
        x as u8,
    ]
}

/// The canonical CBOR head for a major type and an argument: the shortest
/// of the five head forms that holds the argument.
pub open spec fn spec_cbor_head(major: u8, arg: u64) -> Seq<u8>
    recommends
        major < 8,
{
    if arg < 24 {
        seq![(major * 32 + arg) as u8]
    } else if arg < 256 {
        seq![(major * 32 + 24) as u8, arg as u8]
    } else if arg < 65536 {
        seq![(major * 32 + 25) as u8] + spec_u16_be(arg)
    } else if arg < 4294967296 {
        seq![(major * 32 + 26) as u8] + spec_u32_be(arg)
    } else {
        seq![(major * 32 + 27) as u8] + spec_u64_be(arg)
    }
}

/// A CBOR unsigned integer (major type 0).
pub open spec fn spec_cbor_uint(n: u64) -> Seq<u8> {
    spec_cbor_head(0, n)
}

/// A CBOR byte string (major type 2): length head, then the bytes.
pub open spec fn spec_cbor_bytes(b: Seq<u8>) -> Seq<u8>
    recommends
        b.len() <= u64::MAX,
{
    spec_cbor_head(2, b.len() as u64) + b
}

/// A CBOR text string (major type 3) over its UTF-8 bytes.
pub open spec fn spec_cbor_text(utf8: Seq<u8>) -> Seq<u8>
    recommends
        utf8.len() <= u64::MAX,
{
    spec_cbor_head(3, utf8.len() as u64) + utf8
}

/// A CBOR array head (major type 4) announcing n items.
pub open spec fn spec_cbor_array_head(n: u64) -> Seq<u8> {
    spec_cbor_head(4, n)
}

/// A CBOR map head (major type 5) announcing n key/value pairs.
pub open spec fn spec_cbor_map_head(n: u64) -> Seq<u8> {
    spec_cbor_head(5, n)
}

/// The CBOR encoding of `true` (major type 7, simple value 21).
pub open spec fn spec_cbor_true() -> Seq<u8> {
    seq![0xf5u8]
}

/// Appends the canonical CBOR head for (major, arg) to `out`.
pub fn encode_head(major: u8, arg: u64, out: &mut Vec<u8>)
    requires
        major < 8,
    ensures
        final(out)@ == old(out)@ + spec_cbor_head(major, arg),
{
    let base: u8 = major * 32;
    if arg < 24 {
        out.push(base + arg as u8);
        proof {
            assert(out@ =~= old(out)@ + spec_cbor_head(major, arg));
        }
    } else if arg < 256 {
        out.push(base + 24);
        out.push(arg as u8);
        proof {
            assert(out@ =~= old(out)@ + spec_cbor_head(major, arg));
        }
    } else if arg < 65536 {
        out.push(base + 25);
        out.push((arg >> 8) as u8);
        out.push(arg as u8);
        proof {
            assert(out@ =~= old(out)@ + spec_cbor_head(major, arg));
        }
    } else if arg < 4294967296 {
        out.push(base + 26);
        out.push((arg >> 24) as u8);
        out.push((arg >> 16) as u8);
        out.push((arg >> 8) as u8);
        out.push(arg as u8);
        proof {
            assert(out@ =~= old(out)@ + spec_cbor_head(major, arg));
        }
    } else {
        out.push(base + 27);
        out.push((arg >> 56) as u8);
        out.push((arg >> 48) as u8);
        out.push((arg >> 40) as u8);
        out.push((arg >> 32) as u8);
        out.push((arg >> 24) as u8);
        out.push((arg >> 16) as u8);
        out.push((arg >> 8) as u8);
        out.push(arg as u8);
        proof {
            assert(out@ =~= old(out)@ + spec_cbor_head(major, arg));
        }
    }
}

/// Appends a CBOR unsigned integer to `out`.
pub fn encode_uint(n: u64, out: &mut Vec<u8>)
    ensures
        final(out)@ == old(out)@ + spec_cbor_uint(n),
{
    encode_head(0, n, out);
}

/// Appends a CBOR byte string to `out`.
pub fn encode_bytes(b: &[u8], out: &mut Vec<u8>)
    ensures
        final(out)@ == old(out)@ + spec_cbor_bytes(b@),
{
    encode_head(2, b.len() as u64, out);
    let mut i: usize = 0;
    let ghost mid = out@;
    while i < b.len()
        invariant
            i <= b@.len(),
            out@ == mid + b@.take(i as int),
        decreases b@.len() - i,
    {
        out.push(b[i]);
        i = i + 1;
        proof {
            assert(out@ =~= mid + b@.take(i as int));
        }
    }
    proof {
        assert(out@ =~= old(out)@ + spec_cbor_bytes(b@));
    }
}

/// Appends a CBOR text string to `out`; the text's UTF-8 bytes follow the
/// length head.
pub fn encode_text(s: &str, out: &mut Vec<u8>)
    ensures
        final(out)@ == old(out)@ + spec_cbor_text(s.spec_bytes()),
{
    let bytes: &[u8] = s.as_bytes();
    encode_head(3, bytes.len() as u64, out);
    let mut i: usize = 0;
    let ghost mid = out@;
    while i < bytes.len()
        invariant
            i <= bytes@.len(),
            out@ == mid + bytes@.take(i as int),
        decreases bytes@.len() - i,
    {
        out.push(bytes[i]);
        i = i + 1;
        proof {
            assert(out@ =~= mid + bytes@.take(i as int));
        }
    }
    proof {
        assert(out@ =~= old(out)@ + spec_cbor_text(s.spec_bytes()));
    }
}

} // verus!
