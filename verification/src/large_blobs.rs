use vstd::prelude::*;
use crate::cbor::encode_head;
use crate::cbor::encode_uint;
use crate::cbor::encode_bytes;
use crate::cbor::spec_cbor_map_head;
use crate::cbor::spec_cbor_uint;
use crate::cbor::spec_cbor_bytes;
use crate::crypto::sha256;
use crate::crypto::sha256_of;
use crate::pintoken::PinToken;
use crate::pintoken::authenticate;
use crate::pintoken::spec_authenticate;
use crate::authenticator_config::spec_ff32;
use crate::util::bytes_eq;

verus! {

/// The one-byte command identifier of authenticatorLargeBlobs.
pub const AUTHENTICATOR_LARGEBLOBS: u8 = 0x0c;

/// A serialized large-blob array: the data followed by the first 16 bytes
/// of its SHA-256 digest.
pub open spec fn spec_large_blob_array(data: Seq<u8>) -> Seq<u8> {
    data + sha256_of(data).take(16)
}

/// A u32 as four little-endian bytes.
pub open spec fn spec_u32_le(x: u32) -> Seq<u8> {
    seq![x as u8, (x >> 8) as u8, (x >> 16) as u8, (x >> 24) as u8]
}

/// The message that the pinUvAuthParam of a large-blob write signs:
/// 32 bytes of 0xFF, the two bytes 0x0C 0x00, the write offset as a
/// little-endian u32, then the SHA-256 digest of the large-blob array.
pub open spec fn spec_large_blobs_message(offset: u32, array: Seq<u8>) -> Seq<u8> {
    spec_ff32() + seq![0x0cu8, 0x00u8] + spec_u32_le(offset) + sha256_of(array)
}

/// The CBOR map entries of a large-blobs request, in ascending key order:
/// 0x01 get (when reading), 0x02 set and 0x04 length (when writing),
/// 0x03 offset always, 0x05 pinUvAuthParam and 0x06 pinUvAuthProtocol when
/// a token signs the write.
pub open spec fn spec_large_blobs_entries(
    key: Option<Seq<u8>>,
    offset: u32,
    get: Option<u32>,
    set: Option<Seq<u8>>,
) -> Seq<u8> {
    let get_part = match get {
        Some(n) => spec_cbor_uint(1) + spec_cbor_uint(n as u64),
        None => Seq::empty(),
    };
    let set_part = match set {
        Some(data) => spec_cbor_uint(2) + spec_cbor_bytes(spec_large_blob_array(data)),
        None => Seq::<u8>::empty(),
    };
    let offset_part = spec_cbor_uint(3) + spec_cbor_uint(offset as u64);
    let length_part = match set {
        Some(data) => spec_cbor_uint(4) + spec_cbor_uint((data.len() + 16) as u64),
        None => Seq::<u8>::empty(),
    };
    let auth_part = match (key, set) {
        (Some(k), Some(data)) => {
            let sig = spec_authenticate(
                k,
                spec_large_blobs_message(offset, spec_large_blob_array(data)),
            );
            spec_cbor_uint(5) + spec_cbor_bytes(sig) + spec_cbor_uint(6) + spec_cbor_uint(1)
        },
        _ => Seq::<u8>::empty(),
    };
    get_part + set_part + offset_part + length_part + auth_part
}

/// How many entries the large-blobs request map holds.
pub open spec fn spec_large_blobs_entry_count(
    key: Option<Seq<u8>>,
    get: Option<u32>,
    set: Option<Seq<u8>>,
) -> u64 {
    ((1 + (if get is Some { 1int } else { 0int })
        + (if set is Some { 2int } else { 0int })
        + (if set is Some && key is Some { 2int } else { 0int })) as u64)
}

/// The full authenticatorLargeBlobs request payload.
pub open spec fn spec_large_blobs_payload(
    key: Option<Seq<u8>>,
    offset: u32,
    get: Option<u32>,
    set: Option<Seq<u8>>,
) -> Seq<u8> {
    seq![AUTHENTICATOR_LARGEBLOBS]
        + spec_cbor_map_head(spec_large_blobs_entry_count(key, get, set))
        + spec_large_blobs_entries(key, offset, get, set)
}

/// Serializes data as a large-blob array: the data with the first 16 bytes
/// of its SHA-256 digest appended, per the largeBlobArray format.
pub fn create_large_blob_array(write_data: &[u8]) -> (r: Vec<u8>)
    ensures
        r@ == spec_large_blob_array(write_data@),
        r@.len() == write_data@.len() + 16,
{
    let mut arr = vstd::slice::slice_to_vec(write_data);
    let digest = sha256(write_data);
    let mut i: usize = 0;
    while i < 16
        invariant
            i <= 16,
            digest@.len() == 32,
            digest@ == sha256_of(write_data@),
            arr@ == write_data@ + digest@.take(i as int),
        decreases 16 - i,
    {
        arr.push(digest[i]);
        i = i + 1;
        proof {
            assert(arr@ =~= write_data@ + digest@.take(i as int));
        }
    }
    arr
}

/// Splits a read-back large-blob array into its data part, after checking
/// the mandatory integrity tag: the trailing 16 bytes must equal the first
/// 16 bytes of the SHA-256 digest of the data part. Returns None when the
/// array is shorter than the tag or the tag does not match.
pub fn split_large_blob_array(array: &[u8]) -> (r: Option<Vec<u8>>)
    ensures
        match r {
            Some(data) => {
                &&& array@.len() >= 16
                &&& data@ == array@.take(array@.len() - 16)
                &&& array@.skip(array@.len() - 16) == sha256_of(data@).take(16)
                &&& array@ == spec_large_blob_array(data@)
            },
            None => array@.len() < 16 || array@.skip(array@.len() - 16)
                != sha256_of(array@.take(array@.len() - 16)).take(16),
        },
{
    if array.len() < 16 {
        return None;
    }
    let split: usize = array.len() - 16;
    let data = vstd::slice::slice_to_vec(vstd::slice::slice_subrange(array, 0, split));
    let tag = vstd::slice::slice_subrange(array, split, array.len());
    let digest = sha256(data.as_slice());
    let expected = vstd::slice::slice_subrange(digest.as_slice(), 0, 16);
    proof {
        assert(expected@ =~= sha256_of(data@).take(16));
    }
    if bytes_eq(tag, expected) {
        proof {
            assert(array@ =~= spec_large_blob_array(data@));
        }
        Some(data)
    } else {
        None
    }
}

/// Law: serializing any data as a large-blob array and stripping the
/// trailing 16 bytes reproduces the data exactly, for every byte sequence
/// including the empty one; the array is always 16 bytes longer than the
/// data and its tail is the truncated digest.
pub proof fn lemma_large_blob_array_round_trip(data: Seq<u8>)
    requires
        sha256_of(data).len() == 32,
    ensures
        spec_large_blob_array(data).len() == data.len() + 16,
        spec_large_blob_array(data).take(data.len() as int) == data,
        spec_large_blob_array(data).skip(data.len() as int) == sha256_of(data).take(16),
{
    assert(spec_large_blob_array(data).take(data.len() as int) =~= data);
    assert(spec_large_blob_array(data).skip(data.len() as int) =~= sha256_of(data).take(16));
}

/// Builds the authenticatorLargeBlobs request: reads `get` bytes or writes
/// `set` at `offset`. A write carries the serialized large-blob array and
/// its total length; when a token is supplied the write also carries the
/// 16-byte pinUvAuthParam over 0xFF*32 || 0x0C 0x00 || LE32(offset) ||
/// SHA-256(array), and the protocol version 1.
#[verifier::rlimit(100)]
pub fn create_payload(
    pin_token: Option<&PinToken>,
    offset: u32,
    get: Option<u32>,
    set: Option<&Vec<u8>>,
) -> (r: Vec<u8>)
    requires
        match set {
            Some(data) => data@.len() + 16 <= u64::MAX,
            None => true,
        },
    ensures
        r@ == spec_large_blobs_payload(
            match pin_token {
                Some(t) => Some(t.key@),
                None => None,
            },
            offset,
            get,
            match set {
                Some(data) => Some(data@),
                None => None,
            },
        ),
{
    let ghost key_spec: Option<Seq<u8>> = match pin_token {
        Some(t) => Some(t.key@),
        None => None,
    };
    let ghost set_spec: Option<Seq<u8>> = match set {
        Some(data) => Some(data@),
        None => None,
    };

    let count: u64 = 1 + (if get.is_some() { 1 } else { 0 })
        + (if set.is_some() { 2 } else { 0 })
        + (if set.is_some() && pin_token.is_some() { 2 } else { 0 });

    let mut payload: Vec<u8> = Vec::new();
    payload.push(AUTHENTICATOR_LARGEBLOBS);
    encode_head(5, count, &mut payload);

    // 0x01: get
    if let Some(read_bytes) = get {
        encode_uint(1, &mut payload);
        encode_uint(read_bytes as u64, &mut payload);
    }

    if let Some(write_data) = set {
        let large_blob_array = create_large_blob_array(write_data.as_slice());

        // 0x02: set
        encode_uint(2, &mut payload);
        encode_bytes(large_blob_array.as_slice(), &mut payload);

        // 0x03: offset
        encode_uint(3, &mut payload);
        encode_uint(offset as u64, &mut payload);

        // 0x04: length
        encode_uint(4, &mut payload);
        encode_uint(large_blob_array.len() as u64, &mut payload);

        // 0x05: pinUvAuthParam, 0x06: pinUvAuthProtocol
        if let Some(token) = pin_token {
            let mut message: Vec<u8> = Vec::new();
            crate::authenticator_config::push_ff32(&mut message);
            message.push(0x0c);
            message.push(0x00);
            message.push(offset as u8);
            message.push((offset >> 8) as u8);
            message.push((offset >> 16) as u8);
            message.push((offset >> 24) as u8);
            let digest = sha256(large_blob_array.as_slice());
            let mut i: usize = 0;
            let ghost mid = message@;
            while i < digest.len()
                invariant
                    i <= digest@.len(),
                    message@ == mid + digest@.take(i as int),
                decreases digest@.len() - i,
            {
                message.push(digest[i]);
                i = i + 1;
                proof {
                    assert(message@ =~= mid + digest@.take(i as int));
                }
            }
            proof {
                assert(digest@.take(digest@.len() as int) =~= digest@);
                assert(message@ =~= spec_large_blobs_message(offset, large_blob_array@));
            }
            let sig = authenticate(token.key.as_slice(), message.as_slice());
            encode_uint(5, &mut payload);
            encode_bytes(sig.as_slice(), &mut payload);
            encode_uint(6, &mut payload);
            encode_uint(1, &mut payload);
        }
    } else {
        // 0x03: offset
        encode_uint(3, &mut payload);
        encode_uint(offset as u64, &mut payload);
    }

    proof {
        assert(payload@ =~= spec_large_blobs_payload(key_spec, offset, get, set_spec));
    }
    payload
}

} // verus!
