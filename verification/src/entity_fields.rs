use vstd::prelude::*;
use crate::cbor_decode::CborData;
use crate::cbor_decode::CborValue;
use crate::cbor_decode::cbor_view;
use crate::cbor_decode::cbor_view_pairs;
use crate::cbor_decode::spec_lookup_text;
use crate::cbor_decode::lookup_text;
use crate::util::utf8_to_string;

verus! {

// Entity decoders read optional fields out of a text-keyed CBOR map,
// defaulting to empty when the map lacks the key, holds a value of another
// shape, or the value is not a map at all.

/// The byte-string payload under a text key of a CBOR map; empty when the
/// value is not a map, the key is absent, or its value is not a byte
/// string.
pub open spec fn spec_bytes_field(v: CborData, key: Seq<u8>) -> Seq<u8> {
    match v {
        CborData::Dict(entries) => match spec_lookup_text(entries, key) {
            Some(CborData::Bytes(b)) => b,
            _ => Seq::empty(),
        },
        _ => Seq::empty(),
    }
}

/// The characters of the text payload under a text key of a CBOR map;
/// empty when the value is not a map, the key is absent, its value is not
/// a text string, or the payload is not valid UTF-8 (the decoder never
/// hands such a text item out).
pub open spec fn spec_text_field(v: CborData, key: Seq<u8>) -> Seq<char> {
    match v {
        CborData::Dict(entries) => match spec_lookup_text(entries, key) {
            Some(CborData::Text(t)) => if vstd::utf8::valid_utf8(t) {
                vstd::utf8::decode_utf8(t)
            } else {
                Seq::empty()
            },
            _ => Seq::empty(),
        },
        _ => Seq::empty(),
    }
}

/// Reads the byte-string field under `key`, empty when absent.
pub fn bytes_field(cbor: &CborValue, key: &[u8]) -> (r: Vec<u8>)
    ensures
        r@ == spec_bytes_field(cbor_view(cbor), key@),
{
    match cbor {
        CborValue::Dict(entries) => match lookup_text(entries, key) {
            Some(CborValue::Bytes(b)) => vstd::slice::slice_to_vec(b.as_slice()),
            _ => Vec::new(),
        },
        _ => Vec::new(),
    }
}

/// Reads the text field under `key` as a String, empty when absent.
pub fn text_field(cbor: &CborValue, key: &[u8]) -> (r: String)
    ensures
        r@ == spec_text_field(cbor_view(cbor), key@),
{
    match cbor {
        CborValue::Dict(entries) => match lookup_text(entries, key) {
            Some(CborValue::Text(t)) => match utf8_to_string(t.as_slice()) {
                Some(s) => s,
                None => String::new(),
            },
            _ => String::new(),
        },
        _ => String::new(),
    }
}

} // verus!
