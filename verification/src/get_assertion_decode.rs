use vstd::prelude::*;
use crate::CtapError;
use crate::cbor_decode::CborData;
use crate::cbor_decode::CborValue;
use crate::cbor_decode::cbor_view;
use crate::cbor_decode::spec_parse;
use crate::cbor_decode::spec_lookup_uint;
use crate::cbor_decode::parse_value;
use crate::cbor_decode::lookup_uint;
use crate::entity_fields::spec_bytes_field;
use crate::entity_fields::spec_text_field;
use crate::entity_fields::bytes_field;
use crate::entity_fields::text_field;
use crate::get_assertion_params::Assertion;
use crate::get_assertion_params::Extension;
use crate::get_assertion_params::ext_views;
use crate::get_assertion_params::ExtensionData;
use crate::get_assertion_params::ext_view;
use crate::get_assertion_params::spec_flags;
use crate::get_assertion_params::parse_flags;
use crate::public_key_credential_descriptor::clone_bytes;
use crate::public_key_credential_user_entity::PublicKeyCredentialUserEntity;

verus! {

use vstd::string::StringSliceAdditionalSpecFns;

// A getAssertion response is one status byte followed by a CBOR map whose
// integer keys are: 1 the credential descriptor, 2 the authenticator data,
// 3 the signature, 4 the user entity, 5 the credential count, 6 the
// user-selected flag, 7 the large-blob key. The authenticator data and the
// signature are required; everything else decodes to a default when
// absent.

/// The map entries of a response payload, when the byte after the status
/// parses as a CBOR map.
pub open spec fn spec_response_entries(resp: Seq<u8>) -> Option<Seq<(CborData, CborData)>> {
    match spec_parse(resp, 1) {
        Some((CborData::Dict(entries), _)) => Some(entries),
        _ => None,
    }
}

/// The error a getAssertion response decodes to, None when it decodes to
/// an assertion: a short response or one whose payload is not a CBOR map
/// is invalid; a non-zero status byte short-circuits; the authenticator
/// data (key 2, at least 37 bytes) and the signature (key 3) are required.
pub open spec fn spec_assertion_error(resp: Seq<u8>) -> Option<CtapError> {
    if resp.len() == 0 {
        Some(CtapError::InvalidCbor)
    } else if resp[0] != 0 {
        Some(CtapError::Status(resp[0]))
    } else {
        match spec_response_entries(resp) {
            None => Some(CtapError::InvalidCbor),
            Some(entries) => match spec_lookup_uint(entries, 2) {
                None => Some(CtapError::MissingField(2)),
                Some(CborData::Bytes(ad)) => {
                    if ad.len() < 37 {
                        Some(CtapError::InvalidCbor)
                    } else {
                        match spec_lookup_uint(entries, 3) {
                            None => Some(CtapError::MissingField(3)),
                            Some(CborData::Bytes(_)) => None,
                            Some(_) => Some(CtapError::InvalidCbor),
                        }
                    }
                },
                Some(_) => Some(CtapError::InvalidCbor),
            },
        }
    }
}

/// The signature counter held big-endian in authenticator-data bytes 33
/// to 36.
pub open spec fn spec_sign_count(ad: Seq<u8>) -> int
    recommends
        ad.len() >= 37,
{
    ad[33] * 0x1000000 + ad[34] * 0x10000 + ad[35] * 0x100 + ad[36]
}

/// The value a map gives for a key, Null standing in when the key is
/// absent so that field readers fall back to their defaults.
pub open spec fn spec_entry_or_null(entries: Seq<(CborData, CborData)>, key: u64) -> CborData {
    match spec_lookup_uint(entries, key) {
        Some(v) => v,
        None => CborData::Null,
    }
}

/// The credential count of a response: the unsigned integer under key 5
/// when it fits an i32, zero otherwise or when absent.
pub open spec fn spec_number_of_credentials(entries: Seq<(CborData, CborData)>) -> i32 {
    match spec_lookup_uint(entries, 5) {
        Some(CborData::UInt(n)) => if n <= 0x7fffffff {
            n as i32
        } else {
            0
        },
        _ => 0,
    }
}

/// The user-selected flag of a response: the boolean under key 6, false
/// when absent.
pub open spec fn spec_user_selected(entries: Seq<(CborData, CborData)>) -> bool {
    match spec_lookup_uint(entries, 6) {
        Some(CborData::Bool(b)) => b,
        _ => false,
    }
}

/// What the decoded assertion's fields hold, given the response entries
/// and the required authenticator-data and signature byte strings.
pub open spec fn spec_assertion_fields(
    a: &Assertion,
    entries: Seq<(CborData, CborData)>,
    ad: Seq<u8>,
    sig: Seq<u8>,
) -> bool {
    &&& a.auth_data@ == ad
    &&& a.rpid_hash@ == ad.take(32)
    &&& a.flags == spec_flags(ad[32])
    &&& a.sign_count == spec_sign_count(ad)
    &&& a.signature@ == sig
    &&& a.credential_id@ == spec_bytes_field(spec_entry_or_null(entries, 1), "id".spec_bytes())
    &&& a.user.id@ == spec_bytes_field(spec_entry_or_null(entries, 4), "id".spec_bytes())
    &&& a.user.name@ == spec_text_field(spec_entry_or_null(entries, 4), "name".spec_bytes())
    &&& a.user.display_name@ == spec_text_field(
        spec_entry_or_null(entries, 4),
        "displayName".spec_bytes(),
    )
    &&& a.number_of_credentials == spec_number_of_credentials(entries)
    &&& a.user_selected == spec_user_selected(entries)
    &&& match spec_lookup_uint(entries, 7) {
        Some(CborData::Bytes(k)) => ext_views(a.extensions@) == seq![
            ExtensionData::LargeBlobKey(None, Some(k)),
        ],
        _ => ext_views(a.extensions@) == Seq::<ExtensionData>::empty(),
    }
}

/// Reads the field under `key` out of decoded map entries, handing back
/// Null when the key is absent, so that entity readers default.
fn entry_or_null<'e>(entries: &'e Vec<(CborValue, CborValue)>, key: u64, null: &'e CborValue) -> (r:
    &'e CborValue)
    requires
        cbor_view(null) == CborData::Null,
    ensures
        cbor_view(r) == spec_entry_or_null(
            crate::cbor_decode::cbor_view_pairs(entries@),
            key,
        ),
{
    match lookup_uint(entries, key) {
        Some(v) => v,
        None => null,
    }
}

/// Decodes a getAssertion response: the status byte must be zero and the
/// payload a CBOR map; the authenticator data (key 2) yields the relying
/// party id hash, the flags and the signature counter, the signature
/// (key 3) is required, and the remaining fields decode to defaults when
/// absent, per `spec_assertion_fields`. Errors come exactly as
/// `spec_assertion_error` says.
pub fn decode_get_assertion(resp: &[u8]) -> (r: Result<Assertion, CtapError>)
    ensures
        match r {
            Ok(a) => {
                &&& spec_assertion_error(resp@) is None
                &&& match spec_response_entries(resp@) {
                    Some(entries) => match (
                        spec_lookup_uint(entries, 2),
                        spec_lookup_uint(entries, 3),
                    ) {
                        (Some(CborData::Bytes(ad)), Some(CborData::Bytes(sig))) =>
                            spec_assertion_fields(&a, entries, ad, sig),
                        _ => false,
                    },
                    None => false,
                }
            },
            Err(e) => spec_assertion_error(resp@) == Some(e),
        },
{
    if resp.len() == 0 {
        return Err(CtapError::InvalidCbor);
    }
    let status = resp[0];
    if status != 0 {
        return Err(CtapError::Status(status));
    }
    let entries = match parse_value(resp, 1) {
        Some((CborValue::Dict(entries), _)) => entries,
        Some(_) => {
            return Err(CtapError::InvalidCbor);
        },
        None => {
            return Err(CtapError::InvalidCbor);
        },
    };
    let ghost entries_view = crate::cbor_decode::cbor_view_pairs(entries@);

    // Key 2: authenticator data, required, at least 37 bytes.
    let auth_data = match lookup_uint(&entries, 2) {
        Some(CborValue::Bytes(ad)) => clone_bytes(ad),
        Some(_) => {
            return Err(CtapError::InvalidCbor);
        },
        None => {
            return Err(CtapError::MissingField(2));
        },
    };
    if auth_data.len() < 37 {
        return Err(CtapError::InvalidCbor);
    }

    // Key 3: the assertion signature, required.
    let signature = match lookup_uint(&entries, 3) {
        Some(CborValue::Bytes(sig)) => clone_bytes(sig),
        Some(_) => {
            return Err(CtapError::InvalidCbor);
        },
        None => {
            return Err(CtapError::MissingField(3));
        },
    };

    let rpid_hash = vstd::slice::slice_to_vec(
        vstd::slice::slice_subrange(auth_data.as_slice(), 0, 32),
    );
    let flags = parse_flags(auth_data[32]);
    let sign_count: u32 = (auth_data[33] as u32) * 0x1000000 + (auth_data[34] as u32) * 0x10000 + (
    auth_data[35] as u32) * 0x100 + (auth_data[36] as u32);

    let null = CborValue::Null;

    // Key 1: the credential descriptor map; its "id" field, empty when
    // absent.
    let cred = entry_or_null(&entries, 1, &null);
    let credential_id = bytes_field(cred, "id".as_bytes());

    // Key 4: the user entity map; each field empty when absent.
    let user_map = entry_or_null(&entries, 4, &null);
    let user = PublicKeyCredentialUserEntity {
        id: bytes_field(user_map, "id".as_bytes()),
        name: text_field(user_map, "name".as_bytes()),
        display_name: text_field(user_map, "displayName".as_bytes()),
    };

    // Key 5: the credential count; zero when absent or out of range.
    let number_of_credentials: i32 = match lookup_uint(&entries, 5) {
        Some(CborValue::UInt(n)) => {
            if *n <= 0x7fffffff {
                *n as i32
            } else {
                0
            }
        },
        _ => 0,
    };

    // Key 6: the user-selected flag, false when absent.
    let user_selected: bool = match lookup_uint(&entries, 6) {
        Some(CborValue::Bool(b)) => *b,
        _ => false,
    };

    // Key 7: the large-blob key extension output, when present.
    let mut extensions: Vec<Extension> = Vec::new();
    match lookup_uint(&entries, 7) {
        Some(CborValue::Bytes(k)) => {
            let ext = Extension::LargeBlobKey((None, Some(clone_bytes(k))));
            proof {
                crate::get_assertion_params::lemma_ext_views_push(extensions@, ext);
            }
            extensions.push(ext);
        },
        _ => {},
    }

    Ok(
        Assertion {
            rpid_hash,
            flags,
            sign_count,
            number_of_credentials,
            signature,
            user,
            credential_id,
            extensions,
            auth_data,
            user_selected,
        },
    )
}

} // verus!
