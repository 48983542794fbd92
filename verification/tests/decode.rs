use std::collections::BTreeMap;

use ctap_hid_fido2::CtapError;
use ctap_hid_fido2::cbor_decode::{parse_value, CborValue};
use ctap_hid_fido2::get_assertion_decode::decode_get_assertion;
use ctap_hid_fido2::get_assertion_params::{Assertion, Extension};
use ctap_hid_fido2::public_key_credential_descriptor::PublicKeyCredentialDescriptor;
use ctap_hid_fido2::public_key_credential_rp_entity::PublicKeyCredentialRpEntity;
use ctap_hid_fido2::public_key_credential_user_entity::PublicKeyCredentialUserEntity;

use serde_cbor::Value;

#[test]
fn test_parse_value_primitives() {
    let bytes = serde_cbor::to_vec(&Value::Integer(23)).unwrap();
    assert!(matches!(parse_value(&bytes, 0), Some((CborValue::UInt(23), _))));

    let bytes = serde_cbor::to_vec(&Value::Integer(1000)).unwrap();
    assert!(matches!(parse_value(&bytes, 0), Some((CborValue::UInt(1000), _))));

    let bytes = serde_cbor::to_vec(&Value::Integer(-5)).unwrap();
    assert!(matches!(parse_value(&bytes, 0), Some((CborValue::NInt(4), _))));

    let bytes = serde_cbor::to_vec(&Value::Bool(true)).unwrap();
    assert!(matches!(parse_value(&bytes, 0), Some((CborValue::Bool(true), _))));

    let bytes = serde_cbor::to_vec(&Value::Null).unwrap();
    assert!(matches!(parse_value(&bytes, 0), Some((CborValue::Null, _))));
}

#[test]
fn test_parse_value_strings_and_collections() {
    let bytes = serde_cbor::to_vec(&Value::Bytes(vec![1, 2, 3])).unwrap();
    match parse_value(&bytes, 0) {
        Some((CborValue::Bytes(b), end)) => {
            assert_eq!(b, vec![1, 2, 3]);
            assert_eq!(end, bytes.len());
        },
        other => panic!("unexpected parse: {other:?}"),
    }

    let bytes = serde_cbor::to_vec(&Value::Text(String::from("hi"))).unwrap();
    match parse_value(&bytes, 0) {
        Some((CborValue::Text(t), _)) => assert_eq!(t, b"hi".to_vec()),
        other => panic!("unexpected parse: {other:?}"),
    }

    let bytes = serde_cbor::to_vec(&Value::Array(vec![
        Value::Integer(1),
        Value::Text(String::from("two")),
    ]))
    .unwrap();
    match parse_value(&bytes, 0) {
        Some((CborValue::Array(items), _)) => {
            assert_eq!(items.len(), 2);
            assert!(matches!(items[0], CborValue::UInt(1)));
        },
        other => panic!("unexpected parse: {other:?}"),
    }

    let map = BTreeMap::from([(Value::Integer(1), Value::Bytes(vec![9]))]);
    let bytes = serde_cbor::to_vec(&Value::Map(map)).unwrap();
    match parse_value(&bytes, 0) {
        Some((CborValue::Dict(entries), _)) => {
            assert_eq!(entries.len(), 1);
            assert!(matches!(entries[0].0, CborValue::UInt(1)));
        },
        other => panic!("unexpected parse: {other:?}"),
    }
}

#[test]
fn test_parse_value_rejects_malformed() {
    // Empty input, truncated head, truncated payload.
    assert!(parse_value(&[], 0).is_none());
    assert!(parse_value(&[0x18], 0).is_none());
    assert!(parse_value(&[0x42, 0x01], 0).is_none());
    // Indefinite lengths, tags and floats are outside the CTAP2 subset.
    assert!(parse_value(&[0x9f, 0x01, 0xff], 0).is_none());
    assert!(parse_value(&[0xc2, 0x01], 0).is_none());
    assert!(parse_value(&[0xf9, 0x3c, 0x00], 0).is_none());
    // A map whose second value is missing.
    assert!(parse_value(&[0xa1, 0x01], 0).is_none());
    // A text item whose payload is not valid UTF-8.
    assert!(parse_value(&[0x61, 0xff], 0).is_none());
    assert!(parse_value(&[0x62, 0xc3, 0x28], 0).is_none());
}

fn auth_data(sign_count: u32) -> Vec<u8> {
    let mut ad = vec![0xaau8; 32]; // rpIdHash
    ad.push(0x05); // flags: UP | UV
    ad.extend_from_slice(&sign_count.to_be_bytes());
    ad
}

fn ok_response(map: BTreeMap<Value, Value>) -> Vec<u8> {
    let mut resp = vec![0x00u8];
    resp.extend_from_slice(&serde_cbor::to_vec(&Value::Map(map)).unwrap());
    resp
}

#[test]
fn test_decode_get_assertion_full() {
    let ad = auth_data(0x01020304);
    let cred = BTreeMap::from([
        (Value::Text(String::from("id")), Value::Bytes(vec![0x11, 0x22])),
        (Value::Text(String::from("type")), Value::Text(String::from("public-key"))),
    ]);
    let user = BTreeMap::from([
        (Value::Text(String::from("id")), Value::Bytes(vec![0x33])),
        (Value::Text(String::from("name")), Value::Text(String::from("alice"))),
        (Value::Text(String::from("displayName")), Value::Text(String::from("Alice"))),
    ]);
    let map = BTreeMap::from([
        (Value::Integer(1), Value::Map(cred)),
        (Value::Integer(2), Value::Bytes(ad.clone())),
        (Value::Integer(3), Value::Bytes(vec![0x77; 70])),
        (Value::Integer(4), Value::Map(user)),
        (Value::Integer(5), Value::Integer(2)),
        (Value::Integer(6), Value::Bool(true)),
        (Value::Integer(7), Value::Bytes(vec![0x44; 32])),
    ]);
    let a = decode_get_assertion(&ok_response(map)).unwrap();
    assert_eq!(a.rpid_hash, vec![0xaa; 32]);
    assert!(a.flags.user_present);
    assert!(a.flags.user_verified);
    assert!(!a.flags.attested_credential_data);
    assert!(!a.flags.extension_data);
    assert_eq!(a.sign_count, 0x01020304);
    assert_eq!(a.signature, vec![0x77; 70]);
    assert_eq!(a.credential_id, vec![0x11, 0x22]);
    assert_eq!(a.user.id, vec![0x33]);
    assert_eq!(a.user.name, "alice");
    assert_eq!(a.user.display_name, "Alice");
    assert_eq!(a.number_of_credentials, 2);
    assert!(a.user_selected);
    assert_eq!(a.auth_data, ad);
    assert_eq!(a.extensions.len(), 1);
    match &a.extensions[0] {
        Extension::LargeBlobKey((None, Some(k))) => assert_eq!(k, &vec![0x44; 32]),
        other => panic!("unexpected extension: {other:?}"),
    }
}

#[test]
fn test_decode_get_assertion_missing_optionals_default() {
    let ad = auth_data(7);
    let map = BTreeMap::from([
        (Value::Integer(2), Value::Bytes(ad)),
        (Value::Integer(3), Value::Bytes(vec![0x01])),
    ]);
    let a = decode_get_assertion(&ok_response(map)).unwrap();
    assert_eq!(a.sign_count, 7);
    assert!(a.credential_id.is_empty());
    assert!(a.user.id.is_empty());
    assert!(a.user.name.is_empty());
    assert!(a.user.display_name.is_empty());
    assert_eq!(a.number_of_credentials, 0);
    assert!(!a.user_selected);
    assert!(a.extensions.is_empty());
}

#[test]
fn test_decode_get_assertion_missing_signature_is_error() {
    let map = BTreeMap::from([(Value::Integer(2), Value::Bytes(auth_data(1)))]);
    assert_eq!(decode_get_assertion(&ok_response(map)).unwrap_err(), CtapError::MissingField(3));
}

#[test]
fn test_decode_get_assertion_missing_auth_data_is_error() {
    let map = BTreeMap::from([(Value::Integer(3), Value::Bytes(vec![1]))]);
    assert_eq!(decode_get_assertion(&ok_response(map)).unwrap_err(), CtapError::MissingField(2));
}

#[test]
fn test_decode_get_assertion_errors() {
    // Non-zero status byte short-circuits decoding.
    assert_eq!(decode_get_assertion(&[0x2a, 0xff]).unwrap_err(), CtapError::Status(0x2a));
    // Empty or malformed payloads are invalid.
    assert_eq!(decode_get_assertion(&[]).unwrap_err(), CtapError::InvalidCbor);
    assert_eq!(decode_get_assertion(&[0x00, 0xff]).unwrap_err(), CtapError::InvalidCbor);
    // A well-formed payload that is not a map is invalid.
    assert_eq!(decode_get_assertion(&[0x00, 0x05]).unwrap_err(), CtapError::InvalidCbor);
    // Authenticator data shorter than 37 bytes is invalid.
    let map = BTreeMap::from([
        (Value::Integer(2), Value::Bytes(vec![0u8; 36])),
        (Value::Integer(3), Value::Bytes(vec![1])),
    ]);
    assert_eq!(decode_get_assertion(&ok_response(map)).unwrap_err(), CtapError::InvalidCbor);
}

fn parse_map(map: BTreeMap<Value, Value>) -> CborValue {
    let bytes = serde_cbor::to_vec(&Value::Map(map)).unwrap();
    parse_value(&bytes, 0).unwrap().0
}

#[test]
fn test_descriptor_fields_from_cbor() {
    let cbor = parse_map(BTreeMap::from([
        (Value::Text(String::from("id")), Value::Bytes(vec![9, 8, 7])),
        (Value::Text(String::from("type")), Value::Text(String::from("public-key"))),
    ]));
    let mut d = PublicKeyCredentialDescriptor::default();
    let d = d.get_id(&cbor);
    let mut d2 = d.clone();
    let d2 = d2.get_type(&cbor);
    assert_eq!(d.id, vec![9, 8, 7]);
    assert_eq!(d2.ctype, "public-key");
    assert_eq!(d2.to_text(), "(id : 090807 , type : public-key)");
}

#[test]
fn test_rp_entity_fields_from_cbor() {
    let cbor = parse_map(BTreeMap::from([
        (Value::Text(String::from("id")), Value::Text(String::from("example.com"))),
        (Value::Text(String::from("name")), Value::Text(String::from("Example"))),
    ]));
    let mut rp = PublicKeyCredentialRpEntity::default();
    let rp = rp.get_id(&cbor);
    let mut rp2 = rp.clone();
    let rp2 = rp2.get_name(&cbor);
    assert_eq!(rp.id, "example.com");
    assert_eq!(rp2.name, "Example");
    assert_eq!(rp.name, "");
}

#[test]
fn test_user_entity_fields_from_cbor_with_non_ascii_name() {
    let cbor = parse_map(BTreeMap::from([
        (Value::Text(String::from("id")), Value::Bytes(vec![0x42])),
        (Value::Text(String::from("name")), Value::Text(String::from("véro"))),
    ]));
    let mut u = PublicKeyCredentialUserEntity::default();
    let u = u.get_id(&cbor);
    let mut u2 = u.clone();
    let u2 = u2.get_name(&cbor);
    assert_eq!(u.id, vec![0x42]);
    assert_eq!(u2.name, "véro");
    // A missing field decodes to empty.
    let mut u3 = u2.clone();
    let u3 = u3.get_display_name(&cbor);
    assert_eq!(u3.display_name, "");
}

#[test]
fn test_user_entity_new() {
    let u = PublicKeyCredentialUserEntity::new(Some(&[1, 2]), Some("n"), None);
    assert_eq!(u.id, vec![1, 2]);
    assert_eq!(u.name, "n");
    assert_eq!(u.display_name, "");
    assert_eq!(u.to_text(), "(id : 0102 , name : n , display_name : )");
}

#[test]
fn test_assertion_to_text() {
    let map = BTreeMap::from([
        (Value::Integer(2), Value::Bytes(auth_data(9))),
        (Value::Integer(3), Value::Bytes(vec![0xab, 0xcd])),
    ]);
    let a = decode_get_assertion(&ok_response(map)).unwrap();
    let text = a.to_text();
    let rpid_hex = "aa".repeat(32);
    let expected = format!(
        "{:<42} = {rpid_hex}\n{:<42} = 9\n- flags UP UV\n{:<42} = 0\n{:<42} = abcd\n{:<42} = (id :  , name :  , display_name : )\n{:<42} = \n",
        "- rpid_hash(32)",
        "- sign_count",
        "- number_of_credentials",
        "- signature(02)",
        "- user",
        "- credential_id(00)",
    );
    assert_eq!(text, expected);
}

#[test]
fn test_assertion_to_text_renders_hmac_secret_extensions() {
    let map = BTreeMap::from([
        (Value::Integer(2), Value::Bytes(auth_data(1))),
        (Value::Integer(3), Value::Bytes(vec![0x01])),
    ]);
    let mut a = decode_get_assertion(&ok_response(map)).unwrap();
    let without = a.to_text();
    a.extensions = vec![
        Extension::CredBlob((None, None)),
        Extension::HmacSecret(Some([0x5a; 32])),
        Extension::HmacSecret(None),
    ];
    let with = a.to_text();
    let line = format!("{:<42} = {}\n", "- hmac-secret(32)", "5a".repeat(32));
    assert_eq!(with, format!("{without}{line}"));
}

#[test]
fn test_text_field_empty_on_invalid_utf8() {
    // The parser never yields such a value, but a hand-built one decodes
    // to the empty default rather than failing.
    let cbor = CborValue::Dict(vec![
        (CborValue::Text(b"name".to_vec()), CborValue::Text(vec![0xff, 0xfe])),
    ]);
    let mut u = PublicKeyCredentialUserEntity::default();
    let u = u.get_name(&cbor);
    assert_eq!(u.name, "");
}

#[test]
fn test_assertion_clone_and_default() {
    let map = BTreeMap::from([
        (Value::Integer(2), Value::Bytes(auth_data(3))),
        (Value::Integer(3), Value::Bytes(vec![0x09, 0x08])),
        (Value::Integer(7), Value::Bytes(vec![0x01; 32])),
    ]);
    let a = decode_get_assertion(&ok_response(map)).unwrap();
    let b = a.clone();
    assert_eq!(b.rpid_hash, a.rpid_hash);
    assert_eq!(b.sign_count, a.sign_count);
    assert_eq!(b.signature, a.signature);
    assert_eq!(b.to_text(), a.to_text());

    let d = Assertion::default();
    assert!(d.rpid_hash.is_empty());
    assert_eq!(d.sign_count, 0);
    assert!(d.extensions.is_empty());
    assert!(!d.user_selected);
}
