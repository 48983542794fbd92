use std::collections::BTreeMap;

use ctap_hid_fido2::pintoken::{authenticate, PinToken};
use ctap_hid_fido2::authenticator_config::{create_payload, SubCommand};
use ctap_hid_fido2::large_blobs;
use ctap_hid_fido2::util::to_hex_str;

use serde_cbor::Value;

fn ring_hmac_16(key: &[u8], message: &[u8]) -> Vec<u8> {
    let k = ring::hmac::Key::new(ring::hmac::HMAC_SHA256, key);
    ring::hmac::sign(&k, message).as_ref()[0..16].to_vec()
}

fn ring_sha256(data: &[u8]) -> Vec<u8> {
    ring::digest::digest(&ring::digest::SHA256, data).as_ref().to_vec()
}

#[test]
fn test_authenticate_deterministic_and_16_bytes() {
    let key = [7u8; 32];
    let msg = b"exactly this message";
    let a = authenticate(&key, msg);
    let b = authenticate(&key, msg);
    assert_eq!(a, b);
    assert_eq!(a.len(), 16);
    // The signature is the truncated HMAC-SHA-256 tag, not the input.
    assert_eq!(a, ring_hmac_16(&key, msg));
}

#[test]
fn test_authenticate_empty_message() {
    let key = [0u8; 32];
    let a = authenticate(&key, &[]);
    assert_eq!(a.len(), 16);
    assert_eq!(a, ring_hmac_16(&key, &[]));
}

fn expected_config_payload(key: &[u8], sub_command_id: u8, params: Option<BTreeMap<Value, Value>>) -> Vec<u8> {
    let mut map = BTreeMap::new();
    map.insert(Value::Integer(0x01), Value::Integer(i128::from(sub_command_id)));
    let mut params_cbor = Vec::new();
    if let Some(p) = params {
        map.insert(Value::Integer(0x02), Value::Map(p.clone()));
        params_cbor = serde_cbor::to_vec(&Value::Map(p)).unwrap();
    }
    map.insert(Value::Integer(0x03), Value::Integer(1));
    let mut message = vec![0xffu8; 32];
    message.push(0x0d);
    message.push(sub_command_id);
    message.extend_from_slice(&params_cbor);
    map.insert(Value::Integer(0x04), Value::Bytes(ring_hmac_16(key, &message)));
    let mut payload = vec![0x0du8];
    payload.extend_from_slice(&serde_cbor::to_vec(&Value::Map(map)).unwrap());
    payload
}

#[test]
fn test_config_payload_toggle_always_uv() {
    let key = [3u8; 32];
    let token = PinToken::new(&key);
    let got = create_payload(&token, &SubCommand::ToggleAlwaysUv);
    assert_eq!(got, expected_config_payload(&key, 2, None));
}

#[test]
fn test_config_payload_set_min_pin_length() {
    let key = [9u8; 32];
    let token = PinToken::new(&key);
    let got = create_payload(&token, &SubCommand::SetMinPinLength(6));
    let params = BTreeMap::from([(Value::Integer(0x01), Value::Integer(6))]);
    assert_eq!(got, expected_config_payload(&key, 3, Some(params)));
}

#[test]
fn test_config_payload_set_min_pin_length_rpids() {
    let key = [1u8; 32];
    let token = PinToken::new(&key);
    let rpids = vec![String::from("example.com"), String::from("other.test")];
    let got = create_payload(&token, &SubCommand::SetMinPinLengthRpIds(rpids.clone()));
    let params = BTreeMap::from([(
        Value::Integer(0x02),
        Value::Array(rpids.into_iter().map(Value::Text).collect()),
    )]);
    assert_eq!(got, expected_config_payload(&key, 3, Some(params)));
}

#[test]
fn test_config_payload_force_change_pin() {
    let key = [5u8; 32];
    let token = PinToken::new(&key);
    let got = create_payload(&token, &SubCommand::ForceChangePin);
    let params = BTreeMap::from([(Value::Integer(0x03), Value::Bool(true))]);
    assert_eq!(got, expected_config_payload(&key, 3, Some(params)));
}

fn extract_auth_param(payload: &[u8]) -> Vec<u8> {
    let value: Value = serde_cbor::from_slice(&payload[1..]).unwrap();
    match value {
        Value::Map(map) => match map.get(&Value::Integer(0x04)) {
            Some(Value::Bytes(sig)) => sig.clone(),
            _ => panic!("payload has no pinUvAuthParam"),
        },
        _ => panic!("payload is not a map"),
    }
}

#[test]
fn test_config_signature_changes_with_parameter() {
    let key = [2u8; 32];
    let token = PinToken::new(&key);
    let four = create_payload(&token, &SubCommand::SetMinPinLength(4));
    let six = create_payload(&token, &SubCommand::SetMinPinLength(6));
    assert_ne!(four, six);
    assert_ne!(extract_auth_param(&four), extract_auth_param(&six));
}

#[test]
fn test_large_blob_array_shape() {
    let data = b"some stored blob".to_vec();
    let arr = large_blobs::create_large_blob_array(&data);
    assert_eq!(arr.len(), data.len() + 16);
    assert_eq!(&arr[..data.len()], &data[..]);
    assert_eq!(&arr[data.len()..], &ring_sha256(&data)[0..16]);
}

#[test]
fn test_large_blob_array_round_trip() {
    for data in [&b""[..], &b"x"[..], &[0u8; 300][..]] {
        let arr = large_blobs::create_large_blob_array(data);
        let back = large_blobs::split_large_blob_array(&arr).unwrap();
        assert_eq!(back, data.to_vec());
    }
}

#[test]
fn test_large_blob_array_tamper_detected() {
    let mut arr = large_blobs::create_large_blob_array(b"payload");
    let last = arr.len() - 1;
    arr[last] ^= 0x01;
    assert!(large_blobs::split_large_blob_array(&arr).is_none());
    assert!(large_blobs::split_large_blob_array(&[0u8; 15]).is_none());
}

#[test]
fn test_large_blobs_payload_get() {
    let got = large_blobs::create_payload(None, 64, Some(1024), None);
    let map = BTreeMap::from([
        (Value::Integer(0x01), Value::Integer(1024)),
        (Value::Integer(0x03), Value::Integer(64)),
    ]);
    let mut expected = vec![0x0cu8];
    expected.extend_from_slice(&serde_cbor::to_vec(&Value::Map(map)).unwrap());
    assert_eq!(got, expected);
}

#[test]
fn test_large_blobs_payload_set_with_token() {
    let key = [8u8; 32];
    let token = PinToken::new(&key);
    let data = b"blob contents".to_vec();
    let offset = 256u32;
    let got = large_blobs::create_payload(Some(&token), offset, None, Some(&data));

    let mut array = data.clone();
    array.extend_from_slice(&ring_sha256(&data)[0..16]);
    let mut message = vec![0xffu8; 32];
    message.extend_from_slice(&[0x0c, 0x00]);
    message.extend_from_slice(&offset.to_le_bytes());
    message.extend_from_slice(&ring_sha256(&array));
    let sig = ring_hmac_16(&key, &message);

    let map = BTreeMap::from([
        (Value::Integer(0x02), Value::Bytes(array.clone())),
        (Value::Integer(0x03), Value::Integer(i128::from(offset))),
        (Value::Integer(0x04), Value::Integer(array.len() as i128)),
        (Value::Integer(0x05), Value::Bytes(sig)),
        (Value::Integer(0x06), Value::Integer(1)),
    ]);
    let mut expected = vec![0x0cu8];
    expected.extend_from_slice(&serde_cbor::to_vec(&Value::Map(map)).unwrap());
    assert_eq!(got, expected);
}

#[test]
fn test_large_blobs_payload_set_without_token() {
    let data = vec![1u8, 2, 3];
    let got = large_blobs::create_payload(None, 0, None, Some(&data));
    let mut array = data.clone();
    array.extend_from_slice(&ring_sha256(&data)[0..16]);
    let map = BTreeMap::from([
        (Value::Integer(0x02), Value::Bytes(array.clone())),
        (Value::Integer(0x03), Value::Integer(0)),
        (Value::Integer(0x04), Value::Integer(array.len() as i128)),
    ]);
    let mut expected = vec![0x0cu8];
    expected.extend_from_slice(&serde_cbor::to_vec(&Value::Map(map)).unwrap());
    assert_eq!(got, expected);
}

#[test]
fn test_to_hex_str() {
    assert_eq!(to_hex_str(&[0xbe, 0xef, 0x00, 0x0a]), "beef000a");
    assert_eq!(to_hex_str(&[]), "");
}
