use std::cell::RefCell;

use ctap_hid_fido2::CtapError;
use ctap_hid_fido2::bio_enrollment::{run_enrollment, EnrollSampler, EnrollState, TemplateInfo};
use ctap_hid_fido2::fidokey::{exchange, FidoKey, KeyID, LibCfg};
use ctap_hid_fido2::get_assertion_params::{format_i32, parse_flags, Extension, GetAssertionArgs, GetAssertionArgsBuilder};
use ctap_hid_fido2::pcsc::{is_fido_reader_response, select_fido2_apdu};
use ctap_hid_fido2::str_buf::StrBuf;

struct MockSampler {
    calls: usize,
    finish_on_call: Option<usize>,
}

impl EnrollSampler for MockSampler {
    fn capture_next_sample(&mut self) -> Result<bool, CtapError> {
        self.calls += 1;
        Ok(self.finish_on_call == Some(self.calls))
    }
}

#[test]
fn test_bio_enrollment_finishes_on_third_round() {
    let mut sampler = MockSampler { calls: 0, finish_on_call: Some(3) };
    let outcome = run_enrollment(&mut sampler, &[0xde, 0xad]).unwrap();
    match outcome {
        EnrollState::Finished { template_id } => assert_eq!(template_id, vec![0xde, 0xad]),
        other => panic!("expected finished, got {other:?}"),
    }
    assert_eq!(sampler.calls, 3);
}

#[test]
fn test_bio_enrollment_round_cap_yields_incomplete() {
    let mut sampler = MockSampler { calls: 0, finish_on_call: None };
    let outcome = run_enrollment(&mut sampler, &[1]).unwrap();
    assert!(matches!(outcome, EnrollState::Incomplete));
    // The loop is bounded: the sampler is asked at most ten times.
    assert_eq!(sampler.calls, 10);
}

#[test]
fn test_bio_enrollment_transport_error_propagates() {
    struct Failing;
    impl EnrollSampler for Failing {
        fn capture_next_sample(&mut self) -> Result<bool, CtapError> {
            Err(CtapError::Timeout)
        }
    }
    let mut sampler = Failing;
    assert_eq!(run_enrollment(&mut sampler, &[1]).unwrap_err(), CtapError::Timeout);
}

#[test]
fn test_enroll_state_machine_ordering() {
    // A capture round before begin is an ordering error.
    assert_eq!(EnrollState::NotStarted.next(true).unwrap_err(), CtapError::State);
    // Begin only starts from a fresh state.
    let enrolling = EnrollState::NotStarted.begin(vec![7]).unwrap();
    assert!(matches!(enrolling, EnrollState::Enrolling { .. }));
    let finished = enrolling.next(true).unwrap();
    match &finished {
        EnrollState::Finished { template_id } => assert_eq!(template_id, &vec![7]),
        other => panic!("expected finished, got {other:?}"),
    }
    assert_eq!(finished.begin(vec![8]).unwrap_err(), CtapError::State);
}

#[test]
fn test_template_info_new() {
    let t = TemplateInfo::new(vec![1, 2, 3], Some("thumb"));
    assert_eq!(t.template_id, vec![1, 2, 3]);
    assert_eq!(t.template_name.as_deref(), Some("thumb"));
    let unnamed = TemplateInfo::new(vec![], None);
    assert!(unnamed.template_name.is_none());
}

#[derive(Default)]
struct MockDevice {
    written: RefCell<Vec<Vec<u8>>>,
    responses: RefCell<Vec<Vec<u8>>>,
}

impl FidoKey for MockDevice {
    fn new(_params: &[KeyID], _cfg: &LibCfg) -> Result<Self, CtapError> {
        Ok(MockDevice::default())
    }

    fn write(&self, cmd: &[u8]) -> Result<usize, String> {
        self.written.borrow_mut().push(cmd.to_vec());
        Ok(cmd.len())
    }

    fn read(&self) -> Result<Vec<u8>, String> {
        self.responses.borrow_mut().pop().ok_or_else(|| String::from("no response queued"))
    }
}

#[test]
fn test_exchanges_reach_device_in_issue_order() {
    let device = MockDevice::default();
    device.responses.borrow_mut().push(vec![0x00, 0x02]);
    device.responses.borrow_mut().push(vec![0x00, 0x01]);

    let first = exchange(&device, &[0x10, 0xaa]).unwrap();
    let second = exchange(&device, &[0x20, 0xbb]).unwrap();

    // The mock observed the two commands strictly in issue order, and each
    // exchange carried exactly one command.
    assert_eq!(*device.written.borrow(), vec![vec![0x10, 0xaa], vec![0x20, 0xbb]]);
    assert_eq!(first, vec![0x00, 0x01]);
    assert_eq!(second, vec![0x00, 0x02]);
}

#[test]
fn test_exchange_maps_failures_to_transport_error() {
    struct Broken;
    impl FidoKey for Broken {
        fn new(_params: &[KeyID], _cfg: &LibCfg) -> Result<Self, CtapError> {
            Ok(Broken)
        }
        fn write(&self, _cmd: &[u8]) -> Result<usize, String> {
            Err(String::from("write error"))
        }
        fn read(&self) -> Result<Vec<u8>, String> {
            Err(String::from("read error"))
        }
    }
    assert_eq!(exchange(&Broken, &[0x01]).unwrap_err(), CtapError::Transport);
    // A device that accepts the write but cannot answer also surfaces as a
    // transport error.
    let silent = MockDevice::default();
    assert_eq!(exchange(&silent, &[0x01]).unwrap_err(), CtapError::Transport);
}

#[test]
fn test_select_fido2_apdu_bytes() {
    assert_eq!(
        select_fido2_apdu(),
        vec![0x00, 0xa4, 0x04, 0x00, 0x08, 0xa0, 0x00, 0x00, 0x06, 0x47, 0x2f, 0x00, 0x01]
    );
}

#[test]
fn test_reader_discovery_marker_detection() {
    // The marker anywhere in the response accepts the reader, whatever
    // surrounds it.
    assert!(is_fido_reader_response(b"U2F_V2"));
    assert!(is_fido_reader_response(b"\x00\x01U2F_V2 trailing junk \xff\xfe"));
    let mut at_ten = vec![0x90u8; 10];
    at_ten.extend_from_slice(b"U2F_V2");
    at_ten.extend_from_slice(&[0x00; 20]);
    assert!(is_fido_reader_response(&at_ten));
    // Also far into a zero-padded transmit buffer.
    let mut late = vec![0x00u8; 300];
    late.extend_from_slice(b"U2F_V2");
    assert!(is_fido_reader_response(&late));
}

#[test]
fn test_reader_discovery_excludes_non_fido() {
    // No marker at all.
    assert!(!is_fido_reader_response(b"OTHER APPLET RESPONSE"));
    // Too short to hold the marker.
    assert!(!is_fido_reader_response(b"U2F"));
    assert!(!is_fido_reader_response(b""));
    // Near misses.
    assert!(!is_fido_reader_response(b"U2F_V1 U2f_v2..."));
    assert!(!is_fido_reader_response(&[0x55, 0x32, 0x46, 0x5f, 0x56]));
}

#[test]
fn test_get_assertion_args_builder() {
    let args: GetAssertionArgs = GetAssertionArgsBuilder::new("example.com", b"challenge")
        .pin("1234")
        .credential_id(&[9, 9])
        .add_credential_id(&[8])
        .build();
    assert_eq!(args.rpid, "example.com");
    assert_eq!(args.challenge, b"challenge".to_vec());
    assert_eq!(args.pin, Some("1234"));
    assert_eq!(args.credential_ids, vec![vec![9, 9], vec![8]]);
    // Selecting a PIN turns direct user verification off.
    assert_eq!(args.uv, None);
    assert!(args.extensions.is_none());
}

#[test]
fn test_get_assertion_args_builder_defaults() {
    let args = GetAssertionArgsBuilder::new("rp", b"c").build();
    assert_eq!(args.uv, Some(true));
    assert_eq!(args.pin, None);
    assert!(args.credential_ids.is_empty());

    let args = GetAssertionArgsBuilder::new("rp", b"c").without_pin_and_uv().build();
    assert_eq!(args.uv, None);
    assert_eq!(args.pin, None);

    let blank = GetAssertionArgs::builder().build();
    assert_eq!(blank.rpid, "");
    assert_eq!(blank.uv, None);
}

#[test]
fn test_get_assertion_args_builder_extensions() {
    let ext = [Extension::CredBlob((Some(true), None))];
    let args = GetAssertionArgsBuilder::new("rp", b"c").extensions(&ext).build();
    match args.extensions.as_deref() {
        Some([Extension::CredBlob((Some(true), None))]) => {},
        other => panic!("unexpected extensions: {other:?}"),
    }
}

#[test]
fn test_extension_hmac_secret_from_string() {
    let e = Extension::create_hmac_secret_from_string("salt input");
    let expected = ring::digest::digest(&ring::digest::SHA256, b"salt input");
    match e {
        Extension::HmacSecret(Some(salt)) => assert_eq!(&salt[..], expected.as_ref()),
        other => panic!("unexpected extension: {other:?}"),
    }
}

#[test]
fn test_str_buf_lines() {
    let mut b = StrBuf::new(0);
    b.add("head");
    b.addln(" tail");
    b.appent("title");
    assert_eq!(b.build(), "head tail\ntitle\n");
}

#[test]
fn test_str_buf_append_pads_title() {
    let mut b = StrBuf::new(9);
    b.append("count", &42u32);
    assert_eq!(b.build(), "count     = 42\n");
}

#[test]
fn test_str_buf_appenh_and_bufh() {
    let mut b = StrBuf::new(0);
    b.appenh("- sig", &[0xab, 0xcd]);
    assert_eq!(b.build(), "- sig(02) = abcd\n");
    assert_eq!(StrBuf::bufh("- data", &[0x01; 100]), format!("- data(100) = {}\n", "01".repeat(100)));
}

#[test]
fn test_flags_to_text() {
    assert_eq!(parse_flags(0x05).to_text(), "- flags UP UV");
    assert_eq!(parse_flags(0x00).to_text(), "- flags");
    assert_eq!(parse_flags(0xc0).to_text(), "- flags AT ED");
}

#[test]
fn test_format_i32() {
    assert_eq!(format_i32(0), "0");
    assert_eq!(format_i32(1024), "1024");
    assert_eq!(format_i32(-37), "-37");
    assert_eq!(format_i32(i32::MIN), "-2147483648");
}
