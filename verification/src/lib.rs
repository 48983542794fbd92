//! Host-side CTAP2 protocol pieces for FIDO2 authenticators: PIN/UV-auth
//! signing, canonical CBOR command encoding and response decoding, domain
//! entities, the biometric-enrollment state machine, and the decisions of
//! PCSC reader discovery. Device I/O stays outside; the library works on
//! plain bytes and values, with contracts verified by Verus.

use vstd::prelude::*;

pub mod authenticator_config;
pub mod bio_enrollment;
pub mod cbor;
pub mod cbor_decode;
pub mod crypto;
pub mod entity_fields;
pub mod fidokey;
pub mod get_assertion_decode;
pub mod get_assertion_params;

pub mod large_blobs;
pub mod pcsc;
pub mod pintoken;
pub mod public_key_credential_descriptor;
pub mod public_key_credential_rp_entity;
pub mod public_key_credential_user_entity;
pub mod str_buf;
pub mod sub_command_base;
pub mod util;

verus! {

/// The errors this library reports, one variant per failure family.
#[derive(Debug, Clone, PartialEq, Eq)]
pub enum CtapError {
    /// Opening, writing to or reading from the device failed.
    Transport,
    /// A blocking exchange ran past its timeout.
    Timeout,
    /// The authenticator answered with a non-zero CTAP2 status byte.
    Status(u8),
    /// The response payload is not well-formed CBOR of the expected shape.
    InvalidCbor,
    /// A response field that the protocol requires is absent; the payload
    /// carries the integer key of the missing field.
    MissingField(u8),
    /// A privileged command was attempted without a PIN/UV auth token.
    Auth,
    /// An enrollment operation was invoked out of sequence.
    State,
    /// The authenticator lacks the capability the operation needs.
    Unsupported,
}

} // verus!
