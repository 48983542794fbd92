use vstd::prelude::*;
use crate::crypto::sha256;
use crate::crypto::sha256_of;
use crate::public_key_credential_user_entity::PublicKeyCredentialUserEntity;
use crate::str_buf::StrBuf;

verus! {

use vstd::string::StringSliceAdditionalSpecFns;

/// The flags byte of an authenticator-data block, split into its defined
/// bits.
#[derive(Debug, Clone, Copy, PartialEq, Eq, Structural)]
pub struct Flags {
    pub user_present: bool,
    pub user_verified: bool,
    pub attested_credential_data: bool,
    pub extension_data: bool,
}

impl Default for Flags {
    fn default() -> (r: Self)
        ensures
            r == (Flags {
                user_present: false,
                user_verified: false,
                attested_credential_data: false,
                extension_data: false,
            }),
    {
        Flags {
            user_present: false,
            user_verified: false,
            attested_credential_data: false,
            extension_data: false,
        }
    }
}

/// The flags encoded in a flags byte: user present is bit 0, user verified
/// bit 2, attested credential data bit 6, extension data bit 7.
pub open spec fn spec_flags(b: u8) -> Flags {
    Flags {
        user_present: b & 0x01 != 0,
        user_verified: b & 0x04 != 0,
        attested_credential_data: b & 0x40 != 0,
        extension_data: b & 0x80 != 0,
    }
}

/// Splits a flags byte into its defined bits.
pub fn parse_flags(b: u8) -> (r: Flags)
    ensures
        r == spec_flags(b),
{
    Flags {
        user_present: b & 0x01 != 0,
        user_verified: b & 0x04 != 0,
        attested_credential_data: b & 0x40 != 0,
        extension_data: b & 0x80 != 0,
    }
}

/// An extension carried in a getAssertion request or response.
#[derive(Debug)]
pub enum Extension {
    HmacSecret(Option<[u8; 32]>),
    LargeBlobKey((Option<bool>, Option<Vec<u8>>)),
    CredBlob((Option<bool>, Option<Vec<u8>>)),
}

/// The mathematical shape of an extension value.
pub enum ExtensionData {
    HmacSecret(Option<Seq<u8>>),
    LargeBlobKey(Option<bool>, Option<Seq<u8>>),
    CredBlob(Option<bool>, Option<Seq<u8>>),
}

pub open spec fn ext_view(e: &Extension) -> ExtensionData {
    match e {
        Extension::HmacSecret(o) => ExtensionData::HmacSecret(
            match o {
                Some(a) => Some(a@),
                None => None,
            },
        ),
        Extension::LargeBlobKey((f, o)) => ExtensionData::LargeBlobKey(
            *f,
            match o {
                Some(v) => Some(v@),
                None => None,
            },
        ),
        Extension::CredBlob((f, o)) => ExtensionData::CredBlob(
            *f,
            match o {
                Some(v) => Some(v@),
                None => None,
            },
        ),
    }
}

pub open spec fn ext_views(items: Seq<Extension>) -> Seq<ExtensionData>
    decreases items,
{
    if items.len() == 0 {
        Seq::empty()
    } else {
        ext_views(items.drop_last()).push(ext_view(&items.last()))
    }
}

pub proof fn lemma_ext_views_push(items: Seq<Extension>, e: Extension)
    ensures
        ext_views(items.push(e)) == ext_views(items).push(ext_view(&e)),
{
    assert(items.push(e).drop_last() =~= items);
    assert(items.push(e).last() == e);
}

impl Clone for Extension {
    /// A copy with the same payload.
    fn clone(&self) -> (r: Self)
        ensures
            ext_view(&r) == ext_view(self),
    {
        match self {
            Extension::HmacSecret(o) => Extension::HmacSecret(*o),
            Extension::LargeBlobKey((f, o)) => Extension::LargeBlobKey(
                (
                    *f,
                    match o {
                        Some(v) => Some(crate::public_key_credential_descriptor::clone_bytes(v)),
                        None => None,
                    },
                ),
            ),
            Extension::CredBlob((f, o)) => Extension::CredBlob(
                (
                    *f,
                    match o {
                        Some(v) => Some(crate::public_key_credential_descriptor::clone_bytes(v)),
                        None => None,
                    },
                ),
            ),
        }
    }
}

impl Extension {
    /// An hmac-secret request whose salt is the SHA-256 digest of the
    /// given text.
    pub fn create_hmac_secret_from_string(message: &str) -> (r: Self)
        ensures
            ext_view(&r) == ExtensionData::HmacSecret(
                Some(sha256_of(message.spec_bytes())),
            ),
    {
        let digest = sha256(message.as_bytes());
        let salt = to_array_32(&digest);
        Self::HmacSecret(Some(salt))
    }
}

/// Copies a 32-byte vector into an array.
fn to_array_32(v: &Vec<u8>) -> (r: [u8; 32])
    requires
        v@.len() == 32,
    ensures
        r@ == v@,
{
    let r: [u8; 32] = [
        v[0], v[1], v[2], v[3], v[4], v[5], v[6], v[7],
        v[8], v[9], v[10], v[11], v[12], v[13], v[14], v[15],
        v[16], v[17], v[18], v[19], v[20], v[21], v[22], v[23],
        v[24], v[25], v[26], v[27], v[28], v[29], v[30], v[31],
    ];
    proof {
        assert(r@ =~= v@);
    }
    r
}

/// A decoded getAssertion response.
#[derive(Debug)]
pub struct Assertion {
    pub rpid_hash: Vec<u8>,
    pub flags: Flags,
    pub sign_count: u32,
    pub number_of_credentials: i32,
    pub signature: Vec<u8>,
    pub user: PublicKeyCredentialUserEntity,
    pub credential_id: Vec<u8>,
    pub extensions: Vec<Extension>,
    pub auth_data: Vec<u8>,
    pub user_selected: bool,
}

impl Default for Assertion {
    fn default() -> (r: Self)
        ensures
            r.rpid_hash@ == Seq::<u8>::empty(),
            r.flags == (Flags {
                user_present: false,
                user_verified: false,
                attested_credential_data: false,
                extension_data: false,
            }),
            r.sign_count == 0,
            r.number_of_credentials == 0,
            r.signature@ == Seq::<u8>::empty(),
            r.user.id@ == Seq::<u8>::empty(),
            r.user.name@ == Seq::<char>::empty(),
            r.user.display_name@ == Seq::<char>::empty(),
            r.credential_id@ == Seq::<u8>::empty(),
            r.extensions@.len() == 0,
            r.auth_data@ == Seq::<u8>::empty(),
            r.user_selected == false,
    {
        Assertion {
            rpid_hash: Vec::new(),
            flags: Flags {
                user_present: false,
                user_verified: false,
                attested_credential_data: false,
                extension_data: false,
            },
            sign_count: 0,
            number_of_credentials: 0,
            signature: Vec::new(),
            user: PublicKeyCredentialUserEntity {
                id: Vec::new(),
                name: String::new(),
                display_name: String::new(),
            },
            credential_id: Vec::new(),
            extensions: Vec::new(),
            auth_data: Vec::new(),
            user_selected: false,
        }
    }
}

impl Clone for Assertion {
    /// A copy whose every field holds the same value.
    fn clone(&self) -> (r: Self)
        ensures
            r.rpid_hash@ == self.rpid_hash@,
            r.flags == self.flags,
            r.sign_count == self.sign_count,
            r.number_of_credentials == self.number_of_credentials,
            r.signature@ == self.signature@,
            r.user.id@ == self.user.id@,
            r.user.name@ == self.user.name@,
            r.user.display_name@ == self.user.display_name@,
            r.credential_id@ == self.credential_id@,
            ext_views(r.extensions@) == ext_views(self.extensions@),
            r.auth_data@ == self.auth_data@,
            r.user_selected == self.user_selected,
    {
        let mut extensions: Vec<Extension> = Vec::new();
        let mut i: usize = 0;
        while i < self.extensions.len()
            invariant
                i <= self.extensions@.len(),
                ext_views(extensions@) == ext_views(self.extensions@.take(i as int)),
            decreases self.extensions@.len() - i,
        {
            let e = self.extensions[i].clone();
            proof {
                lemma_ext_views_push(extensions@, e);
                assert(self.extensions@.take(i as int + 1).drop_last() =~= self.extensions@.take(
                    i as int,
                ));
            }
            extensions.push(e);
            i = i + 1;
        }
        proof {
            assert(self.extensions@.take(self.extensions@.len() as int) =~= self.extensions@);
        }
        Assertion {
            rpid_hash: crate::public_key_credential_descriptor::clone_bytes(&self.rpid_hash),
            flags: self.flags,
            sign_count: self.sign_count,
            number_of_credentials: self.number_of_credentials,
            signature: crate::public_key_credential_descriptor::clone_bytes(&self.signature),
            user: PublicKeyCredentialUserEntity {
                id: crate::public_key_credential_descriptor::clone_bytes(&self.user.id),
                name: crate::public_key_credential_descriptor::clone_string(&self.user.name),
                display_name: crate::public_key_credential_descriptor::clone_string(
                    &self.user.display_name,
                ),
            },
            credential_id: crate::public_key_credential_descriptor::clone_bytes(
                &self.credential_id,
            ),
            extensions,
            auth_data: crate::public_key_credential_descriptor::clone_bytes(&self.auth_data),
            user_selected: self.user_selected,
        }
    }
}

/// The caller-supplied inputs of a getAssertion operation.
#[derive(Debug)]
pub struct GetAssertionArgs<'a> {
    pub rpid: String,
    pub challenge: Vec<u8>,
    pub pin: Option<&'a str>,
    pub credential_ids: Vec<Vec<u8>>,
    pub uv: Option<bool>,
    pub extensions: Option<Vec<Extension>>,
}

impl<'a> GetAssertionArgs<'a> {
    pub fn builder() -> (r: GetAssertionArgsBuilder<'a>)
        ensures
            r.rpid@ == Seq::<char>::empty(),
            r.challenge@ == Seq::<u8>::empty(),
            r.pin is None,
            r.credential_ids@.len() == 0,
            r.uv is None,
            r.extensions is None,
    {
        GetAssertionArgsBuilder {
            rpid: String::new(),
            challenge: Vec::new(),
            pin: None,
            credential_ids: Vec::new(),
            uv: None,
            extensions: None,
        }
    }
}

/// Accumulates the inputs of a getAssertion operation.
pub struct GetAssertionArgsBuilder<'a> {
    pub rpid: String,
    pub challenge: Vec<u8>,
    pub pin: Option<&'a str>,
    pub credential_ids: Vec<Vec<u8>>,
    pub uv: Option<bool>,
    pub extensions: Option<Vec<Extension>>,
}

impl<'a> GetAssertionArgsBuilder<'a> {
    /// Starts a builder for the given relying party and challenge; user
    /// verification defaults to requested.
    pub fn new(rpid: &str, challenge: &[u8]) -> (r: GetAssertionArgsBuilder<'a>)
        ensures
            r.rpid@ == rpid@,
            r.challenge@ == challenge@,
            r.pin is None,
            r.credential_ids@.len() == 0,
            r.uv == Some(true),
            r.extensions is None,
    {
        GetAssertionArgsBuilder {
            rpid: rpid.to_owned(),
            challenge: vstd::slice::slice_to_vec(challenge),
            pin: None,
            credential_ids: Vec::new(),
            uv: Some(true),
            extensions: None,
        }
    }

    /// Selects PIN authentication; a PIN turns direct user verification
    /// off.
    pub fn pin(self, pin: &'a str) -> (r: GetAssertionArgsBuilder<'a>)
        ensures
            r.pin == Some(pin),
            r.uv is None,
            r.rpid@ == self.rpid@,
            r.challenge@ == self.challenge@,
            r.credential_ids == self.credential_ids,
            r.extensions == self.extensions,
    {
        GetAssertionArgsBuilder { pin: Some(pin), uv: None, ..self }
    }

    /// Asks for neither a PIN nor user verification.
    pub fn without_pin_and_uv(self) -> (r: GetAssertionArgsBuilder<'a>)
        ensures
            r.pin is None,
            r.uv is None,
            r.rpid@ == self.rpid@,
            r.challenge@ == self.challenge@,
            r.credential_ids == self.credential_ids,
            r.extensions == self.extensions,
    {
        GetAssertionArgsBuilder { pin: None, uv: None, ..self }
    }

    /// Sets the extensions to request, replacing any set before.
    pub fn extensions(self, extensions: &[Extension]) -> (r: GetAssertionArgsBuilder<'a>)
        ensures
            match r.extensions {
                Some(v) => ext_views(v@) == ext_views(extensions@),
                None => false,
            },
            r.rpid@ == self.rpid@,
            r.challenge@ == self.challenge@,
            r.pin == self.pin,
            r.uv == self.uv,
            r.credential_ids == self.credential_ids,
    {
        let mut copied: Vec<Extension> = Vec::new();
        let mut i: usize = 0;
        while i < extensions.len()
            invariant
                i <= extensions@.len(),
                ext_views(copied@) == ext_views(extensions@.take(i as int)),
            decreases extensions@.len() - i,
        {
            let e = extensions[i].clone();
            proof {
                lemma_ext_views_push(copied@, e);
                assert(extensions@.take(i as int + 1).drop_last() =~= extensions@.take(i as int));
            }
            copied.push(e);
            i = i + 1;
        }
        proof {
            assert(extensions@.take(extensions@.len() as int) =~= extensions@);
        }
        GetAssertionArgsBuilder { extensions: Some(copied), ..self }
    }

    /// Replaces the credential list with this single credential id.
    pub fn credential_id(self, credential_id: &[u8]) -> (r: GetAssertionArgsBuilder<'a>)
        ensures
            r.credential_ids@.len() == 1,
            r.credential_ids@[0]@ == credential_id@,
            r.rpid@ == self.rpid@,
            r.challenge@ == self.challenge@,
            r.pin == self.pin,
            r.uv == self.uv,
            r.extensions == self.extensions,
    {
        let mut cleared = self;
        cleared.credential_ids = Vec::new();
        cleared.add_credential_id(credential_id)
    }

    /// Appends one credential id to the credential list.
    pub fn add_credential_id(self, credential_id: &[u8]) -> (r: GetAssertionArgsBuilder<'a>)
        ensures
            r.credential_ids@.len() == self.credential_ids@.len() + 1,
            forall|i: int| 0 <= i < self.credential_ids@.len()
                ==> r.credential_ids@[i] == self.credential_ids@[i],
            r.credential_ids@.last()@ == credential_id@,
            r.rpid@ == self.rpid@,
            r.challenge@ == self.challenge@,
            r.pin == self.pin,
            r.uv == self.uv,
            r.extensions == self.extensions,
    {
        let mut with_id = self;
        with_id.credential_ids.push(vstd::slice::slice_to_vec(credential_id));
        with_id
    }

    /// Finishes the builder, yielding the accumulated arguments.
    pub fn build(self) -> (r: GetAssertionArgs<'a>)
        ensures
            r.rpid@ == self.rpid@,
            r.challenge@ == self.challenge@,
            r.pin == self.pin,
            r.credential_ids == self.credential_ids,
            r.uv == self.uv,
            r.extensions == self.extensions,
    {
        GetAssertionArgs {
            rpid: self.rpid,
            challenge: self.challenge,
            pin: self.pin,
            credential_ids: self.credential_ids,
            uv: self.uv,
            extensions: self.extensions,
        }
    }
}

impl Flags {
    /// Renders the flag bits for diagnostics.
    pub fn to_text(&self) -> (r: String)
        ensures
            r@ == spec_flag_text(*self),
    {
        let mut out = String::new();
        out.append("- flags");
        out.append(if self.user_present { " UP" } else { "" });
        out.append(if self.user_verified { " UV" } else { "" });
        out.append(if self.attested_credential_data { " AT" } else { "" });
        out.append(if self.extension_data { " ED" } else { "" });
        proof {
            reveal_strlit("");
            assert(out@ =~= spec_flag_text(*self));
        }
        out
    }
}

/// The diagnostics line for a flags value: "- flags" and the set bits.
pub open spec fn spec_flag_text(f: Flags) -> Seq<char> {
    "- flags".view() + (if f.user_present { " UP".view() } else { Seq::<char>::empty() }) + (
    if f.user_verified { " UV".view() } else { Seq::<char>::empty() }) + (
    if f.attested_credential_data { " AT".view() } else { Seq::<char>::empty() }) + (
    if f.extension_data { " ED".view() } else { Seq::<char>::empty() })
}

/// The decimal rendering of a signed count: a minus sign and the
/// magnitude's digits for a negative value.
pub open spec fn spec_signed_decimal(n: int) -> Seq<char> {
    if n < 0 {
        seq!['-'] + crate::str_buf::spec_decimal((-n) as nat)
    } else {
        crate::str_buf::spec_decimal(n as nat)
    }
}

/// Renders a signed count in decimal.
pub fn format_i32(n: i32) -> (r: String)
    ensures
        r@ == spec_signed_decimal(n as int),
{
    if n < 0 {
        let magnitude: i64 = -(n as i64);
        let mut out = String::new();
        out.push('-');
        let digits = crate::str_buf::format_decimal(magnitude as usize);
        out.append(digits.as_str());
        proof {
            assert(out@ =~= spec_signed_decimal(n as int));
        }
        out
    } else {
        crate::str_buf::format_decimal(n as usize)
    }
}

/// The width assertion diagnostics pad their titles to.
pub const ASSERTION_TEXT_PAD: usize = 42;

/// The diagnostics lines of the assertion's fields, in their fixed order:
/// the relying-party id hash, the signature counter, the flags, the
/// credential count, the signature, the user entity and the credential id,
/// each byte field as a padded hex line.
pub open spec fn spec_assertion_field_lines(a: &Assertion) -> Seq<char> {
    crate::str_buf::spec_hex_line_padded(
        "- rpid_hash".view(),
        a.rpid_hash@,
        ASSERTION_TEXT_PAD as nat,
    ) + crate::str_buf::spec_value_line(
        "- sign_count".view(),
        crate::str_buf::spec_decimal(a.sign_count as nat),
        ASSERTION_TEXT_PAD as nat,
    ) + spec_flag_text(a.flags) + seq!['\n'] + crate::str_buf::spec_value_line(
        "- number_of_credentials".view(),
        spec_signed_decimal(a.number_of_credentials as int),
        ASSERTION_TEXT_PAD as nat,
    ) + crate::str_buf::spec_hex_line_padded(
        "- signature".view(),
        a.signature@,
        ASSERTION_TEXT_PAD as nat,
    ) + crate::str_buf::spec_value_line(
        "- user".view(),
        crate::public_key_credential_user_entity::spec_user_text(&a.user),
        ASSERTION_TEXT_PAD as nat,
    ) + crate::str_buf::spec_hex_line_padded(
        "- credential_id".view(),
        a.credential_id@,
        ASSERTION_TEXT_PAD as nat,
    )
}

/// The diagnostics lines of the hmac-secret extension outputs: one padded
/// hex line per extension that carries an hmac-secret payload, in order;
/// other extensions render nothing here.
pub open spec fn spec_hmac_secret_lines(exts: Seq<Extension>, w: nat) -> Seq<char>
    decreases exts,
{
    if exts.len() == 0 {
        Seq::empty()
    } else {
        spec_hmac_secret_lines(exts.drop_last(), w) + (match exts.last() {
            Extension::HmacSecret(Some(v)) => crate::str_buf::spec_hex_line_padded(
                "- hmac-secret".view(),
                v@,
                w,
            ),
            _ => Seq::<char>::empty(),
        })
    }
}

impl Assertion {
    /// Renders the assertion for diagnostics, one field per line with the
    /// titles padded, byte fields as length-tagged lowercase hex, and one
    /// "- hmac-secret" hex line after the fields for each extension that
    /// carries an hmac-secret payload.
    pub fn to_text(&self) -> (r: String)
        ensures
            r@ == spec_assertion_field_lines(self) + spec_hmac_secret_lines(
                self.extensions@,
                ASSERTION_TEXT_PAD as nat,
            ),
    {
        let mut b = StrBuf::new(ASSERTION_TEXT_PAD);
        b.appenh("- rpid_hash", self.rpid_hash.as_slice());
        let sc = crate::str_buf::format_decimal(self.sign_count as usize);
        b.append_str("- sign_count", sc.as_str());
        let flag_line = self.flags.to_text();
        b.addln(flag_line.as_str());
        let nc = format_i32(self.number_of_credentials);
        b.append_str("- number_of_credentials", nc.as_str());
        b.appenh("- signature", self.signature.as_slice());
        let user_text = self.user.to_text();
        b.append_str("- user", user_text.as_str());
        b.appenh("- credential_id", self.credential_id.as_slice());
        proof {
            assert(b.spec_buf() =~= spec_assertion_field_lines(self));
        }
        let ghost base = b.spec_buf();
        let mut i: usize = 0;
        while i < self.extensions.len()
            invariant
                i <= self.extensions@.len(),
                base == spec_assertion_field_lines(self),
                b.spec_buf() == base + spec_hmac_secret_lines(
                    self.extensions@.take(i as int),
                    ASSERTION_TEXT_PAD as nat,
                ),
                b.spec_pad() == ASSERTION_TEXT_PAD as nat,
            decreases self.extensions@.len() - i,
        {
            match &self.extensions[i] {
                Extension::HmacSecret(Some(v)) => {
                    b.appenh("- hmac-secret", v.as_slice());
                },
                _ => {},
            }
            i = i + 1;
            proof {
                assert(self.extensions@.take(i as int).drop_last() =~= self.extensions@.take(
                    i as int - 1,
                ));
                assert(b.spec_buf() =~= base + spec_hmac_secret_lines(
                    self.extensions@.take(i as int),
                    ASSERTION_TEXT_PAD as nat,
                ));
            }
        }
        proof {
            assert(self.extensions@.take(self.extensions@.len() as int) =~= self.extensions@);
        }
        b.build().to_owned()
    }
}

} // verus!
