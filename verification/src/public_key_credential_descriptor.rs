use vstd::prelude::*;
use crate::cbor_decode::CborValue;
use crate::cbor_decode::cbor_view;
use crate::entity_fields::bytes_field;
use crate::entity_fields::text_field;
use crate::entity_fields::spec_bytes_field;
use crate::entity_fields::spec_text_field;
use crate::util::to_hex_str;
use crate::util::spec_to_hex;

verus! {

use vstd::string::StringSliceAdditionalSpecFns;

/// A credential reference: the credential id and its type string.
#[derive(Debug, Clone, PartialEq, Eq)]
pub struct PublicKeyCredentialDescriptor {
    pub id: Vec<u8>,
    pub ctype: String,
}

impl Default for PublicKeyCredentialDescriptor {
    fn default() -> (r: Self)
        ensures
            r.id@ == Seq::<u8>::empty(),
            r.ctype@ == Seq::<char>::empty(),
    {
        Self { id: Vec::new(), ctype: String::new() }
    }
}

impl PublicKeyCredentialDescriptor {
    /// A copy of this descriptor whose id is taken from the "id" field of
    /// the given CBOR map, empty when absent.
    pub fn get_id(&mut self, cbor: &CborValue) -> (r: Self)
        ensures
            *final(self) == *old(self),
            r.id@ == spec_bytes_field(cbor_view(cbor), "id".spec_bytes()),
            r.ctype@ == old(self).ctype@,
    {
        let key: &[u8] = "id".as_bytes();
        Self { id: bytes_field(cbor, key), ctype: clone_string(&self.ctype) }
    }

    /// A copy of this descriptor whose type is taken from the "type" field
    /// of the given CBOR map, empty when absent.
    pub fn get_type(&mut self, cbor: &CborValue) -> (r: Self)
        ensures
            *final(self) == *old(self),
            r.ctype@ == spec_text_field(cbor_view(cbor), "type".spec_bytes()),
            r.id@ == old(self).id@,
    {
        let key: &[u8] = "type".as_bytes();
        Self { id: clone_bytes(&self.id), ctype: text_field(cbor, key) }
    }

    /// Renders the descriptor for diagnostics: the id in hex and the type.
    pub fn to_text(&self) -> (r: String)
        ensures
            r@ == "(id : ".view() + spec_to_hex(self.id@) + " , type : ".view() + self.ctype@
                + ")".view(),
    {
        let mut out = String::new();
        out.append("(id : ");
        let hex = to_hex_str(self.id.as_slice());
        out.append(hex.as_str());
        out.append(" , type : ");
        out.append(self.ctype.as_str());
        out.append(")");
        out
    }
}

/// A copy of a string with the same characters.
pub fn clone_string(s: &String) -> (r: String)
    ensures
        r@ == s@,
{
    s.clone()
}

/// A copy of a byte vector with the same bytes.
pub fn clone_bytes(v: &Vec<u8>) -> (r: Vec<u8>)
    ensures
        r@ == v@,
{
    vstd::slice::slice_to_vec(v.as_slice())
}

} // verus!
