use vstd::prelude::*;
use crate::cbor_decode::CborValue;
use crate::cbor_decode::cbor_view;
use crate::entity_fields::text_field;
use crate::entity_fields::spec_text_field;
use crate::public_key_credential_descriptor::clone_string;

verus! {

use vstd::string::StringSliceAdditionalSpecFns;

/// A relying party: its identifier and its human-readable name.
#[derive(Debug, Clone)]
pub struct PublicKeyCredentialRpEntity {
    pub id: String,
    pub name: String,
}

impl Default for PublicKeyCredentialRpEntity {
    fn default() -> (r: Self)
        ensures
            r.id@ == Seq::<char>::empty(),
            r.name@ == Seq::<char>::empty(),
    {
        Self { id: String::new(), name: String::new() }
    }
}

impl PublicKeyCredentialRpEntity {
    /// A copy of this entity whose id is taken from the "id" field of the
    /// given CBOR map, empty when absent.
    pub fn get_id(&mut self, cbor: &CborValue) -> (r: Self)
        ensures
            *final(self) == *old(self),
            r.id@ == spec_text_field(cbor_view(cbor), "id".spec_bytes()),
            r.name@ == old(self).name@,
    {
        let key: &[u8] = "id".as_bytes();
        Self { id: text_field(cbor, key), name: clone_string(&self.name) }
    }

    /// A copy of this entity whose name is taken from the "name" field of
    /// the given CBOR map, empty when absent.
    pub fn get_name(&mut self, cbor: &CborValue) -> (r: Self)
        ensures
            *final(self) == *old(self),
            r.name@ == spec_text_field(cbor_view(cbor), "name".spec_bytes()),
            r.id@ == old(self).id@,
    {
        let key: &[u8] = "name".as_bytes();
        Self { id: clone_string(&self.id), name: text_field(cbor, key) }
    }

    /// Renders the entity for diagnostics: its id and name.
    pub fn to_text(&self) -> (r: String)
        ensures
            r@ == "(id : ".view() + self.id@ + " , name : ".view() + self.name@ + ")".view(),
    {
        let mut out = String::new();
        out.append("(id : ");
        out.append(self.id.as_str());
        out.append(" , name : ");
        out.append(self.name.as_str());
        out.append(")");
        out
    }
}

} // verus!
