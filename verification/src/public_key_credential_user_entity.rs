use vstd::prelude::*;
use crate::cbor_decode::CborValue;
use crate::cbor_decode::cbor_view;
use crate::entity_fields::bytes_field;
use crate::entity_fields::text_field;
use crate::entity_fields::spec_bytes_field;
use crate::entity_fields::spec_text_field;
use crate::public_key_credential_descriptor::clone_string;
use crate::public_key_credential_descriptor::clone_bytes;
use crate::util::to_hex_str;
use crate::util::spec_to_hex;

verus! {

use vstd::string::StringSliceAdditionalSpecFns;

/// The user a credential belongs to: an id, a name and a display name,
/// each defaulting to empty when the authenticator reports none.
#[derive(Debug, Clone, PartialEq, Eq)]
pub struct PublicKeyCredentialUserEntity {
    pub id: Vec<u8>,
    pub name: String,
    pub display_name: String,
}

impl Default for PublicKeyCredentialUserEntity {
    fn default() -> (r: Self)
        ensures
            r.id@ == Seq::<u8>::empty(),
            r.name@ == Seq::<char>::empty(),
            r.display_name@ == Seq::<char>::empty(),
    {
        Self { id: Vec::new(), name: String::new(), display_name: String::new() }
    }
}

impl PublicKeyCredentialUserEntity {
    /// Builds an entity from the fields given, leaving absent ones empty.
    pub fn new(id: Option<&[u8]>, name: Option<&str>, display_name: Option<&str>) -> (r: Self)
        ensures
            r.id@ == match id {
                Some(v) => v@,
                None => Seq::<u8>::empty(),
            },
            r.name@ == match name {
                Some(v) => v@,
                None => Seq::<char>::empty(),
            },
            r.display_name@ == match display_name {
                Some(v) => v@,
                None => Seq::<char>::empty(),
            },
    {
        let mut ret = Self { id: Vec::new(), name: String::new(), display_name: String::new() };
        if let Some(v) = id {
            ret.id = vstd::slice::slice_to_vec(v);
        }
        if let Some(v) = name {
            ret.name = v.to_owned();
        }
        if let Some(v) = display_name {
            ret.display_name = v.to_owned();
        }
        ret
    }

    /// A copy of this entity whose id is taken from the "id" field of the
    /// given CBOR map, empty when absent.
    pub fn get_id(&mut self, cbor: &CborValue) -> (r: Self)
        ensures
            *final(self) == *old(self),
            r.id@ == spec_bytes_field(cbor_view(cbor), "id".spec_bytes()),
            r.name@ == old(self).name@,
            r.display_name@ == old(self).display_name@,
    {
        let key: &[u8] = "id".as_bytes();
        Self {
            id: bytes_field(cbor, key),
            name: clone_string(&self.name),
            display_name: clone_string(&self.display_name),
        }
    }

    /// A copy of this entity whose name is taken from the "name" field of
    /// the given CBOR map, empty when absent.
    pub fn get_name(&mut self, cbor: &CborValue) -> (r: Self)
        ensures
            *final(self) == *old(self),
            r.name@ == spec_text_field(cbor_view(cbor), "name".spec_bytes()),
            r.id@ == old(self).id@,
            r.display_name@ == old(self).display_name@,
    {
        let key: &[u8] = "name".as_bytes();
        Self {
            id: clone_bytes(&self.id),
            name: text_field(cbor, key),
            display_name: clone_string(&self.display_name),
        }
    }

    /// A copy of this entity whose display name is taken from the
    /// "displayName" field of the given CBOR map, empty when absent.
    pub fn get_display_name(&mut self, cbor: &CborValue) -> (r: Self)
        ensures
            *final(self) == *old(self),
            r.display_name@ == spec_text_field(cbor_view(cbor), "displayName".spec_bytes()),
            r.id@ == old(self).id@,
            r.name@ == old(self).name@,
    {
        let key: &[u8] = "displayName".as_bytes();
        Self {
            id: clone_bytes(&self.id),
            name: clone_string(&self.name),
            display_name: text_field(cbor, key),
        }
    }

    /// Renders the entity for diagnostics: the id in hex, the name and the
    /// display name.
    pub fn to_text(&self) -> (r: String)
        ensures
            r@ == spec_user_text(self),
    {
        let mut out = String::new();
        out.append("(id : ");
        let hex = to_hex_str(self.id.as_slice());
        out.append(hex.as_str());
        out.append(" , name : ");
        out.append(self.name.as_str());
        out.append(" , display_name : ");
        out.append(self.display_name.as_str());
        out.append(")");
        proof {
            assert(out@ =~= spec_user_text(self));
        }
        out
    }
}

/// The diagnostics rendering of a user entity: the id in hex, the name and
/// the display name.
pub open spec fn spec_user_text(u: &PublicKeyCredentialUserEntity) -> Seq<char> {
    "(id : ".view() + spec_to_hex(u.id@) + " , name : ".view() + u.name@
        + " , display_name : ".view() + u.display_name@ + ")".view()
}

} // verus!
