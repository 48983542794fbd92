use vstd::prelude::*;

verus! {

/// The capability every subcommand variant offers the codec: its protocol
/// id and whether it carries a parameter map. The codec is written once
/// against this trait rather than once per command family.
pub trait SubCommandBase: Sized {
    /// The subcommand's one-byte protocol identifier.
    spec fn spec_id(&self) -> u8;

    /// Whether the variant logically carries a subCommandParams map.
    spec fn spec_has_param(&self) -> bool;

    fn id(&self) -> (r: u8)
        ensures
            r == self.spec_id(),
    ;

    fn has_param(&self) -> (r: bool)
        ensures
            r == self.spec_has_param(),
    ;
}

} // verus!
