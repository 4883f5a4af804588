use vstd::prelude::*;

verus! {

/// The address type of the host chain. Its 32 bytes are hidden from the
/// verifier: an address is carried through and compared, nothing else.
#[verifier::external_type_specification]
#[verifier::external_body]
pub struct ExPubkey(anchor_lang::prelude::Pubkey);

/// Compares two addresses with `Pubkey::eq`, which the address type derives
/// over its 32 bytes: it answers `true` exactly for two equal addresses.
#[verifier::external_body]
pub(crate) fn same_key(
    a: &anchor_lang::prelude::Pubkey,
    b: &anchor_lang::prelude::Pubkey,
) -> (same: bool)
    ensures
        same == (*a == *b),
{
    a == b
}

} // verus!
