//! Account addresses.
//!
//! Records carry `Pubkey` values through unchanged; the only thing the
//! accounting rules ever ask of two addresses is whether they are the same.

use anchor_lang::prelude::Pubkey;
use vstd::prelude::*;

verus! {

/// `Pubkey`, the address of an account, as an opaque value.
#[verifier::external_type_specification]
#[verifier::external_body]
pub struct ExPubkey(anchor_lang::prelude::Pubkey);

/// Compares two addresses with `Pubkey`'s `PartialEq::eq`.
///
/// `Pubkey` is a transparent wrapper around 32 bytes with a derived
/// `PartialEq`, so `eq` answers `true` exactly when both hold the same
/// address. This is assumed, not proved.
#[verifier::external_body]
pub(crate) fn same_key(a: &Pubkey, b: &Pubkey) -> (same: bool)
    ensures
        same == (*a == *b),
{
    a.eq(b)
}

} // verus!
