//! Addresses derived from a seed and a program.

use crate::pubkey::Pubkey;
use vstd::prelude::*;

verus! {

/// The address that a program derives from one seed, and the bump seed it
/// is derived with; `None` where no bump seed gives a valid address.
///
/// It stands for what `Pubkey::try_find_program_address` of the crate
/// `solana_program` returns for the one seed and the program: a hash of the
/// seed, a bump seed and the program that is not a point of the curve. The
/// result depends on these bytes alone.
pub uninterp spec fn program_address(seed: Seq<u8>, program_id: Seq<u8>) -> Option<(Seq<u8>, u8)>;

/// The bytes of a derived address and its bump seed.
pub open spec fn address_bytes(derived: Option<(Pubkey, u8)>) -> Option<(Seq<u8>, u8)> {
    match derived {
        Some((address, bump_seed)) => Some((address@, bump_seed)),
        None => None,
    }
}

/// Calls `solana_program::pubkey::Pubkey::try_find_program_address` with the
/// 32 bytes of `seed` as the only seed.
///
/// Nothing is proved of it. It is taken to return the address and the bump
/// seed that [`program_address`] names, which claims no more than that the
/// outside function gives the same result for the same bytes.
#[verifier::external_body]
pub(crate) fn find_program_address(seed: &Pubkey, program_id: &Pubkey) -> (r: Option<(Pubkey, u8)>)
    ensures
        address_bytes(r) == program_address(seed@, program_id@),
{
    let program = solana_program::pubkey::Pubkey::new_from_array(program_id.0);
    match solana_program::pubkey::Pubkey::try_find_program_address(&[&seed.0], &program) {
        Some((address, bump_seed)) => Some((Pubkey(address.to_bytes()), bump_seed)),
        None => None,
    }
}

} // verus!
