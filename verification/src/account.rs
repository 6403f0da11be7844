//! States as the operations receive them: each with the address it is stored at.

use crate::pubkey::Pubkey;
use crate::state::reserve::Reserve;
use vstd::prelude::*;

verus! {

/// A state together with the address it is stored at.
#[derive(Clone, Copy, Debug, Default, PartialEq)]
pub struct Account<T> {
    /// Address of the account.
    pub key: Pubkey,
    /// State held in the account.
    pub data: T,
}

/// What an operation is called with besides its own arguments.
#[derive(Clone, Debug, PartialEq)]
pub struct Context<T> {
    /// Address of the program that runs the operation.
    pub program_id: Pubkey,
    /// The accounts the operation names.
    pub accounts: T,
    /// Reserves handed in after the named accounts, in the order the operation asks for.
    pub remaining_accounts: Vec<Account<Reserve>>,
}

} // verus!
