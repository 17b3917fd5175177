//! The accounts that an instruction is handed.

use crate::error::ProgramError;
use crate::pubkey::Pubkey;
use vstd::prelude::*;

verus! {

/// An account as an instruction sees it: its address, whether its owner
/// signed the transaction, whether the instruction may write to it, and the
/// bytes it holds. An account that does not exist yet holds no bytes.
#[derive(Clone, Debug, PartialEq, Eq)]
pub struct AccountInfo {
    pub key: Pubkey,
    pub is_signer: bool,
    pub is_writable: bool,
    pub data: Vec<u8>,
}

impl AccountInfo {
    /// The number of bytes that the account holds.
    pub fn data_len(&self) -> (r: usize)
        ensures
            r == self.data@.len(),
    {
        self.data.len()
    }
}

/// The account at `position`, which then moves on by one. Fails with
/// `NotEnoughAccountKeys`, and leaves `position`, where no account is left.
pub fn next_account_info<'a>(accounts: &'a [AccountInfo], position: &mut usize) -> (r: Result<
    &'a AccountInfo,
    ProgramError,
>)
    ensures
        *old(position) < accounts@.len() ==> (r matches Ok(account) && *account
            == accounts@[*old(position) as int]),
        *old(position) < accounts@.len() ==> *final(position) == *old(position) + 1,
        *old(position) >= accounts@.len() ==> r matches Err(ProgramError::NotEnoughAccountKeys),
        *old(position) >= accounts@.len() ==> *final(position) == *old(position),
{
    if *position < accounts.len() {
        let account = &accounts[*position];
        *position = *position + 1;
        Ok(account)
    } else {
        Err(ProgramError::NotEnoughAccountKeys)
    }
}

} // verus!
