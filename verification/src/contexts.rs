//! The account lists each instruction declares, read into typed contexts.
//!
//! The handler never holds ledger accounts between calls: each transition
//! receives a snapshot of every account it declares — address, owner,
//! native balance, data and signer flag — and describes its effects as
//! returned values.

use vstd::prelude::*;

use vstd::slice::slice_index_get;

use crate::error::ProcessError;
use crate::utils::Address;

verus! {

/// A ledger account as the handler sees it for the duration of one call.
pub struct AccountSnapshot {
    /// The account's address.
    pub key: Address,
    /// The program that owns the account.
    pub owner: Address,
    /// The account's native balance.
    pub lamports: u64,
    /// The account's data.
    pub data: Vec<u8>,
    /// Whether the account signed the instruction.
    pub is_signer: bool,
}

/// The ordered account list of the initialize instruction.
pub struct IDOInitializeCtx<'a> {
    pub signer_info: &'a AccountSnapshot,
    pub signer_ata_info: &'a AccountSnapshot,
    pub treasury_info: &'a AccountSnapshot,
    pub config_info: &'a AccountSnapshot,
    pub mint_info: &'a AccountSnapshot,
    pub rent_info: &'a AccountSnapshot,
    pub token_program_info: &'a AccountSnapshot,
    pub system_program_info: &'a AccountSnapshot,
}

impl<'a> IDOInitializeCtx<'a> {
    /// Reads the instruction's eight accounts off the list, in declaration
    /// order.
    pub fn from_accounts(accounts: &'a [AccountSnapshot]) -> (r: Result<Self, ProcessError>)
        ensures
            accounts@.len() >= 8 ==> (r matches Ok(c) && {
                &&& *c.signer_info == accounts@[0]
                &&& *c.signer_ata_info == accounts@[1]
                &&& *c.treasury_info == accounts@[2]
                &&& *c.config_info == accounts@[3]
                &&& *c.mint_info == accounts@[4]
                &&& *c.rent_info == accounts@[5]
                &&& *c.token_program_info == accounts@[6]
                &&& *c.system_program_info == accounts@[7]
            }),
            accounts@.len() < 8 ==> (r matches Err(e) && e == ProcessError::NotEnoughAccountKeys),
    {
        if accounts.len() < 8 {
            return Err(ProcessError::NotEnoughAccountKeys);
        }
        Ok(
            Self {
                signer_info: slice_index_get(accounts, 0),
                signer_ata_info: slice_index_get(accounts, 1),
                treasury_info: slice_index_get(accounts, 2),
                config_info: slice_index_get(accounts, 3),
                mint_info: slice_index_get(accounts, 4),
                rent_info: slice_index_get(accounts, 5),
                token_program_info: slice_index_get(accounts, 6),
                system_program_info: slice_index_get(accounts, 7),
            },
        )
    }
}

/// The ordered account list of the buy instruction.
pub struct IDOBuyWithVestingCtx<'a> {
    pub signer_info: &'a AccountSnapshot,
    pub vesting_info: &'a AccountSnapshot,
    pub treasury_info: &'a AccountSnapshot,
    pub config_info: &'a AccountSnapshot,
    pub mint_info: &'a AccountSnapshot,
    pub system_program_info: &'a AccountSnapshot,
}

impl<'a> IDOBuyWithVestingCtx<'a> {
    /// Reads the instruction's six accounts off the list, in declaration
    /// order.
    pub fn from_accounts(accounts: &'a [AccountSnapshot]) -> (r: Result<Self, ProcessError>)
        ensures
            accounts@.len() >= 6 ==> (r matches Ok(c) && {
                &&& *c.signer_info == accounts@[0]
                &&& *c.vesting_info == accounts@[1]
                &&& *c.treasury_info == accounts@[2]
                &&& *c.config_info == accounts@[3]
                &&& *c.mint_info == accounts@[4]
                &&& *c.system_program_info == accounts@[5]
            }),
            accounts@.len() < 6 ==> (r matches Err(e) && e == ProcessError::NotEnoughAccountKeys),
    {
        if accounts.len() < 6 {
            return Err(ProcessError::NotEnoughAccountKeys);
        }
        Ok(
            Self {
                signer_info: slice_index_get(accounts, 0),
                vesting_info: slice_index_get(accounts, 1),
                treasury_info: slice_index_get(accounts, 2),
                config_info: slice_index_get(accounts, 3),
                mint_info: slice_index_get(accounts, 4),
                system_program_info: slice_index_get(accounts, 5),
            },
        )
    }
}

/// The ordered account list of the claim instruction.
pub struct IDOClaimCtx<'a> {
    pub signer_info: &'a AccountSnapshot,
    pub recipient_info: &'a AccountSnapshot,
    pub recipient_ata_info: &'a AccountSnapshot,
    pub vesting_info: &'a AccountSnapshot,
    pub treasury_info: &'a AccountSnapshot,
    pub config_info: &'a AccountSnapshot,
    pub mint_info: &'a AccountSnapshot,
    pub associated_token_program_info: &'a AccountSnapshot,
    pub token_program_info: &'a AccountSnapshot,
    pub system_program_info: &'a AccountSnapshot,
}

impl<'a> IDOClaimCtx<'a> {
    /// Reads the instruction's ten accounts off the list, in declaration
    /// order.
    pub fn from_accounts(accounts: &'a [AccountSnapshot]) -> (r: Result<Self, ProcessError>)
        ensures
            accounts@.len() >= 10 ==> (r matches Ok(c) && {
                &&& *c.signer_info == accounts@[0]
                &&& *c.recipient_info == accounts@[1]
                &&& *c.recipient_ata_info == accounts@[2]
                &&& *c.vesting_info == accounts@[3]
                &&& *c.treasury_info == accounts@[4]
                &&& *c.config_info == accounts@[5]
                &&& *c.mint_info == accounts@[6]
                &&& *c.associated_token_program_info == accounts@[7]
                &&& *c.token_program_info == accounts@[8]
                &&& *c.system_program_info == accounts@[9]
            }),
            accounts@.len() < 10 ==> (r matches Err(e) && e == ProcessError::NotEnoughAccountKeys),
    {
        if accounts.len() < 10 {
            return Err(ProcessError::NotEnoughAccountKeys);
        }
        Ok(
            Self {
                signer_info: slice_index_get(accounts, 0),
                recipient_info: slice_index_get(accounts, 1),
                recipient_ata_info: slice_index_get(accounts, 2),
                vesting_info: slice_index_get(accounts, 3),
                treasury_info: slice_index_get(accounts, 4),
                config_info: slice_index_get(accounts, 5),
                mint_info: slice_index_get(accounts, 6),
                associated_token_program_info: slice_index_get(accounts, 7),
                token_program_info: slice_index_get(accounts, 8),
                system_program_info: slice_index_get(accounts, 9),
            },
        )
    }
}

} // verus!
