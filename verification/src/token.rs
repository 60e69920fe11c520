//! Introspection of token-ledger accounts: the fields the handler reads from
//! a packed token account and a packed mint, obtained through the
//! token-ledger crate's own decoders.

use vstd::prelude::*;

use vstd::bytes::spec_u64_from_le_bytes;

use solana_program::program_pack::Pack;

use crate::error::ProcessError;
use crate::utils::Address;

verus! {

/// What the handler reads from a packed token-ledger account.
#[derive(Clone, Copy, Debug)]
pub struct SplTokenAccountInfo {
    /// The mint the account holds tokens of.
    pub mint: Address,
    /// The account's owner.
    pub owner: Address,
    /// The token balance.
    pub amount: u64,
}

/// What the handler reads from a packed mint.
#[derive(Clone, Copy, Debug)]
pub struct SplMintInfo {
    /// Total supply of tokens.
    pub supply: u64,
    /// Number of base-10 digits to the right of the decimal place.
    pub decimals: u8,
}

/// A packed optional-key tag: four bytes, `[0,0,0,0]` for absent and
/// `[1,0,0,0]` for present; anything else does not decode.
pub open spec fn spec_coption_tag_ok(t: Seq<u8>) -> bool {
    &&& t.len() == 4
    &&& (t[0] == 0 || t[0] == 1)
    &&& t[1] == 0
    &&& t[2] == 0
    &&& t[3] == 0
}

/// The 165-byte token-account layout decodes: its three optional-key tags
/// are well-formed and its state byte is a known state.
pub open spec fn spec_token_account_fields_ok(d: Seq<u8>) -> bool {
    &&& spec_coption_tag_ok(d.subrange(72, 76))  // delegate
    &&& d[108] <= 2  // state
    &&& spec_coption_tag_ok(d.subrange(109, 113))  // is_native
    &&& spec_coption_tag_ok(d.subrange(129, 133))  // close_authority
}

/// A token-account buffer is accepted when it has exactly the packed size,
/// decodes, and its state byte marks it initialized or frozen.
pub open spec fn spec_token_account_accepted(d: Seq<u8>) -> bool {
    &&& d.len() == 165
    &&& spec_token_account_fields_ok(d)
    &&& 1 <= d[108] <= 2
}

/// Which failure a rejected token-account buffer is reported with.
pub open spec fn spec_token_account_error(d: Seq<u8>) -> ProcessError {
    if d.len() == 165 && spec_token_account_fields_ok(d) && d[108] == 0 {
        ProcessError::UninitializedAccount
    } else {
        ProcessError::InvalidAccountData
    }
}

/// Decodes a packed token-ledger account and hands back the fields the
/// handler reads: mint, owner and balance.
///
/// Relies on spl_token_2022's `Account::unpack`: it accepts exactly a
/// 165-byte buffer whose optional-key tags decode and whose state byte marks
/// it initialized (offsets 0 mint, 32 owner, 64 amount, 72 delegate tag,
/// 108 state, 109 is-native tag, 129 close-authority tag), reporting an
/// undecodable buffer as invalid account data and a cleared state byte as an
/// uninitialized account.
#[verifier::external_body]
pub fn unpack_spl_token_account(data: &[u8]) -> (r: Result<SplTokenAccountInfo, ProcessError>)
    ensures
        r is Ok <==> spec_token_account_accepted(data@),
        r matches Ok(t) ==> {
            &&& t.mint@ == data@.subrange(0, 32)
            &&& t.owner@ == data@.subrange(32, 64)
            &&& t.amount == spec_u64_from_le_bytes(data@.subrange(64, 72))
        },
        r matches Err(e) ==> e == spec_token_account_error(data@),
{
    match spl_token_2022::state::Account::unpack(data) {
        Ok(account) => Ok(
            SplTokenAccountInfo {
                mint: Address { bytes: account.mint.to_bytes() },
                owner: Address { bytes: account.owner.to_bytes() },
                amount: account.amount,
            },
        ),
        Err(solana_program::program_error::ProgramError::UninitializedAccount) => Err(
            ProcessError::UninitializedAccount,
        ),
        Err(_) => Err(ProcessError::InvalidAccountData),
    }
}

/// The 82-byte mint layout decodes: its two optional-key tags are
/// well-formed and its initialized byte is 0 or 1.
pub open spec fn spec_mint_fields_ok(d: Seq<u8>) -> bool {
    &&& spec_coption_tag_ok(d.subrange(0, 4))  // mint_authority
    &&& d[45] <= 1  // is_initialized
    &&& spec_coption_tag_ok(d.subrange(46, 50))  // freeze_authority
}

/// A mint buffer is accepted when it has exactly the packed size, decodes,
/// and its initialized byte is set.
pub open spec fn spec_mint_accepted(d: Seq<u8>) -> bool {
    &&& d.len() == 82
    &&& spec_mint_fields_ok(d)
    &&& d[45] == 1
}

/// Which failure a rejected mint buffer is reported with.
pub open spec fn spec_mint_error(d: Seq<u8>) -> ProcessError {
    if d.len() == 82 && spec_mint_fields_ok(d) && d[45] == 0 {
        ProcessError::UninitializedAccount
    } else {
        ProcessError::InvalidAccountData
    }
}

/// Decodes a packed mint and hands back the fields the handler reads:
/// supply and decimals.
///
/// Relies on spl_token_2022's `Mint::unpack`: it accepts exactly an 82-byte
/// buffer whose optional-key tags decode and whose initialized byte is set
/// (offsets 0 authority tag, 36 supply, 44 decimals, 45 initialized, 46
/// freeze-authority tag), reporting an undecodable buffer as invalid account
/// data and a cleared initialized byte as an uninitialized account.
#[verifier::external_body]
pub fn unpack_spl_mint(data: &[u8]) -> (r: Result<SplMintInfo, ProcessError>)
    ensures
        r is Ok <==> spec_mint_accepted(data@),
        r matches Ok(m) ==> {
            &&& m.supply == spec_u64_from_le_bytes(data@.subrange(36, 44))
            &&& m.decimals == data@[44]
        },
        r matches Err(e) ==> e == spec_mint_error(data@),
{
    match spl_token_2022::state::Mint::unpack(data) {
        Ok(mint) => Ok(SplMintInfo { supply: mint.supply, decimals: mint.decimals }),
        Err(solana_program::program_error::ProgramError::UninitializedAccount) => Err(
            ProcessError::UninitializedAccount,
        ),
        Err(_) => Err(ProcessError::InvalidAccountData),
    }
}

} // verus!
