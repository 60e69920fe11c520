//! Fixed-layout account records persisted by the handler: the pool-wide
//! `IDOConfigAccount` and the per-buyer `IDOVestingAccount`.

use vstd::prelude::*;

use vstd::bytes::spec_u32_from_le_bytes;
use vstd::bytes::spec_u32_to_le_bytes;
use vstd::bytes::spec_u64_from_le_bytes;
use vstd::bytes::spec_u64_to_le_bytes;
use vstd::bytes::u32_to_le_bytes;
use vstd::bytes::u64_to_le_bytes;
use vstd::slice::slice_index_get;

use crate::error::ProcessError;
use crate::utils::Reader;
use crate::utils::ReadBytes;
use crate::utils::spec_i64_from_le_bytes;
use crate::utils::spec_i64_to_le_bytes;
use crate::utils::i64_to_le_bytes;
use crate::utils::spec_strategy_from_le_bytes;
use crate::utils::spec_strategy_to_le_bytes;
use crate::utils::strategy_to_le_bytes;
use crate::vesting::LinearVestingStrategy;

verus! {

/// Packed size of the Config record.
pub const IDO_CONFIG_ACCOUNT_LEN: usize = 31;

/// Packed size of the Vesting record.
pub const IDO_VESTING_ACCOUNT_LEN: usize = 34;

/// Pool-wide configuration, written once at initialization.
#[derive(Clone, Copy, Debug, PartialEq, Eq, Structural)]
pub struct IDOConfigAccount {
    pub vesting_strategy: LinearVestingStrategy,
    /// Native-balance units owed per one token unit.
    pub lamports_per_token: u32,
    /// Nonce of the config address derivation.
    pub bump: u8,
    /// Number of whole unlock periods the schedule spans (at most
    /// `MAX_UNLOCKS`).
    pub unlocks: u8,
    pub is_initialized: bool,
}

/// Per-buyer accounting of purchased, claimed and per-period releasable
/// amounts.
#[derive(Clone, Copy, Debug, PartialEq, Eq, Structural)]
pub struct IDOVestingAccount {
    /// Time of the last claim; 0 means the buyer has never claimed.
    pub last_claim_ts: i64,
    pub claimed_amount: u64,
    pub bought_amount: u64,
    /// Amount released per elapsed unlock period; re-derived from the total
    /// `bought_amount` on every purchase.
    pub amount_per_unlock: u64,
    /// Nonce of the vesting address derivation.
    pub bump: u8,
    pub is_initialized: bool,
}

/// The record's accounting invariant: what was claimed never exceeds what was
/// bought.
pub open spec fn vesting_account_wf(va: IDOVestingAccount) -> bool {
    va.claimed_amount <= va.bought_amount
}

impl Default for IDOVestingAccount {
    /// The all-zero, uninitialized record.
    fn default() -> (r: Self)
        ensures
            r == (IDOVestingAccount {
                last_claim_ts: 0,
                claimed_amount: 0,
                bought_amount: 0,
                amount_per_unlock: 0,
                bump: 0,
                is_initialized: false,
            }),
    {
        IDOVestingAccount {
            last_claim_ts: 0,
            claimed_amount: 0,
            bought_amount: 0,
            amount_per_unlock: 0,
            bump: 0,
            is_initialized: false,
        }
    }
}

impl IDOVestingAccount {
    /// A fresh record for a first purchase: nothing claimed yet, initialized.
    pub fn new(bought_amount: u64, amount_per_unlock: u64, bump: u8) -> (r: Self)
        ensures
            r == (IDOVestingAccount {
                last_claim_ts: 0,
                claimed_amount: 0,
                bought_amount,
                amount_per_unlock,
                bump,
                is_initialized: true,
            }),
    {
        Self {
            last_claim_ts: 0,
            claimed_amount: 0,
            bought_amount,
            amount_per_unlock,
            bump,
            is_initialized: true,
        }
    }

    pub fn is_initialized(&self) -> (r: bool)
        ensures
            r == self.is_initialized,
    {
        self.is_initialized
    }
}

impl IDOConfigAccount {
    pub fn is_initialized(&self) -> (r: bool)
        ensures
            r == self.is_initialized,
    {
        self.is_initialized
    }
}

/// Writes `src` over the first bytes of `dst`, leaving `dst`'s length and
/// the bytes beyond `src` untouched.
fn overwrite_prefix(dst: &mut Vec<u8>, src: &Vec<u8>)
    requires
        src@.len() <= old(dst)@.len(),
    ensures
        final(dst)@.len() == old(dst)@.len(),
        final(dst)@.subrange(0, src@.len() as int) == src@,
        final(dst)@.subrange(src@.len() as int, final(dst)@.len() as int) == old(
            dst,
        )@.subrange(src@.len() as int, old(dst)@.len() as int),
{
    let mut i: usize = 0;
    while i < src.len()
        invariant
            src@.len() <= old(dst)@.len(),
            0 <= i <= src@.len(),
            dst@.len() == old(dst)@.len(),
            forall|j: int| 0 <= j < i ==> dst@[j] == src@[j],
            forall|j: int| i <= j < dst@.len() ==> dst@[j] == old(dst)@[j],
        decreases src@.len() - i,
    {
        let b: u8 = *vstd::slice::slice_index_get(src.as_slice(), i);
        dst.set(i, b);
        i += 1;
    }
    proof {
        assert(final(dst)@.subrange(0, src@.len() as int) =~= src@);
        assert(final(dst)@.subrange(src@.len() as int, final(dst)@.len() as int) =~= old(
            dst,
        )@.subrange(src@.len() as int, old(dst)@.len() as int));
    }
}

/// The 31-byte layout of the Config record: 24-byte strategy, little-endian
/// `u32` price, bump, unlock count, initialized flag.
pub open spec fn spec_pack_config(c: IDOConfigAccount) -> Seq<u8> {
    spec_strategy_to_le_bytes(c.vesting_strategy) + spec_u32_to_le_bytes(c.lamports_per_token)
        + seq![c.bump, c.unlocks, if c.is_initialized { 1u8 } else { 0u8 }]
}

/// The fields read back from a packed Config record (the first 31 bytes of
/// `s`).
pub open spec fn spec_config_fields(s: Seq<u8>) -> IDOConfigAccount {
    IDOConfigAccount {
        vesting_strategy: spec_strategy_from_le_bytes(s.subrange(0, 24)),
        lamports_per_token: spec_u32_from_le_bytes(s.subrange(24, 28)),
        bump: s[28],
        unlocks: s[29],
        is_initialized: s[30] != 0,
    }
}

/// What unpacking a Config account's data yields: the record if the buffer
/// has exactly the packed size and the initialized flag is set, and the
/// matching failure otherwise.
pub open spec fn spec_unpack_config(s: Seq<u8>) -> Result<IDOConfigAccount, ProcessError> {
    if s.len() != IDO_CONFIG_ACCOUNT_LEN {
        Err(ProcessError::InvalidAccountData)
    } else if !spec_config_fields(s).is_initialized {
        Err(ProcessError::UninitializedAccount)
    } else {
        Ok(spec_config_fields(s))
    }
}

impl IDOConfigAccount {
    /// Encodes the record into its fixed 31-byte layout.
    pub fn pack(&self) -> (r: Vec<u8>)
        ensures
            r@ == spec_pack_config(*self),
            r@.len() == IDO_CONFIG_ACCOUNT_LEN,
    {
        let mut r: Vec<u8> = strategy_to_le_bytes(&self.vesting_strategy);
        let mut price_bytes: Vec<u8> = u32_to_le_bytes(self.lamports_per_token);
        r.append(&mut price_bytes);
        r.push(self.bump);
        r.push(self.unlocks);
        r.push(if self.is_initialized { 1 } else { 0 });
        proof {
            vstd::bytes::lemma_auto_spec_u32_to_from_le_bytes();
            crate::utils::lemma_strategy_le_bytes_roundtrip(self.vesting_strategy);
            assert(r@ =~= spec_pack_config(*self));
        }
        r
    }

    /// Writes the record's fixed 31-byte layout over the first bytes of
    /// `dst`, leaving the buffer's length and any bytes beyond the record
    /// untouched.
    pub fn pack_into_slice(&self, dst: &mut Vec<u8>)
        requires
            old(dst)@.len() >= IDO_CONFIG_ACCOUNT_LEN,
        ensures
            final(dst)@.len() == old(dst)@.len(),
            final(dst)@.subrange(0, IDO_CONFIG_ACCOUNT_LEN as int) == spec_pack_config(*self),
            final(dst)@.subrange(IDO_CONFIG_ACCOUNT_LEN as int, final(dst)@.len() as int) == old(
                dst,
            )@.subrange(IDO_CONFIG_ACCOUNT_LEN as int, old(dst)@.len() as int),
    {
        let bytes: Vec<u8> = self.pack();
        overwrite_prefix(dst, &bytes);
    }

    /// Reads the record's fields from the first 31 bytes of `src`, failing
    /// with a decoding error on a shorter buffer.
    pub fn unpack_from_slice(src: &[u8]) -> (r: Result<Self, ProcessError>)
        ensures
            src@.len() >= IDO_CONFIG_ACCOUNT_LEN ==> r == Ok::<IDOConfigAccount, ProcessError>(
                spec_config_fields(src@),
            ),
            src@.len() < IDO_CONFIG_ACCOUNT_LEN ==> r == Err::<IDOConfigAccount, ProcessError>(
                ProcessError::InvalidInstructionData,
            ),
    {
        if src.len() < 31 {
            return Err(ProcessError::InvalidInstructionData);
        }
        let reader = Reader::new(src);
        let vesting_strategy: LinearVestingStrategy = match reader.read_linear_vesting_strategy(
            0,
        ) {
            Ok(v) => v,
            Err(e) => return Err(e),
        };
        let lamports_per_token: u32 = match reader.read_u32(24) {
            Ok(v) => v,
            Err(e) => return Err(e),
        };
        let r = Self {
            vesting_strategy,
            lamports_per_token,
            bump: *slice_index_get(src, 28),
            unlocks: *slice_index_get(src, 29),
            is_initialized: *slice_index_get(src, 30) != 0,
        };
        proof {
            assert(src@.subrange(0, 24) =~= src@.subrange(0, 24));
        }
        Ok(r)
    }

    /// Unpacks an initialized Config record from a buffer of exactly the
    /// packed size.
    pub fn unpack(src: &[u8]) -> (r: Result<Self, ProcessError>)
        ensures
            r == spec_unpack_config(src@),
    {
        if src.len() != IDO_CONFIG_ACCOUNT_LEN {
            return Err(ProcessError::InvalidAccountData);
        }
        let value = match Self::unpack_from_slice(src) {
            Ok(v) => v,
            Err(e) => return Err(e),
        };
        if value.is_initialized() {
            Ok(value)
        } else {
            Err(ProcessError::UninitializedAccount)
        }
    }
}

/// Unpacking a packed Config record gives the record back when its
/// initialized flag is set, and the uninitialized failure when it is not.
pub proof fn lemma_config_roundtrip(c: IDOConfigAccount)
    ensures
        spec_pack_config(c).len() == IDO_CONFIG_ACCOUNT_LEN,
        c.is_initialized ==> spec_unpack_config(spec_pack_config(c)) == Ok::<
            IDOConfigAccount,
            ProcessError,
        >(c),
        !c.is_initialized ==> spec_unpack_config(spec_pack_config(c)) == Err::<
            IDOConfigAccount,
            ProcessError,
        >(ProcessError::UninitializedAccount),
{
    vstd::bytes::lemma_auto_spec_u32_to_from_le_bytes();
    crate::utils::lemma_strategy_le_bytes_roundtrip(c.vesting_strategy);
    let s = spec_pack_config(c);
    assert(s.subrange(0, 24) =~= spec_strategy_to_le_bytes(c.vesting_strategy));
    assert(s.subrange(24, 28) =~= spec_u32_to_le_bytes(c.lamports_per_token));
    assert(spec_config_fields(s) == c);
}

/// The 34-byte layout of the Vesting record: little-endian `i64` last-claim
/// time, three little-endian `u64` amounts, bump, initialized flag.
pub open spec fn spec_pack_vesting(v: IDOVestingAccount) -> Seq<u8> {
    spec_i64_to_le_bytes(v.last_claim_ts) + spec_u64_to_le_bytes(v.claimed_amount)
        + spec_u64_to_le_bytes(v.bought_amount) + spec_u64_to_le_bytes(v.amount_per_unlock)
        + seq![v.bump, if v.is_initialized { 1u8 } else { 0u8 }]
}

/// The fields read back from a packed Vesting record (the first 34 bytes of
/// `s`).
pub open spec fn spec_vesting_fields(s: Seq<u8>) -> IDOVestingAccount {
    IDOVestingAccount {
        last_claim_ts: spec_i64_from_le_bytes(s.subrange(0, 8)),
        claimed_amount: spec_u64_from_le_bytes(s.subrange(8, 16)),
        bought_amount: spec_u64_from_le_bytes(s.subrange(16, 24)),
        amount_per_unlock: spec_u64_from_le_bytes(s.subrange(24, 32)),
        bump: s[32],
        is_initialized: s[33] != 0,
    }
}

/// What unpacking a Vesting account's data yields: the record if the buffer
/// has exactly the packed size and the initialized flag is set, and the
/// matching failure otherwise.
pub open spec fn spec_unpack_vesting(s: Seq<u8>) -> Result<IDOVestingAccount, ProcessError> {
    if s.len() != IDO_VESTING_ACCOUNT_LEN {
        Err(ProcessError::InvalidAccountData)
    } else if !spec_vesting_fields(s).is_initialized {
        Err(ProcessError::UninitializedAccount)
    } else {
        Ok(spec_vesting_fields(s))
    }
}

impl IDOVestingAccount {
    /// Encodes the record into its fixed 34-byte layout.
    pub fn pack(&self) -> (r: Vec<u8>)
        ensures
            r@ == spec_pack_vesting(*self),
            r@.len() == IDO_VESTING_ACCOUNT_LEN,
    {
        let mut r: Vec<u8> = i64_to_le_bytes(self.last_claim_ts);
        let mut claimed_bytes: Vec<u8> = u64_to_le_bytes(self.claimed_amount);
        let mut bought_bytes: Vec<u8> = u64_to_le_bytes(self.bought_amount);
        let mut per_unlock_bytes: Vec<u8> = u64_to_le_bytes(self.amount_per_unlock);
        r.append(&mut claimed_bytes);
        r.append(&mut bought_bytes);
        r.append(&mut per_unlock_bytes);
        r.push(self.bump);
        r.push(if self.is_initialized { 1 } else { 0 });
        proof {
            vstd::bytes::lemma_auto_spec_u64_to_from_le_bytes();
            crate::utils::lemma_i64_le_bytes_roundtrip(self.last_claim_ts);
            assert(r@ =~= spec_pack_vesting(*self));
        }
        r
    }

    /// Writes the record's fixed 34-byte layout over the first bytes of
    /// `dst`, leaving the buffer's length and any bytes beyond the record
    /// untouched.
    pub fn pack_into_slice(&self, dst: &mut Vec<u8>)
        requires
            old(dst)@.len() >= IDO_VESTING_ACCOUNT_LEN,
        ensures
            final(dst)@.len() == old(dst)@.len(),
            final(dst)@.subrange(0, IDO_VESTING_ACCOUNT_LEN as int) == spec_pack_vesting(*self),
            final(dst)@.subrange(IDO_VESTING_ACCOUNT_LEN as int, final(dst)@.len() as int) == old(
                dst,
            )@.subrange(IDO_VESTING_ACCOUNT_LEN as int, old(dst)@.len() as int),
    {
        let bytes: Vec<u8> = self.pack();
        overwrite_prefix(dst, &bytes);
    }

    /// Reads the record's fields from the first 34 bytes of `src`, failing
    /// with a decoding error on a shorter buffer.
    pub fn unpack_from_slice(src: &[u8]) -> (r: Result<Self, ProcessError>)
        ensures
            src@.len() >= IDO_VESTING_ACCOUNT_LEN ==> r == Ok::<IDOVestingAccount, ProcessError>(
                spec_vesting_fields(src@),
            ),
            src@.len() < IDO_VESTING_ACCOUNT_LEN ==> r == Err::<IDOVestingAccount, ProcessError>(
                ProcessError::InvalidInstructionData,
            ),
    {
        if src.len() < 34 {
            return Err(ProcessError::InvalidInstructionData);
        }
        let reader = Reader::new(src);
        let last_claim_ts: i64 = match reader.read_i64(0) {
            Ok(v) => v,
            Err(e) => return Err(e),
        };
        let claimed_amount: u64 = match reader.read_u64(8) {
            Ok(v) => v,
            Err(e) => return Err(e),
        };
        let bought_amount: u64 = match reader.read_u64(16) {
            Ok(v) => v,
            Err(e) => return Err(e),
        };
        let amount_per_unlock: u64 = match reader.read_u64(24) {
            Ok(v) => v,
            Err(e) => return Err(e),
        };
        Ok(
            Self {
                last_claim_ts,
                claimed_amount,
                bought_amount,
                amount_per_unlock,
                bump: *slice_index_get(src, 32),
                is_initialized: *slice_index_get(src, 33) != 0,
            },
        )
    }

    /// Unpacks an initialized Vesting record from a buffer of exactly the
    /// packed size.
    pub fn unpack(src: &[u8]) -> (r: Result<Self, ProcessError>)
        ensures
            r == spec_unpack_vesting(src@),
    {
        if src.len() != IDO_VESTING_ACCOUNT_LEN {
            return Err(ProcessError::InvalidAccountData);
        }
        let value = match Self::unpack_from_slice(src) {
            Ok(v) => v,
            Err(e) => return Err(e),
        };
        if value.is_initialized() {
            Ok(value)
        } else {
            Err(ProcessError::UninitializedAccount)
        }
    }
}

/// Unpacking a packed Vesting record gives the record back when its
/// initialized flag is set, and the uninitialized failure when it is not.
pub proof fn lemma_vesting_roundtrip(v: IDOVestingAccount)
    ensures
        spec_pack_vesting(v).len() == IDO_VESTING_ACCOUNT_LEN,
        v.is_initialized ==> spec_unpack_vesting(spec_pack_vesting(v)) == Ok::<
            IDOVestingAccount,
            ProcessError,
        >(v),
        !v.is_initialized ==> spec_unpack_vesting(spec_pack_vesting(v)) == Err::<
            IDOVestingAccount,
            ProcessError,
        >(ProcessError::UninitializedAccount),
{
    vstd::bytes::lemma_auto_spec_u64_to_from_le_bytes();
    crate::utils::lemma_i64_le_bytes_roundtrip(v.last_claim_ts);
    let s = spec_pack_vesting(v);
    assert(s.subrange(0, 8) =~= spec_i64_to_le_bytes(v.last_claim_ts));
    assert(s.subrange(8, 16) =~= spec_u64_to_le_bytes(v.claimed_amount));
    assert(s.subrange(16, 24) =~= spec_u64_to_le_bytes(v.bought_amount));
    assert(s.subrange(24, 32) =~= spec_u64_to_le_bytes(v.amount_per_unlock));
    assert(spec_vesting_fields(s) == v);
}

} // verus!
