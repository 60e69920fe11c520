//! The instruction processor: the state machine at the heart of the
//! handler.  Each transition authenticates every caller-supplied address by
//! re-deriving it, decodes the persisted records, performs the sale
//! arithmetic, and describes the ledger effects — accounts to create, data
//! to write, value to move — as a returned value for the runtime to carry
//! out.  A failed transition returns its failure code and asks for no
//! effect at all.

use vstd::prelude::*;

use crate::constants::ido_config_account_seed;
use crate::constants::ido_treasury_account_seed;
use crate::constants::ido_vesting_account_seed;
use crate::constants::spec_config_seed;
use crate::constants::spec_treasury_seed;
use crate::constants::spec_vesting_seed;
use crate::contexts::AccountSnapshot;
use crate::contexts::IDOBuyWithVestingCtx;
use crate::contexts::IDOClaimCtx;
use crate::contexts::IDOInitializeCtx;
use crate::error::IDOProgramError;
use crate::error::ProcessError;
use crate::instruction::IDOInstruction;
use crate::instruction::spec_unpack_instruction;
use crate::state::IDOConfigAccount;
use crate::state::IDOVestingAccount;
use crate::state::spec_pack_config;
use crate::state::spec_pack_vesting;
use crate::state::spec_unpack_config;
use crate::state::spec_unpack_vesting;
use crate::token::spec_mint_accepted;
use crate::token::spec_mint_error;
use crate::token::spec_token_account_accepted;
use crate::token::spec_token_account_error;
use crate::token::unpack_spl_mint;
use crate::token::unpack_spl_token_account;
use crate::utils::Address;
use crate::utils::derive_program_pda;
use crate::utils::pda_lookup;
use crate::vesting::LinearVestingStrategy;
use crate::vesting::allow_claim_checked;
use crate::vesting::spec_checked_claim_error;
use crate::vesting::spec_claim_amount;
use crate::vesting::spec_claim_updated;
use crate::vesting::spec_resolve_cliff;
use crate::vesting::spec_unlocks_count;
use crate::vesting::spec_validity_error;
use crate::vesting::strategy_valid_at;

verus! {

/// The ledger effects of a successful pool initialization: create the
/// treasury and config accounts at their derived addresses, initialize the
/// treasury as a self-owned token account, write the packed config, and move
/// the seller's supply into the treasury.
#[derive(Debug)]
pub struct InitializeEffects {
    /// Nonce of the treasury derivation, for the creation signed on its
    /// behalf.
    pub treasury_bump: u8,
    /// Nonce of the config derivation, for the creation signed on its
    /// behalf.
    pub config_bump: u8,
    /// The packed Config record to write into the config account.
    pub config_data: Vec<u8>,
    /// Decimals of the pool's mint, for the checked token transfer.
    pub mint_decimals: u8,
    /// How many tokens to move from the seller's token account into the
    /// treasury.
    pub token_transfer_amount: u64,
}

/// The ledger effects of a successful purchase: create the buyer's vesting
/// account if it does not exist yet, write the packed record, and move the
/// purchase price into the treasury.
#[derive(Debug)]
pub struct BuyEffects {
    /// Nonce of the vesting derivation, for the creation signed on its
    /// behalf.
    pub vesting_bump: u8,
    /// Whether the vesting account must be created first.
    pub create_vesting_account: bool,
    /// The packed Vesting record to write into the vesting account.
    pub vesting_data: Vec<u8>,
    /// How much native balance to move from the buyer into the treasury.
    pub lamports_transfer_amount: u64,
}

/// The ledger effects of a successful claim: write the advanced vesting
/// record, create the recipient's token account if it does not exist yet,
/// and move the released portion out of the treasury, signed with the
/// treasury's own nonce.
#[derive(Debug)]
pub struct ClaimEffects {
    /// Nonce of the treasury derivation, for the transfer it signs for
    /// itself.
    pub treasury_bump: u8,
    /// Whether the recipient's token account must be created first.
    pub create_recipient_ata: bool,
    /// How many tokens to move from the treasury to the recipient.
    pub transfer_amount: u64,
    /// Decimals of the pool's mint, for the checked token transfer.
    pub mint_decimals: u8,
    /// The packed Vesting record to write back into the vesting account.
    pub vesting_data: Vec<u8>,
}

/// The effects of whichever transition an instruction selected.
#[derive(Debug)]
pub enum ProcessEffects {
    Initialize(InitializeEffects),
    Buy(BuyEffects),
    Claim(ClaimEffects),
}

/// The seed list of the treasury derivation: the treasury tag and the mint.
pub open spec fn spec_treasury_seeds(mint: Seq<u8>) -> Seq<Seq<u8>> {
    seq![spec_treasury_seed(), mint]
}

/// The seed list of the config derivation: the config tag and the treasury.
pub open spec fn spec_config_seeds(treasury: Seq<u8>) -> Seq<Seq<u8>> {
    seq![spec_config_seed(), treasury]
}

/// The seed list of the vesting derivation: the vesting tag, the buyer and
/// the mint.
pub open spec fn spec_vesting_seeds(buyer: Seq<u8>, mint: Seq<u8>) -> Seq<Seq<u8>> {
    seq![spec_vesting_seed(), buyer, mint]
}

/// Builds the treasury derivation's seed list.
pub fn treasury_seeds(mint: &Address) -> (r: Vec<Vec<u8>>)
    ensures
        r.deep_view() == spec_treasury_seeds(mint@),
{
    let mut r: Vec<Vec<u8>> = Vec::new();
    r.push(ido_treasury_account_seed());
    r.push(mint.to_seed());
    proof {
        assert(r.deep_view() =~~= spec_treasury_seeds(mint@));
    }
    r
}

/// Builds the config derivation's seed list.
pub fn config_seeds(treasury: &Address) -> (r: Vec<Vec<u8>>)
    ensures
        r.deep_view() == spec_config_seeds(treasury@),
{
    let mut r: Vec<Vec<u8>> = Vec::new();
    r.push(ido_config_account_seed());
    r.push(treasury.to_seed());
    proof {
        assert(r.deep_view() =~~= spec_config_seeds(treasury@));
    }
    r
}

/// Builds the vesting derivation's seed list.
pub fn vesting_seeds(buyer: &Address, mint: &Address) -> (r: Vec<Vec<u8>>)
    ensures
        r.deep_view() == spec_vesting_seeds(buyer@, mint@),
{
    let mut r: Vec<Vec<u8>> = Vec::new();
    r.push(ido_vesting_account_seed());
    r.push(buyer.to_seed());
    r.push(mint.to_seed());
    proof {
        assert(r.deep_view() =~~= spec_vesting_seeds(buyer@, mint@));
    }
    r
}

/// Full description of one initialize attempt, in the order the checks are
/// made: schedule validity (after resolving a zero cliff), the account
/// list's length, the treasury and config derivations against the supplied
/// addresses, the mint's decoding — and, when everything holds, exactly the
/// effects that set the pool up.
pub open spec fn initialize_post(
    program_id: Seq<u8>,
    now_ts: i64,
    accounts: Seq<AccountSnapshot>,
    amount: u64,
    lamports_per_token: u32,
    vesting_strategy: LinearVestingStrategy,
    r: Result<InitializeEffects, ProcessError>,
) -> bool {
    let resolved = spec_resolve_cliff(vesting_strategy, now_ts);
    if !strategy_valid_at(resolved, now_ts as int) {
        r == Err::<InitializeEffects, ProcessError>(
            ProcessError::Custom(spec_validity_error(resolved, now_ts as int)),
        )
    } else if accounts.len() < 8 {
        r == Err::<InitializeEffects, ProcessError>(ProcessError::NotEnoughAccountKeys)
    } else {
        let treasury = accounts[2];
        let config = accounts[3];
        let mint = accounts[4];
        match pda_lookup(spec_treasury_seeds(mint.key@), program_id) {
            None => r == Err::<InitializeEffects, ProcessError>(
                ProcessError::InvalidInstructionData,
            ),
            Some(tp) => if tp.0 != treasury.key@ {
                r == Err::<InitializeEffects, ProcessError>(ProcessError::InvalidInstructionData)
            } else {
                match pda_lookup(spec_config_seeds(treasury.key@), program_id) {
                    None => r == Err::<InitializeEffects, ProcessError>(
                        ProcessError::InvalidInstructionData,
                    ),
                    Some(cp) => if cp.0 != config.key@ {
                        r == Err::<InitializeEffects, ProcessError>(
                            ProcessError::InvalidInstructionData,
                        )
                    } else if !spec_mint_accepted(mint.data@) {
                        r == Err::<InitializeEffects, ProcessError>(spec_mint_error(mint.data@))
                    } else {
                        r matches Ok(e) && {
                            &&& e.treasury_bump == tp.1
                            &&& e.config_bump == cp.1
                            &&& e.mint_decimals == mint.data@[44]
                            &&& e.token_transfer_amount == amount
                            &&& e.config_data@ == spec_pack_config(
                                IDOConfigAccount {
                                    vesting_strategy: resolved,
                                    lamports_per_token,
                                    bump: cp.1,
                                    unlocks: spec_unlocks_count(resolved) as u8,
                                    is_initialized: true,
                                },
                            )
                        }
                    },
                }
            },
        }
    }
}

/// The Vesting record a purchase leaves behind: a fresh position for a
/// first purchase, or the old one with the bought total increased and the
/// per-unlock portion re-averaged over the new total.
pub open spec fn spec_bought_record(
    existing: Result<IDOVestingAccount, ProcessError>,
    amount: u64,
    unlocks: u8,
    vesting_bump: u8,
) -> IDOVestingAccount {
    match existing {
        Ok(va) => IDOVestingAccount {
            bought_amount: (va.bought_amount + amount) as u64,
            amount_per_unlock: ((va.bought_amount + amount) / (unlocks as int)) as u64,
            ..va
        },
        Err(_) => IDOVestingAccount {
            last_claim_ts: 0,
            claimed_amount: 0,
            bought_amount: amount,
            amount_per_unlock: (amount as int / unlocks as int) as u64,
            bump: vesting_bump,
            is_initialized: true,
        },
    }
}

/// Full description of one purchase attempt, in the order the checks are
/// made: the account list's length, the vesting and config derivations, the
/// treasury's decoding and its mint and self-ownership, the config's
/// decoding, the price arithmetic, the record update, and the buyer's
/// spendable balance — and, when everything holds, exactly the effects that
/// record the purchase.  The balance must cover the price on top of the
/// persistence reserve and, for a first purchase, the funding of the new
/// vesting account, since both are paid before the transfer.
pub open spec fn buy_post(
    program_id: Seq<u8>,
    rent_min_balance: u64,
    vesting_rent_exempt: u64,
    accounts: Seq<AccountSnapshot>,
    amount: u64,
    r: Result<BuyEffects, ProcessError>,
) -> bool {
    if accounts.len() < 6 {
        r == Err::<BuyEffects, ProcessError>(ProcessError::NotEnoughAccountKeys)
    } else {
        let signer = accounts[0];
        let vesting = accounts[1];
        let treasury = accounts[2];
        let config = accounts[3];
        let mint = accounts[4];
        match pda_lookup(spec_vesting_seeds(signer.key@, mint.key@), program_id) {
            None => r == Err::<BuyEffects, ProcessError>(ProcessError::InvalidInstructionData),
            Some(vp) => match pda_lookup(spec_config_seeds(treasury.key@), program_id) {
                None => r == Err::<BuyEffects, ProcessError>(ProcessError::InvalidInstructionData),
                Some(cp) => if !spec_token_account_accepted(treasury.data@) {
                    r == Err::<BuyEffects, ProcessError>(spec_token_account_error(treasury.data@))
                } else if vp.0 != vesting.key@ || cp.0 != config.key@ || treasury.data@.subrange(
                    0,
                    32,
                ) != mint.key@ || treasury.data@.subrange(32, 64) != treasury.key@ {
                    r == Err::<BuyEffects, ProcessError>(ProcessError::InvalidInstructionData)
                } else {
                    match spec_unpack_config(config.data@) {
                        Err(e) => r == Err::<BuyEffects, ProcessError>(e),
                        Ok(cfg) => if amount * cfg.lamports_per_token > u64::MAX {
                            r == Err::<BuyEffects, ProcessError>(ProcessError::ArithmeticOverflow)
                        } else {
                            let required = (amount * cfg.lamports_per_token) as u64;
                            let existing = spec_unpack_vesting(vesting.data@);
                            if existing matches Ok(va) && va.bought_amount + amount > u64::MAX {
                                r == Err::<BuyEffects, ProcessError>(
                                    ProcessError::ArithmeticOverflow,
                                )
                            } else if cfg.unlocks == 0 {
                                r == Err::<BuyEffects, ProcessError>(
                                    ProcessError::Custom(IDOProgramError::UnlocksMustNotEqualZero),
                                )
                            } else if signer.lamports < (if existing is Err {
                                vesting_rent_exempt as int
                            } else {
                                0
                            }) + rent_min_balance + required {
                                r == Err::<BuyEffects, ProcessError>(
                                    ProcessError::InsufficientFunds,
                                )
                            } else {
                                r matches Ok(e) && {
                                    &&& e.vesting_bump == vp.1
                                    &&& e.create_vesting_account == (existing is Err)
                                    &&& e.lamports_transfer_amount == required
                                    &&& e.vesting_data@ == spec_pack_vesting(
                                        spec_bought_record(existing, amount, cfg.unlocks, vp.1),
                                    )
                                }
                            }
                        },
                    }
                },
            },
        }
    }
}

/// Full description of one claim attempt, in the order the checks are
/// made: the account list's length, the buyer's signature (only the buyer
/// whose position is debited may authorize a claim, though the recipient
/// can be anyone), the vesting, config and treasury derivations against the
/// supplied addresses, the config's decoding, the vesting record's decoding
/// (a missing or uninitialized record is a claim before any purchase), the
/// schedule's claim decision, the mint's decoding — and, when everything
/// holds, exactly the effects that release the portion.
pub open spec fn claim_post(
    program_id: Seq<u8>,
    now_ts: i64,
    accounts: Seq<AccountSnapshot>,
    r: Result<ClaimEffects, ProcessError>,
) -> bool {
    if accounts.len() < 10 {
        r == Err::<ClaimEffects, ProcessError>(ProcessError::NotEnoughAccountKeys)
    } else {
        let signer = accounts[0];
        let recipient_ata = accounts[2];
        let vesting = accounts[3];
        let treasury = accounts[4];
        let config = accounts[5];
        let mint = accounts[6];
        let system_program = accounts[9];
        if !signer.is_signer {
            r == Err::<ClaimEffects, ProcessError>(ProcessError::MissingRequiredSignature)
        } else {
            match pda_lookup(spec_vesting_seeds(signer.key@, mint.key@), program_id) {
                None => r == Err::<ClaimEffects, ProcessError>(
                    ProcessError::InvalidInstructionData,
                ),
                Some(vp) => match pda_lookup(spec_config_seeds(treasury.key@), program_id) {
                    None => r == Err::<ClaimEffects, ProcessError>(
                        ProcessError::InvalidInstructionData,
                    ),
                    Some(cp) => match pda_lookup(spec_treasury_seeds(mint.key@), program_id) {
                        None => r == Err::<ClaimEffects, ProcessError>(
                            ProcessError::InvalidInstructionData,
                        ),
                        Some(tp) => if vp.0 != vesting.key@ || cp.0 != config.key@ || tp.0
                            != treasury.key@ {
                            r == Err::<ClaimEffects, ProcessError>(
                                ProcessError::InvalidInstructionData,
                            )
                        } else {
                            match spec_unpack_config(config.data@) {
                                Err(e) => r == Err::<ClaimEffects, ProcessError>(e),
                                Ok(cfg) => match spec_unpack_vesting(vesting.data@) {
                                    Err(_) => r == Err::<ClaimEffects, ProcessError>(
                                        ProcessError::Custom(IDOProgramError::ClaimBeforeBuy),
                                    ),
                                    Ok(va) => match spec_checked_claim_error(
                                        now_ts as int,
                                        cfg.vesting_strategy,
                                        va,
                                    ) {
                                        Some(e) => r == Err::<ClaimEffects, ProcessError>(e),
                                        None => if !spec_mint_accepted(mint.data@) {
                                            r == Err::<ClaimEffects, ProcessError>(
                                                spec_mint_error(mint.data@),
                                            )
                                        } else {
                                            r matches Ok(e) && {
                                                &&& e.treasury_bump == tp.1
                                                &&& e.create_recipient_ata == (
                                                recipient_ata.owner@ == system_program.key@)
                                                &&& e.transfer_amount == spec_claim_amount(
                                                    now_ts as int,
                                                    cfg.vesting_strategy,
                                                    va,
                                                )
                                                &&& e.mint_decimals == mint.data@[44]
                                                &&& e.vesting_data@ == spec_pack_vesting(
                                                    spec_claim_updated(
                                                        now_ts as int,
                                                        cfg.vesting_strategy,
                                                        va,
                                                    ),
                                                )
                                            }
                                        },
                                    },
                                },
                            }
                        },
                    },
                },
            }
        }
    }
}

/// Two successful initializations under the same program identity and the
/// same mint settle on the same treasury and config addresses and nonces:
/// the derivation is deterministic.  Both calls demand creating accounts at
/// those addresses, and the ledger refuses to create an account at an
/// occupied address, so the second attempt cannot complete.
pub proof fn lemma_initialize_address_determinism(
    program_id: Seq<u8>,
    now1: i64,
    now2: i64,
    accounts1: Seq<AccountSnapshot>,
    accounts2: Seq<AccountSnapshot>,
    amount1: u64,
    amount2: u64,
    lamports_per_token1: u32,
    lamports_per_token2: u32,
    vesting_strategy1: LinearVestingStrategy,
    vesting_strategy2: LinearVestingStrategy,
    e1: InitializeEffects,
    e2: InitializeEffects,
)
    requires
        initialize_post(
            program_id,
            now1,
            accounts1,
            amount1,
            lamports_per_token1,
            vesting_strategy1,
            Ok(e1),
        ),
        initialize_post(
            program_id,
            now2,
            accounts2,
            amount2,
            lamports_per_token2,
            vesting_strategy2,
            Ok(e2),
        ),
        accounts1[4].key@ == accounts2[4].key@,
    ensures
        accounts1[2].key@ == accounts2[2].key@,
        accounts1[3].key@ == accounts2[3].key@,
        e1.treasury_bump == e2.treasury_bump,
        e1.config_bump == e2.config_bump,
{
}

/// A treasury or config address that does not match its derivation is
/// rejected by the initialize transition — with no effect asked of the
/// ledger — whatever else the call supplies.
pub proof fn lemma_initialize_rejects_spoofed_addresses(
    program_id: Seq<u8>,
    now_ts: i64,
    accounts: Seq<AccountSnapshot>,
    amount: u64,
    lamports_per_token: u32,
    vesting_strategy: LinearVestingStrategy,
    r: Result<InitializeEffects, ProcessError>,
)
    requires
        initialize_post(
            program_id,
            now_ts,
            accounts,
            amount,
            lamports_per_token,
            vesting_strategy,
            r,
        ),
        strategy_valid_at(spec_resolve_cliff(vesting_strategy, now_ts), now_ts as int),
        accounts.len() >= 8,
        ({
            ||| (pda_lookup(spec_treasury_seeds(accounts[4].key@), program_id) matches Some(tp)
                && tp.0 != accounts[2].key@)
            ||| (pda_lookup(spec_treasury_seeds(accounts[4].key@), program_id) matches Some(tp)
                && tp.0 == accounts[2].key@ && (pda_lookup(
                spec_config_seeds(accounts[2].key@),
                program_id,
            ) matches Some(cp) && cp.0 != accounts[3].key@))
        }),
    ensures
        r == Err::<InitializeEffects, ProcessError>(ProcessError::InvalidInstructionData),
{
}

/// A vesting or config address that does not match its derivation is
/// rejected by the buy transition, whatever else the call supplies.
pub proof fn lemma_buy_rejects_spoofed_addresses(
    program_id: Seq<u8>,
    rent_min_balance: u64,
    vesting_rent_exempt: u64,
    accounts: Seq<AccountSnapshot>,
    amount: u64,
    r: Result<BuyEffects, ProcessError>,
)
    requires
        buy_post(program_id, rent_min_balance, vesting_rent_exempt, accounts, amount, r),
        accounts.len() >= 6,
        spec_token_account_accepted(accounts[2].data@),
        ({
            ||| (pda_lookup(
                spec_vesting_seeds(accounts[0].key@, accounts[4].key@),
                program_id,
            ) matches Some(vp) && vp.0 != accounts[1].key@)
            ||| (pda_lookup(spec_config_seeds(accounts[2].key@), program_id) matches Some(cp)
                && cp.0 != accounts[3].key@)
        }),
        pda_lookup(spec_vesting_seeds(accounts[0].key@, accounts[4].key@), program_id) is Some,
        pda_lookup(spec_config_seeds(accounts[2].key@), program_id) is Some,
    ensures
        r == Err::<BuyEffects, ProcessError>(ProcessError::InvalidInstructionData),
{
}

/// Only the buyer's signature authorizes a claim: the position consulted
/// and debited is always the one derived from the first account and the
/// mint, and when that account has not signed, the claim is rejected before
/// any decision is made, whatever else the call supplies.
pub proof fn lemma_claim_requires_buyer_signature(
    program_id: Seq<u8>,
    now_ts: i64,
    accounts: Seq<AccountSnapshot>,
    r: Result<ClaimEffects, ProcessError>,
)
    requires
        claim_post(program_id, now_ts, accounts, r),
        accounts.len() >= 10,
        !accounts[0].is_signer,
    ensures
        r == Err::<ClaimEffects, ProcessError>(ProcessError::MissingRequiredSignature),
{
}

/// A vesting, config or treasury address that does not match its derivation
/// is rejected by the claim transition, whatever else the call supplies.
pub proof fn lemma_claim_rejects_spoofed_addresses(
    program_id: Seq<u8>,
    now_ts: i64,
    accounts: Seq<AccountSnapshot>,
    r: Result<ClaimEffects, ProcessError>,
)
    requires
        claim_post(program_id, now_ts, accounts, r),
        accounts.len() >= 10,
        accounts[0].is_signer,
        pda_lookup(spec_vesting_seeds(accounts[0].key@, accounts[6].key@), program_id) is Some,
        pda_lookup(spec_config_seeds(accounts[4].key@), program_id) is Some,
        pda_lookup(spec_treasury_seeds(accounts[6].key@), program_id) is Some,
        ({
            ||| (pda_lookup(
                spec_vesting_seeds(accounts[0].key@, accounts[6].key@),
                program_id,
            ) matches Some(vp) && vp.0 != accounts[3].key@)
            ||| (pda_lookup(spec_config_seeds(accounts[4].key@), program_id) matches Some(cp)
                && cp.0 != accounts[5].key@)
            ||| (pda_lookup(spec_treasury_seeds(accounts[6].key@), program_id) matches Some(tp)
                && tp.0 != accounts[4].key@)
        }),
    ensures
        r == Err::<ClaimEffects, ProcessError>(ProcessError::InvalidInstructionData),
{
}

/// A purchase never shrinks the position: the bought total grows by exactly
/// the purchased amount, the claimed total is untouched, and a record whose
/// claimed total was within its bought total stays that way.
pub proof fn lemma_buy_preserves_position(
    existing: Result<IDOVestingAccount, ProcessError>,
    amount: u64,
    unlocks: u8,
    vesting_bump: u8,
)
    requires
        existing matches Ok(va) ==> va.bought_amount + amount <= u64::MAX,
    ensures
        spec_bought_record(existing, amount, unlocks, vesting_bump).bought_amount == match existing {
            Ok(va) => va.bought_amount + amount,
            Err(_) => amount as int,
        },
        spec_bought_record(existing, amount, unlocks, vesting_bump).claimed_amount == match existing {
            Ok(va) => va.claimed_amount,
            Err(_) => 0,
        },
        (existing matches Ok(va) ==> crate::state::vesting_account_wf(va))
            ==> crate::state::vesting_account_wf(
            spec_bought_record(existing, amount, unlocks, vesting_bump),
        ),
{
}

/// Full description of one call into the handler: a buffer that does not
/// decode is rejected as malformed, and a decoded instruction is handed to
/// its transition, whose outcome the matching `..._post` relation pins
/// down.
pub open spec fn process_post(
    program_id: Seq<u8>,
    now_ts: i64,
    rent_min_balance: u64,
    vesting_rent_exempt: u64,
    accounts: Seq<AccountSnapshot>,
    data: Seq<u8>,
    r: Result<ProcessEffects, ProcessError>,
) -> bool {
    match spec_unpack_instruction(data) {
        Err(e) => r == Err::<ProcessEffects, ProcessError>(e),
        Ok(ix) => match ix {
            IDOInstruction::InitializeWithVesting {
                amount,
                lamports_per_token,
                vesting_strategy,
            } => match r {
                Ok(ProcessEffects::Initialize(e)) => initialize_post(
                    program_id,
                    now_ts,
                    accounts,
                    amount,
                    lamports_per_token,
                    vesting_strategy,
                    Ok(e),
                ),
                Err(e) => initialize_post(
                    program_id,
                    now_ts,
                    accounts,
                    amount,
                    lamports_per_token,
                    vesting_strategy,
                    Err(e),
                ),
                _ => false,
            },
            IDOInstruction::BuyWithVesting { amount } => match r {
                Ok(ProcessEffects::Buy(e)) => buy_post(
                    program_id,
                    rent_min_balance,
                    vesting_rent_exempt,
                    accounts,
                    amount,
                    Ok(e),
                ),
                Err(e) => buy_post(
                    program_id,
                    rent_min_balance,
                    vesting_rent_exempt,
                    accounts,
                    amount,
                    Err(e),
                ),
                _ => false,
            },
            IDOInstruction::Claim => match r {
                Ok(ProcessEffects::Claim(e)) => claim_post(program_id, now_ts, accounts, Ok(e)),
                Err(e) => claim_post(program_id, now_ts, accounts, Err(e)),
                _ => false,
            },
        },
    }
}

/// The processor: decodes an instruction and drives the matching
/// transition.
pub struct Processor;

impl Processor {
    /// Decodes one instruction and drives the matching transition against
    /// the declared accounts, at the single time `now_ts` read for this
    /// call.
    pub fn process(
        program_id: &Address,
        now_ts: i64,
        rent_min_balance: u64,
        vesting_rent_exempt: u64,
        accounts: &[AccountSnapshot],
        data: &[u8],
    ) -> (r: Result<ProcessEffects, ProcessError>)
        ensures
            process_post(
                program_id@,
                now_ts,
                rent_min_balance,
                vesting_rent_exempt,
                accounts@,
                data@,
                r,
            ),
    {
        let ix: IDOInstruction = match IDOInstruction::unpack(data) {
            Ok(ix) => ix,
            Err(e) => return Err(e),
        };

        match ix {
            IDOInstruction::InitializeWithVesting {
                amount,
                lamports_per_token,
                vesting_strategy,
            } => match Self::process_initialize_ido_with_vesting_instruction(
                program_id,
                now_ts,
                accounts,
                amount,
                lamports_per_token,
                vesting_strategy,
            ) {
                Ok(e) => Ok(ProcessEffects::Initialize(e)),
                Err(e) => Err(e),
            },
            IDOInstruction::BuyWithVesting { amount } => match Self::process_buy_with_vesting_instruction(
                program_id,
                rent_min_balance,
                vesting_rent_exempt,
                accounts,
                amount,
            ) {
                Ok(e) => Ok(ProcessEffects::Buy(e)),
                Err(e) => Err(e),
            },
            IDOInstruction::Claim => match Self::process_claim_instruction(
                program_id,
                now_ts,
                accounts,
            ) {
                Ok(e) => Ok(ProcessEffects::Claim(e)),
                Err(e) => Err(e),
            },
        }
    }
    /// Registers a pool: validates the schedule, authenticates the treasury
    /// and config addresses against their derivations, reads the mint, and
    /// describes the accounts to create, the config to write and the supply
    /// to move.
    pub fn process_initialize_ido_with_vesting_instruction(
        program_id: &Address,
        now_ts: i64,
        accounts: &[AccountSnapshot],
        amount: u64,
        lamports_per_token: u32,
        vesting_strategy: LinearVestingStrategy,
    ) -> (r: Result<InitializeEffects, ProcessError>)
        ensures
            initialize_post(
                program_id@,
                now_ts,
                accounts@,
                amount,
                lamports_per_token,
                vesting_strategy,
                r,
            ),
    {
        // 1. Resolve a zero cliff to the current time and validate the
        //    schedule.
        let vesting_strategy: LinearVestingStrategy = vesting_strategy.reinit_with_checked_cliff(
            now_ts,
        );
        match vesting_strategy.is_valid(now_ts) {
            Ok(()) => (),
            Err(e) => return Err(ProcessError::Custom(e)),
        }

        let ctx = match IDOInitializeCtx::from_accounts(accounts) {
            Ok(c) => c,
            Err(e) => return Err(e),
        };

        // 2. Re-derive the treasury and config addresses and compare them
        //    with the caller-supplied ones.
        let treasury_seed_list: Vec<Vec<u8>> = treasury_seeds(&ctx.mint_info.key);
        let (expected_treasury, treasury_bump) = match derive_program_pda(
            &treasury_seed_list,
            program_id,
        ) {
            Some(p) => p,
            None => return Err(ProcessError::InvalidInstructionData),
        };
        if !ctx.treasury_info.key.eq_bytes(&expected_treasury) {
            return Err(ProcessError::InvalidInstructionData);
        }

        let config_seed_list: Vec<Vec<u8>> = config_seeds(&ctx.treasury_info.key);
        let (expected_config, config_bump) = match derive_program_pda(
            &config_seed_list,
            program_id,
        ) {
            Some(p) => p,
            None => return Err(ProcessError::InvalidInstructionData),
        };
        if !ctx.config_info.key.eq_bytes(&expected_config) {
            return Err(ProcessError::InvalidInstructionData);
        }

        // 3. Read the mint's decimals for the checked transfer.
        let mint = match unpack_spl_mint(ctx.mint_info.data.as_slice()) {
            Ok(m) => m,
            Err(e) => return Err(e),
        };

        // 4. Build the Config record, sized by the schedule's unlock count.
        let duration: u128 = (vesting_strategy.vesting_end_ts as i128
            - vesting_strategy.cliff_end_ts as i128) as u128;
        let unlocks_wide: u128 = duration / (vesting_strategy.unlock_period as u128);
        let unlocks: u8 = unlocks_wide as u8;
        proof {
            assert(duration == vesting_strategy.vesting_end_ts - vesting_strategy.cliff_end_ts);
            assert(vesting_strategy.unlock_period as u128 == vesting_strategy.unlock_period as int);
            assert(unlocks_wide == spec_unlocks_count(vesting_strategy));
        }
        let config_account = IDOConfigAccount {
            vesting_strategy,
            lamports_per_token,
            bump: config_bump,
            unlocks,
            is_initialized: true,
        };
        let config_data: Vec<u8> = config_account.pack();

        Ok(
            InitializeEffects {
                treasury_bump,
                config_bump,
                config_data,
                mint_decimals: mint.decimals,
                token_transfer_amount: amount,
            },
        )
    }

    /// Records a purchase: authenticates the vesting and config addresses,
    /// checks the treasury's mint and self-ownership, prices the purchase,
    /// creates or re-averages the buyer's vesting record, verifies the
    /// buyer's spendable balance — net of the persistence reserve and, on a
    /// first purchase, of the new vesting account's funding — and describes
    /// the record to write and the payment to move.
    pub fn process_buy_with_vesting_instruction(
        program_id: &Address,
        rent_min_balance: u64,
        vesting_rent_exempt: u64,
        accounts: &[AccountSnapshot],
        amount: u64,
    ) -> (r: Result<BuyEffects, ProcessError>)
        ensures
            buy_post(program_id@, rent_min_balance, vesting_rent_exempt, accounts@, amount, r),
    {
        // 1. Re-derive the vesting and config addresses.
        let ctx = match IDOBuyWithVestingCtx::from_accounts(accounts) {
            Ok(c) => c,
            Err(e) => return Err(e),
        };

        let vesting_seed_list: Vec<Vec<u8>> = vesting_seeds(
            &ctx.signer_info.key,
            &ctx.mint_info.key,
        );
        let (expected_vesting, vesting_bump) = match derive_program_pda(
            &vesting_seed_list,
            program_id,
        ) {
            Some(p) => p,
            None => return Err(ProcessError::InvalidInstructionData),
        };

        let config_seed_list: Vec<Vec<u8>> = config_seeds(&ctx.treasury_info.key);
        let (expected_config, _config_bump) = match derive_program_pda(
            &config_seed_list,
            program_id,
        ) {
            Some(p) => p,
            None => return Err(ProcessError::InvalidInstructionData),
        };

        // 2. Decode the treasury and authenticate every supplied identity:
        //    the derived addresses, and the treasury's mint and
        //    self-ownership.
        let treasury_ata = match unpack_spl_token_account(ctx.treasury_info.data.as_slice()) {
            Ok(t) => t,
            Err(e) => return Err(e),
        };

        if !expected_vesting.eq_bytes(&ctx.vesting_info.key) || !expected_config.eq_bytes(
            &ctx.config_info.key,
        ) || !treasury_ata.mint.eq_bytes(&ctx.mint_info.key) || !treasury_ata.owner.eq_bytes(
            &ctx.treasury_info.key,
        ) {
            return Err(ProcessError::InvalidInstructionData);
        }

        // 3. Price the purchase from the Config record.
        let config_account = match IDOConfigAccount::unpack(ctx.config_info.data.as_slice()) {
            Ok(c) => c,
            Err(e) => return Err(e),
        };
        proof {
            assert((amount as u128) * (config_account.lamports_per_token as u128) <= u64::MAX as int
                * (u32::MAX as int)) by (nonlinear_arith)
                requires
                    0 <= amount <= u64::MAX,
                    0 <= config_account.lamports_per_token <= u32::MAX,
            ;
        }
        let required_wide: u128 = (amount as u128) * (config_account.lamports_per_token as u128);
        if required_wide > u64::MAX as u128 {
            return Err(ProcessError::ArithmeticOverflow);
        }
        let lamports_transfer_amount: u64 = required_wide as u64;

        // 4. Create the buyer's record, or add to it and re-average the
        //    per-unlock portion over the new total.
        let existing = IDOVestingAccount::unpack(ctx.vesting_info.data.as_slice());
        let (record, create_vesting_account): (IDOVestingAccount, bool) = match existing {
            Ok(vesting_account) => {
                let updated_bought_amount: u64 = match vesting_account.bought_amount.checked_add(
                    amount,
                ) {
                    Some(v) => v,
                    None => return Err(ProcessError::ArithmeticOverflow),
                };
                if config_account.unlocks == 0 {
                    return Err(ProcessError::Custom(IDOProgramError::UnlocksMustNotEqualZero));
                }
                (
                    IDOVestingAccount {
                        bought_amount: updated_bought_amount,
                        amount_per_unlock: updated_bought_amount / (config_account.unlocks as u64),
                        ..vesting_account
                    },
                    false,
                )
            },
            Err(_) => {
                if config_account.unlocks == 0 {
                    return Err(ProcessError::Custom(IDOProgramError::UnlocksMustNotEqualZero));
                }
                (
                    IDOVestingAccount::new(
                        amount,
                        amount / (config_account.unlocks as u64),
                        vesting_bump,
                    ),
                    true,
                )
            },
        };

        // 5. The buyer must cover the price beyond the persistence reserve,
        //    after paying for the vesting account's creation if there is
        //    one: the transfer happens last, from the balance those charges
        //    leave behind.
        let creation_charge: u64 = if create_vesting_account {
            vesting_rent_exempt
        } else {
            0
        };
        let after_creation: u64 = match ctx.signer_info.lamports.checked_sub(creation_charge) {
            Some(v) => v,
            None => return Err(ProcessError::InsufficientFunds),
        };
        let spendable: u64 = match after_creation.checked_sub(rent_min_balance) {
            Some(v) => v,
            None => return Err(ProcessError::InsufficientFunds),
        };
        if spendable < lamports_transfer_amount {
            return Err(ProcessError::InsufficientFunds);
        }

        let vesting_data: Vec<u8> = record.pack();
        Ok(
            BuyEffects {
                vesting_bump,
                create_vesting_account,
                vesting_data,
                lamports_transfer_amount,
            },
        )
    }

    /// Releases a claimable portion: authenticates the vesting, config and
    /// treasury addresses, decodes the pool's schedule and the buyer's
    /// record, runs the claim decision, and describes the record to write
    /// back, the recipient account to create if missing, and the tokens to
    /// move out of the treasury.
    pub fn process_claim_instruction(
        program_id: &Address,
        now_ts: i64,
        accounts: &[AccountSnapshot],
    ) -> (r: Result<ClaimEffects, ProcessError>)
        ensures
            claim_post(program_id@, now_ts, accounts@, r),
    {
        let ctx = match IDOClaimCtx::from_accounts(accounts) {
            Ok(c) => c,
            Err(e) => return Err(e),
        };

        // 1. Only the buyer whose position is debited may authorize a
        //    claim; the recipient can be anyone.  No later sub-call demands
        //    this signature, so it is checked here, before any decision.
        if !ctx.signer_info.is_signer {
            return Err(ProcessError::MissingRequiredSignature);
        }

        // 2. Re-derive the vesting, config and treasury addresses and
        //    compare them with the caller-supplied ones.
        let vesting_seed_list: Vec<Vec<u8>> = vesting_seeds(
            &ctx.signer_info.key,
            &ctx.mint_info.key,
        );
        let (expected_vesting, _vesting_bump) = match derive_program_pda(
            &vesting_seed_list,
            program_id,
        ) {
            Some(p) => p,
            None => return Err(ProcessError::InvalidInstructionData),
        };

        let config_seed_list: Vec<Vec<u8>> = config_seeds(&ctx.treasury_info.key);
        let (expected_config, _config_bump) = match derive_program_pda(
            &config_seed_list,
            program_id,
        ) {
            Some(p) => p,
            None => return Err(ProcessError::InvalidInstructionData),
        };

        let treasury_seed_list: Vec<Vec<u8>> = treasury_seeds(&ctx.mint_info.key);
        let (expected_treasury, treasury_bump) = match derive_program_pda(
            &treasury_seed_list,
            program_id,
        ) {
            Some(p) => p,
            None => return Err(ProcessError::InvalidInstructionData),
        };

        if !expected_vesting.eq_bytes(&ctx.vesting_info.key) || !expected_config.eq_bytes(
            &ctx.config_info.key,
        ) || !expected_treasury.eq_bytes(&ctx.treasury_info.key) {
            return Err(ProcessError::InvalidInstructionData);
        }

        // 3. Decode the schedule and the buyer's record; a record that is
        //    missing or uninitialized means the buyer never bought.
        let config_account = match IDOConfigAccount::unpack(ctx.config_info.data.as_slice()) {
            Ok(c) => c,
            Err(e) => return Err(e),
        };

        let mut vesting_account = match IDOVestingAccount::unpack(ctx.vesting_info.data.as_slice())
         {
            Ok(va) => va,
            Err(_) => return Err(ProcessError::Custom(IDOProgramError::ClaimBeforeBuy)),
        };

        // 4. Decide the claim and advance the record.
        let ghost pre_vesting_account = vesting_account;
        let transfer_amount: u64 = match allow_claim_checked(
            now_ts,
            &config_account.vesting_strategy,
            &mut vesting_account,
        ) {
            Ok(amount) => amount,
            Err(e) => return Err(e),
        };
        proof {
            crate::vesting::lemma_claim_transition_updated(
                now_ts as int,
                config_account.vesting_strategy,
                pre_vesting_account,
                vesting_account,
                Ok::<u64, IDOProgramError>(transfer_amount),
            );
        }
        let vesting_data: Vec<u8> = vesting_account.pack();

        // 5. Read the mint's decimals for the checked transfer, and create
        //    the recipient's token account first if the system program
        //    still owns it.
        let mint = match unpack_spl_mint(ctx.mint_info.data.as_slice()) {
            Ok(m) => m,
            Err(e) => return Err(e),
        };
        let create_recipient_ata: bool = ctx.recipient_ata_info.owner.eq_bytes(
            &ctx.system_program_info.key,
        );

        Ok(
            ClaimEffects {
                treasury_bump,
                create_recipient_ata,
                transfer_amount,
                mint_decimals: mint.decimals,
                vesting_data,
            },
        )
    }
}

} // verus!
