use solana_program::program_option::COption;
use solana_program::program_pack::Pack;
use solana_program::pubkey::Pubkey;
use spl_token_2022::state::Account as SplAccount;
use spl_token_2022::state::AccountState;
use spl_token_2022::state::Mint as SplMint;

use ido_with_vesting::contexts::AccountSnapshot;
use ido_with_vesting::error::IDOProgramError;
use ido_with_vesting::error::ProcessError;
use ido_with_vesting::instruction::IDOInstruction;
use ido_with_vesting::processor::ProcessEffects;
use ido_with_vesting::processor::Processor;
use ido_with_vesting::state::IDOConfigAccount;
use ido_with_vesting::state::IDOVestingAccount;
use ido_with_vesting::utils::Address;
use ido_with_vesting::vesting::LinearVestingStrategy;

const NOW: i64 = 1_700_000_000;
const RENT_MIN_BALANCE: u64 = 890_880;
const VESTING_RENT_EXEMPT: u64 = 1_127_520;
const LAMPORTS_PER_TOKEN: u32 = 1_000;
const SUPPLY: u64 = 1_000_000_000;

fn addr(pk: &Pubkey) -> Address {
    Address { bytes: pk.to_bytes() }
}

fn snapshot(key: &Pubkey, owner: &Pubkey, lamports: u64, data: Vec<u8>) -> AccountSnapshot {
    AccountSnapshot { key: addr(key), owner: addr(owner), lamports, data, is_signer: false }
}

fn packed_mint(decimals: u8, supply: u64) -> Vec<u8> {
    let mint = SplMint {
        mint_authority: COption::None,
        supply,
        decimals,
        is_initialized: true,
        freeze_authority: COption::None,
    };
    let mut data = vec![0u8; SplMint::LEN];
    SplMint::pack(mint, &mut data).unwrap();
    data
}

fn packed_token_account(mint: &Pubkey, owner: &Pubkey, amount: u64) -> Vec<u8> {
    let account = SplAccount {
        mint: *mint,
        owner: *owner,
        amount,
        delegate: COption::None,
        state: AccountState::Initialized,
        is_native: COption::None,
        delegated_amount: 0,
        close_authority: COption::None,
    };
    let mut data = vec![0u8; SplAccount::LEN];
    SplAccount::pack(account, &mut data).unwrap();
    data
}

/// A fully wired pool: every address the handler re-derives, computed with
/// the ledger platform's own derivation.
struct Pool {
    program_id: Pubkey,
    signer: Pubkey,
    signer_ata: Pubkey,
    mint: Pubkey,
    treasury: Pubkey,
    treasury_bump: u8,
    config: Pubkey,
    config_bump: u8,
    vesting: Pubkey,
    vesting_bump: u8,
    rent_sysvar: Pubkey,
    token_program: Pubkey,
    system_program: Pubkey,
    ata_program: Pubkey,
}

fn pool() -> Pool {
    let program_id = Pubkey::new_unique();
    let signer = Pubkey::new_unique();
    let mint = Pubkey::new_unique();
    let (treasury, treasury_bump) = Pubkey::find_program_address(
        &[b"ido-treasury-account", mint.as_ref()],
        &program_id,
    );
    let (config, config_bump) = Pubkey::find_program_address(
        &[b"ido-config-account", treasury.as_ref()],
        &program_id,
    );
    let (vesting, vesting_bump) = Pubkey::find_program_address(
        &[b"ido-vesting-account", signer.as_ref(), mint.as_ref()],
        &program_id,
    );
    Pool {
        program_id,
        signer,
        signer_ata: Pubkey::new_unique(),
        mint,
        treasury,
        treasury_bump,
        config,
        config_bump,
        vesting,
        vesting_bump,
        rent_sysvar: Pubkey::new_unique(),
        token_program: Pubkey::new_unique(),
        system_program: Pubkey::new_unique(),
        ata_program: Pubkey::new_unique(),
    }
}

fn strategy_without_cliff() -> LinearVestingStrategy {
    LinearVestingStrategy { cliff_end_ts: 0, vesting_end_ts: NOW + 300, unlock_period: 60 }
}

fn initialize_accounts(p: &Pool) -> Vec<AccountSnapshot> {
    let mut signer = snapshot(&p.signer, &p.system_program, 10_000_000_000, vec![]);
    signer.is_signer = true;
    vec![
        signer,
        snapshot(&p.signer_ata, &p.token_program, RENT_MIN_BALANCE, vec![]),
        snapshot(&p.treasury, &p.system_program, 0, vec![]),
        snapshot(&p.config, &p.system_program, 0, vec![]),
        snapshot(&p.mint, &p.token_program, RENT_MIN_BALANCE, packed_mint(9, SUPPLY)),
        snapshot(&p.rent_sysvar, &p.system_program, 0, vec![]),
        snapshot(&p.token_program, &p.system_program, 0, vec![]),
        snapshot(&p.system_program, &p.system_program, 0, vec![]),
    ]
}

fn buy_accounts(p: &Pool, vesting_data: Vec<u8>, signer_lamports: u64) -> Vec<AccountSnapshot> {
    let config_data = initialized_config_data(p);
    let mut signer = snapshot(&p.signer, &p.system_program, signer_lamports, vec![]);
    signer.is_signer = true;
    vec![
        signer,
        snapshot(&p.vesting, &p.system_program, 0, vesting_data),
        snapshot(
            &p.treasury,
            &p.token_program,
            RENT_MIN_BALANCE,
            packed_token_account(&p.mint, &p.treasury, SUPPLY),
        ),
        snapshot(&p.config, &p.program_id, RENT_MIN_BALANCE, config_data),
        snapshot(&p.mint, &p.token_program, RENT_MIN_BALANCE, packed_mint(9, SUPPLY)),
        snapshot(&p.system_program, &p.system_program, 0, vec![]),
    ]
}

fn claim_accounts(p: &Pool, vesting_data: Vec<u8>, recipient_ata_owner: &Pubkey) -> Vec<
    AccountSnapshot,
> {
    let recipient = Pubkey::new_unique();
    let recipient_ata = Pubkey::new_unique();
    let config_data = initialized_config_data(p);
    let mut signer = snapshot(&p.signer, &p.system_program, 10_000_000_000, vec![]);
    signer.is_signer = true;
    vec![
        signer,
        snapshot(&recipient, &p.system_program, 0, vec![]),
        snapshot(&recipient_ata, recipient_ata_owner, 0, vec![]),
        snapshot(&p.vesting, &p.program_id, RENT_MIN_BALANCE, vesting_data),
        snapshot(
            &p.treasury,
            &p.token_program,
            RENT_MIN_BALANCE,
            packed_token_account(&p.mint, &p.treasury, SUPPLY),
        ),
        snapshot(&p.config, &p.program_id, RENT_MIN_BALANCE, config_data),
        snapshot(&p.mint, &p.token_program, RENT_MIN_BALANCE, packed_mint(9, SUPPLY)),
        snapshot(&p.ata_program, &p.system_program, 0, vec![]),
        snapshot(&p.token_program, &p.system_program, 0, vec![]),
        snapshot(&p.system_program, &p.system_program, 0, vec![]),
    ]
}

/// The Config data a successful initialization writes for this pool.
fn initialized_config_data(p: &Pool) -> Vec<u8> {
    IDOConfigAccount {
        vesting_strategy: LinearVestingStrategy {
            cliff_end_ts: NOW,
            vesting_end_ts: NOW + 300,
            unlock_period: 60,
        },
        lamports_per_token: LAMPORTS_PER_TOKEN,
        bump: p.config_bump,
        unlocks: 5,
        is_initialized: true,
    }
    .pack()
}

#[test]
fn initialize_derives_addresses_and_writes_the_config() {
    let p = pool();
    let effects = Processor::process_initialize_ido_with_vesting_instruction(
        &addr(&p.program_id),
        NOW,
        &initialize_accounts(&p),
        SUPPLY,
        LAMPORTS_PER_TOKEN,
        strategy_without_cliff(),
    )
    .unwrap();

    assert_eq!(effects.treasury_bump, p.treasury_bump);
    assert_eq!(effects.config_bump, p.config_bump);
    assert_eq!(effects.mint_decimals, 9);
    assert_eq!(effects.token_transfer_amount, SUPPLY);
    assert_eq!(effects.config_data, initialized_config_data(&p));

    let config = IDOConfigAccount::unpack(&effects.config_data).unwrap();
    assert_eq!(config.unlocks, 5);
    assert_eq!(config.vesting_strategy.cliff_end_ts, NOW);
}

#[test]
fn initialize_is_deterministic_so_a_second_attempt_collides() {
    // Both attempts demand creating the treasury and config accounts at the
    // same derived addresses; the ledger refuses to create an account at an
    // occupied address, so the second call cannot complete.
    let p = pool();
    let run = || {
        Processor::process_initialize_ido_with_vesting_instruction(
            &addr(&p.program_id),
            NOW,
            &initialize_accounts(&p),
            SUPPLY,
            LAMPORTS_PER_TOKEN,
            strategy_without_cliff(),
        )
        .unwrap()
    };
    let first = run();
    let second = run();
    assert_eq!(first.treasury_bump, second.treasury_bump);
    assert_eq!(first.config_bump, second.config_bump);
    assert_eq!(first.config_data, second.config_data);
}

#[test]
fn initialize_rejects_a_spoofed_treasury_address() {
    let p = pool();
    let mut accounts = initialize_accounts(&p);
    accounts[2].key = addr(&Pubkey::new_unique());
    let r = Processor::process_initialize_ido_with_vesting_instruction(
        &addr(&p.program_id),
        NOW,
        &accounts,
        SUPPLY,
        LAMPORTS_PER_TOKEN,
        strategy_without_cliff(),
    );
    assert_eq!(r.unwrap_err(), ProcessError::InvalidInstructionData);
}

#[test]
fn initialize_rejects_a_spoofed_config_address() {
    let p = pool();
    let mut accounts = initialize_accounts(&p);
    accounts[3].key = addr(&Pubkey::new_unique());
    let r = Processor::process_initialize_ido_with_vesting_instruction(
        &addr(&p.program_id),
        NOW,
        &accounts,
        SUPPLY,
        LAMPORTS_PER_TOKEN,
        strategy_without_cliff(),
    );
    assert_eq!(r.unwrap_err(), ProcessError::InvalidInstructionData);
}

#[test]
fn initialize_rejects_an_invalid_schedule_before_touching_accounts() {
    let p = pool();
    // One unlock period longer than the whole schedule: zero unlocks.
    let s = LinearVestingStrategy { cliff_end_ts: 0, vesting_end_ts: NOW + 300, unlock_period: 301 };
    let r = Processor::process_initialize_ido_with_vesting_instruction(
        &addr(&p.program_id),
        NOW,
        &[],
        SUPPLY,
        LAMPORTS_PER_TOKEN,
        s,
    );
    assert_eq!(
        r.unwrap_err(),
        ProcessError::Custom(IDOProgramError::UnlocksMustNotEqualZero)
    );

    // 301 unlocks of one second each: over the cap.
    let s = LinearVestingStrategy { cliff_end_ts: 0, vesting_end_ts: NOW + 301, unlock_period: 1 };
    let r = Processor::process_initialize_ido_with_vesting_instruction(
        &addr(&p.program_id),
        NOW,
        &[],
        SUPPLY,
        LAMPORTS_PER_TOKEN,
        s,
    );
    assert_eq!(r.unwrap_err(), ProcessError::Custom(IDOProgramError::MaxUnlocksOverflow));
}

#[test]
fn initialize_rejects_an_uninitialized_mint() {
    let p = pool();
    let mut accounts = initialize_accounts(&p);
    let mut mint_data = packed_mint(9, SUPPLY);
    mint_data[45] = 0;
    accounts[4].data = mint_data;
    let r = Processor::process_initialize_ido_with_vesting_instruction(
        &addr(&p.program_id),
        NOW,
        &accounts,
        SUPPLY,
        LAMPORTS_PER_TOKEN,
        strategy_without_cliff(),
    );
    assert_eq!(r.unwrap_err(), ProcessError::UninitializedAccount);
}

#[test]
fn initialize_requires_all_eight_accounts() {
    let p = pool();
    let accounts = initialize_accounts(&p);
    let r = Processor::process_initialize_ido_with_vesting_instruction(
        &addr(&p.program_id),
        NOW,
        &accounts[..7],
        SUPPLY,
        LAMPORTS_PER_TOKEN,
        strategy_without_cliff(),
    );
    assert_eq!(r.unwrap_err(), ProcessError::NotEnoughAccountKeys);
}

#[test]
fn first_buy_creates_the_vesting_record() {
    let p = pool();
    let effects = Processor::process_buy_with_vesting_instruction(
        &addr(&p.program_id),
        RENT_MIN_BALANCE,
        VESTING_RENT_EXEMPT,
        &buy_accounts(&p, vec![], 2_000_000_000),
        1_000_000,
    )
    .unwrap();

    assert!(effects.create_vesting_account);
    assert_eq!(effects.vesting_bump, p.vesting_bump);
    assert_eq!(effects.lamports_transfer_amount, 1_000_000_000);
    let record = IDOVestingAccount::unpack(&effects.vesting_data).unwrap();
    assert_eq!(record.bought_amount, 1_000_000);
    assert_eq!(record.amount_per_unlock, 200_000);
    assert_eq!(record.claimed_amount, 0);
    assert_eq!(record.last_claim_ts, 0);
    assert_eq!(record.bump, p.vesting_bump);
}

#[test]
fn second_buy_re_averages_the_per_unlock_portion() {
    let p = pool();
    let first = Processor::process_buy_with_vesting_instruction(
        &addr(&p.program_id),
        RENT_MIN_BALANCE,
        VESTING_RENT_EXEMPT,
        &buy_accounts(&p, vec![], 2_000_000_000),
        1_000_000,
    )
    .unwrap();

    let effects = Processor::process_buy_with_vesting_instruction(
        &addr(&p.program_id),
        RENT_MIN_BALANCE,
        VESTING_RENT_EXEMPT,
        &buy_accounts(&p, first.vesting_data, 3_000_000_000),
        2_000_000,
    )
    .unwrap();

    assert!(!effects.create_vesting_account);
    assert_eq!(effects.lamports_transfer_amount, 2_000_000_000);
    let record = IDOVestingAccount::unpack(&effects.vesting_data).unwrap();
    assert_eq!(record.bought_amount, 3_000_000);
    assert_eq!(record.amount_per_unlock, 600_000);
}

#[test]
fn buy_rejects_a_spoofed_vesting_address() {
    let p = pool();
    let mut accounts = buy_accounts(&p, vec![], 2_000_000_000);
    accounts[1].key = addr(&Pubkey::new_unique());
    let r = Processor::process_buy_with_vesting_instruction(
        &addr(&p.program_id),
        RENT_MIN_BALANCE,
        VESTING_RENT_EXEMPT,
        &accounts,
        1_000_000,
    );
    assert_eq!(r.unwrap_err(), ProcessError::InvalidInstructionData);
}

#[test]
fn buy_rejects_a_treasury_of_another_mint() {
    let p = pool();
    let mut accounts = buy_accounts(&p, vec![], 2_000_000_000);
    accounts[2].data = packed_token_account(&Pubkey::new_unique(), &p.treasury, SUPPLY);
    let r = Processor::process_buy_with_vesting_instruction(
        &addr(&p.program_id),
        RENT_MIN_BALANCE,
        VESTING_RENT_EXEMPT,
        &accounts,
        1_000_000,
    );
    assert_eq!(r.unwrap_err(), ProcessError::InvalidInstructionData);
}

#[test]
fn buy_rejects_a_treasury_not_owned_by_itself() {
    let p = pool();
    let mut accounts = buy_accounts(&p, vec![], 2_000_000_000);
    accounts[2].data = packed_token_account(&p.mint, &Pubkey::new_unique(), SUPPLY);
    let r = Processor::process_buy_with_vesting_instruction(
        &addr(&p.program_id),
        RENT_MIN_BALANCE,
        VESTING_RENT_EXEMPT,
        &accounts,
        1_000_000,
    );
    assert_eq!(r.unwrap_err(), ProcessError::InvalidInstructionData);
}

#[test]
fn buy_rejects_an_uninitialized_treasury() {
    let p = pool();
    let mut accounts = buy_accounts(&p, vec![], 2_000_000_000);
    let mut data = packed_token_account(&p.mint, &p.treasury, SUPPLY);
    data[108] = 0;
    accounts[2].data = data;
    let r = Processor::process_buy_with_vesting_instruction(
        &addr(&p.program_id),
        RENT_MIN_BALANCE,
        VESTING_RENT_EXEMPT,
        &accounts,
        1_000_000,
    );
    assert_eq!(r.unwrap_err(), ProcessError::UninitializedAccount);
}

#[test]
fn buy_rejects_a_treasury_with_corrupt_optional_key_tags() {
    let p = pool();
    // A delegate tag that is neither absent nor present does not decode.
    let mut accounts = buy_accounts(&p, vec![], 2_000_000_000);
    let mut data = packed_token_account(&p.mint, &p.treasury, SUPPLY);
    data[72] = 7;
    accounts[2].data = data;
    let r = Processor::process_buy_with_vesting_instruction(
        &addr(&p.program_id),
        RENT_MIN_BALANCE,
        VESTING_RENT_EXEMPT,
        &accounts,
        1_000_000,
    );
    assert_eq!(r.unwrap_err(), ProcessError::InvalidAccountData);

    // The same for the close-authority tag at the end of the layout.
    let mut accounts = buy_accounts(&p, vec![], 2_000_000_000);
    let mut data = packed_token_account(&p.mint, &p.treasury, SUPPLY);
    data[129] = 7;
    accounts[2].data = data;
    let r = Processor::process_buy_with_vesting_instruction(
        &addr(&p.program_id),
        RENT_MIN_BALANCE,
        VESTING_RENT_EXEMPT,
        &accounts,
        1_000_000,
    );
    assert_eq!(r.unwrap_err(), ProcessError::InvalidAccountData);
}

#[test]
fn buy_rejects_an_unpayable_price() {
    let p = pool();
    let r = Processor::process_buy_with_vesting_instruction(
        &addr(&p.program_id),
        RENT_MIN_BALANCE,
        VESTING_RENT_EXEMPT,
        &buy_accounts(&p, vec![], 2_000_000_000),
        u64::MAX,
    );
    assert_eq!(r.unwrap_err(), ProcessError::ArithmeticOverflow);
}

#[test]
fn buy_rejects_an_underfunded_buyer() {
    let p = pool();
    // The price is 1_000_000_000; the buyer's balance barely misses it once
    // the persistence reserve and the new vesting account's funding are
    // held back.
    let r = Processor::process_buy_with_vesting_instruction(
        &addr(&p.program_id),
        RENT_MIN_BALANCE,
        VESTING_RENT_EXEMPT,
        &buy_accounts(&p, vec![], 1_000_000_000 + RENT_MIN_BALANCE + VESTING_RENT_EXEMPT - 1),
        1_000_000,
    );
    assert_eq!(r.unwrap_err(), ProcessError::InsufficientFunds);

    // A balance below the reserve itself is also insufficient.
    let r = Processor::process_buy_with_vesting_instruction(
        &addr(&p.program_id),
        RENT_MIN_BALANCE,
        VESTING_RENT_EXEMPT,
        &buy_accounts(&p, vec![], RENT_MIN_BALANCE - 1),
        1_000_000,
    );
    assert_eq!(r.unwrap_err(), ProcessError::InsufficientFunds);
}

#[test]
fn claim_timeline_follows_the_schedule() {
    let p = pool();
    let bought = Processor::process_buy_with_vesting_instruction(
        &addr(&p.program_id),
        RENT_MIN_BALANCE,
        VESTING_RENT_EXEMPT,
        &buy_accounts(&p, vec![], 2_000_000_000),
        1_000_000,
    )
    .unwrap();

    // An immediate claim right after the (resolved) cliff releases one
    // unlock's worth.
    let first = Processor::process_claim_instruction(
        &addr(&p.program_id),
        NOW,
        &claim_accounts(&p, bought.vesting_data.clone(), &p.system_program),
    )
    .unwrap();
    assert_eq!(first.transfer_amount, 200_000);
    assert_eq!(first.treasury_bump, p.treasury_bump);
    assert_eq!(first.mint_decimals, 9);
    assert!(first.create_recipient_ata);
    let after_first = IDOVestingAccount::unpack(&first.vesting_data).unwrap();
    assert_eq!(after_first.claimed_amount, 200_000);
    assert_eq!(after_first.last_claim_ts, NOW);

    // Five seconds later no new period has elapsed.
    let early = Processor::process_claim_instruction(
        &addr(&p.program_id),
        NOW + 5,
        &claim_accounts(&p, first.vesting_data.clone(), &p.system_program),
    );
    assert_eq!(
        early.unwrap_err(),
        ProcessError::Custom(IDOProgramError::VestingIsActive)
    );

    // After 125 seconds two whole periods have passed since the cliff.
    let second = Processor::process_claim_instruction(
        &addr(&p.program_id),
        NOW + 125,
        &claim_accounts(&p, first.vesting_data.clone(), &p.token_program),
    )
    .unwrap();
    assert_eq!(second.transfer_amount, 400_000);
    assert!(!second.create_recipient_ata);
    let after_second = IDOVestingAccount::unpack(&second.vesting_data).unwrap();
    assert_eq!(after_second.claimed_amount, 600_000);

    // Past maturity the whole remainder is released, never more.
    let last = Processor::process_claim_instruction(
        &addr(&p.program_id),
        NOW + 300,
        &claim_accounts(&p, second.vesting_data, &p.token_program),
    )
    .unwrap();
    assert_eq!(last.transfer_amount, 400_000);
    let settled = IDOVestingAccount::unpack(&last.vesting_data).unwrap();
    assert_eq!(settled.claimed_amount, settled.bought_amount);
}

#[test]
fn unsigned_claim_is_rejected_before_any_decision() {
    // Listing the buyer's address without the buyer's signature must not
    // release anything, even with every derived address correct and the
    // position claimable.
    let p = pool();
    let record = IDOVestingAccount::new(1_000_000, 200_000, p.vesting_bump).pack();
    let mut accounts = claim_accounts(&p, record, &p.system_program);
    accounts[0].is_signer = false;
    let r = Processor::process_claim_instruction(&addr(&p.program_id), NOW, &accounts);
    assert_eq!(r.unwrap_err(), ProcessError::MissingRequiredSignature);
}

#[test]
fn claim_before_any_buy_is_rejected() {
    let p = pool();
    let r = Processor::process_claim_instruction(
        &addr(&p.program_id),
        NOW,
        &claim_accounts(&p, vec![], &p.system_program),
    );
    assert_eq!(r.unwrap_err(), ProcessError::Custom(IDOProgramError::ClaimBeforeBuy));
}

#[test]
fn claim_before_the_cliff_is_rejected() {
    let p = pool();
    let record = IDOVestingAccount::new(1_000_000, 200_000, p.vesting_bump).pack();
    let r = Processor::process_claim_instruction(
        &addr(&p.program_id),
        NOW - 10,
        &claim_accounts(&p, record, &p.system_program),
    );
    assert_eq!(r.unwrap_err(), ProcessError::Custom(IDOProgramError::CliffIsActive));
}

#[test]
fn claim_rejects_a_spoofed_treasury_address() {
    let p = pool();
    let record = IDOVestingAccount::new(1_000_000, 200_000, p.vesting_bump).pack();
    let mut accounts = claim_accounts(&p, record, &p.system_program);
    accounts[4].key = addr(&Pubkey::new_unique());
    let r = Processor::process_claim_instruction(&addr(&p.program_id), NOW, &accounts);
    assert_eq!(r.unwrap_err(), ProcessError::InvalidInstructionData);
}

#[test]
fn claim_rejects_a_spoofed_vesting_address() {
    let p = pool();
    let record = IDOVestingAccount::new(1_000_000, 200_000, p.vesting_bump).pack();
    let mut accounts = claim_accounts(&p, record, &p.system_program);
    accounts[3].key = addr(&Pubkey::new_unique());
    let r = Processor::process_claim_instruction(&addr(&p.program_id), NOW, &accounts);
    assert_eq!(r.unwrap_err(), ProcessError::InvalidInstructionData);
}

#[test]
fn process_dispatches_on_the_opcode() {
    let p = pool();
    let data = IDOInstruction::BuyWithVesting { amount: 1_000_000 }.pack();
    let r = Processor::process(
        &addr(&p.program_id),
        NOW,
        RENT_MIN_BALANCE,
        VESTING_RENT_EXEMPT,
        &buy_accounts(&p, vec![], 2_000_000_000),
        &data,
    )
    .unwrap();
    match r {
        ProcessEffects::Buy(effects) => {
            assert_eq!(effects.lamports_transfer_amount, 1_000_000_000);
        },
        _ => panic!("expected buy effects"),
    }

    let bad = Processor::process(
        &addr(&p.program_id),
        NOW,
        RENT_MIN_BALANCE,
        VESTING_RENT_EXEMPT,
        &[],
        &[9, 9, 9],
    );
    assert_eq!(bad.unwrap_err(), ProcessError::InvalidInstructionData);
}

#[test]
fn config_data_rejections_surface_through_buy() {
    let p = pool();
    // Wrong size.
    let mut accounts = buy_accounts(&p, vec![], 2_000_000_000);
    accounts[3].data = vec![0u8; 30];
    let r = Processor::process_buy_with_vesting_instruction(
        &addr(&p.program_id),
        RENT_MIN_BALANCE,
        VESTING_RENT_EXEMPT,
        &accounts,
        1_000_000,
    );
    assert_eq!(r.unwrap_err(), ProcessError::InvalidAccountData);

    // Cleared initialized flag.
    let mut accounts = buy_accounts(&p, vec![], 2_000_000_000);
    let mut config_data = initialized_config_data(&p);
    config_data[30] = 0;
    accounts[3].data = config_data;
    let r = Processor::process_buy_with_vesting_instruction(
        &addr(&p.program_id),
        RENT_MIN_BALANCE,
        VESTING_RENT_EXEMPT,
        &accounts,
        1_000_000,
    );
    assert_eq!(r.unwrap_err(), ProcessError::UninitializedAccount);
}
