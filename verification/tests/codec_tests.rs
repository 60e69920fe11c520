use ido_with_vesting::error::ProcessError;
use ido_with_vesting::instruction::IDOInstruction;
use ido_with_vesting::state::IDOConfigAccount;
use ido_with_vesting::state::IDOVestingAccount;
use ido_with_vesting::state::IDO_CONFIG_ACCOUNT_LEN;
use ido_with_vesting::state::IDO_VESTING_ACCOUNT_LEN;
use ido_with_vesting::utils::Reader;
use ido_with_vesting::utils::ReadBytes;
use ido_with_vesting::utils::read_i64_slice;
use ido_with_vesting::utils::read_linear_vesting_strategy_slice;
use ido_with_vesting::utils::read_u32_slice;
use ido_with_vesting::utils::read_u64_slice;
use ido_with_vesting::utils::strategy_to_le_bytes;
use ido_with_vesting::vesting::LinearVestingStrategy;

#[test]
fn read_u64_slice_reads_little_endian() {
    let mut data = vec![0xEF, 0xBE, 0xAD, 0xDE, 0x78, 0x56, 0x34, 0x12];
    assert_eq!(read_u64_slice(&data, 0), Ok(0x1234_5678_DEAD_BEEF));
    data.push(0xFF);
    assert_eq!(read_u64_slice(&data, 1), Ok(0xFF12_3456_78DE_ADBE));
}

#[test]
fn read_u64_slice_rejects_out_of_range_reads() {
    let data = [0u8; 8];
    assert_eq!(read_u64_slice(&data, 1), Err(ProcessError::InvalidInstructionData));
    assert_eq!(read_u64_slice(&[], 0), Err(ProcessError::InvalidInstructionData));
    // A start near usize::MAX must not wrap around.
    assert_eq!(read_u64_slice(&data, usize::MAX), Err(ProcessError::InvalidInstructionData));
}

#[test]
fn read_i64_slice_reads_negative_values() {
    let data = (-17i64).to_le_bytes();
    assert_eq!(read_i64_slice(&data, 0), Ok(-17));
    assert_eq!(read_i64_slice(&data[..7], 0), Err(ProcessError::InvalidInstructionData));
}

#[test]
fn read_u32_slice_reads_little_endian() {
    let data = [0x0A, 0x00, 0x00, 0x00, 0xFF];
    assert_eq!(read_u32_slice(&data, 0), Ok(10));
    assert_eq!(read_u32_slice(&data, 1), Ok(0xFF00_0000));
    assert_eq!(read_u32_slice(&data, 2), Err(ProcessError::InvalidInstructionData));
}

#[test]
fn strategy_bytes_round_trip() {
    let s = LinearVestingStrategy {
        cliff_end_ts: 1_700_000_000,
        vesting_end_ts: 1_700_000_300,
        unlock_period: -60,
    };
    let bytes = strategy_to_le_bytes(&s);
    assert_eq!(bytes.len(), 24);
    assert_eq!(read_linear_vesting_strategy_slice(&bytes, 0), Ok(s));
    assert_eq!(
        read_linear_vesting_strategy_slice(&bytes, 1),
        Err(ProcessError::InvalidInstructionData)
    );
}

#[test]
fn reader_methods_match_the_slice_readers() {
    let mut data = Vec::new();
    data.extend_from_slice(&42u64.to_le_bytes());
    data.extend_from_slice(&7u32.to_le_bytes());
    let reader = Reader::new(&data);
    assert_eq!(reader.read_u64(0), Ok(42));
    assert_eq!(reader.read_u32(8), Ok(7));
    assert_eq!(reader.read_i64(0), Ok(42));
    assert_eq!(reader.read_u64(5), Err(ProcessError::InvalidInstructionData));
}

#[test]
fn instruction_unpack_decodes_each_opcode() {
    let s = LinearVestingStrategy {
        cliff_end_ts: 0,
        vesting_end_ts: 1_700_000_300,
        unlock_period: 60,
    };

    let mut init = vec![0u8];
    init.extend_from_slice(&1_000_000_000u64.to_le_bytes());
    init.extend_from_slice(&1_000u32.to_le_bytes());
    init.extend_from_slice(&strategy_to_le_bytes(&s));
    assert_eq!(init.len(), 37);
    assert_eq!(
        IDOInstruction::unpack(&init),
        Ok(IDOInstruction::InitializeWithVesting {
            amount: 1_000_000_000,
            lamports_per_token: 1_000,
            vesting_strategy: s,
        })
    );

    let mut buy = vec![1u8];
    buy.extend_from_slice(&17_000_000u64.to_le_bytes());
    assert_eq!(IDOInstruction::unpack(&buy), Ok(IDOInstruction::BuyWithVesting {
        amount: 17_000_000,
    }));

    assert_eq!(IDOInstruction::unpack(&[2]), Ok(IDOInstruction::Claim));
}

#[test]
fn instruction_unpack_rejects_malformed_buffers() {
    // Empty buffer.
    assert_eq!(IDOInstruction::unpack(&[]), Err(ProcessError::InvalidInstructionData));
    // Unknown opcode.
    assert_eq!(IDOInstruction::unpack(&[3]), Err(ProcessError::InvalidInstructionData));
    // Wrong payload lengths.
    assert_eq!(IDOInstruction::unpack(&[0; 36]), Err(ProcessError::InvalidInstructionData));
    assert_eq!(IDOInstruction::unpack(&[1; 8]), Err(ProcessError::InvalidInstructionData));
    assert_eq!(IDOInstruction::unpack(&[2, 0]), Err(ProcessError::InvalidInstructionData));
}

#[test]
fn instruction_pack_unpack_round_trip() {
    let cases = vec![
        IDOInstruction::InitializeWithVesting {
            amount: 123,
            lamports_per_token: 456,
            vesting_strategy: LinearVestingStrategy {
                cliff_end_ts: 1,
                vesting_end_ts: 2,
                unlock_period: 3,
            },
        },
        IDOInstruction::BuyWithVesting { amount: u64::MAX },
        IDOInstruction::Claim,
    ];
    for ix in cases {
        assert_eq!(IDOInstruction::unpack(&ix.pack()), Ok(ix));
    }
}

#[test]
fn instruction_pack_emits_the_wire_layout() {
    let bytes = IDOInstruction::BuyWithVesting { amount: 17_000_000 }.pack();
    let mut expected = vec![1u8];
    expected.extend_from_slice(&17_000_000u64.to_le_bytes());
    assert_eq!(bytes, expected);
    assert_eq!(IDOInstruction::Claim.pack(), vec![2u8]);
}

#[test]
fn config_record_packs_its_fixed_layout() {
    let c = IDOConfigAccount {
        vesting_strategy: LinearVestingStrategy {
            cliff_end_ts: 100,
            vesting_end_ts: 400,
            unlock_period: 60,
        },
        lamports_per_token: 1_000,
        bump: 254,
        unlocks: 5,
        is_initialized: true,
    };
    let bytes = c.pack();
    assert_eq!(bytes.len(), IDO_CONFIG_ACCOUNT_LEN);
    assert_eq!(&bytes[0..8], &100i64.to_le_bytes());
    assert_eq!(&bytes[8..16], &400i64.to_le_bytes());
    assert_eq!(&bytes[16..24], &60i64.to_le_bytes());
    assert_eq!(&bytes[24..28], &1_000u32.to_le_bytes());
    assert_eq!(bytes[28], 254);
    assert_eq!(bytes[29], 5);
    assert_eq!(bytes[30], 1);
    assert_eq!(IDOConfigAccount::unpack(&bytes), Ok(c));
}

#[test]
fn config_unpack_rejects_bad_buffers() {
    let c = IDOConfigAccount {
        vesting_strategy: LinearVestingStrategy {
            cliff_end_ts: 100,
            vesting_end_ts: 400,
            unlock_period: 60,
        },
        lamports_per_token: 1_000,
        bump: 254,
        unlocks: 5,
        is_initialized: false,
    };
    let bytes = c.pack();
    // Uninitialized record.
    assert_eq!(IDOConfigAccount::unpack(&bytes), Err(ProcessError::UninitializedAccount));
    // Wrong size.
    assert_eq!(IDOConfigAccount::unpack(&bytes[..30]), Err(ProcessError::InvalidAccountData));
    let mut long = bytes.clone();
    long.push(0);
    assert_eq!(IDOConfigAccount::unpack(&long), Err(ProcessError::InvalidAccountData));
}

#[test]
fn vesting_record_packs_its_fixed_layout() {
    let v = IDOVestingAccount {
        last_claim_ts: 1_700_000_125,
        claimed_amount: 600_000,
        bought_amount: 3_000_000,
        amount_per_unlock: 600_000,
        bump: 253,
        is_initialized: true,
    };
    let bytes = v.pack();
    assert_eq!(bytes.len(), IDO_VESTING_ACCOUNT_LEN);
    assert_eq!(&bytes[0..8], &1_700_000_125i64.to_le_bytes());
    assert_eq!(&bytes[8..16], &600_000u64.to_le_bytes());
    assert_eq!(&bytes[16..24], &3_000_000u64.to_le_bytes());
    assert_eq!(&bytes[24..32], &600_000u64.to_le_bytes());
    assert_eq!(bytes[32], 253);
    assert_eq!(bytes[33], 1);
    assert_eq!(IDOVestingAccount::unpack(&bytes), Ok(v));
}

#[test]
fn vesting_unpack_rejects_bad_buffers() {
    assert_eq!(IDOVestingAccount::unpack(&[]), Err(ProcessError::InvalidAccountData));
    assert_eq!(IDOVestingAccount::unpack(&[0u8; 34]), Err(ProcessError::UninitializedAccount));
    assert_eq!(IDOVestingAccount::unpack(&[0u8; 33]), Err(ProcessError::InvalidAccountData));
}

#[test]
fn pack_into_slice_writes_the_prefix_and_keeps_the_tail() {
    let v = IDOVestingAccount {
        last_claim_ts: 7,
        claimed_amount: 8,
        bought_amount: 9,
        amount_per_unlock: 1,
        bump: 2,
        is_initialized: true,
    };
    // An account buffer longer than the record: only the first 34 bytes
    // change.
    let mut dst = vec![0xAAu8; 40];
    v.pack_into_slice(&mut dst);
    assert_eq!(dst.len(), 40);
    assert_eq!(&dst[..34], v.pack().as_slice());
    assert_eq!(&dst[34..], &[0xAAu8; 6]);

    let c = IDOConfigAccount {
        vesting_strategy: LinearVestingStrategy {
            cliff_end_ts: 1,
            vesting_end_ts: 2,
            unlock_period: 3,
        },
        lamports_per_token: 4,
        bump: 5,
        unlocks: 6,
        is_initialized: true,
    };
    let mut dst = vec![0xBBu8; 33];
    c.pack_into_slice(&mut dst);
    assert_eq!(dst.len(), 33);
    assert_eq!(&dst[..31], c.pack().as_slice());
    assert_eq!(&dst[31..], &[0xBBu8; 2]);
}

#[test]
fn vesting_new_starts_with_a_clean_record() {
    let v = IDOVestingAccount::new(17_000_000, 3_400_000, 251);
    assert_eq!(v.last_claim_ts, 0);
    assert_eq!(v.claimed_amount, 0);
    assert_eq!(v.bought_amount, 17_000_000);
    assert_eq!(v.amount_per_unlock, 3_400_000);
    assert_eq!(v.bump, 251);
    assert!(v.is_initialized());
}
