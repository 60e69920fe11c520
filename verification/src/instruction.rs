//! The instruction wire format: an opcode byte followed by a fixed-size
//! payload whose length depends on the opcode.  Decoding performs no
//! semantic validation; any length mismatch or unrecognized opcode fails
//! with a decoding error.

use vstd::prelude::*;

use vstd::bytes::spec_u32_from_le_bytes;
use vstd::bytes::spec_u64_from_le_bytes;
use vstd::bytes::u32_to_le_bytes;
use vstd::bytes::u64_to_le_bytes;
use vstd::slice::slice_index_get;
use vstd::slice::slice_subrange;

use crate::error::ProcessError;
use crate::utils::ReadBytes;
use crate::utils::Reader;
use crate::utils::read_u64_slice;
use crate::utils::spec_strategy_from_le_bytes;
use crate::utils::spec_strategy_to_le_bytes;
use crate::utils::strategy_to_le_bytes;
use crate::vesting::LinearVestingStrategy;

verus! {

/// The three operations the handler accepts.
#[derive(Clone, Copy, Debug, PartialEq, Eq, Structural)]
pub enum IDOInstruction {
    /// Opcode 0: register a pool with its vesting schedule, price and
    /// initial token supply.
    InitializeWithVesting {
        amount: u64,
        lamports_per_token: u32,
        vesting_strategy: LinearVestingStrategy,
    },
    /// Opcode 1: buy `amount` tokens into the caller's vesting position.
    BuyWithVesting { amount: u64 },
    /// Opcode 2: release whatever the schedule allows at the current time.
    Claim,
}

/// What decoding an instruction buffer yields: the typed operation, or a
/// decoding error for an empty buffer, an unrecognized opcode, or a payload
/// of the wrong length.
pub open spec fn spec_unpack_instruction(data: Seq<u8>) -> Result<IDOInstruction, ProcessError> {
    if data.len() < 1 {
        Err(ProcessError::InvalidInstructionData)
    } else {
        let payload = data.subrange(1, data.len() as int);
        if data[0] == 0 {
            if payload.len() == 36 {
                Ok(
                    IDOInstruction::InitializeWithVesting {
                        amount: spec_u64_from_le_bytes(payload.subrange(0, 8)),
                        lamports_per_token: spec_u32_from_le_bytes(payload.subrange(8, 12)),
                        vesting_strategy: spec_strategy_from_le_bytes(payload.subrange(12, 36)),
                    },
                )
            } else {
                Err(ProcessError::InvalidInstructionData)
            }
        } else if data[0] == 1 {
            if payload.len() == 8 {
                Ok(
                    IDOInstruction::BuyWithVesting {
                        amount: spec_u64_from_le_bytes(payload.subrange(0, 8)),
                    },
                )
            } else {
                Err(ProcessError::InvalidInstructionData)
            }
        } else if data[0] == 2 {
            if payload.len() == 0 {
                Ok(IDOInstruction::Claim)
            } else {
                Err(ProcessError::InvalidInstructionData)
            }
        } else {
            Err(ProcessError::InvalidInstructionData)
        }
    }
}

/// The wire form of an instruction: its opcode byte followed by its payload.
pub open spec fn spec_pack_instruction(ix: IDOInstruction) -> Seq<u8> {
    match ix {
        IDOInstruction::InitializeWithVesting { amount, lamports_per_token, vesting_strategy } => {
            seq![0u8] + vstd::bytes::spec_u64_to_le_bytes(amount)
                + vstd::bytes::spec_u32_to_le_bytes(lamports_per_token) + spec_strategy_to_le_bytes(
                vesting_strategy,
            )
        },
        IDOInstruction::BuyWithVesting { amount } => {
            seq![1u8] + vstd::bytes::spec_u64_to_le_bytes(amount)
        },
        IDOInstruction::Claim => seq![2u8],
    }
}

impl IDOInstruction {
    /// Decodes an opcode byte and its payload into a typed operation.
    pub fn unpack(data: &[u8]) -> (r: Result<Self, ProcessError>)
        ensures
            r == spec_unpack_instruction(data@),
    {
        if data.len() < 1 {
            return Err(ProcessError::InvalidInstructionData);
        }
        let instr_discriminator: u8 = *slice_index_get(data, 0);
        let payload: &[u8] = slice_subrange(data, 1, data.len());

        match instr_discriminator {
            0 => Self::unpack_initialize_with_vesting(payload),
            1 => Self::unpack_buy_with_vesting(payload),
            2 => Self::unpack_claim(payload),
            _ => Err(ProcessError::InvalidInstructionData),
        }
    }

    /// Decodes the 36-byte payload of opcode 0: amount, price, strategy.
    pub fn unpack_initialize_with_vesting(data: &[u8]) -> (r: Result<Self, ProcessError>)
        ensures
            data@.len() == 36 ==> r == Ok::<IDOInstruction, ProcessError>(
                IDOInstruction::InitializeWithVesting {
                    amount: spec_u64_from_le_bytes(data@.subrange(0, 8)),
                    lamports_per_token: spec_u32_from_le_bytes(data@.subrange(8, 12)),
                    vesting_strategy: spec_strategy_from_le_bytes(data@.subrange(12, 36)),
                },
            ),
            data@.len() != 36 ==> r == Err::<IDOInstruction, ProcessError>(
                ProcessError::InvalidInstructionData,
            ),
    {
        match Self::check_expected_payload_len(data.len(), 36) {
            Ok(()) => (),
            Err(e) => return Err(e),
        }
        let reader = Reader::new(data);

        let amount: u64 = match reader.read_u64(0) {
            Ok(v) => v,
            Err(e) => return Err(e),
        };
        let lamports_per_token: u32 = match reader.read_u32(8) {
            Ok(v) => v,
            Err(e) => return Err(e),
        };
        let vesting_strategy: LinearVestingStrategy = match reader.read_linear_vesting_strategy(
            12,
        ) {
            Ok(v) => v,
            Err(e) => return Err(e),
        };

        Ok(Self::InitializeWithVesting { amount, lamports_per_token, vesting_strategy })
    }

    /// Decodes the 8-byte payload of opcode 1: the purchase amount.
    pub fn unpack_buy_with_vesting(data: &[u8]) -> (r: Result<Self, ProcessError>)
        ensures
            data@.len() == 8 ==> r == Ok::<IDOInstruction, ProcessError>(
                IDOInstruction::BuyWithVesting {
                    amount: spec_u64_from_le_bytes(data@.subrange(0, 8)),
                },
            ),
            data@.len() != 8 ==> r == Err::<IDOInstruction, ProcessError>(
                ProcessError::InvalidInstructionData,
            ),
    {
        match Self::check_expected_payload_len(data.len(), 8) {
            Ok(()) => (),
            Err(e) => return Err(e),
        }
        let amount: u64 = match read_u64_slice(data, 0) {
            Ok(v) => v,
            Err(e) => return Err(e),
        };

        Ok(Self::BuyWithVesting { amount })
    }

    /// Decodes the empty payload of opcode 2.
    pub fn unpack_claim(data: &[u8]) -> (r: Result<Self, ProcessError>)
        ensures
            data@.len() == 0 ==> r == Ok::<IDOInstruction, ProcessError>(IDOInstruction::Claim),
            data@.len() != 0 ==> r == Err::<IDOInstruction, ProcessError>(
                ProcessError::InvalidInstructionData,
            ),
    {
        match Self::check_expected_payload_len(data.len(), 0) {
            Ok(()) => (),
            Err(e) => return Err(e),
        }
        Ok(Self::Claim)
    }

    /// `expected_len` is the payload length without the opcode byte.
    fn check_expected_payload_len(data_len: usize, expected_len: usize) -> (r: Result<
        (),
        ProcessError,
    >)
        ensures
            r is Ok <==> data_len == expected_len,
            r matches Err(e) ==> e == ProcessError::InvalidInstructionData,
    {
        if data_len != expected_len {
            return Err(ProcessError::InvalidInstructionData);
        }
        Ok(())
    }

    /// Encodes the operation into its wire form.
    pub fn pack(&self) -> (r: Vec<u8>)
        ensures
            r@ == spec_pack_instruction(*self),
    {
        match self {
            IDOInstruction::InitializeWithVesting {
                amount,
                lamports_per_token,
                vesting_strategy,
            } => {
                let mut r: Vec<u8> = vec![0u8];
                let mut amount_bytes: Vec<u8> = u64_to_le_bytes(*amount);
                let mut price_bytes: Vec<u8> = u32_to_le_bytes(*lamports_per_token);
                let mut strategy_bytes: Vec<u8> = strategy_to_le_bytes(vesting_strategy);
                r.append(&mut amount_bytes);
                r.append(&mut price_bytes);
                r.append(&mut strategy_bytes);
                proof {
                    assert(r@ =~= spec_pack_instruction(*self));
                }
                r
            },
            IDOInstruction::BuyWithVesting { amount } => {
                let mut r: Vec<u8> = vec![1u8];
                let mut amount_bytes: Vec<u8> = u64_to_le_bytes(*amount);
                r.append(&mut amount_bytes);
                proof {
                    assert(r@ =~= spec_pack_instruction(*self));
                }
                r
            },
            IDOInstruction::Claim => {
                let r: Vec<u8> = vec![2u8];
                proof {
                    assert(r@ =~= spec_pack_instruction(*self));
                }
                r
            },
        }
    }
}

/// Decoding an encoded instruction gives the instruction back: the wire
/// format loses nothing.
pub proof fn lemma_instruction_roundtrip(ix: IDOInstruction)
    ensures
        spec_unpack_instruction(spec_pack_instruction(ix)) == Ok::<IDOInstruction, ProcessError>(
            ix,
        ),
{
    vstd::bytes::lemma_auto_spec_u64_to_from_le_bytes();
    vstd::bytes::lemma_auto_spec_u32_to_from_le_bytes();
    let data = spec_pack_instruction(ix);
    match ix {
        IDOInstruction::InitializeWithVesting { amount, lamports_per_token, vesting_strategy } => {
            let payload = data.subrange(1, data.len() as int);
            assert(payload.len() == 36);
            assert(payload.subrange(0, 8) =~= vstd::bytes::spec_u64_to_le_bytes(amount));
            assert(payload.subrange(8, 12) =~= vstd::bytes::spec_u32_to_le_bytes(
                lamports_per_token,
            ));
            assert(payload.subrange(12, 36) =~= spec_strategy_to_le_bytes(vesting_strategy));
            crate::utils::lemma_strategy_le_bytes_roundtrip(vesting_strategy);
        },
        IDOInstruction::BuyWithVesting { amount } => {
            let payload = data.subrange(1, data.len() as int);
            assert(payload.len() == 8);
            assert(payload.subrange(0, 8) =~= vstd::bytes::spec_u64_to_le_bytes(amount));
        },
        IDOInstruction::Claim => {
            assert(data.subrange(1, data.len() as int).len() == 0);
        },
    }
}

} // verus!
