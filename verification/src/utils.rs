//! Ledger addresses, bounds-checked little-endian readers, and the
//! deterministic sub-account derivation.

use vstd::prelude::*;

use vstd::bytes::spec_u32_from_le_bytes;
use vstd::bytes::spec_u64_from_le_bytes;
use vstd::bytes::spec_u64_to_le_bytes;
use vstd::bytes::u32_from_le_bytes;
use vstd::bytes::u64_from_le_bytes;
use vstd::bytes::u64_to_le_bytes;
use vstd::slice::slice_subrange;
use vstd::slice::slice_to_vec;

use crate::error::ProcessError;
use crate::vesting::LinearVestingStrategy;

verus! {

/// A 32-byte ledger address.
#[derive(Clone, Copy, Debug)]
pub struct Address {
    pub bytes: [u8; 32],
}

impl View for Address {
    type V = Seq<u8>;

    open spec fn view(&self) -> Seq<u8> {
        self.bytes@
    }
}

impl Address {
    /// Exact byte-for-byte comparison of two addresses.
    pub fn eq_bytes(&self, other: &Address) -> (r: bool)
        ensures
            r == (self@ == other@),
    {
        let mut i: usize = 0;
        while i < 32
            invariant
                0 <= i <= 32,
                forall|j: int| 0 <= j < i ==> self.bytes@[j] == other.bytes@[j],
            decreases 32 - i,
        {
            if self.bytes[i] != other.bytes[i] {
                assert(self@[i as int] != other@[i as int]);
                return false;
            }
            i += 1;
        }
        proof {
            assert(self@ =~= other@);
        }
        true
    }

    /// The address's bytes as an owned vector, for use as a derivation seed.
    pub fn to_seed(&self) -> (r: Vec<u8>)
        ensures
            r@ == self@,
    {
        slice_to_vec(self.bytes.as_slice())
    }
}

/// The signed interpretation of eight little-endian bytes.
pub open spec fn spec_i64_from_le_bytes(s: Seq<u8>) -> i64 {
    spec_u64_from_le_bytes(s) as i64
}

/// Reads a `u64` from the eight little-endian bytes at `data[start..]`,
/// failing with a decoding error when the range is out of bounds.
pub fn read_u64_slice(data: &[u8], start: usize) -> (r: Result<u64, ProcessError>)
    ensures
        start + 8 <= data@.len() ==> r == Ok::<u64, ProcessError>(
            spec_u64_from_le_bytes(data@.subrange(start as int, start as int + 8)),
        ),
        start + 8 > data@.len() ==> r == Err::<u64, ProcessError>(
            ProcessError::InvalidInstructionData,
        ),
{
    if data.len() < 8 || start > data.len() - 8 {
        return Err(ProcessError::InvalidInstructionData);
    }
    let bytes: &[u8] = slice_subrange(data, start, start + 8);
    Ok(u64_from_le_bytes(bytes))
}

/// Reads an `i64` from the eight little-endian bytes at `data[start..]`,
/// failing with a decoding error when the range is out of bounds.
pub fn read_i64_slice(data: &[u8], start: usize) -> (r: Result<i64, ProcessError>)
    ensures
        start + 8 <= data@.len() ==> r == Ok::<i64, ProcessError>(
            spec_i64_from_le_bytes(data@.subrange(start as int, start as int + 8)),
        ),
        start + 8 > data@.len() ==> r == Err::<i64, ProcessError>(
            ProcessError::InvalidInstructionData,
        ),
{
    if data.len() < 8 || start > data.len() - 8 {
        return Err(ProcessError::InvalidInstructionData);
    }
    let bytes: &[u8] = slice_subrange(data, start, start + 8);
    Ok(u64_from_le_bytes(bytes) as i64)
}

/// Reads a `u32` from the four little-endian bytes at `data[start..]`,
/// failing with a decoding error when the range is out of bounds.
pub fn read_u32_slice(data: &[u8], start: usize) -> (r: Result<u32, ProcessError>)
    ensures
        start + 4 <= data@.len() ==> r == Ok::<u32, ProcessError>(
            spec_u32_from_le_bytes(data@.subrange(start as int, start as int + 4)),
        ),
        start + 4 > data@.len() ==> r == Err::<u32, ProcessError>(
            ProcessError::InvalidInstructionData,
        ),
{
    if data.len() < 4 || start > data.len() - 4 {
        return Err(ProcessError::InvalidInstructionData);
    }
    let bytes: &[u8] = slice_subrange(data, start, start + 4);
    Ok(u32_from_le_bytes(bytes))
}

/// The eight little-endian bytes of an `i64`, through its unsigned bit
/// pattern.
pub open spec fn spec_i64_to_le_bytes(x: i64) -> Seq<u8> {
    spec_u64_to_le_bytes(x as u64)
}

/// Writing an `i64` as eight little-endian bytes and reading them back gives
/// the value out again.
pub proof fn lemma_i64_le_bytes_roundtrip(x: i64)
    ensures
        spec_i64_to_le_bytes(x).len() == 8,
        spec_i64_from_le_bytes(spec_i64_to_le_bytes(x)) == x,
{
    vstd::bytes::lemma_auto_spec_u64_to_from_le_bytes();
    assert((x as u64) as i64 == x) by (bit_vector);
}

/// Encodes an `i64` as eight little-endian bytes.
pub fn i64_to_le_bytes(x: i64) -> (r: Vec<u8>)
    ensures
        r@ == spec_i64_to_le_bytes(x),
{
    u64_to_le_bytes(x as u64)
}

/// The strategy triple encoded in the 24 bytes at `s`: cliff end, vesting
/// end, unlock period, each a little-endian `i64`.
pub open spec fn spec_strategy_from_le_bytes(s: Seq<u8>) -> LinearVestingStrategy {
    LinearVestingStrategy {
        cliff_end_ts: spec_i64_from_le_bytes(s.subrange(0, 8)),
        vesting_end_ts: spec_i64_from_le_bytes(s.subrange(8, 16)),
        unlock_period: spec_i64_from_le_bytes(s.subrange(16, 24)),
    }
}

/// Reads a vesting-strategy triple from the 24 bytes at `data[start..]`,
/// failing with a decoding error when the range is out of bounds.
pub fn read_linear_vesting_strategy_slice(data: &[u8], start: usize) -> (r: Result<
    LinearVestingStrategy,
    ProcessError,
>)
    ensures
        start + 24 <= data@.len() ==> r == Ok::<LinearVestingStrategy, ProcessError>(
            spec_strategy_from_le_bytes(data@.subrange(start as int, start as int + 24)),
        ),
        start + 24 > data@.len() ==> r == Err::<LinearVestingStrategy, ProcessError>(
            ProcessError::InvalidInstructionData,
        ),
{
    if data.len() < 24 || start > data.len() - 24 {
        return Err(ProcessError::InvalidInstructionData);
    }
    let cliff_end_ts: i64 = match read_i64_slice(data, start) {
        Ok(v) => v,
        Err(e) => return Err(e),
    };
    let vesting_end_ts: i64 = match read_i64_slice(data, start + 8) {
        Ok(v) => v,
        Err(e) => return Err(e),
    };
    let unlock_period: i64 = match read_i64_slice(data, start + 16) {
        Ok(v) => v,
        Err(e) => return Err(e),
    };
    let r = LinearVestingStrategy { cliff_end_ts, vesting_end_ts, unlock_period };
    proof {
        let whole = data@.subrange(start as int, start as int + 24);
        assert(data@.subrange(start as int, start as int + 8) =~= whole.subrange(0, 8));
        assert(data@.subrange(start as int + 8, start as int + 16) =~= whole.subrange(8, 16));
        assert(data@.subrange(start as int + 16, start as int + 24) =~= whole.subrange(16, 24));
    }
    Ok(r)
}

/// The 24-byte wire form of a strategy triple: cliff end, vesting end,
/// unlock period, each a little-endian `i64`.
pub open spec fn spec_strategy_to_le_bytes(s: LinearVestingStrategy) -> Seq<u8> {
    spec_i64_to_le_bytes(s.cliff_end_ts) + spec_i64_to_le_bytes(s.vesting_end_ts)
        + spec_i64_to_le_bytes(s.unlock_period)
}

/// Encoding a strategy triple and decoding the 24 bytes gives the triple
/// back.
pub proof fn lemma_strategy_le_bytes_roundtrip(s: LinearVestingStrategy)
    ensures
        spec_strategy_to_le_bytes(s).len() == 24,
        spec_strategy_from_le_bytes(spec_strategy_to_le_bytes(s)) == s,
{
    lemma_i64_le_bytes_roundtrip(s.cliff_end_ts);
    lemma_i64_le_bytes_roundtrip(s.vesting_end_ts);
    lemma_i64_le_bytes_roundtrip(s.unlock_period);
    let whole = spec_strategy_to_le_bytes(s);
    assert(whole.subrange(0, 8) =~= spec_i64_to_le_bytes(s.cliff_end_ts));
    assert(whole.subrange(8, 16) =~= spec_i64_to_le_bytes(s.vesting_end_ts));
    assert(whole.subrange(16, 24) =~= spec_i64_to_le_bytes(s.unlock_period));
}

/// Encodes a strategy triple into its explicit 24-byte wire form.
pub fn strategy_to_le_bytes(s: &LinearVestingStrategy) -> (r: Vec<u8>)
    ensures
        r@ == spec_strategy_to_le_bytes(*s),
{
    let mut r: Vec<u8> = i64_to_le_bytes(s.cliff_end_ts);
    let mut mid: Vec<u8> = i64_to_le_bytes(s.vesting_end_ts);
    let mut tail: Vec<u8> = i64_to_le_bytes(s.unlock_period);
    r.append(&mut mid);
    r.append(&mut tail);
    r
}

/// Read access to untyped byte buffers, bounds-checked: every out-of-range
/// access fails with a decoding error.
pub trait ReadBytes {
    /// The bytes being read.
    spec fn data(&self) -> Seq<u8>;

    fn read_u64(&self, start: usize) -> (r: Result<u64, ProcessError>)
        ensures
            start + 8 <= self.data().len() ==> r == Ok::<u64, ProcessError>(
                spec_u64_from_le_bytes(self.data().subrange(start as int, start as int + 8)),
            ),
            start + 8 > self.data().len() ==> r == Err::<u64, ProcessError>(
                ProcessError::InvalidInstructionData,
            ),
    ;

    fn read_i64(&self, start: usize) -> (r: Result<i64, ProcessError>)
        ensures
            start + 8 <= self.data().len() ==> r == Ok::<i64, ProcessError>(
                spec_i64_from_le_bytes(self.data().subrange(start as int, start as int + 8)),
            ),
            start + 8 > self.data().len() ==> r == Err::<i64, ProcessError>(
                ProcessError::InvalidInstructionData,
            ),
    ;

    fn read_u32(&self, start: usize) -> (r: Result<u32, ProcessError>)
        ensures
            start + 4 <= self.data().len() ==> r == Ok::<u32, ProcessError>(
                spec_u32_from_le_bytes(self.data().subrange(start as int, start as int + 4)),
            ),
            start + 4 > self.data().len() ==> r == Err::<u32, ProcessError>(
                ProcessError::InvalidInstructionData,
            ),
    ;

    fn read_linear_vesting_strategy(&self, start: usize) -> (r: Result<
        LinearVestingStrategy,
        ProcessError,
    >)
        ensures
            start + 24 <= self.data().len() ==> r == Ok::<LinearVestingStrategy, ProcessError>(
                spec_strategy_from_le_bytes(self.data().subrange(start as int, start as int + 24)),
            ),
            start + 24 > self.data().len() ==> r == Err::<LinearVestingStrategy, ProcessError>(
                ProcessError::InvalidInstructionData,
            ),
    ;
}

/// A `ReadBytes` view over a borrowed byte slice.
pub struct Reader<'a> {
    pub bytes: &'a [u8],
}

impl<'a> Reader<'a> {
    pub fn new(bytes: &'a [u8]) -> (r: Self)
        ensures
            r.bytes@ == bytes@,
    {
        Reader { bytes }
    }
}

impl<'a> From<&'a [u8]> for Reader<'a> {
    fn from(bytes: &'a [u8]) -> (r: Self)
        ensures
            r.bytes@ == bytes@,
    {
        Reader { bytes }
    }
}

impl<'a> vstd::std_specs::convert::FromSpecImpl<&'a [u8]> for Reader<'a> {
    open spec fn obeys_from_spec() -> bool {
        true
    }

    open spec fn from_spec(bytes: &'a [u8]) -> Self {
        Reader { bytes }
    }
}

impl<'a> ReadBytes for Reader<'a> {
    open spec fn data(&self) -> Seq<u8> {
        self.bytes@
    }

    fn read_u64(&self, start: usize) -> (r: Result<u64, ProcessError>) {
        read_u64_slice(self.bytes, start)
    }

    fn read_i64(&self, start: usize) -> (r: Result<i64, ProcessError>) {
        read_i64_slice(self.bytes, start)
    }

    fn read_u32(&self, start: usize) -> (r: Result<u32, ProcessError>) {
        read_u32_slice(self.bytes, start)
    }

    fn read_linear_vesting_strategy(&self, start: usize) -> (r: Result<
        LinearVestingStrategy,
        ProcessError,
    >) {
        read_linear_vesting_strategy_slice(self.bytes, start)
    }
}

/// What the ledger platform's program-derived-address search returns for a
/// seed list and program identity, or `None` in the statistically improbable
/// event that no disambiguation nonce yields a valid address (or when a seed
/// exceeds the platform's limits).
pub uninterp spec fn pda_lookup(seeds: Seq<Seq<u8>>, program_id: Seq<u8>) -> Option<(Seq<u8>, u8)>;

/// Derives the program-owned sub-account address for `seeds`, scoped to the
/// program identity `program_id`, together with its disambiguation nonce.
///
/// Relies on solana_program's `Pubkey::try_find_program_address`: the result
/// depends on the seeds and the program identity alone, and an address it
/// returns is 32 bytes long.
#[verifier::external_body]
pub fn derive_program_pda(seeds: &Vec<Vec<u8>>, program_id: &Address) -> (r: Option<(Address, u8)>)
    ensures
        match r {
            Some(p) => pda_lookup(seeds.deep_view(), program_id@) == Some((p.0@, p.1)),
            None => pda_lookup(seeds.deep_view(), program_id@) is None,
        },
{
    let seed_slices: Vec<&[u8]> = seeds.iter().map(|s| s.as_slice()).collect();
    let pid = solana_program::pubkey::Pubkey::new_from_array(program_id.bytes);
    solana_program::pubkey::Pubkey::try_find_program_address(&seed_slices, &pid).map(
        |(address, bump)| (Address { bytes: address.to_bytes() }, bump),
    )
}

} // verus!
