//! Fixed parameters of the handler: the unlock-count bound and the seed tags
//! that scope each deterministic sub-account derivation.

use vstd::prelude::*;

verus! {

/// Upper bound on the number of unlock periods a vesting schedule may contain.
pub const MAX_UNLOCKS: u8 = 100;

/// The bytes of the ASCII tag "ido-treasury-account".
pub open spec fn spec_treasury_seed() -> Seq<u8> {
    seq![
        105u8, 100, 111, 45, 116, 114, 101, 97, 115, 117, 114, 121, 45, 97, 99, 99, 111, 117,
        110, 116,
    ]
}

/// The bytes of the ASCII tag "ido-config-account".
pub open spec fn spec_config_seed() -> Seq<u8> {
    seq![105u8, 100, 111, 45, 99, 111, 110, 102, 105, 103, 45, 97, 99, 99, 111, 117, 110, 116]
}

/// The bytes of the ASCII tag "ido-vesting-account".
pub open spec fn spec_vesting_seed() -> Seq<u8> {
    seq![
        105u8, 100, 111, 45, 118, 101, 115, 116, 105, 110, 103, 45, 97, 99, 99, 111, 117, 110,
        116,
    ]
}

/// Seed tag scoping the treasury derivation ("ido-treasury-account").
pub fn ido_treasury_account_seed() -> (r: Vec<u8>)
    ensures
        r@ == spec_treasury_seed(),
{
    let r: Vec<u8> = vec![
        105u8, 100, 111, 45, 116, 114, 101, 97, 115, 117, 114, 121, 45, 97, 99, 99, 111, 117,
        110, 116,
    ];
    proof {
        assert(r@ =~= spec_treasury_seed());
    }
    r
}

/// Seed tag scoping the config derivation ("ido-config-account").
pub fn ido_config_account_seed() -> (r: Vec<u8>)
    ensures
        r@ == spec_config_seed(),
{
    let r: Vec<u8> = vec![
        105u8, 100, 111, 45, 99, 111, 110, 102, 105, 103, 45, 97, 99, 99, 111, 117, 110, 116,
    ];
    proof {
        assert(r@ =~= spec_config_seed());
    }
    r
}

/// Seed tag scoping the vesting derivation ("ido-vesting-account").
pub fn ido_vesting_account_seed() -> (r: Vec<u8>)
    ensures
        r@ == spec_vesting_seed(),
{
    let r: Vec<u8> = vec![
        105u8, 100, 111, 45, 118, 101, 115, 116, 105, 110, 103, 45, 97, 99, 99, 111, 117, 110,
        116,
    ];
    proof {
        assert(r@ =~= spec_vesting_seed());
    }
    r
}

} // verus!
