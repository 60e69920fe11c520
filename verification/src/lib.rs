//! State-transition logic of a token sale with linear vesting.
//!
//! The library models the handler of an account-based ledger program: it
//! decodes instructions, authenticates caller-supplied addresses against a
//! deterministic derivation, keeps fixed-layout account records, and decides
//! whether and how much value a buyer may claim at a given time.  All ledger
//! side effects (account creation, token and native transfers) are described
//! by the values these functions return; the surrounding runtime performs
//! them.

pub mod constants;
pub mod contexts;
pub mod error;
pub mod instruction;
pub mod processor;
pub mod state;
pub mod token;
pub mod utils;
pub mod vesting;
