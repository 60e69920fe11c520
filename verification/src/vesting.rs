//! The linear vesting schedule: its value type, validation, and the claim
//! computation that decides how much value may be released at a given time.
//!
//! All functions take the current time as an explicit parameter: the handler
//! reads the wall clock once per instruction and every schedule decision
//! within that instruction is made against that single timestamp.

use vstd::prelude::*;

use crate::constants::MAX_UNLOCKS;
use crate::error::IDOProgramError;
use crate::error::ProcessError;
use crate::state::IDOVestingAccount;
use crate::state::vesting_account_wf;

verus! {

/// A linear vesting schedule: no release before `cliff_end_ts`, one equal
/// portion per `unlock_period` until `vesting_end_ts`, everything claimable
/// after that.  All three fields are in seconds; the first two are absolute
/// timestamps, the last is a duration.
#[derive(Clone, Copy, Debug, PartialEq, Eq, Structural)]
pub struct LinearVestingStrategy {
    pub cliff_end_ts: i64,
    pub vesting_end_ts: i64,
    pub unlock_period: i64,
}

/// How many whole unlock periods the schedule spans.
pub open spec fn spec_unlocks_count(s: LinearVestingStrategy) -> int {
    (s.vesting_end_ts - s.cliff_end_ts) / (s.unlock_period as int)
}

/// A schedule is acceptable at registration time `now` when its cliff has not
/// already passed, its end lies in the future and after the cliff, and it
/// spans between 1 and `MAX_UNLOCKS` whole unlock periods.
pub open spec fn strategy_valid_at(s: LinearVestingStrategy, now: int) -> bool {
    &&& s.cliff_end_ts >= now
    &&& s.vesting_end_ts > now
    &&& s.cliff_end_ts < s.vesting_end_ts
    &&& s.unlock_period > 0
    &&& 1 <= spec_unlocks_count(s) <= MAX_UNLOCKS
}

/// Which failure `is_valid` reports for an unacceptable schedule, following
/// the order in which the conditions are checked.
pub open spec fn spec_validity_error(s: LinearVestingStrategy, now: int) -> IDOProgramError {
    if s.cliff_end_ts < now {
        IDOProgramError::CliffPeriodMustBeGreaterThanNow
    } else if s.vesting_end_ts <= now {
        IDOProgramError::VestingPeriodMustBeGreaterThanNow
    } else if s.cliff_end_ts >= s.vesting_end_ts {
        IDOProgramError::VestingPeriodMustBeGreaterThanCliff
    } else if s.unlock_period <= 0 || spec_unlocks_count(s) == 0 {
        IDOProgramError::UnlocksMustNotEqualZero
    } else {
        IDOProgramError::MaxUnlocksOverflow
    }
}

impl LinearVestingStrategy {
    /// Accepts the schedule exactly when it is still registrable at `now_ts`:
    /// cliff not in the past, end in the future and after the cliff, and an
    /// unlock count between 1 and `MAX_UNLOCKS`.
    pub fn is_valid(&self, now_ts: i64) -> (r: Result<(), IDOProgramError>)
        ensures
            r is Ok <==> strategy_valid_at(*self, now_ts as int),
            r matches Err(e) ==> e == spec_validity_error(*self, now_ts as int),
    {
        if self.cliff_end_ts < now_ts {
            return Err(IDOProgramError::CliffPeriodMustBeGreaterThanNow);
        }
        if self.vesting_end_ts <= now_ts {
            return Err(IDOProgramError::VestingPeriodMustBeGreaterThanNow);
        }
        if self.cliff_end_ts >= self.vesting_end_ts {
            return Err(IDOProgramError::VestingPeriodMustBeGreaterThanCliff);
        }
        if self.unlock_period <= 0 {
            return Err(IDOProgramError::UnlocksMustNotEqualZero);
        }
        let duration: u128 = (self.vesting_end_ts as i128 - self.cliff_end_ts as i128) as u128;
        let unlocks: u128 = duration / (self.unlock_period as u128);
        proof {
            assert(duration == self.vesting_end_ts - self.cliff_end_ts);
            assert(self.unlock_period as u128 == self.unlock_period as int);
            assert(unlocks == spec_unlocks_count(*self));
        }
        if unlocks == 0 {
            return Err(IDOProgramError::UnlocksMustNotEqualZero);
        }
        if unlocks > MAX_UNLOCKS as u128 {
            return Err(IDOProgramError::MaxUnlocksOverflow);
        }
        Ok(())
    }

    /// A zero cliff means "no cliff": it is resolved to the current time, so
    /// the vesting period starts immediately.  Any other cliff is kept as
    /// supplied and judged later by `is_valid`.
    pub fn reinit_with_checked_cliff(self, now_ts: i64) -> (r: Self)
        ensures
            r == spec_resolve_cliff(self, now_ts),
    {
        Self {
            cliff_end_ts: if self.cliff_end_ts == 0 {
                now_ts
            } else {
                self.cliff_end_ts
            },
            ..self
        }
    }

    /// Builds a schedule from durations measured from `now_ts`.  `None` for
    /// the cliff stands for "no cliff" and leaves the zero sentinel in place.
    pub fn new(
        now_ts: i64,
        cliff_duration: Option<i64>,
        vesting_duration: i64,
        unlock_period: i64,
    ) -> (r: Self)
        requires
            i64::MIN <= now_ts + vesting_duration <= i64::MAX,
            cliff_duration matches Some(d) ==> i64::MIN <= now_ts + d <= i64::MAX,
        ensures
            r.cliff_end_ts == match cliff_duration {
                Some(d) => now_ts + d,
                None => 0,
            },
            r.vesting_end_ts == now_ts + vesting_duration,
            r.unlock_period == unlock_period,
    {
        let cliff_end_ts: i64 = if let Some(cliff_duration) = cliff_duration {
            now_ts + cliff_duration
        } else {
            0
        };

        Self { cliff_end_ts, vesting_end_ts: vesting_duration + now_ts, unlock_period }
    }

    /// Builds a schedule without a cliff, from durations measured from
    /// `now_ts`.
    pub fn new_without_cliff(now_ts: i64, vesting_duration: i64, unlock_period: i64) -> (r: Self)
        requires
            i64::MIN <= now_ts + vesting_duration <= i64::MAX,
        ensures
            r.cliff_end_ts == 0,
            r.vesting_end_ts == now_ts + vesting_duration,
            r.unlock_period == unlock_period,
    {
        Self::new(now_ts, None, vesting_duration, unlock_period)
    }
}

/// The schedule after the zero-cliff sentinel is resolved to `now`.
pub open spec fn spec_resolve_cliff(s: LinearVestingStrategy, now: i64) -> LinearVestingStrategy {
    LinearVestingStrategy {
        cliff_end_ts: if s.cliff_end_ts == 0 {
            now
        } else {
            s.cliff_end_ts
        },
        ..s
    }
}

/// `now` lies on or after the cliff and strictly before the schedule's end.
pub open spec fn claim_in_window(now: int, s: LinearVestingStrategy) -> bool {
    s.cliff_end_ts <= now < s.vesting_end_ts
}

/// How many unlock periods a claim at `now` covers.  Counted from the cliff;
/// a buyer who has never claimed is always granted at least one period, so an
/// immediate post-cliff claim is not empty.
pub open spec fn spec_unlocked_times(
    now: int,
    s: LinearVestingStrategy,
    va: IDOVestingAccount,
) -> int {
    let time_passed = now - s.cliff_end_ts;
    let k = time_passed / (s.unlock_period as int);
    if va.last_claim_ts == 0 {
        if k < 1 {
            1
        } else {
            k
        }
    } else {
        k
    }
}

/// The amount released by an in-window claim at `now`.
pub open spec fn spec_claim_portion(
    now: int,
    s: LinearVestingStrategy,
    va: IDOVestingAccount,
) -> int {
    va.amount_per_unlock * spec_unlocked_times(now, s, va)
}

/// Which failure, if any, a claim at `now` is rejected with: the cliff still
/// active, or — for a repeat claim inside the window — less than one full
/// unlock period elapsed since the last claim.
pub open spec fn spec_claim_error(
    now: int,
    s: LinearVestingStrategy,
    va: IDOVestingAccount,
) -> Option<IDOProgramError> {
    if now < s.cliff_end_ts {
        Some(IDOProgramError::CliffIsActive)
    } else if now >= s.vesting_end_ts {
        None
    } else if va.last_claim_ts == 0 {
        None
    } else if now >= va.last_claim_ts + s.unlock_period {
        None
    } else {
        Some(IDOProgramError::VestingIsActive)
    }
}

/// The amount a successful claim at `now` releases: the whole remainder once
/// the schedule has matured, otherwise the per-period portion.
pub open spec fn spec_claim_amount(
    now: int,
    s: LinearVestingStrategy,
    va: IDOVestingAccount,
) -> int {
    if now >= s.vesting_end_ts {
        va.bought_amount - va.claimed_amount
    } else {
        spec_claim_portion(now, s, va)
    }
}

/// The claim arithmetic stays within `u64`: whenever an in-window claim is
/// granted, the new claimed total fits.
pub open spec fn claim_fits(now: int, s: LinearVestingStrategy, va: IDOVestingAccount) -> bool {
    claim_in_window(now, s) && spec_claim_error(now, s, va) is None
        ==> va.claimed_amount + spec_claim_portion(now, s, va) <= u64::MAX
}

/// Full description of one claim attempt: either the rejection
/// `spec_claim_error` names, with the record untouched, or the release of
/// `spec_claim_amount`, with the claimed total advanced by exactly that
/// amount and — for in-window claims — the last-claim time moved to `now`.
pub open spec fn claim_transition(
    now: int,
    s: LinearVestingStrategy,
    pre: IDOVestingAccount,
    post: IDOVestingAccount,
    r: Result<u64, IDOProgramError>,
) -> bool {
    match spec_claim_error(now, s, pre) {
        Some(e) => r == Err::<u64, IDOProgramError>(e) && post == pre,
        None => {
            &&& r matches Ok(p)
            &&& p == spec_claim_amount(now, s, pre)
            &&& post.bought_amount == pre.bought_amount
            &&& post.amount_per_unlock == pre.amount_per_unlock
            &&& post.bump == pre.bump
            &&& post.is_initialized == pre.is_initialized
            &&& post.claimed_amount == pre.claimed_amount + p
            &&& post.last_claim_ts == if now >= s.vesting_end_ts {
                pre.last_claim_ts as int
            } else {
                now
            }
        },
    }
}

/// Decides whether a claim at `now_ts` is allowed and how much it releases,
/// advancing the record in place.  In priority order: an active cliff is
/// rejected; a matured schedule releases the whole remainder; a first claim,
/// or a repeat claim at least one unlock period after the previous one,
/// releases one per-period portion for every period counted from the cliff
/// (at least one for a first claim); anything else is rejected as still
/// vesting.
pub fn allow_claim_and_define_portion(
    now_ts: i64,
    vesting_strategy: &LinearVestingStrategy,
    vesting_account: &mut IDOVestingAccount,
) -> (r: Result<u64, IDOProgramError>)
    requires
        now_ts >= vesting_strategy.vesting_end_ts ==> vesting_account_wf(*old(vesting_account)),
        claim_in_window(now_ts as int, *vesting_strategy) ==> vesting_strategy.unlock_period >= 1,
        claim_fits(now_ts as int, *vesting_strategy, *old(vesting_account)),
    ensures
        claim_transition(
            now_ts as int,
            *vesting_strategy,
            *old(vesting_account),
            *final(vesting_account),
            r,
        ),
{
    if now_ts < vesting_strategy.cliff_end_ts {
        return Err(IDOProgramError::CliffIsActive);
    }
    let bought_amount: u64 = vesting_account.bought_amount;

    // The schedule has matured: everything still unclaimed is released.
    if now_ts >= vesting_strategy.vesting_end_ts {
        let left_transfer_portion: u64 = bought_amount - vesting_account.claimed_amount;
        vesting_account.claimed_amount = vesting_account.claimed_amount + left_transfer_portion;
        return Ok(left_transfer_portion);
    }
    let last_claim_ts: i64 = vesting_account.last_claim_ts;
    let never_claimed: bool = last_claim_ts == 0;

    // First claim, or a new portion has become claimable.
    if never_claimed || (now_ts as i128) >= (last_claim_ts as i128) + (
    vesting_strategy.unlock_period as i128) {
        let time_passed: u128 = (now_ts as i128 - vesting_strategy.cliff_end_ts as i128) as u128;
        let whole_periods: u128 = time_passed / (vesting_strategy.unlock_period as u128);
        let unlocked_times: u128 = if never_claimed && whole_periods < 1 {
            1
        } else {
            whole_periods
        };
        proof {
            assert(time_passed == now_ts - vesting_strategy.cliff_end_ts);
            assert(vesting_strategy.unlock_period as u128 == vesting_strategy.unlock_period as int);
            assert(unlocked_times == spec_unlocked_times(
                now_ts as int,
                *vesting_strategy,
                *old(vesting_account),
            ));
            assert(vesting_account.amount_per_unlock as u128 * unlocked_times
                == vesting_account.amount_per_unlock * unlocked_times) by (nonlinear_arith)
                requires
                    vesting_account.amount_per_unlock <= u64::MAX,
                    unlocked_times <= u128::MAX as int / (u64::MAX as int + 1),
            ;
        }
        let transfer_portion_wide: u128 = (vesting_account.amount_per_unlock as u128)
            * unlocked_times;
        let transfer_portion: u64 = transfer_portion_wide as u64;

        vesting_account.last_claim_ts = now_ts;
        vesting_account.claimed_amount = vesting_account.claimed_amount + transfer_portion;
        return Ok(transfer_portion);
    }
    Err(IDOProgramError::VestingIsActive)
}

/// Which failure, if any, `allow_claim_checked` rejects a claim with.  On top
/// of `spec_claim_error` it fails closed, with `ArithmeticOverflow`, where
/// the record's accounting would underflow or overflow `u64`, and rejects a
/// schedule whose unlock period is not positive.
pub open spec fn spec_checked_claim_error(
    now: int,
    s: LinearVestingStrategy,
    va: IDOVestingAccount,
) -> Option<ProcessError> {
    if now < s.cliff_end_ts {
        Some(ProcessError::Custom(IDOProgramError::CliffIsActive))
    } else if now >= s.vesting_end_ts {
        if va.claimed_amount > va.bought_amount {
            Some(ProcessError::ArithmeticOverflow)
        } else {
            None
        }
    } else if s.unlock_period < 1 {
        Some(ProcessError::Custom(IDOProgramError::UnlocksMustNotEqualZero))
    } else if va.last_claim_ts != 0 && now < va.last_claim_ts + s.unlock_period {
        Some(ProcessError::Custom(IDOProgramError::VestingIsActive))
    } else if va.claimed_amount + spec_claim_portion(now, s, va) > u64::MAX {
        Some(ProcessError::ArithmeticOverflow)
    } else {
        None
    }
}

/// Full description of one `allow_claim_checked` attempt.
pub open spec fn checked_claim_transition(
    now: int,
    s: LinearVestingStrategy,
    pre: IDOVestingAccount,
    post: IDOVestingAccount,
    r: Result<u64, ProcessError>,
) -> bool {
    match spec_checked_claim_error(now, s, pre) {
        Some(e) => r == Err::<u64, ProcessError>(e) && post == pre,
        None => {
            &&& r matches Ok(p)
            &&& claim_transition(now, s, pre, post, Ok::<u64, IDOProgramError>(p))
        },
    }
}

/// Total form of `allow_claim_and_define_portion`: accepts any record and any
/// schedule, and turns the inputs on which the claim arithmetic would leave
/// `u64` — or a schedule whose unlock period is not positive — into failures
/// instead.  On every other input it behaves exactly as
/// `allow_claim_and_define_portion`.
pub fn allow_claim_checked(
    now_ts: i64,
    vesting_strategy: &LinearVestingStrategy,
    vesting_account: &mut IDOVestingAccount,
) -> (r: Result<u64, ProcessError>)
    ensures
        checked_claim_transition(
            now_ts as int,
            *vesting_strategy,
            *old(vesting_account),
            *final(vesting_account),
            r,
        ),
{
    if now_ts < vesting_strategy.cliff_end_ts {
        return Err(ProcessError::Custom(IDOProgramError::CliffIsActive));
    }
    if now_ts >= vesting_strategy.vesting_end_ts {
        if vesting_account.claimed_amount > vesting_account.bought_amount {
            return Err(ProcessError::ArithmeticOverflow);
        }
        return match allow_claim_and_define_portion(now_ts, vesting_strategy, vesting_account) {
            Ok(p) => Ok(p),
            Err(e) => Err(ProcessError::Custom(e)),
        };
    }
    if vesting_strategy.unlock_period < 1 {
        return Err(ProcessError::Custom(IDOProgramError::UnlocksMustNotEqualZero));
    }
    let last_claim_ts: i64 = vesting_account.last_claim_ts;
    if last_claim_ts != 0 && (now_ts as i128) < (last_claim_ts as i128) + (
    vesting_strategy.unlock_period as i128) {
        return Err(ProcessError::Custom(IDOProgramError::VestingIsActive));
    }
    // The claim will be granted: make sure the released portion keeps the
    // claimed total within `u64` before mutating anything.
    let time_passed: u128 = (now_ts as i128 - vesting_strategy.cliff_end_ts as i128) as u128;
    let whole_periods: u128 = time_passed / (vesting_strategy.unlock_period as u128);
    let unlocked_times: u128 = if last_claim_ts == 0 && whole_periods < 1 {
        1
    } else {
        whole_periods
    };
    proof {
        assert(time_passed == now_ts - vesting_strategy.cliff_end_ts);
        assert(vesting_strategy.unlock_period as u128 == vesting_strategy.unlock_period as int);
        assert(unlocked_times == spec_unlocked_times(
            now_ts as int,
            *vesting_strategy,
            *old(vesting_account),
        ));
        assert(whole_periods <= time_passed) by {
            vstd::arithmetic::div_mod::lemma_div_is_ordered_by_denominator(
                time_passed as int,
                1,
                vesting_strategy.unlock_period as int,
            );
            vstd::arithmetic::div_mod::lemma_div_basics(time_passed as int);
        }
        assert(vesting_account.amount_per_unlock * unlocked_times <= u64::MAX as int * (u64::MAX
            as int)) by (nonlinear_arith)
            requires
                0 <= vesting_account.amount_per_unlock <= u64::MAX,
                0 <= unlocked_times <= u64::MAX,
        ;
    }
    let portion_wide: u128 = (vesting_account.amount_per_unlock as u128) * unlocked_times;
    let new_claimed_wide: u128 = (vesting_account.claimed_amount as u128) + portion_wide;
    if new_claimed_wide > u64::MAX as u128 {
        return Err(ProcessError::ArithmeticOverflow);
    }
    match allow_claim_and_define_portion(now_ts, vesting_strategy, vesting_account) {
        Ok(p) => Ok(p),
        Err(e) => Err(ProcessError::Custom(e)),
    }
}

/// The record a granted claim at `now` leaves behind: the claimed total
/// advanced by the released amount, and — for an in-window claim — the
/// last-claim time moved to `now`.  Meaningful when the claim is granted
/// and its arithmetic fits, as `spec_checked_claim_error` requires.
pub open spec fn spec_claim_updated(
    now: int,
    s: LinearVestingStrategy,
    va: IDOVestingAccount,
) -> IDOVestingAccount {
    IDOVestingAccount {
        last_claim_ts: if now >= s.vesting_end_ts {
            va.last_claim_ts
        } else {
            now as i64
        },
        claimed_amount: (va.claimed_amount + spec_claim_amount(now, s, va)) as u64,
        ..va
    }
}

/// On granted claims with fitting arithmetic, `claim_transition` pins the
/// final record to exactly `spec_claim_updated`.
pub proof fn lemma_claim_transition_updated(
    now: int,
    s: LinearVestingStrategy,
    pre: IDOVestingAccount,
    post: IDOVestingAccount,
    r: Result<u64, IDOProgramError>,
)
    requires
        claim_transition(now, s, pre, post, r),
        spec_checked_claim_error(now, s, pre) is None,
        i64::MIN <= now <= i64::MAX,
    ensures
        post == spec_claim_updated(now, s, pre),
{
}

/// A claim never decreases what was bought and never takes back what was
/// claimed: the bought total is untouched and the claimed total only grows.
pub proof fn lemma_claim_monotonic(
    now: int,
    s: LinearVestingStrategy,
    pre: IDOVestingAccount,
    post: IDOVestingAccount,
    r: Result<u64, IDOProgramError>,
)
    requires
        claim_transition(now, s, pre, post, r),
    ensures
        post.bought_amount == pre.bought_amount,
        post.claimed_amount >= pre.claimed_amount,
{
}

/// Once the cliff has passed and the schedule has matured, a claim is
/// always granted, releases exactly the remainder in one call — however
/// many unlock periods were skipped — and settles the record: the claimed
/// total equals the bought total, never more, and the last-claim time is
/// left alone.  A second post-maturity claim therefore releases exactly
/// zero.
pub proof fn lemma_mature_claim_settles(
    now: int,
    s: LinearVestingStrategy,
    pre: IDOVestingAccount,
    post: IDOVestingAccount,
    r: Result<u64, IDOProgramError>,
)
    requires
        claim_transition(now, s, pre, post, r),
        s.cliff_end_ts <= now,
        now >= s.vesting_end_ts,
        vesting_account_wf(pre),
    ensures
        r == Ok::<u64, IDOProgramError>((pre.bought_amount - pre.claimed_amount) as u64),
        post.claimed_amount == post.bought_amount,
        post.last_claim_ts == pre.last_claim_ts,
        vesting_account_wf(post),
{
}

/// A buyer's first-ever claim cannot overdraw the position: on a fresh
/// record whose per-unlock portion divides the bought total by the
/// schedule's unlock count, the claimed total stays within the bought total.
pub proof fn lemma_first_claim_within_bought(
    now: int,
    s: LinearVestingStrategy,
    pre: IDOVestingAccount,
    post: IDOVestingAccount,
    r: Result<u64, IDOProgramError>,
)
    requires
        claim_transition(now, s, pre, post, r),
        r is Ok,
        now < s.vesting_end_ts,
        s.unlock_period >= 1,
        s.cliff_end_ts < s.vesting_end_ts,
        spec_unlocks_count(s) >= 1,
        pre.last_claim_ts == 0,
        pre.claimed_amount == 0,
        pre.amount_per_unlock == pre.bought_amount as int / spec_unlocks_count(s),
    ensures
        vesting_account_wf(post),
{
    let unlocks = spec_unlocks_count(s);
    let k = spec_unlocked_times(now, s, pre);
    // A granted claim lies on or after the cliff, so the period count from
    // the cliff is bounded by the schedule's whole unlock count.
    assert(now >= s.cliff_end_ts);
    vstd::arithmetic::div_mod::lemma_div_is_ordered(
        now - s.cliff_end_ts,
        s.vesting_end_ts - s.cliff_end_ts,
        s.unlock_period as int,
    );
    assert(k <= unlocks);
    // The per-unlock portion times the unlock count cannot exceed the bought
    // total.
    vstd::arithmetic::mul::lemma_mul_inequality(k, unlocks, pre.amount_per_unlock as int);
    vstd::arithmetic::div_mod::lemma_fundamental_div_mod(pre.bought_amount as int, unlocks);
    vstd::arithmetic::div_mod::lemma_mod_bound(pre.bought_amount as int, unlocks);
    assert(pre.amount_per_unlock * unlocks <= pre.bought_amount) by {
        assert(pre.bought_amount as int == unlocks * (pre.bought_amount as int / unlocks)
            + pre.bought_amount as int % unlocks);
        vstd::arithmetic::mul::lemma_mul_is_commutative(
            unlocks,
            pre.bought_amount as int / unlocks,
        );
    }
    assert(post.claimed_amount == pre.amount_per_unlock * k);
}

} // verus!
