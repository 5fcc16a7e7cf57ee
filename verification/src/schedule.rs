//! The vesting-schedule record and the integrity error raised when its
//! externally maintained balances drift out of their invariants.

use vstd::prelude::*;

verus! {

/// Immutable snapshot of a vesting account, consumed per call.
///
/// `start_balance`, `start_ts`, `end_ts` and `period_count` are fixed when
/// the account is created. `outstanding` and `whitelist_owned` are mutated
/// by the external withdrawal and whitelist-transfer operations; the
/// calculator only reads them.
#[derive(Clone, Copy, Debug, PartialEq, Eq, Structural)]
pub struct VestingSchedule {
    /// Total token amount originally granted; fixed at creation.
    pub start_balance: u64,
    /// Tokens still held in the vault: `start_balance` minus everything ever
    /// withdrawn or sent out via whitelist transfers.
    pub outstanding: u64,
    /// Portion of `outstanding` currently on loan to a whitelisted program.
    pub whitelist_owned: u64,
    /// Unix timestamp at which vesting begins; nothing vests before it.
    pub start_ts: i64,
    /// Unix timestamp at which the grant is fully vested.
    pub end_ts: i64,
    /// Number of discrete vesting increments between `start_ts` and
    /// `end_ts`; at least one.
    pub period_count: u64,
}

impl VestingSchedule {
    /// The creation-time invariant of a schedule: the vesting window is
    /// ordered and there is at least one period.
    pub open spec fn wf(self) -> bool {
        &&& self.start_ts <= self.end_ts
        &&& self.period_count >= 1
    }
}

/// A subtraction over the externally maintained balances would underflow
/// (`outstanding > start_balance`, `whitelist_owned > outstanding`, or more
/// was withdrawn than has vested). This signals that the record has drifted
/// out of its required invariants; it is surfaced to the caller as a fatal
/// integrity fault and never masked by wrapping or saturating arithmetic.
#[derive(Clone, Copy, Debug, PartialEq, Eq, Structural)]
pub struct ArithmeticInvariantViolation;

} // verus!
