//! Unlock-schedule calculator for token-vesting accounts.
//!
//! A vesting account releases a fixed grant to a beneficiary in equal linear
//! increments over a fixed number of periods between a start and an end
//! timestamp. Given an immutable snapshot of the schedule and a current
//! timestamp, this library derives how many tokens have vested so far, how
//! many have already been withdrawn, and how many are available for
//! withdrawal right now, bounded by the funds physically in the vault.
//!
//! All quantities are computed with exact integer arithmetic; every function
//! is pure and free of side effects.

pub mod calculator;
pub mod schedule;
