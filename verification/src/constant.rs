use vstd::prelude::*;

verus! {

/// Smallest capacity a top staker list may be created with.
pub const MIN_LIST_LENGTH: u16 = 5;

/// Largest capacity a top staker list may be created with.
pub const MAX_LIST_LENGTH: u16 = 1000;

/// Number of seconds in one day.
pub const SECONDS_PER_DAY: u64 = 86400;

/// Shortest window over which pulled fees may be fully released: six hours.
pub const MIN_SECONDS_TO_FULL_UNLOCK: u64 = 21600;

/// Longest window over which pulled fees may be fully released: thirty-one days.
pub const MAX_SECONDS_TO_FULL_UNLOCK: u64 = 2678400;

/// Number of fractional bits of a per-liquidity index.
pub const SCALE_OFFSET: u8 = 64;

/// Largest number of entries the full balance list may hold.
pub const FULL_BALANCE_LIST_HARD_LIMIT: u64 = 10000;

/// Shortest delay between an unstake request and its withdrawal: six hours.
pub const MIN_UNSTAKE_LOCK_DURATION: u64 = 21600;

/// Longest delay between an unstake request and its withdrawal: thirty-one days.
pub const MAX_UNSTAKE_LOCK_DURATION: u64 = 2678400;

/// Longest window stakers may be given to join before the first fee pull: thirty-one days.
pub const MAX_JOIN_WINDOW_DURATION: u64 = 2678400;

/// Shortest delay between two fee pulls from the lock escrow: five minutes.
pub const MIN_LOCK_ESCROW_CLAIM_FEE_DURATION: u64 = 300;

} // verus!
