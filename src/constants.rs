use vstd::prelude::*;

verus! {

/// Fixed fee, in lamports, that a creator pays for each new proposal (0.005 SOL).
pub const PROPOSAL_CREATION_FEE_LAMPORTS: u64 = 5_000_000;

/// The support fee is `amount * NUMERATOR / DENOMINATOR`, rounded down (0.5%).
pub const SUPPORT_FEE_PERCENTAGE_NUMERATOR: u64 = 5;

pub const SUPPORT_FEE_PERCENTAGE_DENOMINATOR: u64 = 1000;

/// Shares of a percentage-split fee per treasury category; they sum to 100.
pub const TREASURY_DISTRIBUTION_MARKETING_PERCENT: u8 = 10;

pub const TREASURY_DISTRIBUTION_TEAM_PERCENT: u8 = 40;

pub const TREASURY_DISTRIBUTION_OPERATIONS_PERCENT: u8 = 5;

pub const TREASURY_DISTRIBUTION_INVESTMENTS_PERCENT: u8 = 44;

pub const TREASURY_DISTRIBUTION_CRANK_PERCENT: u8 = 1;

/// Highest creator allocation, in percent of the total supply.
pub const MAX_CREATOR_ALLOCATION: u8 = 10;

/// Capacity of the treasury role list.
pub const MAX_TREASURY_ROLES: usize = 5;

/// Bounds on the number of treasury administrators.
pub const MIN_TREASURY_ADMINS: usize = 1;

pub const MAX_TREASURY_ADMINS: usize = 3;

} // verus!
