use vstd::prelude::*;
use crate::address::Address;
use crate::constants::{
    MAX_CREATOR_ALLOCATION, MAX_TREASURY_ADMINS, MAX_TREASURY_ROLES, MIN_TREASURY_ADMINS,
};

verus! {

/// Lifecycle of an epoch.
#[derive(Clone, Copy, Debug, PartialEq, Eq, Structural)]
pub enum EpochStatus {
    Active,
    Pending,
    Closed,
}

/// One time-boxed governance cycle.
#[derive(Clone, Copy, Debug, PartialEq, Eq, Structural)]
pub struct EpochManagement {
    pub epoch_id: u64,
    pub start_time: i64,
    pub end_time: i64,
    pub status: EpochStatus,
    /// Set once, by the admin, after the epoch closed; never reset.
    pub processed: bool,
}

impl EpochManagement {
    /// An epoch is processed only once closed, and a running epoch ends after it
    /// starts.
    pub open spec fn wf(&self) -> bool {
        &&& self.processed ==> self.status == EpochStatus::Closed
        &&& self.status == EpochStatus::Active ==> self.start_time < self.end_time
    }
}

/// Lifecycle of a proposal: `Active`, then finalized once to one of the others.
#[derive(Clone, Copy, Debug, PartialEq, Eq, Structural)]
pub enum ProposalStatus {
    Active,
    Validated,
    Rejected,
}

/// A creator's token-launch terms, and what the public contributed to it.
#[derive(Clone, Debug)]
pub struct TokenProposal {
    pub epoch_id: u64,
    pub creator: Address,
    pub token_name: String,
    pub token_symbol: String,
    pub description: String,
    pub image_url: Option<String>,
    pub total_supply: u64,
    /// Percent of the supply kept by the creator, at most 10.
    pub creator_allocation: u8,
    /// Percent of the supply for supporters: half the rest, rounded up.
    pub supporter_allocation: u8,
    /// Net lamports contributed so far.
    pub sol_raised: u64,
    /// Number of distinct supporters.
    pub total_contributions: u64,
    /// Seconds during which the creator cannot sell.
    pub lockup_period: i64,
    pub status: ProposalStatus,
}

/// Half of what the creator leaves to others, rounded up:
/// `ceil((100 - creator_allocation) / 2)`.
pub open spec fn supporter_share(creator_allocation: u8) -> nat {
    ((100 - creator_allocation) as nat + 1) / 2
}

impl TokenProposal {
    /// The allocations agree with each other and the lock-up is not negative.
    pub open spec fn wf(&self) -> bool {
        &&& self.creator_allocation <= MAX_CREATOR_ALLOCATION
        &&& self.supporter_allocation == supporter_share(self.creator_allocation)
        &&& self.lockup_period >= 0
    }
}

/// A user's cumulative net contribution to one proposal.
#[derive(Clone, Copy, Debug, PartialEq, Eq)]
pub struct UserProposalSupport {
    pub epoch_id: u64,
    pub user: Address,
    /// Address of the supported proposal.
    pub proposal: Address,
    pub amount: u64,
}

/// The five fee destinations of the treasury.
#[derive(Clone, Copy, Debug, PartialEq, Eq, Structural)]
pub enum TreasuryCategory {
    Marketing,
    Team,
    Operations,
    Investments,
    Crank,
}

#[derive(Clone, Copy, Debug, PartialEq, Eq, Structural)]
pub struct TreasurySubAccount {
    pub sol_balance: u64,
    pub last_withdrawal: i64,
}

/// The protocol treasury: one sub-account per category.
#[derive(Clone, Copy, Debug, PartialEq, Eq)]
pub struct Treasury {
    pub authority: Address,
    pub marketing: TreasurySubAccount,
    pub team: TreasurySubAccount,
    pub operations: TreasurySubAccount,
    pub investments: TreasurySubAccount,
    pub crank: TreasurySubAccount,
}

/// What a treasury role allows its holder.
#[derive(Clone, Copy, Debug, PartialEq, Eq, Structural)]
pub enum RoleType {
    Admin,
    CategoryManager(TreasuryCategory),
    Withdrawer(TreasuryCategory),
}

#[derive(Clone, Copy, Debug, PartialEq, Eq)]
pub struct TreasuryRole {
    pub role_type: RoleType,
    pub pubkey: Address,
    pub withdrawal_limit: Option<u64>,
    pub withdrawal_period: Option<i64>,
}

/// The administrators of the treasury and the roles they handed out.
#[derive(Clone, Debug)]
pub struct TreasuryRoles {
    pub authorities: Vec<Address>,
    pub roles: Vec<TreasuryRole>,
}

/// Whether `role` is the role of kind `role_type` held by `pubkey`.
pub open spec fn is_role(role: TreasuryRole, role_type: RoleType, pubkey: Address) -> bool {
    role.pubkey == pubkey && role.role_type == role_type
}

impl TreasuryRoles {
    /// One to three administrators, a bounded role list, and no holder with the
    /// same role twice.
    pub open spec fn wf(&self) -> bool {
        &&& MIN_TREASURY_ADMINS <= self.authorities@.len() <= MAX_TREASURY_ADMINS
        &&& self.roles@.len() <= MAX_TREASURY_ROLES
        &&& forall|i: int, j: int|
            0 <= i < j < self.roles@.len() ==> !is_role(
                #[trigger] self.roles@[i],
                self.roles@[j].role_type,
                #[trigger] self.roles@[j].pubkey,
            )
    }
}

/// The single key allowed to run the program's administrative instructions.
#[derive(Clone, Copy, Debug, PartialEq, Eq)]
pub struct ProgramConfig {
    pub admin_authority: Address,
}

} // verus!
