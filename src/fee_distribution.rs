use vstd::prelude::*;
use crate::constants::{
    TREASURY_DISTRIBUTION_CRANK_PERCENT, TREASURY_DISTRIBUTION_INVESTMENTS_PERCENT, TREASURY_DISTRIBUTION_MARKETING_PERCENT,
    TREASURY_DISTRIBUTION_OPERATIONS_PERCENT, TREASURY_DISTRIBUTION_TEAM_PERCENT,
};
use crate::error::ErrorCode;
use crate::state::{Treasury, TreasurySubAccount};

verus! {

/// The class of a collected fee, which decides how it is split.
#[derive(Clone, Copy, Debug, PartialEq, Eq, Structural)]
pub enum FeeType {
    /// Fixed proposal-creation fee: all of it goes to operations.
    ProposalCreation,
    /// Percentage support fee: split by the distribution percentages.
    ProposalSupport,
    /// Pool-creation fee: split like a support fee.
    PoolCreation,
}

/// How much of one fee each treasury category receives.
#[derive(Clone, Copy, Debug, PartialEq, Eq, Structural)]
pub struct FeeSplit {
    pub marketing: u64,
    pub team: u64,
    pub operations: u64,
    pub investments: u64,
    pub crank: u64,
}

/// `floor(fee * percent / 100)`.
pub open spec fn share_of(fee: u64, percent: u8) -> nat {
    (fee as nat * percent as nat) / 100
}

/// The percentage split of `fee`: each category but crank gets its share rounded
/// down, and crank gets what remains.
pub open spec fn fee_split(fee: u64) -> FeeSplit {
    let marketing = share_of(fee, TREASURY_DISTRIBUTION_MARKETING_PERCENT);
    let team = share_of(fee, TREASURY_DISTRIBUTION_TEAM_PERCENT);
    let operations = share_of(fee, TREASURY_DISTRIBUTION_OPERATIONS_PERCENT);
    let investments = share_of(fee, TREASURY_DISTRIBUTION_INVESTMENTS_PERCENT);
    FeeSplit {
        marketing: marketing as u64,
        team: team as u64,
        operations: operations as u64,
        investments: investments as u64,
        crank: (fee - marketing - team - operations - investments) as u64,
    }
}

pub open spec fn split_total(s: FeeSplit) -> int {
    s.marketing + s.team + s.operations + s.investments + s.crank
}

/// `floor(fee * percent / 100)`, for a percentage of at most 100.
fn percent_share(fee: u64, percent: u8) -> (r: u64)
    requires
        percent <= 100,
    ensures
        r == share_of(fee, percent),
{
    assert(fee as nat * percent as nat <= u64::MAX as nat * 100) by (nonlinear_arith)
        requires
            percent <= 100,
    ;
    let product: u128 = fee as u128 * percent as u128;
    assert(product / 100 <= fee) by (nonlinear_arith)
        requires
            product == fee as nat * percent as nat,
            percent <= 100,
    ;
    (product / 100) as u64
}

/// Splits a percentage fee over the five categories without losing a lamport.
pub fn split_fee(fee: u64) -> (r: FeeSplit)
    ensures
        r == fee_split(fee),
        split_total(r) == fee,
{
    let marketing = percent_share(fee, TREASURY_DISTRIBUTION_MARKETING_PERCENT);
    let team = percent_share(fee, TREASURY_DISTRIBUTION_TEAM_PERCENT);
    let operations = percent_share(fee, TREASURY_DISTRIBUTION_OPERATIONS_PERCENT);
    let investments = percent_share(fee, TREASURY_DISTRIBUTION_INVESTMENTS_PERCENT);
    proof {
        lemma_split_is_exact(fee);
    }
    let crank = fee - marketing - team - operations - investments;
    FeeSplit { marketing, team, operations, investments, crank }
}

/// No lamport of a split fee is lost or created: the five shares add up to the
/// fee, whatever its amount.
pub proof fn lemma_split_is_exact(fee: u64)
    ensures
        share_of(fee, TREASURY_DISTRIBUTION_MARKETING_PERCENT) + share_of(
            fee,
            TREASURY_DISTRIBUTION_TEAM_PERCENT,
        ) + share_of(fee, TREASURY_DISTRIBUTION_OPERATIONS_PERCENT) + share_of(
            fee,
            TREASURY_DISTRIBUTION_INVESTMENTS_PERCENT,
        ) <= fee,
        split_total(fee_split(fee)) == fee,
{
    let f = fee as nat;
    let m = share_of(fee, 10);
    let t = share_of(fee, 40);
    let o = share_of(fee, 5);
    let i = share_of(fee, 44);
    assert(m * 100 <= f * 10 && t * 100 <= f * 40 && o * 100 <= f * 5 && i * 100 <= f * 44)
        by (nonlinear_arith)
        requires
            m == f * 10 / 100,
            t == f * 40 / 100,
            o == f * 5 / 100,
            i == f * 44 / 100,
    ;
}

/// The five distribution percentages make up the whole of a fee.
pub proof fn lemma_percentages_sum_to_hundred()
    ensures
        TREASURY_DISTRIBUTION_MARKETING_PERCENT + TREASURY_DISTRIBUTION_TEAM_PERCENT
            + TREASURY_DISTRIBUTION_OPERATIONS_PERCENT + TREASURY_DISTRIBUTION_INVESTMENTS_PERCENT
            + TREASURY_DISTRIBUTION_CRANK_PERCENT == 100,
{
}

/// Taking the rounding remainder never leaves crank with less than its own
/// percentage of the fee.
pub proof fn lemma_crank_gets_at_least_its_share(fee: u64)
    ensures
        fee_split(fee).crank >= share_of(fee, TREASURY_DISTRIBUTION_CRANK_PERCENT),
{
    lemma_split_is_exact(fee);
    let f = fee as nat;
    let m = share_of(fee, 10);
    let t = share_of(fee, 40);
    let o = share_of(fee, 5);
    let i = share_of(fee, 44);
    let c = share_of(fee, 1);
    assert(m + t + o + i + c <= f) by (nonlinear_arith)
        requires
            m == f * 10 / 100,
            t == f * 40 / 100,
            o == f * 5 / 100,
            i == f * 44 / 100,
            c == f * 1 / 100,
    ;
}

pub open spec fn credit(sub: TreasurySubAccount, amount: nat) -> TreasurySubAccount {
    TreasurySubAccount { sol_balance: (sub.sol_balance + amount) as u64, ..sub }
}

pub open spec fn can_credit(sub: TreasurySubAccount, amount: nat) -> bool {
    sub.sol_balance + amount <= u64::MAX
}

/// The treasury after collecting `fee` of class `fee_type`, or the overflow that
/// rejects it.
pub open spec fn distribution(treasury: Treasury, fee: u64, fee_type: FeeType) -> Result<Treasury, ErrorCode> {
    match fee_type {
        FeeType::ProposalCreation => {
            if can_credit(treasury.operations, fee as nat) {
                Ok(Treasury { operations: credit(treasury.operations, fee as nat), ..treasury })
            } else {
                Err(ErrorCode::CalculationOverflow)
            }
        },
        _ => {
            let s = fee_split(fee);
            if can_credit(treasury.marketing, s.marketing as nat) && can_credit(treasury.team, s.team as nat)
                && can_credit(treasury.operations, s.operations as nat) && can_credit(
                treasury.investments,
                s.investments as nat,
            ) && can_credit(treasury.crank, s.crank as nat) {
                Ok(
                    Treasury {
                        marketing: credit(treasury.marketing, s.marketing as nat),
                        team: credit(treasury.team, s.team as nat),
                        operations: credit(treasury.operations, s.operations as nat),
                        investments: credit(treasury.investments, s.investments as nat),
                        crank: credit(treasury.crank, s.crank as nat),
                        ..treasury
                    },
                )
            } else {
                Err(ErrorCode::CalculationOverflow)
            }
        },
    }
}

/// Sum of the five sub-account balances.
pub open spec fn treasury_total(t: Treasury) -> int {
    t.marketing.sol_balance + t.team.sol_balance + t.operations.sol_balance + t.investments.sol_balance
        + t.crank.sol_balance
}

/// Credits a collected fee to the treasury's sub-accounts. Either every credit
/// fits in a balance, or none is made.
pub fn distribute_fees_to_treasury(treasury: &mut Treasury, fee_amount: u64, fee_type: FeeType) -> (r: Result<(), ErrorCode>)
    ensures
        match distribution(*old(treasury), fee_amount, fee_type) {
            Ok(t) => r is Ok && *final(treasury) == t,
            Err(e) => r == Err::<(), ErrorCode>(e) && *final(treasury) == *old(treasury),
        },
{
    match fee_type {
        FeeType::ProposalCreation => {
            match treasury.operations.sol_balance.checked_add(fee_amount) {
                Some(balance) => {
                    treasury.operations.sol_balance = balance;
                    Ok(())
                },
                None => Err(ErrorCode::CalculationOverflow),
            }
        },
        FeeType::ProposalSupport | FeeType::PoolCreation => {
            let s = split_fee(fee_amount);
            let marketing = treasury.marketing.sol_balance.checked_add(s.marketing);
            let team = treasury.team.sol_balance.checked_add(s.team);
            let operations = treasury.operations.sol_balance.checked_add(s.operations);
            let investments = treasury.investments.sol_balance.checked_add(s.investments);
            let crank = treasury.crank.sol_balance.checked_add(s.crank);
            match (marketing, team, operations, investments, crank) {
                (Some(m), Some(t), Some(o), Some(i), Some(c)) => {
                    treasury.marketing.sol_balance = m;
                    treasury.team.sol_balance = t;
                    treasury.operations.sol_balance = o;
                    treasury.investments.sol_balance = i;
                    treasury.crank.sol_balance = c;
                    Ok(())
                },
                _ => Err(ErrorCode::CalculationOverflow),
            }
        },
    }
}

/// A successful distribution adds exactly the fee to the treasury's total.
pub proof fn lemma_distribution_conserves(treasury: Treasury, fee: u64, fee_type: FeeType)
    requires
        distribution(treasury, fee, fee_type) is Ok,
    ensures
        treasury_total(distribution(treasury, fee, fee_type)->Ok_0) == treasury_total(treasury) + fee,
{
    lemma_split_is_exact(fee);
}

} // verus!
