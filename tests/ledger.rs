use norug::address::Address;
use norug::error::ErrorCode;
use norug::fee_distribution::{distribute_fees_to_treasury, split_fee, FeeType};
use norug::instructions::check_epoch_end::TaskResponse;
use norug::instructions::create_token_proposal::{supporter_allocation, CreateTokenProposal};
use norug::instructions::initialize_treasury::initialize_treasury;
use norug::instructions::reclaim_support::ReclaimSupport;
use norug::instructions::support_proposal::{calculate_support_fee, SupportProposal};
use norug::instructions::{
    check_and_end_epochs, check_epoch_end, create_token_proposal, end_epoch, get_epoch_state,
    get_proposal_details, initialize_program_config, mark_epoch_processed, reclaim_support,
    start_epoch, support_proposal, update_proposal, update_proposal_status,
};
use norug::state::{
    EpochManagement, EpochStatus, ProgramConfig, ProposalStatus, TokenProposal, Treasury,
    UserProposalSupport,
};

const T0: i64 = 1_700_000_000;

fn key(b: u8) -> Address {
    Address::new([b; 32])
}

fn admin() -> Address {
    key(1)
}

fn creator() -> Address {
    key(2)
}

fn user() -> Address {
    key(3)
}

fn proposal_key() -> Address {
    key(9)
}

fn config() -> ProgramConfig {
    initialize_program_config::handler(admin())
}

fn active_epoch() -> EpochManagement {
    start_epoch::handler(&admin(), &config(), 1, T0, T0 + 3600).unwrap()
}

fn proposal_in(epoch: &EpochManagement) -> TokenProposal {
    let mut ctx = CreateTokenProposal {
        creator: creator(),
        creator_lamports: 1_000_000_000,
        epoch: *epoch,
        treasury: initialize_treasury(admin()),
        treasury_lamports: 0,
    };
    create_token_proposal::handler(
        &mut ctx,
        "Norug".to_string(),
        "NRG".to_string(),
        "A fair launch".to_string(),
        None,
        1_000_000,
        10,
        86_400,
    )
    .unwrap()
}

fn support_ctx(epoch: EpochManagement, proposal: TokenProposal) -> SupportProposal {
    SupportProposal {
        user: user(),
        user_lamports: 10_000,
        epoch,
        proposal,
        proposal_key: proposal_key(),
        proposal_lamports: 0,
        user_support: None,
        treasury: initialize_treasury(admin()),
        treasury_lamports: 0,
    }
}

fn reclaim_ctx(epoch: EpochManagement, proposal: TokenProposal, amount: u64) -> ReclaimSupport {
    ReclaimSupport {
        user: user(),
        user_lamports: 100,
        token_proposal: proposal,
        proposal_key: proposal_key(),
        proposal_lamports: amount,
        user_proposal_support: Some(UserProposalSupport {
            epoch_id: epoch.epoch_id,
            user: user(),
            proposal: proposal_key(),
            amount,
        }),
        support_lamports: 7,
        epoch_management: epoch,
    }
}

fn closed_processed_rejected() -> (EpochManagement, TokenProposal) {
    let mut epoch = active_epoch();
    let mut proposal = proposal_in(&epoch);
    end_epoch::handler(&admin(), &config(), &mut epoch, 1, T0 + 10).unwrap();
    update_proposal_status::handler(&admin(), &config(), &epoch, &mut proposal, ProposalStatus::Rejected)
        .unwrap();
    mark_epoch_processed::handler(&admin(), &config(), &mut epoch).unwrap();
    (epoch, proposal)
}

#[test]
fn supporter_allocation_is_half_the_rest_rounded_up() {
    assert_eq!(supporter_allocation(10), 45);
    assert_eq!(supporter_allocation(0), 50);
    assert_eq!(supporter_allocation(7), 47);
    assert_eq!(supporter_allocation(1), 50);
    assert_eq!(supporter_allocation(101), 0);
    for a in 0..=10u8 {
        let s = supporter_allocation(a) as u32;
        assert!(2 * s >= 100 - a as u32 && 2 * s < 100 - a as u32 + 2);
    }
}

#[test]
fn fee_split_of_one_thousand() {
    let s = split_fee(1000);
    assert_eq!((s.marketing, s.team, s.operations, s.investments, s.crank), (100, 400, 50, 440, 10));
}

#[test]
fn fee_split_loses_nothing() {
    for fee in [0u64, 1, 7, 99, 101, 12_345, 999_999_999, u64::MAX] {
        let s = split_fee(fee);
        let total = s.marketing as u128 + s.team as u128 + s.operations as u128
            + s.investments as u128 + s.crank as u128;
        assert_eq!(total, fee as u128);
    }
    let s = split_fee(99);
    assert_eq!((s.marketing, s.team, s.operations, s.investments, s.crank), (9, 39, 4, 43, 4));
}

#[test]
fn creation_fee_goes_to_operations() {
    let mut t = initialize_treasury(admin());
    distribute_fees_to_treasury(&mut t, 5_000_000, FeeType::ProposalCreation).unwrap();
    assert_eq!(t.operations.sol_balance, 5_000_000);
    assert_eq!(t.marketing.sol_balance + t.team.sol_balance + t.crank.sol_balance, 0);
}

#[test]
fn distribution_overflow_changes_nothing() {
    let mut t: Treasury = initialize_treasury(admin());
    t.crank.sol_balance = u64::MAX;
    let before = t;
    assert_eq!(
        distribute_fees_to_treasury(&mut t, 1000, FeeType::ProposalSupport),
        Err(ErrorCode::CalculationOverflow)
    );
    assert_eq!(t, before);
}

#[test]
fn support_fee_on_one_thousand_and_on_one_hundred() {
    assert_eq!(calculate_support_fee(1000), Ok(5));
    assert_eq!(calculate_support_fee(100), Ok(0));
    assert_eq!(calculate_support_fee(u64::MAX), Err(ErrorCode::CalculationOverflow));

    let epoch = active_epoch();
    let mut ctx = support_ctx(epoch, proposal_in(&epoch));
    support_proposal::handler(&mut ctx, 1000).unwrap();
    assert_eq!(ctx.proposal.sol_raised, 995);
    assert_eq!(ctx.proposal_lamports, 995);
    assert_eq!(ctx.treasury_lamports, 5);
    assert_eq!(ctx.user_lamports, 9_000);
    assert_eq!(ctx.treasury.marketing.sol_balance, 0);
    assert_eq!(ctx.treasury.team.sol_balance, 2);
    assert_eq!(ctx.treasury.investments.sol_balance, 2);
    assert_eq!(ctx.treasury.crank.sol_balance, 1);

    let mut small = support_ctx(epoch, proposal_in(&epoch));
    assert_eq!(support_proposal::handler(&mut small, 100), Err(ErrorCode::FeeCannotBeZero));
    assert_eq!(small.user_lamports, 10_000);
    assert!(small.user_support.is_none());
}

#[test]
fn support_rejections() {
    let epoch = active_epoch();
    let mut ctx = support_ctx(epoch, proposal_in(&epoch));
    assert_eq!(support_proposal::handler(&mut ctx, 0), Err(ErrorCode::AmountMustBeGreaterThanZero));
    assert_eq!(support_proposal::handler(&mut ctx, 20_000), Err(ErrorCode::InsufficientFunds));

    let mut other_epoch = epoch;
    other_epoch.epoch_id = 2;
    let mut ctx = support_ctx(other_epoch, proposal_in(&epoch));
    assert_eq!(support_proposal::handler(&mut ctx, 1000), Err(ErrorCode::ProposalEpochMismatch));

    let mut closed = epoch;
    closed.status = EpochStatus::Closed;
    let mut ctx = support_ctx(closed, proposal_in(&epoch));
    assert_eq!(support_proposal::handler(&mut ctx, 1000), Err(ErrorCode::EpochNotActive));

    let mut rejected = proposal_in(&epoch);
    rejected.status = ProposalStatus::Rejected;
    let mut ctx = support_ctx(epoch, rejected);
    assert_eq!(support_proposal::handler(&mut ctx, 1000), Err(ErrorCode::ProposalNotActive));

    let mut ctx = support_ctx(epoch, proposal_in(&epoch));
    ctx.user_support = Some(UserProposalSupport {
        epoch_id: 1,
        user: key(4),
        proposal: proposal_key(),
        amount: 10,
    });
    assert_eq!(support_proposal::handler(&mut ctx, 1000), Err(ErrorCode::ProposalMismatch));

    let mut ctx = support_ctx(epoch, proposal_in(&epoch));
    ctx.proposal_lamports = u64::MAX;
    assert_eq!(support_proposal::handler(&mut ctx, 1000), Err(ErrorCode::Overflow));
    assert_eq!(ctx.user_lamports, 10_000);

    let mut ctx = support_ctx(epoch, proposal_in(&epoch));
    ctx.treasury.team.sol_balance = u64::MAX;
    assert_eq!(support_proposal::handler(&mut ctx, 1000), Err(ErrorCode::CalculationOverflow));
    assert_eq!(ctx.treasury_lamports, 0);
    assert_eq!(ctx.proposal_lamports, 0);
}

#[test]
fn end_to_end_support_and_refund() {
    let admin = admin();
    let config = config();
    let mut epoch = start_epoch::handler(&admin, &config, 1, T0, T0 + 3600).unwrap();
    assert_eq!(epoch.status, EpochStatus::Active);
    assert!(!epoch.processed);

    let mut create = CreateTokenProposal {
        creator: creator(),
        creator_lamports: 1_000_000_000,
        epoch,
        treasury: initialize_treasury(admin),
        treasury_lamports: 0,
    };
    let proposal = create_token_proposal::handler(
        &mut create,
        "Norug".to_string(),
        "NRG".to_string(),
        "A fair launch".to_string(),
        Some("https://example.org/n.png".to_string()),
        1_000_000,
        10,
        0,
    )
    .unwrap();
    assert_eq!(proposal.supporter_allocation, 45);
    assert_eq!(proposal.status, ProposalStatus::Active);
    assert_eq!(create.treasury.operations.sol_balance, 5_000_000);
    assert_eq!(create.creator_lamports, 995_000_000);

    let mut support = SupportProposal {
        user: user(),
        user_lamports: 10_000,
        epoch,
        proposal,
        proposal_key: proposal_key(),
        proposal_lamports: 0,
        user_support: None,
        treasury: create.treasury,
        treasury_lamports: create.treasury_lamports,
    };
    support_proposal::handler(&mut support, 1000).unwrap();
    support_proposal::handler(&mut support, 1000).unwrap();
    assert_eq!(support.proposal.total_contributions, 1);
    assert_eq!(support.proposal.sol_raised, 1990);
    assert_eq!(support.user_support.unwrap().amount, 1990);
    assert_eq!(support.user_lamports, 8_000);

    end_epoch::handler(&admin, &config, &mut epoch, 1, T0 + 3600).unwrap();
    let mut proposal = support.proposal.clone();
    update_proposal_status::handler(&admin, &config, &epoch, &mut proposal, ProposalStatus::Rejected)
        .unwrap();
    mark_epoch_processed::handler(&admin, &config, &mut epoch).unwrap();

    let mut reclaim = ReclaimSupport {
        user: user(),
        user_lamports: support.user_lamports,
        token_proposal: proposal,
        proposal_key: proposal_key(),
        proposal_lamports: support.proposal_lamports,
        user_proposal_support: support.user_support,
        support_lamports: 0,
        epoch_management: epoch,
    };
    let before = reclaim.user_lamports;
    reclaim_support::handler(&mut reclaim).unwrap();
    assert_eq!(reclaim.user_lamports - before, 1990);
    assert!(reclaim.user_proposal_support.is_none());
    assert_eq!(reclaim.proposal_lamports, 0);
}

#[test]
fn reclaim_happens_once() {
    let (epoch, proposal) = closed_processed_rejected();
    let mut ctx = reclaim_ctx(epoch, proposal, 500);
    reclaim_support::handler(&mut ctx).unwrap();
    assert_eq!(ctx.user_lamports, 100 + 500 + 7);
    assert_eq!(ctx.support_lamports, 0);
    let after = ctx.clone();
    assert_eq!(reclaim_support::handler(&mut ctx), Err(ErrorCode::NothingToReclaim));
    assert_eq!(ctx.user_lamports, after.user_lamports);
    assert_eq!(ctx.proposal_lamports, after.proposal_lamports);
}

#[test]
fn reclaim_rejections() {
    let (epoch, proposal) = closed_processed_rejected();

    let mut active = proposal.clone();
    active.status = ProposalStatus::Active;
    let mut ctx = reclaim_ctx(epoch, active, 500);
    assert_eq!(reclaim_support::handler(&mut ctx), Err(ErrorCode::ProposalNotRejected));

    let mut ctx = reclaim_ctx(epoch, proposal.clone(), 500);
    ctx.user = key(5);
    assert_eq!(reclaim_support::handler(&mut ctx), Err(ErrorCode::InvalidAuthority));

    let mut ctx = reclaim_ctx(epoch, proposal.clone(), 500);
    ctx.proposal_key = key(6);
    assert_eq!(reclaim_support::handler(&mut ctx), Err(ErrorCode::ProposalMismatch));

    let mut ctx = reclaim_ctx(epoch, proposal.clone(), 0);
    assert_eq!(reclaim_support::handler(&mut ctx), Err(ErrorCode::NothingToReclaim));

    let mut unprocessed = epoch;
    unprocessed.processed = false;
    let mut ctx = reclaim_ctx(unprocessed, proposal.clone(), 500);
    assert_eq!(reclaim_support::handler(&mut ctx), Err(ErrorCode::EpochNotProcessedYet));

    let mut ctx = reclaim_ctx(epoch, proposal.clone(), 500);
    ctx.proposal_lamports = 499;
    assert_eq!(reclaim_support::handler(&mut ctx), Err(ErrorCode::InsufficientProposalFunds));
    assert_eq!(ctx.user_lamports, 100);
    assert!(ctx.user_proposal_support.is_some());

    let mut ctx = reclaim_ctx(epoch, proposal.clone(), 500);
    ctx.user_lamports = u64::MAX - 100;
    assert_eq!(reclaim_support::handler(&mut ctx), Err(ErrorCode::Overflow));
    assert_eq!(ctx.proposal_lamports, 500);

    let mut other = epoch;
    other.epoch_id = 2;
    let mut ctx = reclaim_ctx(other, proposal, 500);
    assert_eq!(reclaim_support::handler(&mut ctx), Err(ErrorCode::ProposalEpochMismatch));
}

#[test]
fn processed_once_and_only_when_closed() {
    let mut epoch = active_epoch();
    assert_eq!(
        mark_epoch_processed::handler(&admin(), &config(), &mut epoch),
        Err(ErrorCode::EpochNotClosed)
    );
    end_epoch::handler(&admin(), &config(), &mut epoch, 1, T0 + 5).unwrap();
    assert_eq!(
        mark_epoch_processed::handler(&key(8), &config(), &mut epoch),
        Err(ErrorCode::Unauthorized)
    );
    mark_epoch_processed::handler(&admin(), &config(), &mut epoch).unwrap();
    assert!(epoch.processed);
    assert_eq!(
        mark_epoch_processed::handler(&admin(), &config(), &mut epoch),
        Err(ErrorCode::EpochAlreadyProcessed)
    );
    assert!(epoch.processed);
}

#[test]
fn epoch_start_and_end_rules() {
    assert_eq!(
        start_epoch::handler(&admin(), &config(), 1, T0, T0),
        Err(ErrorCode::InvalidEpochTimeRange)
    );
    assert_eq!(
        start_epoch::handler(&key(8), &config(), 1, T0, T0 + 1),
        Err(ErrorCode::Unauthorized)
    );
    let mut epoch = active_epoch();
    assert_eq!(
        end_epoch::handler(&admin(), &config(), &mut epoch, 2, T0 + 5),
        Err(ErrorCode::InvalidEpochId)
    );
    let ended = end_epoch::handler(&admin(), &config(), &mut epoch, 1, T0 + 5).unwrap();
    assert_eq!((ended.epoch_id, ended.ended_at), (1, T0 + 5));
    assert_eq!(epoch.status, EpochStatus::Closed);
    assert_eq!(epoch.end_time, T0 + 5);
    assert_eq!(
        end_epoch::handler(&admin(), &config(), &mut epoch, 1, T0 + 6),
        Err(ErrorCode::EpochAlreadyInactive)
    );
    assert_eq!(get_epoch_state::handler(&epoch, 1), Ok(epoch));
    assert_eq!(get_epoch_state::handler(&epoch, 3), Err(ErrorCode::EpochNotFound));
}

#[test]
fn watchdog_closes_when_due_and_tolerates_retries() {
    let mut epoch = active_epoch();
    assert_eq!(check_epoch_end::handler(&mut epoch, T0 + 100), TaskResponse::Continue);
    assert_eq!(epoch.status, EpochStatus::Active);
    assert_eq!(check_epoch_end::handler(&mut epoch, T0 + 3600), TaskResponse::Complete);
    assert_eq!(epoch.status, EpochStatus::Closed);
    let closed = epoch;
    assert_eq!(check_epoch_end::handler(&mut epoch, T0 + 9999), TaskResponse::Complete);
    assert_eq!(epoch, closed);

    let mut epoch = active_epoch();
    assert_eq!(
        check_and_end_epochs::handler(&key(8), &config(), &mut epoch, T0 + 4000),
        Err(ErrorCode::InvalidAuthority)
    );
    assert_eq!(epoch.status, EpochStatus::Active);
    assert_eq!(
        check_and_end_epochs::handler(&admin(), &config(), &mut epoch, T0 + 4000),
        Ok(TaskResponse::Complete)
    );
    assert_eq!(epoch.end_time, T0 + 4000);
}

#[test]
fn proposal_creation_rules() {
    let epoch = active_epoch();
    let mut ctx = CreateTokenProposal {
        creator: creator(),
        creator_lamports: 1_000_000_000,
        epoch,
        treasury: initialize_treasury(admin()),
        treasury_lamports: 0,
    };
    let name = || "N".to_string();
    let r = create_token_proposal::handler(&mut ctx, name(), name(), name(), None, 1, 11, 0);
    assert_eq!(r.unwrap_err(), ErrorCode::CreatorAllocationTooHigh);
    let r = create_token_proposal::handler(&mut ctx, name(), name(), name(), None, 1, 5, -1);
    assert_eq!(r.unwrap_err(), ErrorCode::NegativeLockupPeriod);
    ctx.creator_lamports = 10;
    let r = create_token_proposal::handler(&mut ctx, name(), name(), name(), None, 1, 5, 0);
    assert_eq!(r.unwrap_err(), ErrorCode::InsufficientFunds);
    ctx.creator_lamports = 1_000_000_000;
    ctx.epoch.status = EpochStatus::Closed;
    let r = create_token_proposal::handler(&mut ctx, name(), name(), name(), None, 1, 5, 0);
    assert_eq!(r.unwrap_err(), ErrorCode::EpochNotActive);
    assert_eq!(ctx.treasury_lamports, 0);
    ctx.epoch.status = EpochStatus::Active;
    let p = create_token_proposal::handler(&mut ctx, name(), "S".to_string(), name(), None, 7, 0, 0)
        .unwrap();
    assert_eq!((p.creator_allocation, p.supporter_allocation), (0, 50));
    assert_eq!((p.sol_raised, p.total_contributions, p.epoch_id), (0, 0, 1));
    assert_eq!(p.token_symbol, "S");
    assert_eq!(p.creator, creator());
}

#[test]
fn proposal_update_rules() {
    let epoch = active_epoch();
    let mut p = proposal_in(&epoch);
    let r = update_proposal::handler(&key(8), &mut p, &epoch, None, None, None, Some(5), None);
    assert_eq!(r, Err(ErrorCode::UnauthorizedCreator));
    let r = update_proposal::handler(&creator(), &mut p, &epoch, None, None, None, Some(11), None);
    assert_eq!(r, Err(ErrorCode::CreatorAllocationTooHigh));
    assert_eq!(p.creator_allocation, 10);
    update_proposal::handler(
        &creator(),
        &mut p,
        &epoch,
        Some("Renamed".to_string()),
        None,
        Some(42),
        Some(7),
        Some(60),
    )
    .unwrap();
    assert_eq!(p.token_name, "Renamed");
    assert_eq!(p.token_symbol, "NRG");
    assert_eq!((p.total_supply, p.creator_allocation, p.supporter_allocation, p.lockup_period), (42, 7, 47, 60));

    let mut other = epoch;
    other.epoch_id = 2;
    let r = update_proposal::handler(&creator(), &mut p, &other, None, None, Some(1), None, None);
    assert_eq!(r, Err(ErrorCode::ProposalEpochMismatch));
    let r = update_proposal::handler(&creator(), &mut p, &epoch, None, None, None, None, Some(-5));
    assert_eq!(r, Err(ErrorCode::NegativeLockupPeriod));
    assert_eq!(p.lockup_period, 60);

    let mut closed = epoch;
    closed.status = EpochStatus::Closed;
    let r = update_proposal::handler(&creator(), &mut p, &closed, None, None, Some(1), None, None);
    assert_eq!(r, Err(ErrorCode::EpochNotActive));
    p.status = ProposalStatus::Validated;
    let r = update_proposal::handler(&creator(), &mut p, &epoch, None, None, Some(1), None, None);
    assert_eq!(r, Err(ErrorCode::ProposalNotActive));
}

#[test]
fn finalization_rules() {
    let mut epoch = active_epoch();
    let mut p = proposal_in(&epoch);
    let r = update_proposal_status::handler(&admin(), &config(), &epoch, &mut p, ProposalStatus::Validated);
    assert_eq!(r, Err(ErrorCode::EpochNotClosed));
    end_epoch::handler(&admin(), &config(), &mut epoch, 1, T0 + 1).unwrap();
    let r = update_proposal_status::handler(&key(8), &config(), &epoch, &mut p, ProposalStatus::Validated);
    assert_eq!(r, Err(ErrorCode::InvalidAuthority));
    let r = update_proposal_status::handler(&admin(), &config(), &epoch, &mut p, ProposalStatus::Active);
    assert_eq!(r, Err(ErrorCode::InvalidProposalStatusUpdate));
    let mut elsewhere = p.clone();
    elsewhere.epoch_id = 2;
    let r = update_proposal_status::handler(&admin(), &config(), &epoch, &mut elsewhere, ProposalStatus::Validated);
    assert_eq!(r, Err(ErrorCode::ProposalNotInEpoch));
    update_proposal_status::handler(&admin(), &config(), &epoch, &mut p, ProposalStatus::Validated).unwrap();
    assert_eq!(p.status, ProposalStatus::Validated);
    let r = update_proposal_status::handler(&admin(), &config(), &epoch, &mut p, ProposalStatus::Rejected);
    assert_eq!(r, Err(ErrorCode::ProposalAlreadyFinalized));
    assert_eq!(p.status, ProposalStatus::Validated);
}

#[test]
fn proposal_details_snapshot() {
    let epoch = active_epoch();
    let p = proposal_in(&epoch);
    let d = get_proposal_details::handler(&p, 1).unwrap();
    assert_eq!(d.token_name, "Norug");
    assert_eq!((d.supporter_allocation, d.lockup_period), (45, 86_400));
    assert!(get_proposal_details::handler(&p, 2).is_err());
}
