//! The program's instructions under their entry-point names. Each one checks
//! the signer and the records it is given, and either applies all of its effect
//! or returns an error and changes nothing.
use vstd::prelude::*;
use crate::address::Address;
use crate::error::ErrorCode;
use crate::instructions::create_token_proposal::{
    create_error, fee_paid, new_proposal, CreateTokenProposal,
};
use crate::instructions::end_epoch::{end_epoch_result, EpochEnded};
use crate::instructions::mark_epoch_processed::mark_processed_result;
use crate::instructions::reclaim_support::{reclaim_error, reclaimed, ReclaimSupport};
use crate::instructions::start_epoch::start_epoch_result;
use crate::instructions::support_proposal::{support_error, supported, SupportProposal};
use crate::instructions::update_proposal_status::finalize_result;
use crate::instructions::{
    create_token_proposal, end_epoch as end_epoch_instruction, initialize_program_config as config_instruction,
    mark_epoch_processed as mark_instruction, reclaim_support as reclaim_instruction,
    start_epoch as start_instruction, support_proposal as support_instruction,
    update_proposal_status as status_instruction,
};
use crate::state::{EpochManagement, ProgramConfig, ProposalStatus, TokenProposal};

pub use crate::instructions::initialize_treasury::initialize_treasury;
pub use crate::instructions::manage_treasury_role::{
    add_admin, add_treasury_role, initialize_treasury_roles, remove_admin, remove_treasury_role,
    update_treasury_role,
};

verus! {

/// Creates the configuration that names the admin key.
pub fn initialize_program_config(admin_authority: Address) -> (r: ProgramConfig)
    ensures
        r.admin_authority == admin_authority,
{
    config_instruction::handler(admin_authority)
}

/// Opens a new epoch; admin only.
pub fn start_epoch(
    authority: &Address,
    program_config: &ProgramConfig,
    epoch_id: u64,
    start_time: i64,
    end_time: i64,
) -> (r: Result<EpochManagement, ErrorCode>)
    ensures
        r == start_epoch_result(*authority, *program_config, epoch_id, start_time, end_time),
{
    start_instruction::handler(authority, program_config, epoch_id, start_time, end_time)
}

/// Creates a proposal in an active epoch, for the fixed creation fee.
pub fn create_proposal(
    ctx: &mut CreateTokenProposal,
    token_name: String,
    token_symbol: String,
    description: String,
    image_url: Option<String>,
    total_supply: u64,
    creator_allocation: u8,
    lockup_period: i64,
) -> (r: Result<TokenProposal, ErrorCode>)
    ensures
        match create_error(*old(ctx), creator_allocation, lockup_period) {
            Some(e) => r == Err::<TokenProposal, ErrorCode>(e) && *final(ctx) == *old(ctx),
            None => r == Ok::<TokenProposal, ErrorCode>(
                new_proposal(
                    *old(ctx),
                    token_name,
                    token_symbol,
                    description,
                    image_url,
                    total_supply,
                    creator_allocation,
                    lockup_period,
                ),
            ) && *final(ctx) == fee_paid(*old(ctx)),
        },
{
    create_token_proposal::handler(
        ctx,
        token_name,
        token_symbol,
        description,
        image_url,
        total_supply,
        creator_allocation,
        lockup_period,
    )
}

/// Contributes to an active proposal, less the support fee.
pub fn support_proposal(ctx: &mut SupportProposal, amount: u64) -> (r: Result<(), ErrorCode>)
    ensures
        match support_error(*old(ctx), amount) {
            Some(e) => r == Err::<(), ErrorCode>(e) && *final(ctx) == *old(ctx),
            None => r is Ok && *final(ctx) == supported(*old(ctx), amount),
        },
{
    support_instruction::handler(ctx, amount)
}

/// Closes an active epoch at `now`; admin only.
pub fn end_epoch(
    authority: &Address,
    program_config: &ProgramConfig,
    epoch_management: &mut EpochManagement,
    epoch_id: u64,
    now: i64,
) -> (r: Result<EpochEnded, ErrorCode>)
    ensures
        match end_epoch_result(*authority, *program_config, *old(epoch_management), epoch_id, now) {
            Ok(e) => r == Ok::<EpochEnded, ErrorCode>(EpochEnded { epoch_id, ended_at: now })
                && *final(epoch_management) == e,
            Err(err) => r == Err::<EpochEnded, ErrorCode>(err)
                && *final(epoch_management) == *old(epoch_management),
        },
{
    end_epoch_instruction::handler(authority, program_config, epoch_management, epoch_id, now)
}

/// Finalizes a proposal of a closed epoch; admin only.
pub fn update_proposal_status(
    authority: &Address,
    program_config: &ProgramConfig,
    epoch_management: &EpochManagement,
    proposal: &mut TokenProposal,
    new_status: ProposalStatus,
) -> (r: Result<(), ErrorCode>)
    ensures
        match finalize_result(*authority, *program_config, *epoch_management, *old(proposal), new_status) {
            Ok(p) => r is Ok && *final(proposal) == p,
            Err(e) => r == Err::<(), ErrorCode>(e) && *final(proposal) == *old(proposal),
        },
{
    status_instruction::handler(authority, program_config, epoch_management, proposal, new_status)
}

/// Marks a closed epoch as processed; admin only, and once.
pub fn mark_epoch_processed(
    authority: &Address,
    program_config: &ProgramConfig,
    epoch_management: &mut EpochManagement,
) -> (r: Result<(), ErrorCode>)
    ensures
        match mark_processed_result(*authority, *program_config, *old(epoch_management)) {
            Ok(e) => r is Ok && *final(epoch_management) == e,
            Err(err) => r == Err::<(), ErrorCode>(err)
                && *final(epoch_management) == *old(epoch_management),
        },
{
    mark_instruction::handler(authority, program_config, epoch_management)
}

/// Refunds a user's support of a rejected proposal and closes the record.
pub fn reclaim_support(ctx: &mut ReclaimSupport) -> (r: Result<(), ErrorCode>)
    ensures
        match reclaim_error(*old(ctx)) {
            Some(e) => r == Err::<(), ErrorCode>(e) && *final(ctx) == *old(ctx),
            None => r is Ok && *final(ctx) == reclaimed(*old(ctx)),
        },
{
    reclaim_instruction::handler(ctx)
}

} // verus!
