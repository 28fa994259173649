//! One module per instruction of the program. Each `handler` takes the records
//! the instruction reads or writes, checks every precondition before it changes
//! anything, and on an error leaves all of them as they were.
pub mod support_proposal;
pub mod reclaim_support;
pub mod start_epoch;
pub mod end_epoch;
pub mod check_epoch_end;
pub mod check_and_end_epochs;
pub mod mark_epoch_processed;
pub mod get_epoch_state;
pub mod create_token_proposal;
pub mod update_proposal;
pub mod update_proposal_status;
pub mod get_proposal_details;
pub mod manage_treasury_role;
pub mod initialize_treasury;
pub mod initialize_program_config;
