//! Ledger logic of a token-launch governance program: epochs, proposals,
//! per-user support with fee extraction, refunds of rejected proposals, and a
//! treasury that splits collected fees over five categories.
pub mod address;
pub mod constants;
pub mod error;
pub mod fee_distribution;
pub mod instructions;
pub mod programs;
pub mod state;
