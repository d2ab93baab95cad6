//! Planning and sequencing of a one-to-many token swap routed through the
//! Jupiter aggregator.
//!
//! The crate decides *what* has to be invoked on the ledger and in which
//! order; the embedding on-chain program performs each invocation and reports
//! back whether it was accepted.

pub mod account;
pub mod address;
pub mod call;
pub mod error;
pub mod holding;
pub mod orchestrator;
pub mod program;
pub mod run;
pub mod settlement;
pub mod split;

pub use crate::account::{AccountMeta, AccountRef, Instruction};
pub use crate::address::{Address, ProgramAddress, Seed, SignerSeeds, AUTHORITY_SEED, WSOL_SEED};
pub use crate::call::Call;
pub use crate::error::ErrorCode;
pub use crate::orchestrator::{swap_sol_to_memes, SolToMemeSwap};
pub use crate::program::{Initialize, Jupiter};
pub use crate::run::{State, SwapRun};
