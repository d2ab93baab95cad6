use vstd::prelude::*;

verus! {

/// Why a swap was refused or abandoned.
#[derive(Clone, Copy, Debug, PartialEq, Eq, Structural)]
pub enum ErrorCode {
    /// An invoked program handed back data that could not be read.
    InvalidReturnData,
    /// The aggregator account is not the Jupiter program.
    InvalidJupiterProgram,
    /// An account is held by another program than the one expected.
    IncorrectOwner,
    /// Nothing to swap, or a swap leg or a settlement transfer was rejected.
    SwapFailed,
    /// Funding or initialising the holding account was rejected.
    ProvisionFailed,
    /// Closing the holding account was rejected.
    DecommissionFailed,
    /// No bump yields a program address for a seed.
    DerivationExhausted,
}

} // verus!
