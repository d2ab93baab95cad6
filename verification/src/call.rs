use crate::account::{AccountRef, Instruction, InstructionView};
use crate::address::{Address, SignerSeeds};
use crate::error::ErrorCode;
use vstd::prelude::*;

verus! {

/// Creation of an account by the system program: `lamports` move from `from`
/// to the new account `to`, which gets `space` bytes and the owner `owner`.
/// Both the funder and the new account sign with their seeds.
#[derive(Clone, Copy, Debug, PartialEq, Eq)]
pub struct CreateAccount {
    pub from: Address,
    pub to: Address,
    pub lamports: u64,
    pub space: u64,
    pub owner: Address,
    pub funder_seeds: SignerSeeds,
    pub account_seeds: SignerSeeds,
}

/// Initialisation of a token account by the token program.
#[derive(Clone, Copy, Debug, PartialEq, Eq)]
pub struct InitializeAccount {
    pub account: Address,
    pub mint: Address,
    pub authority: Address,
}

/// Closing of a token account: what backs it goes to `destination`.
#[derive(Clone, Copy, Debug, PartialEq, Eq)]
pub struct CloseAccount {
    pub account: Address,
    pub destination: Address,
    pub authority: Address,
    pub signer: SignerSeeds,
}

/// Transfer of `amount` tokens for settlement leg `leg`.
#[derive(Clone, Copy, Debug, PartialEq, Eq)]
pub struct Transfer {
    pub leg: usize,
    pub from: Address,
    pub to: Address,
    pub authority: Address,
    pub amount: u64,
    pub signer: SignerSeeds,
}

/// One swap leg: the instruction for the aggregator, the asset that the leg
/// buys and the share of the source balance that it is meant to spend.
#[derive(Debug, PartialEq, Eq)]
pub struct SwapLeg {
    pub leg: usize,
    pub target: AccountRef,
    pub amount: u64,
    pub instruction: Instruction,
    pub signer: SignerSeeds,
}

/// A swap leg as plain values.
pub struct SwapLegView {
    pub leg: usize,
    pub target: AccountRef,
    pub amount: u64,
    pub instruction: InstructionView,
    pub signer: SignerSeeds,
}

impl View for SwapLeg {
    type V = SwapLegView;

    open spec fn view(&self) -> SwapLegView {
        SwapLegView {
            leg: self.leg,
            target: self.target,
            amount: self.amount,
            instruction: self.instruction@,
            signer: self.signer,
        }
    }
}

/// An invocation of another program that the embedding program has to make.
#[derive(Debug, PartialEq, Eq)]
pub enum Call {
    CreateAccount(CreateAccount),
    InitializeAccount(InitializeAccount),
    Swap(SwapLeg),
    CloseAccount(CloseAccount),
    Transfer(Transfer),
}

/// A call as plain values.
pub enum CallView {
    CreateAccount(CreateAccount),
    InitializeAccount(InitializeAccount),
    Swap(SwapLegView),
    CloseAccount(CloseAccount),
    Transfer(Transfer),
}

impl View for Call {
    type V = CallView;

    open spec fn view(&self) -> CallView {
        match *self {
            Call::CreateAccount(c) => CallView::CreateAccount(c),
            Call::InitializeAccount(c) => CallView::InitializeAccount(c),
            Call::Swap(leg) => CallView::Swap(leg@),
            Call::CloseAccount(c) => CallView::CloseAccount(c),
            Call::Transfer(t) => CallView::Transfer(t),
        }
    }
}

impl CallView {
    /// The error that a run ends with when this call is rejected.
    pub open spec fn failure(self) -> ErrorCode {
        match self {
            CallView::CreateAccount(_) => ErrorCode::ProvisionFailed,
            CallView::InitializeAccount(_) => ErrorCode::ProvisionFailed,
            CallView::Swap(_) => ErrorCode::SwapFailed,
            CallView::CloseAccount(_) => ErrorCode::DecommissionFailed,
            CallView::Transfer(_) => ErrorCode::SwapFailed,
        }
    }
}

impl Call {
    /// The error that a run ends with when this call is rejected.
    pub fn failure(&self) -> (e: ErrorCode)
        ensures
            e == self@.failure(),
    {
        match self {
            Call::CreateAccount(_) => ErrorCode::ProvisionFailed,
            Call::InitializeAccount(_) => ErrorCode::ProvisionFailed,
            Call::Swap(_) => ErrorCode::SwapFailed,
            Call::CloseAccount(_) => ErrorCode::DecommissionFailed,
            Call::Transfer(_) => ErrorCode::SwapFailed,
        }
    }

    /// A copy of the call.
    pub fn duplicate(&self) -> (copy: Call)
        ensures
            copy@ == self@,
    {
        match self {
            Call::CreateAccount(c) => Call::CreateAccount(*c),
            Call::InitializeAccount(c) => Call::InitializeAccount(*c),
            Call::Swap(leg) => Call::Swap(
                SwapLeg {
                    leg: leg.leg,
                    target: leg.target,
                    amount: leg.amount,
                    instruction: leg.instruction.duplicate(),
                    signer: leg.signer,
                },
            ),
            Call::CloseAccount(c) => Call::CloseAccount(*c),
            Call::Transfer(t) => Call::Transfer(*t),
        }
    }
}

/// The calls of `calls` as plain values, in the same order.
pub open spec fn views(calls: Seq<Call>) -> Seq<CallView> {
    Seq::new(calls.len(), |i: int| calls[i]@)
}

} // verus!
