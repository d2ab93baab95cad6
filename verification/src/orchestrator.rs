use crate::account::AccountRef;
use crate::address::{derive_address, derive_spec, Address, ProgramAddress, Seed};
use crate::call::{views, Call, CallView};
use crate::error::ErrorCode;
use crate::holding::{
    close_call, close_program_wsol, create_wsol_token_idempotent, provision_calls,
};
use crate::program::Jupiter;
use crate::run::{RunView, State, SwapRun};
use crate::settlement::{settle, settle_calls, transfer_call, SETTLEMENT_AMOUNT};
use crate::split::{share_of, split_refusal, split_swaps, swap_calls, swap_leg, FAN_OUT};
use vstd::prelude::*;

verus! {

/// What a swap is asked with: the accounts of the instruction and what the
/// embedding program has read of the ledger before the first call.
#[derive(Debug)]
pub struct SolToMemeSwap {
    /// The address of the program that runs the swap.
    pub program_id: Address,
    /// The balance of the user who pays, all of which is up for the split.
    pub user_lamports: u64,
    /// Whether the account at the holding address already holds data.
    pub wsol_populated: bool,
    /// The program that owns the account at the holding address.
    pub wsol_owner: Address,
    /// The mint of the wrapped source asset.
    pub sol_mint: Address,
    /// The token program.
    pub token_program: Address,
    /// The aggregator that the swap legs are sent to.
    pub jupiter_program: Address,
    /// The balance that exempts a token account from rent.
    pub rent_exempt_lamports: u64,
    /// The token accounts in the keeping of the program authority that take
    /// up what the legs buy, one per leg.
    pub result_accounts: Vec<AccountRef>,
    /// First the assets to buy, one per leg, then the user's accounts that
    /// receive what each leg bought, in the same order.
    pub remaining_accounts: Vec<AccountRef>,
}

/// Why the request is refused before anything is planned, if it is: an empty
/// balance, an aggregator that is not Jupiter, or a populated holding account
/// that the token program does not own, looked at in this order.
pub open spec fn refusal(ctx: SolToMemeSwap) -> Option<ErrorCode> {
    if ctx.user_lamports == 0 {
        Some(ErrorCode::SwapFailed)
    } else if ctx.jupiter_program != Jupiter::address() {
        Some(ErrorCode::InvalidJupiterProgram)
    } else if ctx.wsol_populated && ctx.wsol_owner != ctx.token_program {
        Some(ErrorCode::IncorrectOwner)
    } else {
        None
    }
}

/// How many calls put the holding account in place.
pub open spec fn provisioning_len(ctx: SolToMemeSwap) -> nat {
    if ctx.wsol_populated {
        0
    } else {
        2
    }
}

/// Every call of the swap, in the order in which it is made: the holding
/// account is put in place, the legs are swapped in index order, the holding
/// account is closed, and the legs are settled in index order.
pub open spec fn plan_spec(
    ctx: SolToMemeSwap,
    program_authority: ProgramAddress,
    program_wsol_account: ProgramAddress,
    data: Seq<u8>,
) -> Seq<CallView> {
    provision_calls(
        program_authority,
        program_wsol_account,
        ctx.wsol_populated,
        ctx.sol_mint,
        program_authority.address,
        ctx.token_program,
        ctx.rent_exempt_lamports,
    ) + swap_calls(
        ctx.user_lamports,
        FAN_OUT,
        ctx.remaining_accounts@,
        ctx.jupiter_program,
        data,
        program_authority.seeds,
    ) + seq![close_call(program_authority, program_wsol_account)] + settle_calls(
        program_authority,
        ctx.result_accounts@,
        ctx.remaining_accounts@,
        FAN_OUT,
        SETTLEMENT_AMOUNT,
    )
}

/// The run that a request starts, or the error that it is refused with. A
/// request that is refused for what it holds is refused with that error;
/// otherwise a failed derivation refuses it, that of the program authority
/// first.
pub open spec fn swap_spec(
    ctx: SolToMemeSwap,
    program_authority: Result<ProgramAddress, ErrorCode>,
    program_wsol_account: Result<ProgramAddress, ErrorCode>,
    data: Seq<u8>,
) -> Result<RunView, ErrorCode> {
    match refusal(ctx) {
        Some(e) => Err(e),
        None => match (program_authority, program_wsol_account) {
            (Ok(authority), Ok(wsol)) => Ok(
                RunView {
                    plan: plan_spec(ctx, authority, wsol, data),
                    provisioning: provisioning_len(ctx),
                    fan_out: FAN_OUT as nat,
                    cursor: 0,
                    failure: None,
                    done: false,
                },
            ),
            (Err(e), _) => Err(e),
            (_, Err(e)) => Err(e),
        },
    }
}

/// Where each call stands in the plan: the provisioning calls first, then
/// swap leg `leg` at position `leg` after them, the closing call after the
/// last swap leg, and settlement leg `leg` at position `leg` after that.
/// Swap leg `leg` buys the asset at position `leg` of the remaining accounts,
/// and settlement leg `leg` hands to the destination at position
/// `FAN_OUT + leg`.
pub proof fn lemma_plan_order(
    ctx: SolToMemeSwap,
    program_authority: ProgramAddress,
    program_wsol_account: ProgramAddress,
    data: Seq<u8>,
    leg: int,
)
    requires
        0 <= leg < FAN_OUT,
    ensures
        ({
            let plan = plan_spec(ctx, program_authority, program_wsol_account, data);
            let first = provisioning_len(ctx) as int;
            &&& plan.len() == first + 2 * FAN_OUT + 1
            &&& plan.subrange(0, first) == provision_calls(
                program_authority,
                program_wsol_account,
                ctx.wsol_populated,
                ctx.sol_mint,
                program_authority.address,
                ctx.token_program,
                ctx.rent_exempt_lamports,
            )
            &&& plan[first + leg] == CallView::Swap(
                swap_leg(
                    ctx.remaining_accounts@,
                    ctx.jupiter_program,
                    data,
                    share_of(ctx.user_lamports, FAN_OUT),
                    leg as usize,
                    program_authority.seeds,
                ),
            )
            &&& plan[first + FAN_OUT] == close_call(program_authority, program_wsol_account)
            &&& plan[first + FAN_OUT + 1 + leg] == transfer_call(
                program_authority,
                ctx.result_accounts@[leg].key,
                ctx.remaining_accounts@[FAN_OUT + leg].key,
                leg as usize,
                SETTLEMENT_AMOUNT,
            )
        }),
{
    let plan = plan_spec(ctx, program_authority, program_wsol_account, data);
    let first = provisioning_len(ctx) as int;
    assert(plan.subrange(0, first) =~= provision_calls(
        program_authority,
        program_wsol_account,
        ctx.wsol_populated,
        ctx.sol_mint,
        program_authority.address,
        ctx.token_program,
        ctx.rent_exempt_lamports,
    ));
}

/// A rejected swap leg abandons the whole swap. Whatever is reported after
/// the rejection, the run ends with `SwapFailed` and is never done; the calls
/// made are those of the plan up to the rejected leg and no other, so the
/// holding account is not closed and nothing is settled.
pub proof fn lemma_rejected_leg_aborts(
    ctx: SolToMemeSwap,
    program_authority: ProgramAddress,
    program_wsol_account: ProgramAddress,
    data: Seq<u8>,
    outcomes: Seq<bool>,
    leg: int,
)
    requires
        refusal(ctx) is None,
        0 <= leg < FAN_OUT,
        provisioning_len(ctx) + leg < outcomes.len(),
        forall|i: int| 0 <= i < provisioning_len(ctx) + leg ==> outcomes[i],
        !outcomes[provisioning_len(ctx) + leg],
    ensures
        ({
            let start = swap_spec(
                ctx,
                Ok(program_authority),
                Ok(program_wsol_account),
                data,
            )->Ok_0;
            let end = start.run(outcomes);
            &&& end.state() == State::Aborted
            &&& end.result() == Some(Err::<(), ErrorCode>(ErrorCode::SwapFailed))
            &&& end.pending() is None
            &&& start.attempted(outcomes) == start.plan.subrange(
                0,
                provisioning_len(ctx) + leg + 1,
            )
            &&& forall|i: int|
                0 <= i < start.attempted(outcomes).len() ==> !(start.attempted(
                    outcomes,
                )[i] is CloseAccount) && !(start.attempted(outcomes)[i] is Transfer)
        }),
{
    let start = swap_spec(ctx, Ok(program_authority), Ok(program_wsol_account), data)->Ok_0;
    let first = provisioning_len(ctx) as int;
    lemma_plan_order(ctx, program_authority, program_wsol_account, data, leg);
    crate::run::lemma_rejection_aborts(start, outcomes, first + leg);
    let made = start.attempted(outcomes);
    assert forall|i: int| 0 <= i < made.len() implies !(made[i] is CloseAccount) && !(
    made[i] is Transfer) by {
        if i >= first {
            lemma_plan_order(ctx, program_authority, program_wsol_account, data, i - first);
        } else {
            assert(start.plan.subrange(0, first)[i] == start.plan[i]);
        }
    }
}

/// A swap of which every call is accepted ends done, with every call of the
/// plan made once and in order: the holding account is put in place, the
/// legs are swapped from the first to the last, the holding account is
/// closed, and the legs are settled from the first to the last.
pub proof fn lemma_accepted_swap_completes(
    ctx: SolToMemeSwap,
    program_authority: ProgramAddress,
    program_wsol_account: ProgramAddress,
    data: Seq<u8>,
    outcomes: Seq<bool>,
)
    requires
        refusal(ctx) is None,
        outcomes.len() > provisioning_len(ctx) + 2 * FAN_OUT + 1,
        forall|i: int| 0 <= i < outcomes.len() ==> outcomes[i],
    ensures
        ({
            let start = swap_spec(
                ctx,
                Ok(program_authority),
                Ok(program_wsol_account),
                data,
            )->Ok_0;
            let end = start.run(outcomes);
            &&& end.state() == State::Done
            &&& end.result() == Some(Ok::<(), ErrorCode>(()))
            &&& start.attempted(outcomes) == plan_spec(
                ctx,
                program_authority,
                program_wsol_account,
                data,
            )
        }),
{
    let start = swap_spec(ctx, Ok(program_authority), Ok(program_wsol_account), data)->Ok_0;
    lemma_plan_order(ctx, program_authority, program_wsol_account, data, 0);
    crate::run::lemma_all_accepted_completes(start, outcomes);
}

/// The holding account does not outlive a swap: once a run has come to
/// `Decommissioned`, `Settled` or `Done`, the call that closes the holding
/// account was accepted.
pub proof fn lemma_holding_account_is_transient(
    ctx: SolToMemeSwap,
    program_authority: ProgramAddress,
    program_wsol_account: ProgramAddress,
    data: Seq<u8>,
    run: RunView,
)
    requires
        run.wf(),
        run.plan == plan_spec(ctx, program_authority, program_wsol_account, data),
        run.provisioning == provisioning_len(ctx),
        run.fan_out == FAN_OUT,
        run.state() == State::Decommissioned || run.state() == State::Settled || run.state()
            == State::Done,
    ensures
        run.cursor > provisioning_len(ctx) + FAN_OUT,
        run.plan[provisioning_len(ctx) + FAN_OUT] == close_call(
            program_authority,
            program_wsol_account,
        ),
{
    lemma_plan_order(ctx, program_authority, program_wsol_account, data, 0);
}

/// Looks at the request before anything is planned.
pub fn validate(ctx: &SolToMemeSwap) -> (r: Result<(), ErrorCode>)
    ensures
        match r {
            Ok(_) => refusal(*ctx) is None,
            Err(e) => refusal(*ctx) == Some(e),
        },
{
    if ctx.user_lamports == 0 {
        return Err(ErrorCode::SwapFailed);
    }
    if !ctx.jupiter_program.same(&Jupiter::id()) {
        return Err(ErrorCode::InvalidJupiterProgram);
    }
    if ctx.wsol_populated && !ctx.wsol_owner.same(&ctx.token_program) {
        return Err(ErrorCode::IncorrectOwner);
    }
    Ok(())
}

/// Lays out every call of a swap. An empty balance and an aggregator that is
/// not Jupiter are refused, as the split refuses them.
pub fn plan_swap(
    ctx: &SolToMemeSwap,
    program_authority: &ProgramAddress,
    program_wsol_account: &ProgramAddress,
    data: &Vec<u8>,
) -> (r: Result<Vec<Call>, ErrorCode>)
    requires
        ctx.result_accounts.len() >= FAN_OUT,
        ctx.remaining_accounts.len() >= 2 * FAN_OUT,
    ensures
        match r {
            Ok(plan) => {
                &&& split_refusal(ctx.user_lamports, ctx.jupiter_program) is None
                &&& views(plan@) == plan_spec(
                    *ctx,
                    *program_authority,
                    *program_wsol_account,
                    data@,
                )
                &&& plan@.len() == provisioning_len(*ctx) + 2 * FAN_OUT + 1
            },
            Err(e) => split_refusal(ctx.user_lamports, ctx.jupiter_program) == Some(e),
        },
{
    let provision = create_wsol_token_idempotent(
        program_authority,
        program_wsol_account,
        ctx.wsol_populated,
        &ctx.sol_mint,
        &program_authority.address,
        &ctx.token_program,
        ctx.rent_exempt_lamports,
    );
    let mut plan = provision.calls;
    let mut swaps = match split_swaps(
        ctx.user_lamports,
        FAN_OUT,
        &ctx.remaining_accounts,
        &ctx.jupiter_program,
        data,
        program_authority.seeds,
    ) {
        Ok(swaps) => swaps,
        Err(e) => { return Err(e); },
    };
    let close = close_program_wsol(program_authority, program_wsol_account);
    let mut settlement = settle(
        program_authority,
        &ctx.result_accounts,
        &ctx.remaining_accounts,
        FAN_OUT,
        SETTLEMENT_AMOUNT,
    );
    let ghost provisioning = plan@;
    let ghost swapping = swaps@;
    let ghost settling = settlement@;
    plan.append(&mut swaps);
    plan.push(close);
    plan.append(&mut settlement);
    proof {
        assert(plan@ =~= provisioning + swapping + seq![close] + settling);
        assert(views(plan@) =~= views(provisioning) + views(swapping) + seq![close@] + views(
            settling,
        ));
    }
    Ok(plan)
}

/// Starts a swap from a request and the two derived addresses, each of them
/// as the derivation handed it back.
pub fn begin_swap(
    ctx: &SolToMemeSwap,
    program_authority: Result<ProgramAddress, ErrorCode>,
    program_wsol_account: Result<ProgramAddress, ErrorCode>,
    data: Vec<u8>,
) -> (r: Result<SwapRun, ErrorCode>)
    requires
        ctx.result_accounts.len() >= FAN_OUT,
        ctx.remaining_accounts.len() >= 2 * FAN_OUT,
    ensures
        match r {
            Ok(run) => swap_spec(*ctx, program_authority, program_wsol_account, data@) == Ok::<
                RunView,
                ErrorCode,
            >(run@) && run@.fresh(),
            Err(e) => swap_spec(*ctx, program_authority, program_wsol_account, data@) == Err::<
                RunView,
                ErrorCode,
            >(e),
        },
{
    match validate(ctx) {
        Err(e) => { return Err(e); },
        Ok(_) => {},
    }
    let authority = match program_authority {
        Ok(authority) => authority,
        Err(e) => { return Err(e); },
    };
    let wsol = match program_wsol_account {
        Ok(wsol) => wsol,
        Err(e) => { return Err(e); },
    };
    let plan = match plan_swap(ctx, &authority, &wsol, &data) {
        Ok(plan) => plan,
        Err(e) => { return Err(e); },
    };
    let provisioning: usize = if ctx.wsol_populated {
        0
    } else {
        2
    };
    Ok(SwapRun::new(plan, provisioning, FAN_OUT))
}

/// Starts the swap of the user's whole balance into three tokens.
///
/// The program authority and the holding account are derived from the
/// program's address. Nothing is invoked here: the run that comes back holds
/// every call of the swap, and the embedding program makes them one by one.
/// A request with an empty balance is refused with `SwapFailed` whatever else
/// it holds, so no call is ever made for it.
pub fn swap_sol_to_memes(ctx: &SolToMemeSwap, data: Vec<u8>) -> (r: Result<SwapRun, ErrorCode>)
    requires
        ctx.result_accounts.len() >= FAN_OUT,
        ctx.remaining_accounts.len() >= 2 * FAN_OUT,
    ensures
        match r {
            Ok(run) => swap_spec(
                *ctx,
                derive_spec(Seed::Authority, ctx.program_id),
                derive_spec(Seed::Wsol, ctx.program_id),
                data@,
            ) == Ok::<RunView, ErrorCode>(run@) && run@.fresh(),
            Err(e) => swap_spec(
                *ctx,
                derive_spec(Seed::Authority, ctx.program_id),
                derive_spec(Seed::Wsol, ctx.program_id),
                data@,
            ) == Err::<RunView, ErrorCode>(e),
        },
        ctx.user_lamports == 0 ==> (r matches Err(e) && e == ErrorCode::SwapFailed),
{
    let program_authority = derive_address(Seed::Authority, &ctx.program_id);
    let program_wsol_account = derive_address(Seed::Wsol, &ctx.program_id);
    begin_swap(ctx, program_authority, program_wsol_account, data)
}

} // verus!
