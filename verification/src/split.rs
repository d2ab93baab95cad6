use crate::account::{copy_bytes, metas, to_metas, AccountRef, Instruction, InstructionView};
use crate::address::{Address, SignerSeeds};
use crate::call::{views, Call, CallView, SwapLeg, SwapLegView};
use crate::error::ErrorCode;
use crate::program::Jupiter;
use vstd::prelude::*;

verus! {

/// Into how many assets the source balance is split.
pub const FAN_OUT: usize = 3;

/// The share of one leg: the source balance divided by the fan-out, rounded
/// down. What the division leaves over is not swapped.
pub open spec fn share_of(source_total: u64, fan_out: usize) -> u64
    recommends
        fan_out > 0,
{
    (source_total as int / fan_out as int) as u64
}

/// The shares of all legs never exceed the source balance, and fewer units
/// than there are legs stay behind.
pub proof fn lemma_share_bounds(source_total: u64, fan_out: usize)
    requires
        fan_out > 0,
    ensures
        share_of(source_total, fan_out) as int == source_total as int / fan_out as int,
        fan_out * share_of(source_total, fan_out) <= source_total,
        source_total - fan_out * share_of(source_total, fan_out) <= fan_out - 1,
        source_total - fan_out * share_of(source_total, fan_out) == source_total as int
            % fan_out as int,
{
    let b = source_total as int;
    let n = fan_out as int;
    assert(0 <= b / n <= b && b == n * (b / n) + b % n && 0 <= b % n < n) by (nonlinear_arith)
        requires
            b >= 0,
            n > 0,
    ;
}

/// With three legs each gets a third of a positive balance, rounded down; the
/// three shares together stay within the balance and leave at most two units.
pub proof fn lemma_three_way_split(balance: u64)
    requires
        balance > 0,
    ensures
        share_of(balance, FAN_OUT) as int == balance as int / 3,
        3 * share_of(balance, FAN_OUT) <= balance,
        balance - 3 * share_of(balance, FAN_OUT) <= 2,
{
    lemma_share_bounds(balance, FAN_OUT);
}

/// Computes the share of one leg.
pub fn share(source_total: u64, fan_out: usize) -> (s: u64)
    requires
        fan_out > 0,
    ensures
        s == share_of(source_total, fan_out),
        s as int == source_total as int / fan_out as int,
        fan_out * s <= source_total,
        source_total - fan_out * s <= fan_out - 1,
{
    proof {
        lemma_share_bounds(source_total, fan_out);
    }
    source_total / (fan_out as u64)
}

/// The swap leg `leg`: an instruction for `jupiter_program` that lists all of
/// `remaining_accounts` as they were passed and carries `data` untouched. The
/// asset bought is the account at position `leg`.
pub open spec fn swap_leg(
    remaining_accounts: Seq<AccountRef>,
    jupiter_program: Address,
    data: Seq<u8>,
    amount: u64,
    leg: usize,
    signer: SignerSeeds,
) -> SwapLegView {
    SwapLegView {
        leg,
        target: remaining_accounts[leg as int],
        amount,
        instruction: InstructionView {
            program_id: jupiter_program,
            accounts: metas(remaining_accounts),
            data,
        },
        signer,
    }
}

/// The swap legs of a split, in the order in which they are invoked: leg `i`
/// stands at position `i` and spends one share.
pub open spec fn swap_calls(
    source_total: u64,
    fan_out: usize,
    remaining_accounts: Seq<AccountRef>,
    jupiter_program: Address,
    data: Seq<u8>,
    signer: SignerSeeds,
) -> Seq<CallView> {
    Seq::new(
        fan_out as nat,
        |i: int|
            CallView::Swap(
                swap_leg(
                    remaining_accounts,
                    jupiter_program,
                    data,
                    share_of(source_total, fan_out),
                    i as usize,
                    signer,
                ),
            ),
    )
}

/// Which asset a leg buys goes by position alone: with two of the assets
/// exchanged in the list, each of the two legs buys what the other bought
/// before, and spends the same share.
pub proof fn lemma_swap_binding_positional(
    source_total: u64,
    fan_out: usize,
    remaining_accounts: Seq<AccountRef>,
    jupiter_program: Address,
    data: Seq<u8>,
    signer: SignerSeeds,
    i: int,
    j: int,
)
    requires
        0 <= i < fan_out,
        0 <= j < fan_out,
        fan_out <= remaining_accounts.len(),
    ensures
        ({
            let exchanged = remaining_accounts.update(i, remaining_accounts[j]).update(
                j,
                remaining_accounts[i],
            );
            let legs = swap_calls(source_total, fan_out, exchanged, jupiter_program, data, signer);
            &&& legs.len() == fan_out
            &&& legs[i] matches CallView::Swap(leg) && leg.leg == i && leg.target
                == remaining_accounts[j] && leg.amount == share_of(source_total, fan_out)
            &&& legs[j] matches CallView::Swap(leg) && leg.leg == j && leg.target
                == remaining_accounts[i] && leg.amount == share_of(source_total, fan_out)
        }),
{
}

/// Why a split is refused, if it is: an empty balance, or an aggregator that
/// is not Jupiter, looked at in this order.
pub open spec fn split_refusal(source_total: u64, jupiter_program: Address) -> Option<ErrorCode> {
    if source_total == 0 {
        Some(ErrorCode::SwapFailed)
    } else if jupiter_program != Jupiter::address() {
        Some(ErrorCode::InvalidJupiterProgram)
    } else {
        None
    }
}

/// Builds one swap leg for the aggregator. `meme_coin` is the asset that the
/// leg buys; `amount` is recorded with the leg and not written into `data`,
/// whose encoding belongs to the aggregator. A leg is built for Jupiter only:
/// any other program is refused.
pub fn swap_on_jupiter(
    remaining_accounts: &Vec<AccountRef>,
    jupiter_program: &Address,
    data: Vec<u8>,
    amount: u64,
    meme_coin: AccountRef,
    leg: usize,
    signer: SignerSeeds,
) -> (r: Result<SwapLeg, ErrorCode>)
    ensures
        match r {
            Ok(swap) => {
                &&& *jupiter_program == Jupiter::address()
                &&& swap@ == (SwapLegView {
                    leg,
                    target: meme_coin,
                    amount,
                    instruction: InstructionView {
                        program_id: *jupiter_program,
                        accounts: metas(remaining_accounts@),
                        data: data@,
                    },
                    signer,
                })
                &&& leg < remaining_accounts.len() && meme_coin == remaining_accounts@[leg as int]
                    ==> swap@ == swap_leg(
                    remaining_accounts@,
                    *jupiter_program,
                    data@,
                    amount,
                    leg,
                    signer,
                )
            },
            Err(e) => e == ErrorCode::InvalidJupiterProgram && *jupiter_program
                != Jupiter::address(),
        },
{
    if !jupiter_program.same(&Jupiter::id()) {
        return Err(ErrorCode::InvalidJupiterProgram);
    }
    let accounts = to_metas(remaining_accounts);
    Ok(
        SwapLeg {
            leg,
            target: meme_coin,
            amount,
            instruction: Instruction { program_id: *jupiter_program, accounts, data },
            signer,
        },
    )
}

/// Splits `source_total` into `fan_out` equal shares and builds one swap leg
/// for each, in index order. An empty balance is refused, and so is an
/// aggregator that is not Jupiter.
pub fn split_swaps(
    source_total: u64,
    fan_out: usize,
    remaining_accounts: &Vec<AccountRef>,
    jupiter_program: &Address,
    data: &Vec<u8>,
    signer: SignerSeeds,
) -> (r: Result<Vec<Call>, ErrorCode>)
    requires
        0 < fan_out <= remaining_accounts.len(),
    ensures
        match r {
            Ok(calls) => split_refusal(source_total, *jupiter_program) is None && views(calls@)
                == swap_calls(
                source_total,
                fan_out,
                remaining_accounts@,
                *jupiter_program,
                data@,
                signer,
            ),
            Err(e) => split_refusal(source_total, *jupiter_program) == Some(e),
        },
{
    if source_total == 0 {
        return Err(ErrorCode::SwapFailed);
    }
    if !jupiter_program.same(&Jupiter::id()) {
        return Err(ErrorCode::InvalidJupiterProgram);
    }
    let amount = share(source_total, fan_out);
    let mut calls: Vec<Call> = Vec::new();
    let mut i: usize = 0;
    while i < fan_out
        invariant
            i <= fan_out <= remaining_accounts.len(),
            source_total > 0,
            *jupiter_program == Jupiter::address(),
            amount == share_of(source_total, fan_out),
            calls@.len() == i,
            forall|k: int|
                0 <= k < i ==> (#[trigger] calls@[k])@ == CallView::Swap(
                    swap_leg(
                        remaining_accounts@,
                        *jupiter_program,
                        data@,
                        amount,
                        k as usize,
                        signer,
                    ),
                ),
        decreases fan_out - i,
    {
        let meme_coin = remaining_accounts[i];
        let swap = match swap_on_jupiter(
            remaining_accounts,
            jupiter_program,
            copy_bytes(data),
            amount,
            meme_coin,
            i,
            signer,
        ) {
            Ok(swap) => swap,
            Err(e) => { return Err(e); },
        };
        calls.push(Call::Swap(swap));
        i += 1;
    }
    assert(views(calls@) =~= swap_calls(
        source_total,
        fan_out,
        remaining_accounts@,
        *jupiter_program,
        data@,
        signer,
    ));
    Ok(calls)
}

} // verus!
