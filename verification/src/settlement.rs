use crate::account::AccountRef;
use crate::address::{Address, ProgramAddress};
use crate::call::{views, Call, CallView, Transfer};
use vstd::prelude::*;

verus! {

/// The number of tokens that each settlement leg hands over.
pub const SETTLEMENT_AMOUNT: u64 = 1_000_000;

/// The transfer of settlement leg `leg`: `amount` tokens go from
/// `result_account`, which the program authority keeps, to
/// `destination_account`. The program authority signs.
pub open spec fn transfer_call(
    program_authority: ProgramAddress,
    result_account: Address,
    destination_account: Address,
    leg: usize,
    amount: u64,
) -> CallView {
    CallView::Transfer(
        Transfer {
            leg,
            from: result_account,
            to: destination_account,
            authority: program_authority.address,
            amount,
            signer: program_authority.seeds,
        },
    )
}

/// The transfers of a settlement, in the order in which they are invoked:
/// leg `i` stands at position `i`, takes from the result account `i` and
/// hands to the destination at position `fan_out + i` of
/// `remaining_accounts`.
pub open spec fn settle_calls(
    program_authority: ProgramAddress,
    result_accounts: Seq<AccountRef>,
    remaining_accounts: Seq<AccountRef>,
    fan_out: usize,
    amount: u64,
) -> Seq<CallView> {
    Seq::new(
        fan_out as nat,
        |i: int|
            transfer_call(
                program_authority,
                result_accounts[i].key,
                remaining_accounts[fan_out + i].key,
                i as usize,
                amount,
            ),
    )
}

/// Which destination a leg is handed to goes by position alone: with two of
/// the destinations exchanged in the list, each of the two legs is handed to
/// the destination of the other, out of its own result account.
pub proof fn lemma_settlement_binding_positional(
    program_authority: ProgramAddress,
    result_accounts: Seq<AccountRef>,
    remaining_accounts: Seq<AccountRef>,
    fan_out: usize,
    amount: u64,
    i: int,
    j: int,
)
    requires
        0 <= i < fan_out,
        0 <= j < fan_out,
        2 * fan_out <= remaining_accounts.len(),
    ensures
        ({
            let exchanged = remaining_accounts.update(
                fan_out + i,
                remaining_accounts[fan_out + j],
            ).update(fan_out + j, remaining_accounts[fan_out + i]);
            let legs = settle_calls(
                program_authority,
                result_accounts,
                exchanged,
                fan_out,
                amount,
            );
            &&& legs.len() == fan_out
            &&& legs[i] matches CallView::Transfer(t) && t.leg == i && t.from
                == result_accounts[i].key && t.to == remaining_accounts[fan_out + j].key
                && t.amount == amount
            &&& legs[j] matches CallView::Transfer(t) && t.leg == j && t.from
                == result_accounts[j].key && t.to == remaining_accounts[fan_out + i].key
                && t.amount == amount
        }),
{
}

/// Builds the transfer of one settlement leg, from `meme_token_account` to
/// `destination_account`.
pub fn transfer_meme_tokens(
    program_authority: &ProgramAddress,
    meme_token_account: &AccountRef,
    destination_account: &AccountRef,
    leg: usize,
    amount: u64,
) -> (call: Call)
    ensures
        call@ == transfer_call(
            *program_authority,
            meme_token_account.key,
            destination_account.key,
            leg,
            amount,
        ),
{
    Call::Transfer(
        Transfer {
            leg,
            from: meme_token_account.key,
            to: destination_account.key,
            authority: program_authority.address,
            amount,
            signer: program_authority.seeds,
        },
    )
}

/// Builds the transfers that hand what each leg bought to its destination,
/// one for each leg and in index order.
pub fn settle(
    program_authority: &ProgramAddress,
    result_accounts: &Vec<AccountRef>,
    remaining_accounts: &Vec<AccountRef>,
    fan_out: usize,
    amount: u64,
) -> (calls: Vec<Call>)
    requires
        fan_out <= result_accounts.len(),
        2 * fan_out <= remaining_accounts.len(),
    ensures
        views(calls@) == settle_calls(
            *program_authority,
            result_accounts@,
            remaining_accounts@,
            fan_out,
            amount,
        ),
{
    let mut calls: Vec<Call> = Vec::new();
    let mut i: usize = 0;
    while i < fan_out
        invariant
            i <= fan_out <= result_accounts.len(),
            2 * fan_out <= remaining_accounts.len(),
            calls@.len() == i,
            forall|k: int|
                0 <= k < i ==> (#[trigger] calls@[k])@ == transfer_call(
                    *program_authority,
                    result_accounts@[k].key,
                    remaining_accounts@[fan_out + k].key,
                    k as usize,
                    amount,
                ),
        decreases fan_out - i,
    {
        let meme_token_account = result_accounts[i];
        let destination_account = remaining_accounts[fan_out + i];
        calls.push(
            transfer_meme_tokens(
                program_authority,
                &meme_token_account,
                &destination_account,
                i,
                amount,
            ),
        );
        i += 1;
    }
    assert(views(calls@) =~= settle_calls(
        *program_authority,
        result_accounts@,
        remaining_accounts@,
        fan_out,
        amount,
    ));
    calls
}

} // verus!
