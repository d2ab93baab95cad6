use crate::address::{Address, ProgramAddress};
use crate::call::{views, Call, CallView, CloseAccount, CreateAccount, InitializeAccount};
use anchor_spl::token::TokenAccount;
use vstd::prelude::*;

verus! {

/// Size in bytes of a token account.
pub const TOKEN_ACCOUNT_LEN: u64 = 165;

/// Reads `TokenAccount::LEN`, the size that the token program lays a token
/// account out in: 165 bytes.
#[verifier::external_body]
fn token_account_len() -> (len: usize)
    ensures
        len == TOKEN_ACCOUNT_LEN,
{
    TokenAccount::LEN
}

/// The calls that put the holding account in place. Where the account is
/// already populated there are none. Otherwise the account is created with
/// `rent_exempt_lamports` taken from `funding_source`, sized as a token
/// account and owned by the token program, and then initialised for
/// `sol_mint` under the program authority.
pub open spec fn provision_calls(
    program_authority: ProgramAddress,
    program_wsol_account: ProgramAddress,
    populated: bool,
    sol_mint: Address,
    funding_source: Address,
    token_program: Address,
    rent_exempt_lamports: u64,
) -> Seq<CallView> {
    if populated {
        Seq::empty()
    } else {
        seq![
            CallView::CreateAccount(
                CreateAccount {
                    from: funding_source,
                    to: program_wsol_account.address,
                    lamports: rent_exempt_lamports,
                    space: TOKEN_ACCOUNT_LEN,
                    owner: token_program,
                    funder_seeds: program_authority.seeds,
                    account_seeds: program_wsol_account.seeds,
                },
            ),
            CallView::InitializeAccount(
                InitializeAccount {
                    account: program_wsol_account.address,
                    mint: sol_mint,
                    authority: program_authority.address,
                },
            ),
        ]
    }
}

/// The lamports that the calls of `calls` take from a funding source.
pub open spec fn funding(calls: Seq<CallView>) -> int
    decreases calls.len(),
{
    if calls.len() == 0 {
        0
    } else {
        funding(calls.drop_last()) + match calls.last() {
            CallView::CreateAccount(create) => create.lamports as int,
            _ => 0,
        }
    }
}

/// Whether the holding account is populated once `calls` have been accepted:
/// it was before, or it has just been created.
pub open spec fn populated_after(populated: bool, calls: Seq<CallView>) -> bool {
    populated || exists|i: int| 0 <= i < calls.len() && calls[i] is InitializeAccount
}

/// What provisioning hands back: the holding account and the calls that put
/// it in place.
#[derive(Debug, PartialEq, Eq)]
pub struct Provision {
    pub holding: ProgramAddress,
    pub calls: Vec<Call>,
}

/// Puts the holding account in place, or leaves it alone where it is already
/// populated.
pub fn create_wsol_token_idempotent(
    program_authority: &ProgramAddress,
    program_wsol_account: &ProgramAddress,
    populated: bool,
    sol_mint: &Address,
    funding_source: &Address,
    token_program: &Address,
    rent_exempt_lamports: u64,
) -> (provision: Provision)
    ensures
        provision.holding == *program_wsol_account,
        views(provision.calls@) == provision_calls(
            *program_authority,
            *program_wsol_account,
            populated,
            *sol_mint,
            *funding_source,
            *token_program,
            rent_exempt_lamports,
        ),
        populated ==> provision.calls@.len() == 0,
        !populated ==> provision.calls@.len() == 2,
{
    let mut calls: Vec<Call> = Vec::new();
    if !populated {
        let space = token_account_len() as u64;
        calls.push(
            Call::CreateAccount(
                CreateAccount {
                    from: *funding_source,
                    to: program_wsol_account.address,
                    lamports: rent_exempt_lamports,
                    space,
                    owner: *token_program,
                    funder_seeds: program_authority.seeds,
                    account_seeds: program_wsol_account.seeds,
                },
            ),
        );
        calls.push(
            Call::InitializeAccount(
                InitializeAccount {
                    account: program_wsol_account.address,
                    mint: *sol_mint,
                    authority: program_authority.address,
                },
            ),
        );
    }
    assert(views(calls@) =~= provision_calls(
        *program_authority,
        *program_wsol_account,
        populated,
        *sol_mint,
        *funding_source,
        *token_program,
        rent_exempt_lamports,
    ));
    Provision { holding: *program_wsol_account, calls }
}

/// Provisioning a second time, with the first provisioning accepted and the
/// account not closed in between, asks for no call: the holding account is
/// the same, nothing is created again and no lamports are taken again.
pub proof fn lemma_provision_idempotent(
    program_authority: ProgramAddress,
    program_wsol_account: ProgramAddress,
    populated: bool,
    sol_mint: Address,
    funding_source: Address,
    token_program: Address,
    rent_exempt_lamports: u64,
)
    ensures
        ({
            let first = provision_calls(
                program_authority,
                program_wsol_account,
                populated,
                sol_mint,
                funding_source,
                token_program,
                rent_exempt_lamports,
            );
            let second = provision_calls(
                program_authority,
                program_wsol_account,
                populated_after(populated, first),
                sol_mint,
                funding_source,
                token_program,
                rent_exempt_lamports,
            );
            &&& populated_after(populated, first)
            &&& second == Seq::<CallView>::empty()
            &&& funding(first + second) == funding(first)
            &&& funding(first) == if populated {
                0
            } else {
                rent_exempt_lamports as int
            }
        }),
{
    let first = provision_calls(
        program_authority,
        program_wsol_account,
        populated,
        sol_mint,
        funding_source,
        token_program,
        rent_exempt_lamports,
    );
    if !populated {
        assert(first[1] is InitializeAccount);
        assert(first.drop_last() =~= seq![first[0]]);
        assert(first.drop_last().drop_last() =~= Seq::<CallView>::empty());
        reveal_with_fuel(funding, 3);
    }
    assert(first + Seq::<CallView>::empty() =~= first);
}

/// The call that closes the holding account: what backs it returns to the
/// program authority, which also signs.
pub open spec fn close_call(
    program_authority: ProgramAddress,
    program_wsol_account: ProgramAddress,
) -> CallView {
    CallView::CloseAccount(
        CloseAccount {
            account: program_wsol_account.address,
            destination: program_authority.address,
            authority: program_authority.address,
            signer: program_authority.seeds,
        },
    )
}

/// Builds the call that closes the holding account.
pub fn close_program_wsol(
    program_authority: &ProgramAddress,
    program_wsol_account: &ProgramAddress,
) -> (call: Call)
    ensures
        call@ == close_call(*program_authority, *program_wsol_account),
{
    Call::CloseAccount(
        CloseAccount {
            account: program_wsol_account.address,
            destination: program_authority.address,
            authority: program_authority.address,
            signer: program_authority.seeds,
        },
    )
}

} // verus!
