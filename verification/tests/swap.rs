use anchor_spl::token::TokenAccount;
use jupiter_swap::address::derive_address;
use jupiter_swap::call::{Call, CloseAccount, CreateAccount, InitializeAccount, Transfer};
use jupiter_swap::holding::{close_program_wsol, create_wsol_token_idempotent, TOKEN_ACCOUNT_LEN};
use jupiter_swap::orchestrator::{begin_swap, plan_swap, validate};
use jupiter_swap::program::id;
use jupiter_swap::settlement::{settle, transfer_meme_tokens, SETTLEMENT_AMOUNT};
use jupiter_swap::{
    swap_sol_to_memes, AccountRef, Address, ErrorCode, Initialize, Jupiter, ProgramAddress, Seed,
    SignerSeeds, SolToMemeSwap, State, SwapRun,
};

fn account(tag: u8) -> AccountRef {
    AccountRef { key: Address::new([tag; 32]), is_signer: false, is_writable: true }
}

fn token_program() -> Address {
    Address::new([200u8; 32])
}

fn request(lamports: u64, populated: bool) -> SolToMemeSwap {
    SolToMemeSwap {
        program_id: id(),
        user_lamports: lamports,
        wsol_populated: populated,
        wsol_owner: if populated { token_program() } else { Address::new([0u8; 32]) },
        sol_mint: Address::new([50u8; 32]),
        token_program: token_program(),
        jupiter_program: Jupiter::id(),
        rent_exempt_lamports: 2_039_280,
        result_accounts: vec![account(31), account(32), account(33)],
        remaining_accounts: vec![
            account(11),
            account(12),
            account(13),
            account(21),
            account(22),
            account(23),
        ],
    }
}

fn authority() -> ProgramAddress {
    derive_address(Seed::Authority, &id()).unwrap()
}

fn wsol() -> ProgramAddress {
    derive_address(Seed::Wsol, &id()).unwrap()
}

fn all_calls(run: &SwapRun) -> Vec<Call> {
    (0..run.len()).map(|i| run.call(i).unwrap()).collect()
}

fn drive(mut run: SwapRun, reject_at: Option<usize>) -> (SwapRun, Vec<Call>, Vec<State>) {
    let mut made = Vec::new();
    let mut states = vec![run.state()];
    while !run.is_terminal() {
        let accepted = match run.pending() {
            Some(call) => {
                made.push(call);
                Some(made.len() - 1) != reject_at
            },
            None => true,
        };
        run = run.step(accepted);
        states.push(run.state());
    }
    (run, made, states)
}

#[test]
fn token_account_size_is_that_of_the_token_program() {
    assert_eq!(TOKEN_ACCOUNT_LEN, 165);
    assert_eq!(TOKEN_ACCOUNT_LEN as usize, TokenAccount::LEN);
    let provision = create_wsol_token_idempotent(
        &authority(),
        &wsol(),
        false,
        &Address::new([50u8; 32]),
        &authority().address,
        &token_program(),
        7,
    );
    match &provision.calls[0] {
        Call::CreateAccount(create) => assert_eq!(create.space as usize, TokenAccount::LEN),
        other => panic!("not a creation: {:?}", other),
    }
}

#[test]
fn provisioning_creates_and_initialises_the_holding_account() {
    let mint = Address::new([50u8; 32]);
    let funder = Address::new([77u8; 32]);
    let provision = create_wsol_token_idempotent(
        &authority(),
        &wsol(),
        false,
        &mint,
        &funder,
        &token_program(),
        2_039_280,
    );
    assert_eq!(provision.holding, wsol());
    assert_eq!(
        provision.calls,
        vec![
            Call::CreateAccount(CreateAccount {
                from: funder,
                to: wsol().address,
                lamports: 2_039_280,
                space: 165,
                owner: token_program(),
                funder_seeds: authority().seeds,
                account_seeds: wsol().seeds,
            }),
            Call::InitializeAccount(InitializeAccount {
                account: wsol().address,
                mint,
                authority: authority().address,
            }),
        ]
    );
}

#[test]
fn provisioning_twice_funds_once() {
    let mint = Address::new([50u8; 32]);
    let first = create_wsol_token_idempotent(
        &authority(),
        &wsol(),
        false,
        &mint,
        &authority().address,
        &token_program(),
        2_039_280,
    );
    assert_eq!(first.calls.len(), 2);
    let second = create_wsol_token_idempotent(
        &authority(),
        &wsol(),
        true,
        &mint,
        &authority().address,
        &token_program(),
        2_039_280,
    );
    assert!(second.calls.is_empty());
    assert_eq!(second.holding, first.holding);
    assert_eq!(second.holding.address, wsol().address);
}

#[test]
fn decommissioning_returns_the_funds_to_the_authority() {
    assert_eq!(
        close_program_wsol(&authority(), &wsol()),
        Call::CloseAccount(CloseAccount {
            account: wsol().address,
            destination: authority().address,
            authority: authority().address,
            signer: SignerSeeds { seed: Seed::Authority, bump: authority().seeds.bump },
        })
    );
}

#[test]
fn settlement_leg_moves_the_constant_to_the_destination() {
    let destination = account(21);
    let call =
        transfer_meme_tokens(&authority(), &account(31), &destination, 0, SETTLEMENT_AMOUNT);
    assert_eq!(
        call,
        Call::Transfer(Transfer {
            leg: 0,
            from: account(31).key,
            to: destination.key,
            authority: authority().address,
            amount: 1_000_000,
            signer: authority().seeds,
        })
    );
}

#[test]
fn settlement_hands_to_the_second_half_in_order() {
    let ctx = request(9_000_000, false);
    let calls = settle(&authority(), &ctx.result_accounts, &ctx.remaining_accounts, 3, 5);
    assert_eq!(calls.len(), 3);
    for (i, call) in calls.iter().enumerate() {
        match call {
            Call::Transfer(t) => {
                assert_eq!(t.leg, i);
                assert_eq!(t.from, ctx.result_accounts[i].key);
                assert_eq!(t.to, ctx.remaining_accounts[3 + i].key);
                assert_eq!(t.authority, authority().address);
                assert_eq!(t.amount, 5);
            },
            other => panic!("not a transfer: {:?}", other),
        }
    }
}

#[test]
fn failure_of_each_call() {
    let ctx = request(9_000_000, false);
    let plan = plan_swap(&ctx, &authority(), &wsol(), &vec![1]).unwrap();
    let failures: Vec<ErrorCode> = plan.iter().map(|c| c.failure()).collect();
    assert_eq!(
        failures,
        vec![
            ErrorCode::ProvisionFailed,
            ErrorCode::ProvisionFailed,
            ErrorCode::SwapFailed,
            ErrorCode::SwapFailed,
            ErrorCode::SwapFailed,
            ErrorCode::DecommissionFailed,
            ErrorCode::SwapFailed,
            ErrorCode::SwapFailed,
            ErrorCode::SwapFailed,
        ]
    );
    for call in plan.iter() {
        assert_eq!(call.duplicate(), *call);
    }
}

#[test]
fn nine_million_split_three_ways() {
    let ctx = request(9_000_000, false);
    let run = swap_sol_to_memes(&ctx, vec![0xAA, 0xBB]).unwrap();
    assert_eq!(run.len(), 9);
    assert_eq!(run.accepted(), 0);
    assert_eq!(run.state(), State::Init);
    assert_eq!(run.result(), None);
    let planned = all_calls(&run);
    let (end, made, states) = drive(run, None);
    assert_eq!(made, planned);
    assert_eq!(end.state(), State::Done);
    assert_eq!(end.result(), Some(Ok(())));
    assert_eq!(end.accepted(), 9);
    assert!(end.pending().is_none());
    assert_eq!(
        states,
        vec![
            State::Init,
            State::Init,
            State::Provisioned,
            State::Provisioned,
            State::Provisioned,
            State::Swapped,
            State::Decommissioned,
            State::Decommissioned,
            State::Decommissioned,
            State::Settled,
            State::Done,
        ]
    );
    match (&made[0], &made[1]) {
        (Call::CreateAccount(create), Call::InitializeAccount(init)) => {
            assert_eq!(create.to, wsol().address);
            assert_eq!(create.from, authority().address);
            assert_eq!(create.lamports, 2_039_280);
            assert_eq!(create.owner, token_program());
            assert_eq!(init.account, wsol().address);
            assert_eq!(init.mint, ctx.sol_mint);
            assert_eq!(init.authority, authority().address);
        },
        other => panic!("holding account not provisioned first: {:?}", other),
    }
    for leg in 0..3 {
        match &made[2 + leg] {
            Call::Swap(swap) => {
                assert_eq!(swap.leg, leg);
                assert_eq!(swap.amount, 3_000_000);
                assert_eq!(swap.target, ctx.remaining_accounts[leg]);
                assert_eq!(swap.instruction.data, vec![0xAA, 0xBB]);
                assert_eq!(swap.instruction.program_id, Jupiter::id());
                assert_eq!(swap.instruction.accounts.len(), 6);
                assert_eq!(swap.signer, authority().seeds);
            },
            other => panic!("not a swap leg: {:?}", other),
        }
    }
    assert_eq!(made[5], close_program_wsol(&authority(), &wsol()));
    for leg in 0..3 {
        match &made[6 + leg] {
            Call::Transfer(t) => {
                assert_eq!(t.leg, leg);
                assert_eq!(t.amount, 1_000_000);
                assert_eq!(t.from, ctx.result_accounts[leg].key);
                assert_eq!(t.to, ctx.remaining_accounts[3 + leg].key);
                assert_eq!(t.authority, authority().address);
            },
            other => panic!("not a transfer: {:?}", other),
        }
    }
}

#[test]
fn populated_holding_account_is_not_created_again() {
    let ctx = request(9_000_000, true);
    let run = swap_sol_to_memes(&ctx, vec![1]).unwrap();
    assert_eq!(run.len(), 7);
    assert_eq!(run.state(), State::Provisioned);
    let (end, made, _) = drive(run, None);
    assert_eq!(end.result(), Some(Ok(())));
    assert!(made
        .iter()
        .all(|c| !matches!(c, Call::CreateAccount(_) | Call::InitializeAccount(_))));
    assert!(matches!(made[0], Call::Swap(_)));
}

#[test]
fn empty_balance_is_refused_before_any_call() {
    let ctx = request(0, false);
    assert_eq!(validate(&ctx), Err(ErrorCode::SwapFailed));
    assert_eq!(swap_sol_to_memes(&ctx, vec![1]).err(), Some(ErrorCode::SwapFailed));
    let mut worse = request(0, true);
    worse.jupiter_program = Address::new([1u8; 32]);
    worse.wsol_owner = Address::new([2u8; 32]);
    assert_eq!(swap_sol_to_memes(&worse, vec![1]).err(), Some(ErrorCode::SwapFailed));
}

#[test]
fn nothing_is_planned_for_an_empty_balance() {
    let ctx = request(0, false);
    assert_eq!(plan_swap(&ctx, &authority(), &wsol(), &vec![1]), Err(ErrorCode::SwapFailed));
}

#[test]
fn nothing_is_planned_for_a_foreign_aggregator() {
    let mut ctx = request(9_000_000, false);
    ctx.jupiter_program = id();
    let refused = plan_swap(&ctx, &authority(), &wsol(), &vec![1]);
    assert_eq!(refused, Err(ErrorCode::InvalidJupiterProgram));
    ctx.user_lamports = 0;
    assert_eq!(plan_swap(&ctx, &authority(), &wsol(), &vec![1]), Err(ErrorCode::SwapFailed));
}

#[test]
fn foreign_aggregator_is_refused() {
    let mut ctx = request(9_000_000, false);
    ctx.jupiter_program = id();
    assert_eq!(validate(&ctx), Err(ErrorCode::InvalidJupiterProgram));
    assert_eq!(swap_sol_to_memes(&ctx, vec![1]).err(), Some(ErrorCode::InvalidJupiterProgram));
}

#[test]
fn holding_account_of_another_owner_is_refused() {
    let mut ctx = request(9_000_000, true);
    ctx.wsol_owner = Address::new([3u8; 32]);
    assert_eq!(validate(&ctx), Err(ErrorCode::IncorrectOwner));
    assert_eq!(swap_sol_to_memes(&ctx, vec![1]).err(), Some(ErrorCode::IncorrectOwner));
    ctx.wsol_populated = false;
    assert_eq!(validate(&ctx), Ok(()));
    assert!(swap_sol_to_memes(&ctx, vec![1]).is_ok());
}

#[test]
fn failed_derivation_is_refused() {
    let ctx = request(9_000_000, false);
    let refused = begin_swap(&ctx, Err(ErrorCode::DerivationExhausted), Ok(wsol()), vec![1]);
    assert_eq!(refused.err(), Some(ErrorCode::DerivationExhausted));
    let refused = begin_swap(&ctx, Ok(authority()), Err(ErrorCode::DerivationExhausted), vec![1]);
    assert_eq!(refused.err(), Some(ErrorCode::DerivationExhausted));
    let empty = request(0, false);
    let refused = begin_swap(&empty, Err(ErrorCode::DerivationExhausted), Ok(wsol()), vec![1]);
    assert_eq!(refused.err(), Some(ErrorCode::SwapFailed));
}

#[test]
fn begin_with_derived_addresses_matches_the_entry_point() {
    let ctx = request(9_000_000, false);
    let direct = swap_sol_to_memes(&ctx, vec![4, 5]).unwrap();
    let staged = begin_swap(&ctx, Ok(authority()), Ok(wsol()), vec![4, 5]).unwrap();
    assert_eq!(all_calls(&direct), all_calls(&staged));
    assert_eq!(all_calls(&direct), plan_swap(&ctx, &authority(), &wsol(), &vec![4, 5]).unwrap());
}

#[test]
fn rejected_swap_leg_abandons_the_swap() {
    for leg in 0..3 {
        let ctx = request(9_000_000, false);
        let run = swap_sol_to_memes(&ctx, vec![1]).unwrap();
        let planned = all_calls(&run);
        let (end, made, states) = drive(run, Some(2 + leg));
        assert_eq!(end.state(), State::Aborted);
        assert_eq!(end.result(), Some(Err(ErrorCode::SwapFailed)));
        assert_eq!(end.accepted(), 2 + leg);
        assert!(end.pending().is_none());
        assert_eq!(made[..], planned[..3 + leg]);
        assert!(made.iter().all(|c| !matches!(c, Call::CloseAccount(_) | Call::Transfer(_))));
        assert_eq!(states.last(), Some(&State::Aborted));
        assert!(!states.contains(&State::Done));
        let stuck = end.step(true).step(true).step(false);
        assert_eq!(stuck.state(), State::Aborted);
        assert_eq!(stuck.result(), Some(Err(ErrorCode::SwapFailed)));
        assert_eq!(stuck.accepted(), 2 + leg);
        assert!(stuck.pending().is_none());
    }
}

#[test]
fn rejected_provisioning_decommissioning_and_settlement() {
    let expected = [
        (0, ErrorCode::ProvisionFailed),
        (1, ErrorCode::ProvisionFailed),
        (5, ErrorCode::DecommissionFailed),
        (6, ErrorCode::SwapFailed),
        (8, ErrorCode::SwapFailed),
    ];
    for (at, error) in expected {
        let run = swap_sol_to_memes(&request(9_000_000, false), vec![1]).unwrap();
        let (end, made, _) = drive(run, Some(at));
        assert_eq!(end.state(), State::Aborted);
        assert_eq!(end.result(), Some(Err(error)));
        assert_eq!(made.len(), at + 1);
        assert_eq!(end.accepted(), at);
    }
}

#[test]
fn done_run_stays_done() {
    let run = swap_sol_to_memes(&request(3, true), vec![]).unwrap();
    let (end, _, _) = drive(run, None);
    let later = end.step(false).step(true);
    assert_eq!(later.state(), State::Done);
    assert_eq!(later.result(), Some(Ok(())));
    assert_eq!(later.accepted(), 7);
    assert!(later.call(7).is_none());
    assert!(later.call(6).is_some());
}

#[test]
fn binding_of_legs_is_positional() {
    let ctx = request(9_000_000, true);
    let mut exchanged = request(9_000_000, true);
    exchanged.remaining_accounts.swap(0, 2);
    exchanged.remaining_accounts.swap(3, 4);
    let before = all_calls(&swap_sol_to_memes(&ctx, vec![1]).unwrap());
    let after = all_calls(&swap_sol_to_memes(&exchanged, vec![1]).unwrap());
    let target = |calls: &Vec<Call>, leg: usize| match &calls[leg] {
        Call::Swap(swap) => (swap.leg, swap.target, swap.amount),
        other => panic!("not a swap leg: {:?}", other),
    };
    let destination = |calls: &Vec<Call>, leg: usize| match &calls[4 + leg] {
        Call::Transfer(t) => (t.leg, t.from, t.to),
        other => panic!("not a transfer: {:?}", other),
    };
    assert_eq!(target(&after, 0), (0, ctx.remaining_accounts[2], 3_000_000));
    assert_eq!(target(&after, 2), (2, ctx.remaining_accounts[0], 3_000_000));
    assert_eq!(target(&after, 1), target(&before, 1));
    let kept = &ctx.result_accounts;
    assert_eq!(destination(&after, 0), (0, kept[0].key, ctx.remaining_accounts[4].key));
    assert_eq!(destination(&after, 1), (1, kept[1].key, ctx.remaining_accounts[3].key));
    assert_eq!(destination(&after, 2), destination(&before, 2));
    assert_eq!(destination(&before, 2), (2, kept[2].key, ctx.remaining_accounts[5].key));
}

#[test]
fn small_balances_swap_rounded_down_shares() {
    for (lamports, expected) in [(1u64, 0u64), (2, 0), (3, 1), (4, 1), (u64::MAX, u64::MAX / 3)] {
        let run = swap_sol_to_memes(&request(lamports, true), vec![]).unwrap();
        for leg in 0..3 {
            match run.call(leg) {
                Some(Call::Swap(swap)) => assert_eq!(swap.amount, expected),
                other => panic!("not a swap leg: {:?}", other),
            }
        }
    }
}

#[test]
fn accounts_beyond_the_legs_are_passed_along() {
    let mut ctx = request(9_000_000, true);
    ctx.remaining_accounts.push(account(41));
    let run = swap_sol_to_memes(&ctx, vec![1]).unwrap();
    assert_eq!(run.len(), 7);
    match run.call(0) {
        Some(Call::Swap(swap)) => {
            assert_eq!(swap.instruction.accounts.len(), 7);
            assert_eq!(swap.instruction.accounts[6].pubkey, account(41).key);
        },
        other => panic!("not a swap leg: {:?}", other),
    }
}

#[test]
fn setup_takes_no_accounts() {
    let accounts = Initialize {};
    assert_eq!(accounts, Initialize {});
    assert_eq!(Jupiter, Jupiter);
}
