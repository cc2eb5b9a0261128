//! Properties that span several instructions.
use vstd::prelude::*;
use crate::errors::{AccountsError, CustomErrors};
use vstd::arithmetic::div_mod::lemma_div_is_ordered;
use crate::math::{share_of, lemma_share_bounds, lemma_share_at_most_total};
use vstd::arithmetic::power::pow;
use crate::key::Key;
use crate::program_ids::stake_program_bytes;
use crate::states::{holds_key, other_than, Pool, StakeEntry, StakeStatus, UnstakeTicket, MAX_DEACTIVATING_STAKES};
use crate::instructions::deactivate_stake::{deactivate_check, deactivating_after, DeactivateStakeAccount};
use crate::instructions::delete_pool_account::DeletePoolAccount;
use crate::instructions::deposit_and_delegate::{
    deposit_applied, deposit_in_range, deposit_mint, deposit_outcome, is_first_deposit, DepositAndDelegate,
};
use crate::instructions::initialize_pool::InitializePool;
use crate::instructions::mock_accrue_rewards::{accrue_check, MockAccrueRewards};
use crate::instructions::request_unstake::{unstake_applied, unstake_lamports, unstake_outcome, RequestUnstake};
use crate::instructions::process_unstake::{ProcessUnstake, payout_check, payout_applied};
use crate::instructions::withdraw_stake::{withdraw_check, WithdrawStakeAmount};

verus! {

/// On a pool that keeps its invariant, a deposit that is not the first one
/// always finds lamports to divide by: its division by zero cannot happen.
pub proof fn lemma_deposit_divisor_nonzero(pool: Pool)
    requires
        pool.wf(),
        !is_first_deposit(pool),
    ensures
        pool.total_staked != 0,
{
}

/// A ticket that has been paid is refused afterwards: by the account checks,
/// if they passed before the payment, and by the payout's own checks.
pub proof fn lemma_paid_ticket_refused(ctx: ProcessUnstake)
    requires
        payout_check(ctx) is Ok,
    ensures
        payout_check(payout_applied(ctx)) is Err,
        ctx.constraints() is Ok ==> payout_applied(ctx).constraints()
            == Err::<(), AccountsError>(AccountsError::Custom(CustomErrors::FundAlreadyReleased)),
{
}

/// Depositing `stake` lamports and at once unstaking all the LST that the
/// deposit minted, if it minted any, never gives back more lamports than
/// were deposited.
pub proof fn lemma_deposit_then_unstake_no_gain(pool: Pool, stake: u64)
    requires
        pool.wf(),
        0 < deposit_mint(pool, stake) <= u64::MAX,
        pool.total_staked + stake <= u128::MAX,
        pool.total_lst_minted + deposit_mint(pool, stake) <= u128::MAX,
    ensures
        unstake_lamports(
            pool.with_totals(
                (pool.total_staked + stake) as u128,
                (pool.total_lst_minted + deposit_mint(pool, stake)) as u128,
            ),
            deposit_mint(pool, stake) as u64,
        ) <= stake,
{
    let ts = pool.total_staked as int;
    let tl = pool.total_lst_minted as int;
    let s = stake as int;
    let m = deposit_mint(pool, stake);
    if is_first_deposit(pool) {
        lemma_share_at_most_total(m, s, m);
    } else {
        lemma_share_bounds(s, tl, ts);
        assert(m * (ts + s) <= s * (tl + m)) by (nonlinear_arith)
            requires
                m * ts <= s * tl,
        ;
        lemma_share_bounds(m, ts + s, tl + m);
        let l = share_of(m, ts + s, tl + m);
        assert(l <= s) by (nonlinear_arith)
            requires
                l * (tl + m) <= m * (ts + s),
                m * (ts + s) <= s * (tl + m),
                tl + m > 0,
        ;
    }
}

/// On a pool that keeps its invariant, a deposit of any size never lowers
/// the lamports behind each LST already held (products taken without bound).
pub proof fn lemma_deposit_keeps_rate(pool: Pool, stake: u64)
    requires
        pool.wf(),
    ensures
        (pool.total_staked + stake) * pool.total_lst_minted
            >= pool.total_staked * (pool.total_lst_minted + deposit_mint(pool, stake)),
{
    let ts = pool.total_staked as int;
    let tl = pool.total_lst_minted as int;
    let s = stake as int;
    if is_first_deposit(pool) {
        assert(ts == 0 && tl == 0);
        assert((ts + s) * tl == 0 && ts * (tl + deposit_mint(pool, stake)) == 0) by (nonlinear_arith)
            requires
                ts == 0,
                tl == 0,
        ;
    } else {
        let m = deposit_mint(pool, stake);
        lemma_share_bounds(s, tl, ts);
        assert((ts + s) * tl >= ts * (tl + m)) by (nonlinear_arith)
            requires
                m * ts <= s * tl,
        ;
    }
}

/// Rewards never lower what any amount of LST is worth at unstaking: with
/// `reward` more lamports staked, `lst` LST are worth at least as much.
pub proof fn lemma_rewards_raise_unstake_value(pool: Pool, reward: u64, lst: u64)
    requires
        pool.total_lst_minted > 0,
    ensures
        share_of(lst as int, pool.total_staked + reward, pool.total_lst_minted as int)
            >= unstake_lamports(pool, lst),
{
    let ts = pool.total_staked as int;
    let tl = pool.total_lst_minted as int;
    assert(lst * ts <= lst * (ts + reward)) by (nonlinear_arith)
        requires
            lst >= 0,
            reward >= 0,
    ;
    lemma_div_is_ordered(lst * ts, lst * (ts + reward), tl);
}

// ---------------------------------------------------------------------------
// When each instruction succeeds, and what it gives, in terms of its inputs.
// ---------------------------------------------------------------------------

/// A deposit succeeds exactly when the stake account is owned by the stake
/// program, a positive amount is declared, the account holds the rent-exempt
/// minimum plus that amount, and the LST it is worth fits in a `u64`; it then
/// mints that LST. A wrong owner is refused as `NotTheOwner`, a missing or
/// unbacked amount as `InsufficientStakeAmount`.
pub proof fn lemma_deposit_succeeds_exactly(ctx: DepositAndDelegate, stake: u64, rent_exempt: u64)
    ensures
        deposit_outcome(ctx, stake, rent_exempt) is Ok <==> {
            &&& ctx.stake_account_owner@ == stake_program_bytes()
            &&& stake > 0
            &&& ctx.stake_account_lamports >= rent_exempt + stake
            &&& deposit_mint(ctx.pool, stake) <= u64::MAX
        },
        deposit_outcome(ctx, stake, rent_exempt) is Ok ==> deposit_outcome(ctx, stake, rent_exempt)
            == Ok::<u64, CustomErrors>(deposit_mint(ctx.pool, stake) as u64),
        ctx.stake_account_owner@ != stake_program_bytes() ==> deposit_outcome(ctx, stake, rent_exempt)
            == Err::<u64, CustomErrors>(CustomErrors::NotTheOwner),
        ctx.stake_account_owner@ == stake_program_bytes() && (stake == 0 || ctx.stake_account_lamports
            < rent_exempt + stake) ==> deposit_outcome(ctx, stake, rent_exempt)
            == Err::<u64, CustomErrors>(CustomErrors::InsufficientStakeAmount),
{
}

/// The LST a deposit mints: on the first deposit one LST per lamport, scaled
/// by the mint's decimals; afterwards the largest amount that does not give
/// the depositor more than their share of the LST in circulation.
pub proof fn lemma_deposit_mints_fair_share(pool: Pool, stake: u64)
    requires
        pool.wf(),
    ensures
        is_first_deposit(pool) ==> deposit_mint(pool, stake) == stake * pow(10, pool.lst_decimals as nat),
        !is_first_deposit(pool) ==> {
            &&& 0 <= deposit_mint(pool, stake)
            &&& deposit_mint(pool, stake) * pool.total_staked <= stake * pool.total_lst_minted
            &&& stake * pool.total_lst_minted < (deposit_mint(pool, stake) + 1) * pool.total_staked
        },
{
    if !is_first_deposit(pool) {
        lemma_share_bounds(stake as int, pool.total_lst_minted as int, pool.total_staked as int);
    }
}

/// A deposit adds the stake and the minted LST to the pool's totals, counts
/// one more deposit (the count stops at its maximum), and records the stake
/// account, its validator, the stake and the deposit's index as an active
/// entry of the pool. Nothing else changes.
pub proof fn lemma_deposit_records(ctx: DepositAndDelegate, stake: u64, mint: u64)
    ensures
        ({
            let after = deposit_applied(ctx, stake, mint as int);
            &&& after.pool.total_staked == ctx.pool.total_staked + stake
                || ctx.pool.total_staked + stake > u128::MAX
            &&& after.pool.total_lst_minted == ctx.pool.total_lst_minted + mint
                || ctx.pool.total_lst_minted + mint > u128::MAX
            &&& ctx.pool.staked_count < u64::MAX ==> after.pool.staked_count == ctx.pool.staked_count + 1
            &&& ctx.pool.staked_count == u64::MAX ==> after.pool.staked_count == u64::MAX
            &&& after.stake_entry == (StakeEntry {
                pool: ctx.pool_key,
                stake_account: ctx.stake_account,
                validator_voter: ctx.validator_vote,
                deposited_lamports: stake as u128,
                status: StakeStatus::Active,
                index: ctx.pool.staked_count,
            })
            &&& after.pool.admin == ctx.pool.admin && after.pool.reserve == ctx.pool.reserve
            &&& after.pool.lst_mint == ctx.pool.lst_mint && after.pool.lst_decimals == ctx.pool.lst_decimals
            &&& after.pool.unstaked_count == ctx.pool.unstaked_count
            &&& after.pool.deactivating_stakes == ctx.pool.deactivating_stakes
            &&& after.stake_account_lamports == ctx.stake_account_lamports
        }),
{
}

/// An unstake request succeeds exactly when the user holds some LST, no more
/// than the pool counts in circulation, the stake entry is active, and the
/// LST times the staked lamports fits in a `u128`.
pub proof fn lemma_unstake_succeeds_exactly(ctx: RequestUnstake)
    ensures
        unstake_outcome(ctx) is Ok <==> {
            &&& ctx.user_token_ata_amount > 0
            &&& ctx.user_token_ata_amount <= ctx.pool.total_lst_minted
            &&& ctx.stake_entry.status == StakeStatus::Active
            &&& ctx.user_token_ata_amount * ctx.pool.total_staked <= u128::MAX
        },
        ctx.user_token_ata_amount == 0 ==> unstake_outcome(ctx)
            == Err::<(), CustomErrors>(CustomErrors::InvalidUnstakeAmount),
        ctx.user_token_ata_amount > ctx.pool.total_lst_minted ==> unstake_outcome(ctx)
            == Err::<(), CustomErrors>(CustomErrors::InvalidStakeAmount),
{
}

/// The lamports `lst` LST are worth: the largest amount that is not more
/// than their share of the staked lamports, and never more than all of them.
pub proof fn lemma_unstake_pays_fair_share(pool: Pool, lst: u64)
    requires
        0 < lst <= pool.total_lst_minted,
    ensures
        0 <= unstake_lamports(pool, lst) <= pool.total_staked,
        unstake_lamports(pool, lst) * pool.total_lst_minted <= lst * pool.total_staked,
        lst * pool.total_staked < (unstake_lamports(pool, lst) + 1) * pool.total_lst_minted,
        lst == pool.total_lst_minted ==> unstake_lamports(pool, lst) == pool.total_staked,
{
    lemma_share_bounds(lst as int, pool.total_staked as int, pool.total_lst_minted as int);
    lemma_share_at_most_total(lst as int, pool.total_staked as int, pool.total_lst_minted as int);
    if lst == pool.total_lst_minted {
        let l = unstake_lamports(pool, lst);
        let ts = pool.total_staked as int;
        let tl = pool.total_lst_minted as int;
        assert(l == ts) by (nonlinear_arith)
            requires
                l * tl <= tl * ts,
                tl * ts < (l + 1) * tl,
                tl > 0,
        ;
    }
}

/// A successful unstake request moves value out of the pool and into the
/// ticket: the ticket's lamports plus what stays staked is what was staked,
/// the burned LST plus what stays in circulation is what was in circulation,
/// and the ticket, unpaid, belongs to the user and the pool.
pub proof fn lemma_unstake_records(ctx: RequestUnstake)
    requires
        unstake_outcome(ctx) is Ok,
    ensures
        ({
            let after = unstake_applied(ctx);
            &&& after.unstake_ticket.requested_lamports + after.pool.total_staked == ctx.pool.total_staked
            &&& ctx.user_token_ata_amount + after.pool.total_lst_minted == ctx.pool.total_lst_minted
            &&& after.unstake_ticket.requested_lamports == unstake_lamports(ctx.pool, ctx.user_token_ata_amount)
            &&& after.unstake_ticket.requester == ctx.user
            &&& after.unstake_ticket.pool == ctx.pool_key
            &&& !after.unstake_ticket.released
            &&& after.unstake_ticket.index == ctx.pool.unstaked_count
            &&& ctx.pool.unstaked_count < u64::MAX ==> after.pool.unstaked_count == ctx.pool.unstaked_count + 1
            &&& after.pool.staked_count == ctx.pool.staked_count
            &&& after.stake_entry == ctx.stake_entry
        }),
{
    lemma_unstake_pays_fair_share(ctx.pool, ctx.user_token_ata_amount);
}

/// A payout succeeds exactly when the ticket is unpaid, its amount fits in a
/// `u64`, and the reserve holds it, whatever the amount; it then moves that
/// amount from the reserve to the requester and marks the ticket paid.
pub proof fn lemma_payout_succeeds_exactly(ctx: ProcessUnstake)
    ensures
        payout_check(ctx) is Ok <==> {
            &&& !ctx.unstake_ticket.released
            &&& ctx.unstake_ticket.requested_lamports <= u64::MAX
            &&& ctx.unstake_ticket.requested_lamports <= ctx.reserve_lamports
        },
        payout_check(ctx) is Ok ==> {
            let after = payout_applied(ctx);
            &&& after.reserve_lamports == ctx.reserve_lamports - ctx.unstake_ticket.requested_lamports
            &&& ctx.requester_lamports + ctx.unstake_ticket.requested_lamports <= u64::MAX ==>
                after.requester_lamports == ctx.requester_lamports + ctx.unstake_ticket.requested_lamports
            &&& after.unstake_ticket == (UnstakeTicket { released: true, ..ctx.unstake_ticket })
            &&& after.pool == ctx.pool
        },
{
}

/// An accrual succeeds exactly when the pool's admin asks for it with a
/// positive reward that the admin holds, whatever its size; the lamports to
/// move are then the reward.
pub proof fn lemma_accrue_succeeds_exactly(ctx: MockAccrueRewards, reward: u64)
    ensures
        accrue_check(ctx, reward) is Ok <==> {
            &&& ctx.pool.admin@ == ctx.admin@
            &&& 0 < reward <= ctx.admin_lamports
        },
        accrue_check(ctx, reward) is Ok ==> accrue_check(ctx, reward) == Ok::<u64, CustomErrors>(reward),
        ctx.pool.admin@ != ctx.admin@ ==> accrue_check(ctx, reward)
            == Err::<u64, CustomErrors>(CustomErrors::NotTheOwner),
{
}

/// A withdrawal succeeds exactly when the stake account is the recorded one,
/// holds delegated stake whose deactivation epoch is set and has been
/// reached, the entry is deactivating, and the account holds lamports; it
/// then withdraws every lamport the account holds.
pub proof fn lemma_withdraw_succeeds_exactly(ctx: WithdrawStakeAmount)
    ensures
        withdraw_check(ctx) is Ok <==> {
            &&& ctx.stake_account@ == ctx.stake_entry.stake_account@
            &&& ctx.deactivation_epoch matches Some(e) && e != u64::MAX && e <= ctx.epoch
            &&& ctx.stake_entry.status == StakeStatus::Deactivating
            &&& ctx.stake_account_lamports > 0
        },
        withdraw_check(ctx) is Ok ==> withdraw_check(ctx) == Ok::<u64, CustomErrors>(ctx.stake_account_lamports),
{
}

/// Once a withdrawal is allowed, it stays allowed, with the same amount, at
/// every later epoch.
pub proof fn lemma_withdraw_allowed_at_later_epochs(ctx: WithdrawStakeAmount, later: u64)
    requires
        withdraw_check(ctx) is Ok,
        ctx.epoch <= later,
    ensures
        withdraw_check(WithdrawStakeAmount { epoch: later, ..ctx }) == withdraw_check(ctx),
{
}

/// A deactivation succeeds exactly when the stake entry belongs to the pool
/// and the pool's list of deactivating stakes already lists the stake
/// account or has room for it.
pub proof fn lemma_deactivate_succeeds_exactly(ctx: DeactivateStakeAccount)
    ensures
        deactivate_check(ctx) is Ok <==> {
            &&& ctx.stake_entry.pool@ == ctx.pool_key@
            &&& holds_key(ctx.pool.deactivating_stakes@, ctx.stake_account)
                || ctx.pool.deactivating_stakes@.len() < MAX_DEACTIVATING_STAKES
        },
{
}

/// The account relations of each instruction hold exactly when every one of
/// them does.
pub proof fn lemma_relations_hold_exactly(
    request: RequestUnstake,
    payout: ProcessUnstake,
    accrue: MockAccrueRewards,
    deactivate: DeactivateStakeAccount,
    withdraw: WithdrawStakeAmount,
    delete: DeletePoolAccount,
    init: InitializePool,
)
    ensures
        request.constraints() is Ok <==> request.pool.lst_mint@ == request.lst_mint@
            && request.stake_entry.pool@ == request.pool_key@,
        payout.constraints() is Ok <==> {
            &&& payout.admin@ == payout.pool.admin@
            &&& payout.requester@ == payout.unstake_ticket.requester@
            &&& payout.pool.reserve@ == payout.reserve_account@
            &&& payout.unstake_ticket.pool@ == payout.pool_key@
            &&& !payout.unstake_ticket.released
            &&& payout.unstake_ticket_key@ != payout.requester@
        },
        accrue.constraints() is Ok <==> accrue.admin@ == accrue.pool.admin@
            && accrue.pool.reserve@ == accrue.reserve_account@,
        deactivate.constraints() is Ok <==> {
            &&& deactivate.admin@ == deactivate.pool.admin@
            &&& deactivate.stake_entry.pool@ == deactivate.pool_key@
            &&& deactivate.stake_account@ == deactivate.stake_entry.stake_account@
        },
        withdraw.constraints() is Ok <==> {
            &&& withdraw.admin@ == withdraw.pool.admin@
            &&& withdraw.pool.reserve@ == withdraw.reserve_account@
            &&& withdraw.stake_entry.pool@ == withdraw.pool_key@
            &&& withdraw.stake_program@ == stake_program_bytes()
        },
        delete.constraints() is Ok <==> {
            &&& delete.admin@ == delete.pool.admin@
            &&& delete.pool_key@ != delete.admin@
            &&& delete.lst_mint@ == delete.pool.lst_mint@
        },
        init.constraints() is Ok <==> (init.lst_mint_authority matches Some(a) && a@ == init.pool_key@),
{
}

/// Deactivation lists the stake account, keeps every listed stake in its
/// place, and adds at most that one entry, at the end.
pub proof fn lemma_deactivation_lists_the_stake(list: Seq<Key>, stake_account: Key)
    ensures
        holds_key(deactivating_after(list, stake_account), stake_account),
        deactivating_after(list, stake_account).take(list.len() as int) == list,
        holds_key(list, stake_account) ==> deactivating_after(list, stake_account).len() == list.len(),
        !holds_key(list, stake_account) ==> deactivating_after(list, stake_account).len() == list.len() + 1
            && deactivating_after(list, stake_account).last() == stake_account,
{
    let after = deactivating_after(list, stake_account);
    if !holds_key(list, stake_account) {
        assert(after[list.len() as int]@ == stake_account@);
        assert(after.take(list.len() as int) =~= list);
    } else {
        assert(after.take(list.len() as int) =~= list);
    }
}

/// Withdrawal unlists the stake account and keeps every other listed stake.
pub proof fn lemma_withdrawal_unlists_the_stake(list: Seq<Key>, stake_account: Key)
    ensures
        !holds_key(list.filter(other_than(stake_account)), stake_account),
        forall|i: int| 0 <= i < list.len() && list[i]@ != stake_account@ ==>
            list.filter(other_than(stake_account)).contains(#[trigger] list[i]),
        list.filter(other_than(stake_account)).len() <= list.len(),
{
    let kept = list.filter(other_than(stake_account));
    list.lemma_filter_len(other_than(stake_account));
    assert forall|i: int| 0 <= i < kept.len() implies kept[i]@ != stake_account@ by {
        list.lemma_filter_pred(other_than(stake_account), i);
    }
    assert forall|i: int| 0 <= i < list.len() && list[i]@ != stake_account@ implies kept.contains(
        #[trigger] list[i],
    ) by {
        list.lemma_filter_contains(other_than(stake_account), i);
    }
}

/// A deposit's arithmetic stays within `u128` exactly when the first
/// deposit's scale and LST fit, or a later deposit's product fits and its
/// pool holds lamports, and the new totals fit whenever the LST fits in a `u64`.
pub proof fn lemma_deposit_range_exactly(pool: Pool, stake: u64)
    ensures
        deposit_in_range(pool, stake) <==> {
            &&& (pool.total_staked == 0 && pool.total_lst_minted == 0) ==> {
                &&& pow(10, pool.lst_decimals as nat) <= u128::MAX
                &&& stake * pow(10, pool.lst_decimals as nat) <= u128::MAX
            }
            &&& !(pool.total_staked == 0 && pool.total_lst_minted == 0) ==> {
                &&& pool.total_staked > 0
                &&& stake * pool.total_lst_minted <= u128::MAX
            }
            &&& deposit_mint(pool, stake) <= u64::MAX ==> {
                &&& pool.total_staked + stake <= u128::MAX
                &&& pool.total_lst_minted + deposit_mint(pool, stake) <= u128::MAX
            }
        },
{
}

} // verus!
