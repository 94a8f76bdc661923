//! The settlement calculator: pure payout arithmetic for both policies,
//! together with the solvency laws it obeys. Integer division leaves a
//! remainder (dust) in pool custody by design; the lemmas here bound it.

use vstd::arithmetic::div_mod::{lemma_fundamental_div_mod, lemma_mod_division_less_than_divisor};
use vstd::prelude::*;

use crate::state::{
    amount_sum, claimed_count, lemma_amount_sum_nonneg, lemma_amount_sum_push, lemma_winners_push,
    pool_wf, side_total, winners, Pool, Transfer, Wager,
};

verus! {

/// Payout owed to one winning wager under the proportional policy:
/// `floor(amount * pool_total / win_total)`.
pub open spec fn payout_amount(amount: int, pool_total: int, win_total: int) -> int {
    amount * pool_total / win_total
}

/// Sum of the proportional payouts owed to a sequence of winning wagers.
pub open spec fn payout_total(ws: Seq<Wager>, pool_total: int, win_total: int) -> int
    decreases ws.len(),
{
    if ws.len() == 0 {
        0
    } else {
        payout_total(ws.drop_last(), pool_total, win_total) + payout_amount(
            ws.last().amount as int,
            pool_total,
            win_total,
        )
    }
}

/// Sum of the amounts of a sequence of transfer instructions.
pub open spec fn transfer_sum(ts: Seq<Transfer>) -> int
    decreases ts.len(),
{
    if ts.len() == 0 {
        0
    } else {
        transfer_sum(ts.drop_last()) + ts.last().amount
    }
}

/// How `payout_total` grows when one winning wager is appended.
pub proof fn lemma_payout_total_push(ws: Seq<Wager>, w: Wager, pool_total: int, win_total: int)
    ensures
        payout_total(ws.push(w), pool_total, win_total) == payout_total(ws, pool_total, win_total)
            + payout_amount(w.amount as int, pool_total, win_total),
{
    assert(ws.push(w).drop_last() =~= ws);
}

/// How `transfer_sum` grows when one instruction is appended.
pub proof fn lemma_transfer_sum_push(ts: Seq<Transfer>, t: Transfer)
    ensures
        transfer_sum(ts.push(t)) == transfer_sum(ts) + t.amount,
{
    assert(ts.push(t).drop_last() =~= ts);
}

/// Scaled bounds on a sum of floored proportional payouts: each term
/// `floor(a * pool_total / win_total)` lies within one of the exact share
/// `a * pool_total / win_total`, so the sum, scaled by `win_total`, lies
/// within `len * win_total` below the exact total.
proof fn lemma_payout_total_bounds(ws: Seq<Wager>, pool_total: int, win_total: int)
    requires
        win_total > 0,
        pool_total >= 0,
    ensures
        win_total * payout_total(ws, pool_total, win_total) <= amount_sum(ws) * pool_total,
        win_total * payout_total(ws, pool_total, win_total) >= amount_sum(ws) * pool_total
            - ws.len() * win_total + ws.len(),
    decreases ws.len(),
{
    if ws.len() == 0 {
    } else {
        let prefix = ws.drop_last();
        lemma_payout_total_bounds(prefix, pool_total, win_total);
        let a = ws.last().amount as int;
        let q = payout_amount(a, pool_total, win_total);
        lemma_fundamental_div_mod(a * pool_total, win_total);
        lemma_mod_division_less_than_divisor(a * pool_total, win_total);
        let sp = payout_total(prefix, pool_total, win_total);
        let mp = amount_sum(prefix);
        let c = prefix.len() as int;
        assert(win_total * (sp + q) <= (mp + a) * pool_total && win_total * (sp + q) >= (mp + a)
            * pool_total - (c + 1) * win_total + (c + 1)) by (nonlinear_arith)
            requires
                win_total * sp <= mp * pool_total,
                win_total * sp >= mp * pool_total - c * win_total + c,
                win_total * q <= a * pool_total,
                win_total * q > a * pool_total - win_total,
                c >= 0,
        ;
        assert(payout_total(ws, pool_total, win_total) == sp + q);
        assert(amount_sum(ws) == mp + a);
        assert(ws.len() == c + 1);
    }
}

/// Solvency of the proportional policy: the payouts computed at resolution
/// sum to at most the whole pool, and the dust left behind is strictly
/// smaller than the number of winning wagers.
pub proof fn lemma_proportional_solvency(ws: Seq<Wager>, outcome: bool, pool_total: int)
    requires
        pool_total == side_total(ws, true) + side_total(ws, false),
        side_total(ws, outcome) > 0,
    ensures
        payout_total(winners(ws, outcome), pool_total, side_total(ws, outcome)) <= pool_total,
        pool_total - payout_total(winners(ws, outcome), pool_total, side_total(ws, outcome))
            < winners(ws, outcome).len(),
{
    let win = winners(ws, outcome);
    let w_tot = side_total(ws, outcome);
    let s = payout_total(win, pool_total, w_tot);
    let c = win.len() as int;
    lemma_amount_sum_nonneg(winners(ws, true));
    lemma_amount_sum_nonneg(winners(ws, false));
    lemma_payout_total_bounds(win, pool_total, w_tot);
    assert(c > 0) by {
        if win.len() == 0 {
            assert(amount_sum(win) == 0);
        }
    }
    assert(s <= pool_total && pool_total - s < c) by (nonlinear_arith)
        requires
            w_tot > 0,
            w_tot <= pool_total,
            c > 0,
            w_tot * s <= w_tot * pool_total,
            w_tot * s >= w_tot * pool_total - c * w_tot + c,
    ;
}

/// Solvency of the per-capita policy: the fixed reward times the number of
/// winners is at most the whole pool, and the dust left behind is strictly
/// smaller than the number of winners.
pub proof fn lemma_per_capita_solvency(pool_total: int, winner_count: int)
    requires
        pool_total >= 0,
        winner_count > 0,
    ensures
        (pool_total / winner_count) * winner_count <= pool_total,
        pool_total - (pool_total / winner_count) * winner_count < winner_count,
{
    lemma_fundamental_div_mod(pool_total, winner_count);
    lemma_mod_division_less_than_divisor(pool_total, winner_count);
    assert((pool_total / winner_count) * winner_count == winner_count * (pool_total
        / winner_count)) by (nonlinear_arith);
}

/// Payout owed to one winning wager under the proportional policy.
pub fn proportional_payout(amount: u128, pool_total: u128, win_total: u128) -> (r: u128)
    requires
        0 < win_total <= pool_total,
        amount <= win_total,
        pool_total <= u64::MAX,
    ensures
        r as int == payout_amount(amount as int, pool_total as int, win_total as int),
        r <= pool_total,
{
    proof {
        assert(amount * pool_total <= u64::MAX * u64::MAX) by (nonlinear_arith)
            requires
                amount <= pool_total,
                pool_total <= u64::MAX,
        ;
        lemma_fundamental_div_mod(amount as int * pool_total as int, win_total as int);
        lemma_mod_division_less_than_divisor(amount as int * pool_total as int, win_total as int);
        let q = payout_amount(amount as int, pool_total as int, win_total as int);
        assert(q <= pool_total) by (nonlinear_arith)
            requires
                0 < win_total <= pool_total,
                amount <= win_total,
                win_total as int * q <= amount as int * pool_total as int,
        ;
        assert(q >= 0) by (nonlinear_arith)
            requires
                win_total > 0,
                win_total as int * q > amount as int * pool_total as int - win_total as int,
                amount >= 0,
                pool_total >= 0,
        ;
    }
    (amount * pool_total) / win_total
}

/// The fixed pull reward of a per-capita pool: `floor(pool_total / count)`.
pub fn per_capita_reward(pool_total: u128, winner_count: u128) -> (r: u128)
    requires
        winner_count > 0,
    ensures
        r as int == pool_total as int / winner_count as int,
{
    pool_total / winner_count
}

/// The transfer instructions that settle a proportional pool: one per
/// winning wager, in order of placement, each paying that wager's
/// proportional share of the whole pool.
pub fn proportional_transfers(
    wagers: &Vec<Wager>,
    outcome: bool,
    pool_total: u128,
    win_total: u128,
) -> (ts: Vec<Transfer>)
    requires
        win_total as int == side_total(wagers@, outcome),
        0 < win_total <= pool_total,
        pool_total <= u64::MAX,
    ensures
        ts@.len() == winners(wagers@, outcome).len(),
        forall|k: int|
            0 <= k < ts@.len() ==> (#[trigger] ts@[k]).to@ == winners(wagers@, outcome)[k].bettor@
                && ts@[k].amount as int == payout_amount(
                winners(wagers@, outcome)[k].amount as int,
                pool_total as int,
                win_total as int,
            ),
        transfer_sum(ts@) == payout_total(
            winners(wagers@, outcome),
            pool_total as int,
            win_total as int,
        ),
{
    let ghost all = wagers@;
    let mut ts: Vec<Transfer> = Vec::new();
    let mut i: usize = 0;
    while i < wagers.len()
        invariant
            0 <= i <= all.len(),
            wagers@ == all,
            win_total as int == side_total(all, outcome),
            0 < win_total <= pool_total,
            pool_total <= u64::MAX,
            ts@.len() == winners(all.take(i as int), outcome).len(),
            forall|k: int|
                0 <= k < ts@.len() ==> (#[trigger] ts@[k]).to@ == winners(
                    all.take(i as int),
                    outcome,
                )[k].bettor@ && ts@[k].amount as int == payout_amount(
                    winners(all.take(i as int), outcome)[k].amount as int,
                    pool_total as int,
                    win_total as int,
                ),
            transfer_sum(ts@) == payout_total(
                winners(all.take(i as int), outcome),
                pool_total as int,
                win_total as int,
            ),
        decreases all.len() - i,
    {
        let w = &wagers[i];
        proof {
            assert(all.take(i as int + 1) =~= all.take(i as int).push(all[i as int]));
            lemma_winners_push(all.take(i as int), all[i as int], outcome);
        }
        if w.choice == outcome {
            proof {
                lemma_winner_amount_bounded(all, outcome, i as int);
            }
            let pay = proportional_payout(w.amount, pool_total, win_total);
            let t = Transfer { to: w.bettor.clone(), amount: pay };
            proof {
                lemma_payout_total_push(
                    winners(all.take(i as int), outcome),
                    all[i as int],
                    pool_total as int,
                    win_total as int,
                );
                lemma_transfer_sum_push(ts@, t);
            }
            ts.push(t);
        }
        i = i + 1;
    }
    proof {
        assert(all.take(all.len() as int) =~= all);
    }
    ts
}

/// When every claimed wager backed `outcome`, the claimed wagers are among
/// the winners, so there are no more claims than winners.
proof fn lemma_claimed_count_bounded(ws: Seq<Wager>, outcome: bool)
    requires
        forall|i: int| 0 <= i < ws.len() && (#[trigger] ws[i]).claimed ==> ws[i].choice == outcome,
    ensures
        claimed_count(ws) <= winners(ws, outcome).len(),
    decreases ws.len(),
{
    if ws.len() > 0 {
        lemma_claimed_count_bounded(ws.drop_last(), outcome);
    }
}

/// Solvency of a resolved per-capita pool across any sequence of claims:
/// each winner is paid the fixed reward at most once, so the total ever
/// disbursed never exceeds the pool; the dust stays in custody.
pub proof fn lemma_per_capita_disbursed_bounded(p: Pool)
    requires
        pool_wf(p),
        p.status is Resolved,
        p.policy is PerCapita,
    ensures
        p.reward_per_unit * claimed_count(p.wagers@) <= p.total_yes + p.total_no,
{
    let oc = p.outcome->0;
    let c = winners(p.wagers@, oc).len() as int;
    let t = (p.total_yes + p.total_no) as int;
    let k = claimed_count(p.wagers@);
    let rpu = p.reward_per_unit as int;
    assert(forall|i: int|
        0 <= i < p.wagers@.len() && (#[trigger] p.wagers@[i]).claimed ==> p.wagers@[i].choice
            == oc);
    lemma_claimed_count_bounded(p.wagers@, oc);
    lemma_claimed_count_nonneg(p.wagers@);
    lemma_per_capita_solvency(t, c);
    assert(rpu * k <= t) by (nonlinear_arith)
        requires
            rpu >= 0,
            0 <= k <= c,
            rpu == t / c,
            (t / c) * c <= t,
    ;
}

/// A count of claimed wagers is never negative.
proof fn lemma_claimed_count_nonneg(ws: Seq<Wager>)
    ensures
        claimed_count(ws) >= 0,
    decreases ws.len(),
{
    if ws.len() > 0 {
        lemma_claimed_count_nonneg(ws.drop_last());
    }
}

/// A wager that backed the winning side stakes no more than that whole
/// side's total.
proof fn lemma_winner_amount_bounded(ws: Seq<Wager>, outcome: bool, idx: int)
    requires
        0 <= idx < ws.len(),
        ws[idx].choice == outcome,
    ensures
        ws[idx].amount <= side_total(ws, outcome),
    decreases ws.len(),
{
    let prefix = ws.drop_last();
    if idx == ws.len() - 1 {
        lemma_amount_sum_nonneg(winners(prefix, outcome));
        lemma_amount_sum_push(winners(prefix, outcome), ws.last());
    } else {
        lemma_winner_amount_bounded(prefix, outcome, idx);
        assert(prefix[idx] == ws[idx]);
        if ws.last().choice == outcome {
            lemma_amount_sum_push(winners(prefix, outcome), ws.last());
        }
    }
}

} // verus!
