//! The pool lifecycle controller: the four state-changing operations and
//! the read-only queries, applied to a store of pools guarded by a single
//! configured authority. Every operation either satisfies all of its
//! preconditions and applies its whole effect, or returns an error and
//! leaves the state untouched.

use vstd::prelude::*;

use crate::settle::{
    payout_amount, payout_total, per_capita_reward, proportional_transfers, transfer_sum,
};
use crate::state::{
    accepted_denom, bettor_index, has_accepted_coin, has_bettor, lemma_amount_sum_nonneg,
    lemma_amount_sum_push, lemma_winners_push, pool_wf, side_total, stake_value, winners, Coin,
    EngineError, Pool, PoolStatus, Transfer, Wager,
};
use crate::DistributionPolicy;

verus! {

/// The whole persisted state of the engine: the configured authority and
/// the pool store. Pool identifiers are assigned sequentially, so the pool
/// with identifier `i` sits at index `i` of the store.
pub struct Engine {
    pub authority: String,
    pub pools: Vec<Pool>,
}

/// Well-formedness of the engine: every stored pool is well-formed and
/// sits at the index its identifier names.
pub open spec fn engine_wf(e: Engine) -> bool {
    forall|i: int|
        0 <= i < e.pools@.len() ==> (#[trigger] e.pools@[i]).id == i as u64 && pool_wf(e.pools@[i])
}

/// The fields of a pool that no operation after creation ever changes.
pub open spec fn pool_meta_unchanged(pre: Pool, post: Pool) -> bool {
    &&& post.id == pre.id
    &&& post.description == pre.description
    &&& post.deadline == pre.deadline
    &&& post.policy == pre.policy
}

/// A pool as `create_pool` persists it: open, empty, with zeroed totals.
pub open spec fn fresh_pool(
    p: Pool,
    id: u64,
    description: Seq<char>,
    deadline: u64,
    policy: DistributionPolicy,
) -> bool {
    &&& p.id == id
    &&& p.description@ == description
    &&& p.deadline == deadline
    &&& p.status is Open
    &&& p.outcome is None
    &&& p.total_yes == 0
    &&& p.total_no == 0
    &&& p.policy == policy
    &&& p.reward_per_unit == 0
    &&& p.wagers@.len() == 0
}

/// The engine after an operation on pool `pid`: the authority and every
/// other pool are untouched.
pub open spec fn only_pool_touched(pre: Engine, post: Engine, pid: int) -> bool {
    &&& post.authority == pre.authority
    &&& post.pools@.len() == pre.pools@.len()
    &&& forall|i: int|
        0 <= i < pre.pools@.len() && i != pid ==> post.pools@[i] == #[trigger] pre.pools@[i]
}

/// Everything `place` promises: which error comes on which input, and the
/// exact new pool on success.
pub open spec fn place_post(
    pre: Pool,
    post: Pool,
    bettor: Seq<char>,
    choice: bool,
    funds: Seq<Coin>,
    now: u64,
    r: Result<(), EngineError>,
) -> bool {
    if pre.status is Resolved {
        r == Err::<(), EngineError>(EngineError::AlreadyResolved) && post == pre
    } else if now > pre.deadline {
        // Staking after the deadline never mutates the totals.
        r == Err::<(), EngineError>(EngineError::PeriodEnded) && post == pre
    } else if funds.len() == 0 {
        r == Err::<(), EngineError>(EngineError::NoFunds) && post == pre
    } else if !has_accepted_coin(funds) {
        r == Err::<(), EngineError>(EngineError::WrongDenomination) && post == pre
    } else if stake_value(funds) == 0 {
        r == Err::<(), EngineError>(EngineError::NoFunds) && post == pre
    } else if has_bettor(pre.wagers@, bettor) {
        r == Err::<(), EngineError>(EngineError::DuplicateWager) && post == pre
    } else {
        &&& r == Ok::<(), EngineError>(())
        &&& pool_meta_unchanged(pre, post)
        &&& post.status == pre.status
        &&& post.outcome == pre.outcome
        &&& post.reward_per_unit == pre.reward_per_unit
        &&& post.wagers@.len() == pre.wagers@.len() + 1
        &&& forall|i: int| 0 <= i < pre.wagers@.len() ==> post.wagers@[i] == #[trigger] pre.wagers@[i]
        &&& post.wagers@.last().bettor@ == bettor
        &&& post.wagers@.last().choice == choice
        &&& post.wagers@.last().amount as int == stake_value(funds)
        &&& !post.wagers@.last().claimed
        &&& post.total_yes as int == pre.total_yes + if choice {
            stake_value(funds)
        } else {
            0
        }
        &&& post.total_no as int == pre.total_no + if choice {
            0
        } else {
            stake_value(funds)
        }
    }
}

/// Everything `resolve` promises: which error comes on which input, and on
/// success the frozen pool plus the settlement effects of its policy.
pub open spec fn resolve_post(
    pre: Pool,
    post: Pool,
    outcome: bool,
    now: u64,
    r: Result<Vec<Transfer>, EngineError>,
) -> bool {
    if pre.status is Resolved {
        // A second resolution always fails and changes nothing.
        r == Err::<Vec<Transfer>, EngineError>(EngineError::AlreadyResolved) && post == pre
    } else if now < pre.deadline {
        r == Err::<Vec<Transfer>, EngineError>(EngineError::TooEarly) && post == pre
    } else if winners(pre.wagers@, outcome).len() == 0 {
        // An unpayable outcome is rejected outright; the pool stays open.
        r == Err::<Vec<Transfer>, EngineError>(EngineError::NoWinners) && post == pre
    } else {
        let total = pre.total_yes + pre.total_no;
        let win_total = side_total(pre.wagers@, outcome);
        &&& pool_meta_unchanged(pre, post)
        &&& post.status is Resolved
        &&& post.outcome == Some(outcome)
        &&& post.total_yes == pre.total_yes
        &&& post.total_no == pre.total_no
        &&& post.wagers == pre.wagers
        &&& r matches Ok(ts)
        &&& (pre.policy is Proportional ==> {
            let win = winners(pre.wagers@, outcome);
            &&& post.reward_per_unit == 0
            &&& (r matches Ok(ts) ==> {
                &&& ts@.len() == win.len()
                &&& (forall|k: int|
                    0 <= k < ts@.len() ==> (#[trigger] ts@[k]).to@ == win[k].bettor@
                        && ts@[k].amount as int == payout_amount(
                        win[k].amount as int,
                        total as int,
                        win_total,
                    ))
                &&& transfer_sum(ts@) == payout_total(win, total as int, win_total)
            })
        })
        &&& (pre.policy is PerCapita ==> {
            &&& post.reward_per_unit as int == total as int / winners(
                pre.wagers@,
                outcome,
            ).len() as int
            &&& (r matches Ok(ts) ==> ts@.len() == 0)
        })
    }
}

/// Everything `claim` promises: which error comes on which input, and on
/// success the one transfer instruction plus the claim mark.
pub open spec fn claim_post(
    pre: Pool,
    post: Pool,
    claimant: Seq<char>,
    r: Result<Transfer, EngineError>,
) -> bool {
    if pre.status is Open {
        r == Err::<Transfer, EngineError>(EngineError::TooEarly) && post == pre
    } else if !has_bettor(pre.wagers@, claimant) {
        r == Err::<Transfer, EngineError>(EngineError::NotFound) && post == pre
    } else {
        let i = bettor_index(pre.wagers@, claimant);
        let w = pre.wagers@[i];
        if w.choice != pre.outcome->0 {
            // A losing wager never yields a transfer.
            r == Err::<Transfer, EngineError>(EngineError::NotAWinner) && post == pre
        } else if w.claimed {
            // A wager is paid out at most once.
            r == Err::<Transfer, EngineError>(EngineError::AlreadyClaimed) && post == pre
        } else if pre.reward_per_unit == 0 {
            r == Err::<Transfer, EngineError>(EngineError::NoRewardAvailable) && post == pre
        } else {
            &&& r matches Ok(t) && t.to@ == claimant && t.amount == pre.reward_per_unit
            &&& pool_meta_unchanged(pre, post)
            &&& post.status == pre.status
            &&& post.outcome == pre.outcome
            &&& post.total_yes == pre.total_yes
            &&& post.total_no == pre.total_no
            &&& post.reward_per_unit == pre.reward_per_unit
            &&& post.wagers@.len() == pre.wagers@.len()
            &&& forall|j: int|
                0 <= j < pre.wagers@.len() && j != i ==> post.wagers@[j] == #[trigger] pre.wagers@[j]
            &&& post.wagers@[i].bettor@ == claimant
            &&& post.wagers@[i].choice == w.choice
            &&& post.wagers@[i].amount == w.amount
            &&& post.wagers@[i].claimed
        }
    }
}

/// Resolution is idempotent-proof: after one resolution succeeds, any
/// later resolution call, whatever its outcome and time, fails with
/// `AlreadyResolved` and leaves the pool exactly as the first one left it.
pub proof fn lemma_resolution_is_final(
    p0: Pool,
    p1: Pool,
    p2: Pool,
    outcome1: bool,
    now1: u64,
    r1: Result<Vec<Transfer>, EngineError>,
    outcome2: bool,
    now2: u64,
    r2: Result<Vec<Transfer>, EngineError>,
)
    requires
        resolve_post(p0, p1, outcome1, now1, r1),
        r1 is Ok,
        resolve_post(p1, p2, outcome2, now2, r2),
    ensures
        r2 == Err::<Vec<Transfer>, EngineError>(EngineError::AlreadyResolved),
        p2 == p1,
{
}

/// A wager is paid at most once: after one claim succeeds, the same
/// claimant's next claim fails with `AlreadyClaimed` and changes nothing.
pub proof fn lemma_claim_is_final(
    p0: Pool,
    p1: Pool,
    p2: Pool,
    claimant: Seq<char>,
    r1: Result<Transfer, EngineError>,
    r2: Result<Transfer, EngineError>,
)
    requires
        pool_wf(p1),
        claim_post(p0, p1, claimant, r1),
        r1 is Ok,
        claim_post(p1, p2, claimant, r2),
    ensures
        r2 == Err::<Transfer, EngineError>(EngineError::AlreadyClaimed),
        p2 == p1,
{
    assert(has_bettor(p0.wagers@, claimant));
    let i = bettor_index(p0.wagers@, claimant);
    assert(0 <= i < p0.wagers@.len() && p0.wagers@[i].bettor@ == claimant);
    assert(p1.wagers@[i].bettor@ == claimant);
    assert(has_bettor(p1.wagers@, claimant));
    let j = bettor_index(p1.wagers@, claimant);
    assert(0 <= j < p1.wagers@.len() && p1.wagers@[j].bettor@ == claimant);
    if j != i {
        assert(p1.wagers@[i].bettor@ != p1.wagers@[j].bettor@);
    }
}

/// Everything `create_pool` promises of the engine.
pub open spec fn create_pool_post(
    pre: Engine,
    post: Engine,
    caller: Seq<char>,
    description: Seq<char>,
    deadline: u64,
    policy: DistributionPolicy,
    r: Result<u64, EngineError>,
) -> bool {
    if caller != pre.authority@ {
        r == Err::<u64, EngineError>(EngineError::Unauthorized) && post == pre
    } else {
        &&& r == Ok::<u64, EngineError>(pre.pools@.len() as u64)
        &&& post.authority == pre.authority
        &&& post.pools@.len() == pre.pools@.len() + 1
        &&& forall|i: int| 0 <= i < pre.pools@.len() ==> post.pools@[i] == #[trigger] pre.pools@[i]
        &&& fresh_pool(post.pools@.last(), pre.pools@.len() as u64, description, deadline, policy)
    }
}

/// Everything `place_wager` promises of the engine.
pub open spec fn place_wager_post(
    pre: Engine,
    post: Engine,
    pool_id: u64,
    bettor: Seq<char>,
    choice: bool,
    funds: Seq<Coin>,
    now: u64,
    r: Result<(), EngineError>,
) -> bool {
    if pool_id >= pre.pools@.len() {
        r == Err::<(), EngineError>(EngineError::NotFound) && post == pre
    } else {
        only_pool_touched(pre, post, pool_id as int) && place_post(
            pre.pools@[pool_id as int],
            post.pools@[pool_id as int],
            bettor,
            choice,
            funds,
            now,
            r,
        )
    }
}

/// Everything `resolve_pool` promises of the engine.
pub open spec fn resolve_pool_post(
    pre: Engine,
    post: Engine,
    pool_id: u64,
    caller: Seq<char>,
    outcome: bool,
    now: u64,
    r: Result<Vec<Transfer>, EngineError>,
) -> bool {
    if caller != pre.authority@ {
        r == Err::<Vec<Transfer>, EngineError>(EngineError::Unauthorized) && post == pre
    } else if pool_id >= pre.pools@.len() {
        r == Err::<Vec<Transfer>, EngineError>(EngineError::NotFound) && post == pre
    } else {
        only_pool_touched(pre, post, pool_id as int) && resolve_post(
            pre.pools@[pool_id as int],
            post.pools@[pool_id as int],
            outcome,
            now,
            r,
        )
    }
}

/// Everything `claim_reward` promises of the engine.
pub open spec fn claim_reward_post(
    pre: Engine,
    post: Engine,
    pool_id: u64,
    claimant: Seq<char>,
    r: Result<Transfer, EngineError>,
) -> bool {
    if pool_id >= pre.pools@.len() {
        r == Err::<Transfer, EngineError>(EngineError::NotFound) && post == pre
    } else {
        only_pool_touched(pre, post, pool_id as int) && claim_post(
            pre.pools@[pool_id as int],
            post.pools@[pool_id as int],
            claimant,
            r,
        )
    }
}

/// The accepted denomination, as the host spells it in attached funds.
pub fn accepted_denom_string() -> (r: String)
    ensures
        r@ == accepted_denom(),
{
    "uxion".to_owned()
}

/// The amount of the first attached coin of the accepted denomination.
fn find_stake(funds: &Vec<Coin>) -> (r: Option<u128>)
    ensures
        r is Some <==> has_accepted_coin(funds@),
        r matches Some(a) ==> a as int == stake_value(funds@),
{
    let denom = accepted_denom_string();
    let mut i: usize = 0;
    while i < funds.len()
        invariant
            0 <= i <= funds@.len(),
            denom@ == accepted_denom(),
            forall|j: int| 0 <= j < i ==> (#[trigger] funds@[j]).denom@ != accepted_denom(),
        decreases funds@.len() - i,
    {
        if funds[i].denom == denom {
            proof {
                lemma_stake_value_first_match(funds@, i as int);
            }
            return Some(funds[i].amount);
        }
        i = i + 1;
    }
    None
}

/// The first coin of the accepted denomination fixes the stake value.
proof fn lemma_stake_value_first_match(fs: Seq<Coin>, i: int)
    requires
        0 <= i < fs.len(),
        forall|j: int| 0 <= j < i ==> (#[trigger] fs[j]).denom@ != accepted_denom(),
        fs[i].denom@ == accepted_denom(),
    ensures
        stake_value(fs) == fs[i].amount,
    decreases i,
{
    if i > 0 {
        assert(forall|j: int|
            0 <= j < i - 1 ==> (#[trigger] fs.drop_first()[j]).denom@ != accepted_denom());
        lemma_stake_value_first_match(fs.drop_first(), i - 1);
    }
}

/// Index of `bettor`'s wager, if any.
fn find_wager(ws: &Vec<Wager>, bettor: &String) -> (r: Option<usize>)
    ensures
        r is Some <==> has_bettor(ws@, bettor@),
        r matches Some(j) ==> 0 <= j < ws@.len() && ws@[j as int].bettor@ == bettor@,
{
    let mut i: usize = 0;
    while i < ws.len()
        invariant
            0 <= i <= ws@.len(),
            forall|j: int| 0 <= j < i ==> (#[trigger] ws@[j]).bettor@ != bettor@,
        decreases ws@.len() - i,
    {
        if ws[i].bettor == *bettor {
            return Some(i);
        }
        i = i + 1;
    }
    None
}

/// The number of wagers that backed `outcome`.
fn count_winners(ws: &Vec<Wager>, outcome: bool) -> (c: usize)
    ensures
        c == winners(ws@, outcome).len(),
{
    let mut c: usize = 0;
    let mut i: usize = 0;
    while i < ws.len()
        invariant
            0 <= i <= ws@.len(),
            c == winners(ws@.take(i as int), outcome).len(),
            c <= i,
        decreases ws@.len() - i,
    {
        proof {
            assert(ws@.take(i as int + 1) =~= ws@.take(i as int).push(ws@[i as int]));
            lemma_winners_push(ws@.take(i as int), ws@[i as int], outcome);
        }
        if ws[i].choice == outcome {
            c = c + 1;
        }
        i = i + 1;
    }
    proof {
        assert(ws@.take(ws@.len() as int) =~= ws@);
    }
    c
}

/// With every stake nonzero, a side's total vanishes exactly when the side
/// holds no wagers.
proof fn lemma_side_empty_iff_total_zero(ws: Seq<Wager>, outcome: bool)
    requires
        forall|i: int| 0 <= i < ws.len() ==> (#[trigger] ws[i]).amount > 0,
    ensures
        winners(ws, outcome).len() == 0 <==> side_total(ws, outcome) == 0,
    decreases ws.len(),
{
    if ws.len() > 0 {
        lemma_side_empty_iff_total_zero(ws.drop_last(), outcome);
        lemma_amount_sum_nonneg(winners(ws.drop_last(), outcome));
        if ws.last().choice == outcome {
            lemma_amount_sum_push(winners(ws.drop_last(), outcome), ws.last());
        }
    }
}

impl Pool {
    /// Record one bettor's stake on `choice`, funded by the attached coins.
    ///
    /// The stake is the first attached coin of the accepted denomination;
    /// it must be nonzero, the pool open, the deadline not yet passed, and
    /// the bettor new to this pool.
    pub fn place(&mut self, bettor: &String, choice: bool, funds: &Vec<Coin>, now: u64) -> (r:
        Result<(), EngineError>)
        requires
            pool_wf(*old(self)),
            old(self).total_yes + old(self).total_no + stake_value(funds@) <= u64::MAX,
        ensures
            pool_wf(*final(self)),
            place_post(*old(self), *final(self), bettor@, choice, funds@, now, r),
    {
        if self.status == PoolStatus::Resolved {
            return Err(EngineError::AlreadyResolved);
        }
        if now > self.deadline {
            return Err(EngineError::PeriodEnded);
        }
        if funds.len() == 0 {
            return Err(EngineError::NoFunds);
        }
        let amount = match find_stake(funds) {
            Some(a) => a,
            None => {
                return Err(EngineError::WrongDenomination);
            },
        };
        if amount == 0 {
            return Err(EngineError::NoFunds);
        }
        if let Some(_) = find_wager(&self.wagers, bettor) {
            return Err(EngineError::DuplicateWager);
        }
        let w = Wager { bettor: bettor.clone(), choice, amount, claimed: false };
        proof {
            lemma_winners_push(self.wagers@, w, true);
            lemma_winners_push(self.wagers@, w, false);
            lemma_amount_sum_push(winners(self.wagers@, choice), w);
        }
        self.wagers.push(w);
        if choice {
            self.total_yes = self.total_yes + amount;
        } else {
            self.total_no = self.total_no + amount;
        }
        Ok(())
    }

    /// Freeze the pool on `outcome` and compute its settlement: the
    /// transfer list under the proportional policy, or the fixed pull
    /// reward under the per-capita policy.
    pub fn resolve(&mut self, outcome: bool, now: u64) -> (r: Result<Vec<Transfer>, EngineError>)
        requires
            pool_wf(*old(self)),
        ensures
            pool_wf(*final(self)),
            resolve_post(*old(self), *final(self), outcome, now, r),
    {
        if self.status == PoolStatus::Resolved {
            return Err(EngineError::AlreadyResolved);
        }
        if now < self.deadline {
            return Err(EngineError::TooEarly);
        }
        let win_total = if outcome {
            self.total_yes
        } else {
            self.total_no
        };
        proof {
            lemma_side_empty_iff_total_zero(self.wagers@, outcome);
        }
        if win_total == 0 {
            return Err(EngineError::NoWinners);
        }
        self.status = PoolStatus::Resolved;
        self.outcome = Some(outcome);
        let total = self.total_yes + self.total_no;
        match self.policy {
            DistributionPolicy::Proportional => {
                let ts = proportional_transfers(&self.wagers, outcome, total, win_total);
                Ok(ts)
            },
            DistributionPolicy::PerCapita => {
                let count = count_winners(&self.wagers, outcome);
                self.reward_per_unit = per_capita_reward(total, count as u128);
                Ok(Vec::new())
            },
        }
    }

    /// Pay out one winning wager of a resolved pull-payout pool, marking it
    /// claimed so it can never be paid again.
    pub fn claim(&mut self, claimant: &String) -> (r: Result<Transfer, EngineError>)
        requires
            pool_wf(*old(self)),
        ensures
            pool_wf(*final(self)),
            claim_post(*old(self), *final(self), claimant@, r),
    {
        if self.status == PoolStatus::Open {
            return Err(EngineError::TooEarly);
        }
        let j = match find_wager(&self.wagers, claimant) {
            Some(j) => j,
            None => {
                return Err(EngineError::NotFound);
            },
        };
        proof {
            let gi = bettor_index(self.wagers@, claimant@);
            assert(0 <= gi < self.wagers@.len() && self.wagers@[gi].bettor@ == claimant@);
            if gi != j as int {
                assert(self.wagers@[gi].bettor@ != self.wagers@[j as int].bettor@);
            }
        }
        let outcome = self.outcome.unwrap();
        if self.wagers[j].choice != outcome {
            return Err(EngineError::NotAWinner);
        }
        if self.wagers[j].claimed {
            return Err(EngineError::AlreadyClaimed);
        }
        if self.reward_per_unit == 0 {
            return Err(EngineError::NoRewardAvailable);
        }
        let ghost pre_wagers = self.wagers@;
        let w = &mut self.wagers[j];
        w.claimed = true;
        proof {
            lemma_set_claimed_keeps_sides(pre_wagers, j as int, self.wagers@[j as int], true);
            lemma_set_claimed_keeps_sides(pre_wagers, j as int, self.wagers@[j as int], false);
        }
        Ok(Transfer { to: claimant.clone(), amount: self.reward_per_unit })
    }
}

/// Marking one wager claimed moves no value: each side keeps both its
/// winner count and its total.
proof fn lemma_set_claimed_keeps_sides(ws: Seq<Wager>, i: int, w: Wager, side: bool)
    requires
        0 <= i < ws.len(),
        w.bettor == ws[i].bettor,
        w.choice == ws[i].choice,
        w.amount == ws[i].amount,
    ensures
        winners(ws.update(i, w), side).len() == winners(ws, side).len(),
        side_total(ws.update(i, w), side) == side_total(ws, side),
    decreases ws.len(),
{
    let ws2 = ws.update(i, w);
    if i == ws.len() - 1 {
        assert(ws2.drop_last() =~= ws.drop_last());
        if ws.last().choice == side {
            lemma_amount_sum_push(winners(ws.drop_last(), side), ws.last());
            lemma_amount_sum_push(winners(ws.drop_last(), side), w);
        }
    } else {
        assert(ws2.drop_last() =~= ws.drop_last().update(i, w));
        lemma_set_claimed_keeps_sides(ws.drop_last(), i, w, side);
        if ws.last().choice == side {
            lemma_amount_sum_push(winners(ws.drop_last(), side), ws.last());
            lemma_amount_sum_push(winners(ws.drop_last().update(i, w), side), ws.last());
        }
    }
}

impl Engine {
    /// A fresh engine with the given authority and no pools.
    pub fn new(authority: String) -> (e: Engine)
        ensures
            engine_wf(e),
            e.authority == authority,
            e.pools@.len() == 0,
    {
        Engine { authority, pools: Vec::new() }
    }

    /// Create a new open pool with zeroed totals; authority only.
    pub fn create_pool(
        &mut self,
        caller: &String,
        description: String,
        deadline: u64,
        policy: DistributionPolicy,
    ) -> (r: Result<u64, EngineError>)
        requires
            engine_wf(*old(self)),
            old(self).pools@.len() < u64::MAX,
        ensures
            engine_wf(*final(self)),
            create_pool_post(
                *old(self),
                *final(self),
                caller@,
                description@,
                deadline,
                policy,
                r,
            ),
    {
        if !(*caller == self.authority) {
            return Err(EngineError::Unauthorized);
        }
        let id = self.pools.len() as u64;
        let pool = Pool {
            id,
            description,
            deadline,
            status: PoolStatus::Open,
            outcome: None,
            total_yes: 0,
            total_no: 0,
            policy,
            reward_per_unit: 0,
            wagers: Vec::new(),
        };
        self.pools.push(pool);
        Ok(id)
    }

    /// Record a stake on a pool; anyone, while the pool is open and the
    /// deadline not yet passed.
    pub fn place_wager(
        &mut self,
        pool_id: u64,
        caller: &String,
        choice: bool,
        funds: &Vec<Coin>,
        now: u64,
    ) -> (r: Result<(), EngineError>)
        requires
            engine_wf(*old(self)),
            pool_id < old(self).pools@.len() ==> old(self).pools@[pool_id as int].total_yes + old(
                self,
            ).pools@[pool_id as int].total_no + stake_value(funds@) <= u64::MAX,
        ensures
            engine_wf(*final(self)),
            place_wager_post(*old(self), *final(self), pool_id, caller@, choice, funds@, now, r),
    {
        if pool_id >= self.pools.len() as u64 {
            return Err(EngineError::NotFound);
        }
        let pool = &mut self.pools[pool_id as usize];
        pool.place(caller, choice, funds, now)
    }

    /// Resolve an open pool on `outcome`; authority only, after the
    /// deadline. Returns the settlement transfers of the pool's policy.
    pub fn resolve_pool(&mut self, pool_id: u64, caller: &String, outcome: bool, now: u64) -> (r:
        Result<Vec<Transfer>, EngineError>)
        requires
            engine_wf(*old(self)),
        ensures
            engine_wf(*final(self)),
            resolve_pool_post(*old(self), *final(self), pool_id, caller@, outcome, now, r),
    {
        if !(*caller == self.authority) {
            return Err(EngineError::Unauthorized);
        }
        if pool_id >= self.pools.len() as u64 {
            return Err(EngineError::NotFound);
        }
        let pool = &mut self.pools[pool_id as usize];
        pool.resolve(outcome, now)
    }

    /// Pay out the caller's winning wager of a resolved pull-payout pool.
    pub fn claim_reward(&mut self, pool_id: u64, caller: &String) -> (r: Result<
        Transfer,
        EngineError,
    >)
        requires
            engine_wf(*old(self)),
        ensures
            engine_wf(*final(self)),
            claim_reward_post(*old(self), *final(self), pool_id, caller@, r),
    {
        if pool_id >= self.pools.len() as u64 {
            return Err(EngineError::NotFound);
        }
        let pool = &mut self.pools[pool_id as usize];
        pool.claim(caller)
    }

    /// Read-only snapshot of one pool.
    pub fn get_pool(&self, pool_id: u64) -> (r: Result<&Pool, EngineError>)
        ensures
            pool_id < self.pools@.len() ==> (r matches Ok(p) && *p == self.pools@[pool_id as int]),
            pool_id >= self.pools@.len() ==> r == Err::<&Pool, EngineError>(EngineError::NotFound),
    {
        if pool_id >= self.pools.len() as u64 {
            return Err(EngineError::NotFound);
        }
        Ok(&self.pools[pool_id as usize])
    }

    /// Read-only snapshot of one bettor's wager on one pool.
    pub fn get_wager(&self, pool_id: u64, bettor: &String) -> (r: Result<&Wager, EngineError>)
        requires
            engine_wf(*self),
        ensures
            pool_id < self.pools@.len() && has_bettor(self.pools@[pool_id as int].wagers@, bettor@)
                ==> (r matches Ok(w) && *w == self.pools@[pool_id as int].wagers@[bettor_index(
                self.pools@[pool_id as int].wagers@,
                bettor@,
            )]),
            pool_id >= self.pools@.len() || !has_bettor(
                self.pools@[pool_id as int].wagers@,
                bettor@,
            ) ==> r == Err::<&Wager, EngineError>(EngineError::NotFound),
    {
        if pool_id >= self.pools.len() as u64 {
            return Err(EngineError::NotFound);
        }
        let pool = &self.pools[pool_id as usize];
        match find_wager(&pool.wagers, bettor) {
            Some(j) => {
                proof {
                    let gi = bettor_index(pool.wagers@, bettor@);
                    assert(0 <= gi < pool.wagers@.len() && pool.wagers@[gi].bettor@ == bettor@);
                    if gi != j as int {
                        assert(pool.wagers@[gi].bettor@ != pool.wagers@[j as int].bettor@);
                    }
                }
                Ok(&pool.wagers[j])
            },
            None => Err(EngineError::NotFound),
        }
    }
}

} // verus!
