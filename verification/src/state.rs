//! Data model of the settlement engine: pools, wagers, attached funds,
//! transfer instructions, errors, and the well-formedness invariants that
//! every engine operation preserves.

use vstd::prelude::*;

use crate::DistributionPolicy;

verus! {

/// Lifecycle stage of a pool. Monotonic: once `Resolved`, never `Open` again.
#[derive(Clone, Copy, PartialEq, Eq, Structural, Debug)]
pub enum PoolStatus {
    Open,
    Resolved,
}

/// Everything an operation can fail with. All failures are terminal and
/// leave the engine state unchanged.
#[derive(Clone, Copy, PartialEq, Eq, Structural, Debug)]
pub enum EngineError {
    /// An authority-only operation was called by someone else.
    Unauthorized,
    /// No pool (or no wager of the caller) under the given key.
    NotFound,
    /// The pool was already resolved.
    AlreadyResolved,
    /// Resolution attempted before the deadline, or a claim on an open pool.
    TooEarly,
    /// A stake attempted after the deadline.
    PeriodEnded,
    /// No funds were attached, or the attached amount was zero.
    NoFunds,
    /// The attached funds carry no coin of the accepted denomination.
    WrongDenomination,
    /// The caller already holds a wager on this pool.
    DuplicateWager,
    /// The winning side holds no wagers; resolution is rejected.
    NoWinners,
    /// The claimant's wager backed the losing outcome.
    NotAWinner,
    /// The claimant's wager was already paid out.
    AlreadyClaimed,
    /// The pool grants no pull payout (proportional pools pay at resolution).
    NoRewardAvailable,
}

/// One bettor's stake within a pool. Immutable but for `claimed`, which a
/// successful pull payout sets exactly once.
#[derive(Clone, Debug, PartialEq)]
pub struct Wager {
    pub bettor: String,
    pub choice: bool,
    pub amount: u128,
    pub claimed: bool,
}

/// A single binary-outcome wagering pool together with its wagers.
#[derive(Clone, Debug, PartialEq)]
pub struct Pool {
    pub id: u64,
    pub description: String,
    pub deadline: u64,
    pub status: PoolStatus,
    pub outcome: Option<bool>,
    pub total_yes: u128,
    pub total_no: u128,
    pub policy: DistributionPolicy,
    pub reward_per_unit: u128,
    pub wagers: Vec<Wager>,
}

/// One denomination of value attached to a call by the host.
#[derive(Clone, Debug, PartialEq)]
pub struct Coin {
    pub denom: String,
    pub amount: u128,
}

/// An instruction for the host's custody mechanism: move `amount` units
/// from the pool's custody to `to`. The engine only ever emits these; it
/// never moves value itself.
#[derive(Clone, Debug, PartialEq)]
pub struct Transfer {
    pub to: String,
    pub amount: u128,
}

/// The wagers of `ws` that backed `outcome`, in order of placement.
pub open spec fn winners(ws: Seq<Wager>, outcome: bool) -> Seq<Wager>
    decreases ws.len(),
{
    if ws.len() == 0 {
        Seq::empty()
    } else {
        let prefix = winners(ws.drop_last(), outcome);
        if ws.last().choice == outcome {
            prefix.push(ws.last())
        } else {
            prefix
        }
    }
}

/// Sum of the staked amounts of a sequence of wagers.
pub open spec fn amount_sum(ws: Seq<Wager>) -> int
    decreases ws.len(),
{
    if ws.len() == 0 {
        0
    } else {
        amount_sum(ws.drop_last()) + ws.last().amount
    }
}

/// Total staked on one side of a pool.
pub open spec fn side_total(ws: Seq<Wager>, side: bool) -> int {
    amount_sum(winners(ws, side))
}

/// Whether some wager of `ws` belongs to `bettor`.
pub open spec fn has_bettor(ws: Seq<Wager>, bettor: Seq<char>) -> bool {
    exists|i: int| 0 <= i < ws.len() && ws[i].bettor@ == bettor
}

/// The index of `bettor`'s wager in `ws`; meaningful when `has_bettor`
/// holds, and unique under `pool_wf`'s one-wager-per-bettor invariant.
pub open spec fn bettor_index(ws: Seq<Wager>, bettor: Seq<char>) -> int {
    choose|i: int| 0 <= i < ws.len() && ws[i].bettor@ == bettor
}

/// Number of wagers of `ws` already paid out by a pull claim.
pub open spec fn claimed_count(ws: Seq<Wager>) -> int
    decreases ws.len(),
{
    if ws.len() == 0 {
        0
    } else {
        claimed_count(ws.drop_last()) + if ws.last().claimed {
            1int
        } else {
            0int
        }
    }
}

/// The single denomination of value the engine accepts in attached funds.
pub open spec fn accepted_denom() -> Seq<char> {
    "uxion"@
}

/// Whether some attached coin carries the accepted denomination.
pub open spec fn has_accepted_coin(fs: Seq<Coin>) -> bool {
    exists|i: int| 0 <= i < fs.len() && fs[i].denom@ == accepted_denom()
}

/// The amount of the first attached coin of the accepted denomination, or
/// zero when there is none.
pub open spec fn stake_value(fs: Seq<Coin>) -> int
    decreases fs.len(),
{
    if fs.len() == 0 {
        0
    } else if fs[0].denom@ == accepted_denom() {
        fs[0].amount as int
    } else {
        stake_value(fs.drop_first())
    }
}

/// A sum of staked amounts is never negative.
pub proof fn lemma_amount_sum_nonneg(ws: Seq<Wager>)
    ensures
        amount_sum(ws) >= 0,
    decreases ws.len(),
{
    if ws.len() > 0 {
        lemma_amount_sum_nonneg(ws.drop_last());
    }
}

/// How `winners` grows when one wager is appended.
pub proof fn lemma_winners_push(ws: Seq<Wager>, w: Wager, outcome: bool)
    ensures
        winners(ws.push(w), outcome) == if w.choice == outcome {
            winners(ws, outcome).push(w)
        } else {
            winners(ws, outcome)
        },
{
    assert(ws.push(w).drop_last() =~= ws);
}

/// How `amount_sum` grows when one wager is appended.
pub proof fn lemma_amount_sum_push(ws: Seq<Wager>, w: Wager)
    ensures
        amount_sum(ws.push(w)) == amount_sum(ws) + w.amount,
{
    assert(ws.push(w).drop_last() =~= ws);
}

/// Every staked amount is counted on exactly one side: the whole stake of a
/// pool is the yes-side total plus the no-side total.
pub proof fn lemma_amount_sum_partition(ws: Seq<Wager>)
    ensures
        amount_sum(ws) == side_total(ws, true) + side_total(ws, false),
    decreases ws.len(),
{
    if ws.len() > 0 {
        let prefix = ws.drop_last();
        lemma_amount_sum_partition(prefix);
        if ws.last().choice {
            lemma_amount_sum_push(winners(prefix, true), ws.last());
        } else {
            lemma_amount_sum_push(winners(prefix, false), ws.last());
        }
    }
}

/// The recorded totals of a well-formed pool sum to the sum of all its
/// recorded wager amounts, however the stakes were placed.
pub proof fn lemma_pool_total_is_wager_sum(p: Pool)
    requires
        pool_wf(p),
    ensures
        p.total_yes + p.total_no == amount_sum(p.wagers@),
{
    lemma_amount_sum_partition(p.wagers@);
}

/// Well-formedness of a pool: the accounting and state-machine invariants
/// that creation establishes and every operation preserves.
pub open spec fn pool_wf(p: Pool) -> bool {
    // The recorded totals are exactly the sums of the recorded wagers.
    &&& p.total_yes as int == side_total(p.wagers@, true)
    &&& p.total_no as int == side_total(p.wagers@, false)
    // The pool stays small enough that every payout product fits in u128.
    &&& p.total_yes + p.total_no <= u64::MAX
    // Every recorded stake is nonzero.
    &&& forall|i: int| 0 <= i < p.wagers@.len() ==> #[trigger] p.wagers@[i].amount > 0
    // At most one wager per bettor.
    &&& forall|i: int, j: int|
        0 <= i < j < p.wagers@.len() ==> (#[trigger] p.wagers@[i].bettor@) != (
        #[trigger] p.wagers@[j].bettor@)
    // While open: no outcome, no pull reward, nothing claimed.
    &&& p.status is Open ==> p.outcome is None && p.reward_per_unit == 0 && (forall|i: int|
        0 <= i < p.wagers@.len() ==> !(#[trigger] p.wagers@[i].claimed))
    // Once resolved the outcome is fixed.
    &&& p.status is Resolved ==> p.outcome is Some
    // A resolved per-capita pool holds the fixed pull reward, and had winners.
    &&& p.status is Resolved && p.policy is PerCapita ==> {
        let w = winners(p.wagers@, p.outcome->0);
        w.len() > 0 && p.reward_per_unit as int == (p.total_yes + p.total_no) as int / w.len() as int
    }
    // Proportional pools pay at resolution and never grant a pull reward.
    &&& p.policy is Proportional ==> p.reward_per_unit == 0
    // Only winning wagers of a resolved pool are ever marked claimed.
    &&& forall|i: int|
        0 <= i < p.wagers@.len() && (#[trigger] p.wagers@[i]).claimed ==> p.status is Resolved
            && p.outcome == Some(p.wagers@[i].choice)
}

} // verus!
