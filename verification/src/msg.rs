//! The host-facing message surface: the request shapes the host hands to
//! the engine, the snapshot shapes the queries return, and the dispatcher
//! that routes a request to the lifecycle operation it names. The host
//! serializes these shapes; the engine only computes on them.

use vstd::prelude::*;

use crate::engine::{
    create_pool_post, engine_wf, place_wager_post, resolve_pool_post, Engine,
};
use crate::state::{lemma_winners_push, stake_value, winners, Coin, EngineError, Pool, Transfer, Wager};
use crate::DistributionPolicy;

verus! {

/// Configuration of a fresh engine.
#[derive(Clone, Debug, PartialEq)]
pub struct InstantiateMsg {
    pub manager: String,
}

/// The state-changing requests the host dispatches.
#[derive(Clone, Debug, PartialEq)]
pub enum ExecuteMsg {
    CreateBet { description: String, end_time: u64 },
    PlaceBet { bet_id: u64, outcome: bool },
    ResolveBet { bet_id: u64, outcome: bool },
}

/// The read-only requests the host dispatches.
#[derive(Clone, Debug, PartialEq)]
pub enum QueryMsg {
    GetBet { bet_id: u64 },
}

/// Snapshot of one pool, with its wagers split by backed side.
#[derive(Clone, Debug, PartialEq)]
pub struct BetInfo {
    pub id: u64,
    pub description: String,
    pub end_time: u64,
    pub resolved: bool,
    pub outcome: Option<bool>,
    pub total_yes: u128,
    pub total_no: u128,
    pub bets_yes: Vec<BetDetail>,
    pub bets_no: Vec<BetDetail>,
}

/// One stake within a snapshot.
#[derive(Clone, Debug, PartialEq)]
pub struct BetDetail {
    pub bettor: String,
    pub amount: u128,
}

/// What a successful state-changing request hands back to the host: the
/// fresh pool's identifier for a creation, and the transfer instructions
/// the host's custody mechanism must execute.
#[derive(Clone, Debug)]
pub struct ExecuteReply {
    pub pool_id: Option<u64>,
    pub transfers: Vec<Transfer>,
}

/// Configure a fresh engine with its managing authority.
pub fn instantiate(msg: InstantiateMsg) -> (e: Engine)
    ensures
        engine_wf(e),
        e.authority@ == msg.manager@,
        e.pools@.len() == 0,
{
    Engine::new(msg.manager)
}

/// Route one state-changing request to the operation it names. Creation
/// requests make proportional-payout pools; per-capita pools and pull
/// claims are reached through the engine directly.
pub fn execute(
    engine: &mut Engine,
    sender: &String,
    funds: &Vec<Coin>,
    now: u64,
    msg: ExecuteMsg,
) -> (r: Result<ExecuteReply, EngineError>)
    requires
        engine_wf(*old(engine)),
        old(engine).pools@.len() < u64::MAX,
        msg matches ExecuteMsg::PlaceBet { bet_id, .. } ==> (bet_id < old(engine).pools@.len()
            ==> old(engine).pools@[bet_id as int].total_yes + old(
            engine,
        ).pools@[bet_id as int].total_no + stake_value(funds@) <= u64::MAX),
    ensures
        engine_wf(*final(engine)),
        msg matches ExecuteMsg::CreateBet { description, end_time } ==> create_pool_post(
            *old(engine),
            *final(engine),
            sender@,
            description@,
            end_time,
            DistributionPolicy::Proportional,
            if r is Ok {
                Ok(r->Ok_0.pool_id->0)
            } else {
                Err(r->Err_0)
            },
        ) && (r matches Ok(rep) ==> rep.pool_id is Some && rep.transfers@.len() == 0),
        msg matches ExecuteMsg::PlaceBet { bet_id, outcome } ==> place_wager_post(
            *old(engine),
            *final(engine),
            bet_id,
            sender@,
            outcome,
            funds@,
            now,
            if r is Ok {
                Ok(())
            } else {
                Err(r->Err_0)
            },
        ) && (r matches Ok(rep) ==> rep.pool_id is None && rep.transfers@.len() == 0),
        msg matches ExecuteMsg::ResolveBet { bet_id, outcome } ==> (r matches Ok(rep)
            ==> rep.pool_id is None) && resolve_pool_post(
            *old(engine),
            *final(engine),
            bet_id,
            sender@,
            outcome,
            now,
            if r is Ok {
                Ok(r->Ok_0.transfers)
            } else {
                Err(r->Err_0)
            },
        ),
{
    match msg {
        ExecuteMsg::CreateBet { description, end_time } => {
            match engine.create_pool(sender, description, end_time, DistributionPolicy::Proportional) {
                Ok(id) => Ok(ExecuteReply { pool_id: Some(id), transfers: Vec::new() }),
                Err(e) => Err(e),
            }
        },
        ExecuteMsg::PlaceBet { bet_id, outcome } => {
            match engine.place_wager(bet_id, sender, outcome, funds, now) {
                Ok(()) => Ok(ExecuteReply { pool_id: None, transfers: Vec::new() }),
                Err(e) => Err(e),
            }
        },
        ExecuteMsg::ResolveBet { bet_id, outcome } => {
            match engine.resolve_pool(bet_id, sender, outcome, now) {
                Ok(ts) => Ok(ExecuteReply { pool_id: None, transfers: ts }),
                Err(e) => Err(e),
            }
        },
    }
}

/// Whether a snapshot's stake list mirrors a side's wagers exactly.
pub open spec fn details_match(ds: Seq<BetDetail>, ws: Seq<Wager>) -> bool {
    &&& ds.len() == ws.len()
    &&& forall|k: int|
        0 <= k < ds.len() ==> (#[trigger] ds[k]).bettor@ == ws[k].bettor@ && ds[k].amount
            == ws[k].amount
}

/// Whether a snapshot reports a pool faithfully.
pub open spec fn bet_info_matches(p: Pool, b: BetInfo) -> bool {
    &&& b.id == p.id
    &&& b.description@ == p.description@
    &&& b.end_time == p.deadline
    &&& b.resolved == (p.status is Resolved)
    &&& b.outcome == p.outcome
    &&& b.total_yes == p.total_yes
    &&& b.total_no == p.total_no
    &&& details_match(b.bets_yes@, winners(p.wagers@, true))
    &&& details_match(b.bets_no@, winners(p.wagers@, false))
}

/// The stakes of one side, in order of placement.
fn side_details(ws: &Vec<Wager>, side: bool) -> (ds: Vec<BetDetail>)
    ensures
        details_match(ds@, winners(ws@, side)),
{
    let mut ds: Vec<BetDetail> = Vec::new();
    let mut i: usize = 0;
    while i < ws.len()
        invariant
            0 <= i <= ws@.len(),
            details_match(ds@, winners(ws@.take(i as int), side)),
        decreases ws@.len() - i,
    {
        proof {
            assert(ws@.take(i as int + 1) =~= ws@.take(i as int).push(ws@[i as int]));
            lemma_winners_push(ws@.take(i as int), ws@[i as int], side);
        }
        let w = &ws[i];
        if w.choice == side {
            ds.push(BetDetail { bettor: w.bettor.clone(), amount: w.amount });
        }
        i = i + 1;
    }
    proof {
        assert(ws@.take(ws@.len() as int) =~= ws@);
    }
    ds
}

/// Read-only snapshot of one pool, or `NotFound`.
pub fn query_bet(engine: &Engine, bet_id: u64) -> (r: Result<BetInfo, EngineError>)
    ensures
        bet_id < engine.pools@.len() ==> (r matches Ok(b) && bet_info_matches(
            engine.pools@[bet_id as int],
            b,
        )),
        bet_id >= engine.pools@.len() ==> r == Err::<BetInfo, EngineError>(EngineError::NotFound),
{
    let pool = match engine.get_pool(bet_id) {
        Ok(p) => p,
        Err(e) => {
            return Err(e);
        },
    };
    let resolved = pool.status == crate::state::PoolStatus::Resolved;
    Ok(
        BetInfo {
            id: pool.id,
            description: pool.description.clone(),
            end_time: pool.deadline,
            resolved,
            outcome: pool.outcome,
            total_yes: pool.total_yes,
            total_no: pool.total_no,
            bets_yes: side_details(&pool.wagers, true),
            bets_no: side_details(&pool.wagers, false),
        },
    )
}

/// Route one read-only request to the query it names.
pub fn query(engine: &Engine, msg: QueryMsg) -> (r: Result<BetInfo, EngineError>)
    ensures
        msg matches QueryMsg::GetBet { bet_id } ==> {
            &&& bet_id < engine.pools@.len() ==> (r matches Ok(b) && bet_info_matches(
                engine.pools@[bet_id as int],
                b,
            ))
            &&& bet_id >= engine.pools@.len() ==> r == Err::<BetInfo, EngineError>(
                EngineError::NotFound,
            )
        },
{
    match msg {
        QueryMsg::GetBet { bet_id } => query_bet(engine, bet_id),
    }
}

} // verus!
