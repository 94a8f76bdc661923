use robet::engine::Engine;
use robet::state::{Coin, EngineError, PoolStatus};
use robet::DistributionPolicy;

fn uxion(amount: u128) -> Vec<Coin> {
    vec![Coin { denom: "uxion".to_string(), amount }]
}

fn manager() -> String {
    "manager".to_string()
}

fn engine() -> Engine {
    Engine::new(manager())
}

fn open_pool(e: &mut Engine, deadline: u64, policy: DistributionPolicy) -> u64 {
    e.create_pool(&manager(), "will it rain".to_string(), deadline, policy)
        .expect("creation by the authority succeeds")
}

#[test]
fn create_assigns_sequential_ids() {
    let mut e = engine();
    assert_eq!(open_pool(&mut e, 100, DistributionPolicy::Proportional), 0);
    assert_eq!(open_pool(&mut e, 200, DistributionPolicy::PerCapita), 1);
    let p = e.get_pool(1).unwrap();
    assert_eq!(p.id, 1);
    assert_eq!(p.deadline, 200);
    assert_eq!(p.status, PoolStatus::Open);
    assert_eq!(p.outcome, None);
    assert_eq!(p.total_yes, 0);
    assert_eq!(p.total_no, 0);
    assert_eq!(p.reward_per_unit, 0);
}

#[test]
fn create_by_stranger_is_unauthorized() {
    let mut e = engine();
    let r = e.create_pool(
        &"mallory".to_string(),
        "d".to_string(),
        100,
        DistributionPolicy::Proportional,
    );
    assert_eq!(r, Err(EngineError::Unauthorized));
}

#[test]
fn totals_track_stakes() {
    let mut e = engine();
    let id = open_pool(&mut e, 100, DistributionPolicy::Proportional);
    e.place_wager(id, &"a".to_string(), true, &uxion(300), 10).unwrap();
    e.place_wager(id, &"b".to_string(), true, &uxion(100), 20).unwrap();
    e.place_wager(id, &"c".to_string(), false, &uxion(200), 30).unwrap();
    let p = e.get_pool(id).unwrap();
    assert_eq!(p.total_yes, 400);
    assert_eq!(p.total_no, 200);
    assert_eq!(p.wagers.len(), 3);
    // The totals are exactly the sum of all recorded stakes.
    let staked: u128 = p.wagers.iter().map(|w| w.amount).sum();
    assert_eq!(p.total_yes + p.total_no, staked);
}

#[test]
fn proportional_scenario_pays_exact_shares() {
    // Deadline T, bettor A stakes 300 on yes, B 100 on yes, C 200 on no.
    // Resolving yes pays A floor(300*600/400) = 450 and B 150; no dust.
    let mut e = engine();
    let id = open_pool(&mut e, 100, DistributionPolicy::Proportional);
    e.place_wager(id, &"a".to_string(), true, &uxion(300), 10).unwrap();
    e.place_wager(id, &"b".to_string(), true, &uxion(100), 20).unwrap();
    e.place_wager(id, &"c".to_string(), false, &uxion(200), 30).unwrap();
    let ts = e.resolve_pool(id, &manager(), true, 100).unwrap();
    assert_eq!(ts.len(), 2);
    assert_eq!(ts[0].to, "a");
    assert_eq!(ts[0].amount, 450);
    assert_eq!(ts[1].to, "b");
    assert_eq!(ts[1].amount, 150);
    assert_eq!(ts[0].amount + ts[1].amount, 600);
    let p = e.get_pool(id).unwrap();
    assert_eq!(p.status, PoolStatus::Resolved);
    assert_eq!(p.outcome, Some(true));
}

#[test]
fn proportional_dust_stays_in_custody() {
    // yes 3; no 1 and 1. Resolving no pays floor(1*5/2) = 2 twice: dust 1,
    // strictly below the two winning wagers.
    let mut e = engine();
    let id = open_pool(&mut e, 100, DistributionPolicy::Proportional);
    e.place_wager(id, &"a".to_string(), true, &uxion(3), 10).unwrap();
    e.place_wager(id, &"b".to_string(), false, &uxion(1), 20).unwrap();
    e.place_wager(id, &"c".to_string(), false, &uxion(1), 30).unwrap();
    let ts = e.resolve_pool(id, &manager(), false, 200).unwrap();
    let paid: u128 = ts.iter().map(|t| t.amount).sum();
    assert_eq!(paid, 4);
    assert!(5 - paid < 2);
}

#[test]
fn per_capita_scenario_fixed_reward_claimed_once() {
    // Three stakes of 10: two on yes, one on no. Resolving yes fixes the
    // reward at floor(30 / 2) = 15; each winner claims once, not twice.
    let mut e = engine();
    let id = open_pool(&mut e, 100, DistributionPolicy::PerCapita);
    e.place_wager(id, &"a".to_string(), true, &uxion(10), 10).unwrap();
    e.place_wager(id, &"b".to_string(), true, &uxion(10), 20).unwrap();
    e.place_wager(id, &"c".to_string(), false, &uxion(10), 30).unwrap();
    let ts = e.resolve_pool(id, &manager(), true, 150).unwrap();
    assert!(ts.is_empty());
    assert_eq!(e.get_pool(id).unwrap().reward_per_unit, 15);
    let t = e.claim_reward(id, &"a".to_string()).unwrap();
    assert_eq!(t.to, "a");
    assert_eq!(t.amount, 15);
    let t = e.claim_reward(id, &"b".to_string()).unwrap();
    assert_eq!(t.amount, 15);
    assert_eq!(
        e.claim_reward(id, &"a".to_string()),
        Err(EngineError::AlreadyClaimed)
    );
    assert_eq!(
        e.claim_reward(id, &"b".to_string()),
        Err(EngineError::AlreadyClaimed)
    );
}

#[test]
fn per_capita_dust_stays_in_custody() {
    // Pool 25, two winners: reward floor(25/2) = 12, dust 1 below 2.
    let mut e = engine();
    let id = open_pool(&mut e, 100, DistributionPolicy::PerCapita);
    e.place_wager(id, &"a".to_string(), true, &uxion(10), 10).unwrap();
    e.place_wager(id, &"b".to_string(), true, &uxion(10), 20).unwrap();
    e.place_wager(id, &"c".to_string(), false, &uxion(5), 30).unwrap();
    e.resolve_pool(id, &manager(), true, 150).unwrap();
    let rpu = e.get_pool(id).unwrap().reward_per_unit;
    assert_eq!(rpu, 12);
    assert!(25 - rpu * 2 < 2);
}

#[test]
fn losing_bettor_claim_fails_not_a_winner() {
    let mut e = engine();
    let id = open_pool(&mut e, 100, DistributionPolicy::PerCapita);
    e.place_wager(id, &"a".to_string(), true, &uxion(10), 10).unwrap();
    e.place_wager(id, &"c".to_string(), false, &uxion(10), 30).unwrap();
    e.resolve_pool(id, &manager(), true, 150).unwrap();
    assert_eq!(
        e.claim_reward(id, &"c".to_string()),
        Err(EngineError::NotAWinner)
    );
    // And again: losing never turns into winning.
    assert_eq!(
        e.claim_reward(id, &"c".to_string()),
        Err(EngineError::NotAWinner)
    );
}

#[test]
fn second_resolution_fails_already_resolved() {
    let mut e = engine();
    let id = open_pool(&mut e, 100, DistributionPolicy::Proportional);
    e.place_wager(id, &"a".to_string(), true, &uxion(10), 10).unwrap();
    e.resolve_pool(id, &manager(), true, 150).unwrap();
    assert_eq!(
        e.resolve_pool(id, &manager(), false, 160),
        Err(EngineError::AlreadyResolved)
    );
    let p = e.get_pool(id).unwrap();
    assert_eq!(p.status, PoolStatus::Resolved);
    assert_eq!(p.outcome, Some(true));
    assert_eq!(p.total_yes, 10);
}

#[test]
fn stake_after_deadline_fails_and_mutates_nothing() {
    let mut e = engine();
    let id = open_pool(&mut e, 100, DistributionPolicy::Proportional);
    e.place_wager(id, &"a".to_string(), true, &uxion(10), 100).unwrap();
    assert_eq!(
        e.place_wager(id, &"b".to_string(), false, &uxion(10), 101),
        Err(EngineError::PeriodEnded)
    );
    let p = e.get_pool(id).unwrap();
    assert_eq!(p.total_yes, 10);
    assert_eq!(p.total_no, 0);
    assert_eq!(p.wagers.len(), 1);
}

#[test]
fn stake_on_resolved_pool_fails_already_resolved() {
    let mut e = engine();
    let id = open_pool(&mut e, 100, DistributionPolicy::Proportional);
    e.place_wager(id, &"a".to_string(), true, &uxion(10), 10).unwrap();
    e.resolve_pool(id, &manager(), true, 150).unwrap();
    assert_eq!(
        e.place_wager(id, &"b".to_string(), true, &uxion(10), 150),
        Err(EngineError::AlreadyResolved)
    );
}

#[test]
fn resolution_before_deadline_is_too_early() {
    let mut e = engine();
    let id = open_pool(&mut e, 100, DistributionPolicy::Proportional);
    e.place_wager(id, &"a".to_string(), true, &uxion(10), 10).unwrap();
    assert_eq!(
        e.resolve_pool(id, &manager(), true, 99),
        Err(EngineError::TooEarly)
    );
    // At the deadline itself resolution is legal.
    assert!(e.resolve_pool(id, &manager(), true, 100).is_ok());
}

#[test]
fn resolution_by_stranger_is_unauthorized() {
    let mut e = engine();
    let id = open_pool(&mut e, 100, DistributionPolicy::Proportional);
    e.place_wager(id, &"a".to_string(), true, &uxion(10), 10).unwrap();
    assert_eq!(
        e.resolve_pool(id, &"mallory".to_string(), true, 150),
        Err(EngineError::Unauthorized)
    );
}

#[test]
fn resolving_empty_winning_side_fails_and_pool_stays_open() {
    let mut e = engine();
    let id = open_pool(&mut e, 100, DistributionPolicy::PerCapita);
    e.place_wager(id, &"a".to_string(), false, &uxion(10), 10).unwrap();
    assert_eq!(
        e.resolve_pool(id, &manager(), true, 150),
        Err(EngineError::NoWinners)
    );
    let p = e.get_pool(id).unwrap();
    assert_eq!(p.status, PoolStatus::Open);
    // The pool is still open, so the other outcome can settle it.
    assert!(e.resolve_pool(id, &manager(), false, 150).is_ok());

    // The proportional policy refuses a zero-stake winning side the same way.
    let id = open_pool(&mut e, 100, DistributionPolicy::Proportional);
    e.place_wager(id, &"a".to_string(), true, &uxion(10), 10).unwrap();
    assert_eq!(
        e.resolve_pool(id, &manager(), false, 150),
        Err(EngineError::NoWinners)
    );
    assert_eq!(e.get_pool(id).unwrap().status, PoolStatus::Open);
}

#[test]
fn missing_pool_is_not_found() {
    let mut e = engine();
    assert_eq!(
        e.place_wager(7, &"a".to_string(), true, &uxion(10), 10),
        Err(EngineError::NotFound)
    );
    assert_eq!(
        e.resolve_pool(7, &manager(), true, 150),
        Err(EngineError::NotFound)
    );
    assert_eq!(
        e.claim_reward(7, &"a".to_string()),
        Err(EngineError::NotFound)
    );
    assert_eq!(e.get_pool(7).unwrap_err(), EngineError::NotFound);
}

#[test]
fn empty_and_zero_funds_are_no_funds() {
    let mut e = engine();
    let id = open_pool(&mut e, 100, DistributionPolicy::Proportional);
    assert_eq!(
        e.place_wager(id, &"a".to_string(), true, &Vec::new(), 10),
        Err(EngineError::NoFunds)
    );
    assert_eq!(
        e.place_wager(id, &"a".to_string(), true, &uxion(0), 10),
        Err(EngineError::NoFunds)
    );
}

#[test]
fn unaccepted_denomination_is_rejected() {
    let mut e = engine();
    let id = open_pool(&mut e, 100, DistributionPolicy::Proportional);
    let funds = vec![Coin { denom: "uatom".to_string(), amount: 10 }];
    assert_eq!(
        e.place_wager(id, &"a".to_string(), true, &funds, 10),
        Err(EngineError::WrongDenomination)
    );
    // The first accepted coin fixes the stake; others are ignored.
    let funds = vec![
        Coin { denom: "uatom".to_string(), amount: 99 },
        Coin { denom: "uxion".to_string(), amount: 10 },
        Coin { denom: "uxion".to_string(), amount: 55 },
    ];
    e.place_wager(id, &"a".to_string(), true, &funds, 10).unwrap();
    assert_eq!(e.get_pool(id).unwrap().total_yes, 10);
}

#[test]
fn second_stake_by_same_bettor_is_a_duplicate() {
    let mut e = engine();
    let id = open_pool(&mut e, 100, DistributionPolicy::Proportional);
    e.place_wager(id, &"a".to_string(), true, &uxion(10), 10).unwrap();
    assert_eq!(
        e.place_wager(id, &"a".to_string(), false, &uxion(10), 20),
        Err(EngineError::DuplicateWager)
    );
    let p = e.get_pool(id).unwrap();
    assert_eq!(p.total_yes, 10);
    assert_eq!(p.total_no, 0);
}

#[test]
fn claim_on_open_pool_is_too_early() {
    let mut e = engine();
    let id = open_pool(&mut e, 100, DistributionPolicy::PerCapita);
    e.place_wager(id, &"a".to_string(), true, &uxion(10), 10).unwrap();
    assert_eq!(
        e.claim_reward(id, &"a".to_string()),
        Err(EngineError::TooEarly)
    );
}

#[test]
fn claim_by_stranger_is_not_found() {
    let mut e = engine();
    let id = open_pool(&mut e, 100, DistributionPolicy::PerCapita);
    e.place_wager(id, &"a".to_string(), true, &uxion(10), 10).unwrap();
    e.resolve_pool(id, &manager(), true, 150).unwrap();
    assert_eq!(
        e.claim_reward(id, &"nobody".to_string()),
        Err(EngineError::NotFound)
    );
}

#[test]
fn claim_on_proportional_pool_grants_no_reward() {
    // Proportional pools pay at resolution; the pull path stays closed.
    let mut e = engine();
    let id = open_pool(&mut e, 100, DistributionPolicy::Proportional);
    e.place_wager(id, &"a".to_string(), true, &uxion(10), 10).unwrap();
    e.resolve_pool(id, &manager(), true, 150).unwrap();
    assert_eq!(
        e.claim_reward(id, &"a".to_string()),
        Err(EngineError::NoRewardAvailable)
    );
}

#[test]
fn get_wager_returns_the_bettors_stake() {
    let mut e = engine();
    let id = open_pool(&mut e, 100, DistributionPolicy::Proportional);
    e.place_wager(id, &"a".to_string(), true, &uxion(10), 10).unwrap();
    e.place_wager(id, &"b".to_string(), false, &uxion(20), 10).unwrap();
    let w = e.get_wager(id, &"b".to_string()).unwrap();
    assert_eq!(w.bettor, "b");
    assert!(!w.choice);
    assert_eq!(w.amount, 20);
    assert!(!w.claimed);
    assert_eq!(
        e.get_wager(id, &"zz".to_string()).unwrap_err(),
        EngineError::NotFound
    );
}

#[test]
fn cross_pool_operations_are_independent() {
    let mut e = engine();
    let a = open_pool(&mut e, 100, DistributionPolicy::Proportional);
    let b = open_pool(&mut e, 100, DistributionPolicy::PerCapita);
    e.place_wager(a, &"x".to_string(), true, &uxion(10), 10).unwrap();
    e.place_wager(b, &"x".to_string(), false, &uxion(7), 10).unwrap();
    e.resolve_pool(a, &manager(), true, 150).unwrap();
    let pb = e.get_pool(b).unwrap();
    assert_eq!(pb.status, PoolStatus::Open);
    assert_eq!(pb.total_no, 7);
}
