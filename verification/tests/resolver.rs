use chain_client::error::{ChainError, Violation};
use chain_client::resolver::{
    height_at_timestamp, seconds_of, step, Move, Probe, Search, BLOCK_TIME_SECONDS, MAX_PROBES,
};
use std::cell::Cell;

const T0: i64 = 1_600_000_000;

/// Timestamps in milliseconds by height; the genesis block one interval before
/// height 1.
fn regular_chain(blocks: usize) -> Vec<i64> {
    let mut chain = vec![(T0 - 6) * 1000];
    for h in 1..=blocks {
        chain.push((T0 + 6 * (h as i64 - 1)) * 1000 + 250);
    }
    chain
}

/// As `regular_chain`, but the block after height `short` follows after one
/// second only.
fn irregular_chain(blocks: usize, short: usize) -> Vec<i64> {
    let mut chain = vec![(T0 - 6) * 1000];
    let mut t = T0;
    for h in 1..=blocks {
        chain.push(t * 1000);
        t += if h == short { 1 } else { 6 };
    }
    chain
}

fn resolve_on(chain: &Vec<i64>, ts: i64) -> Result<u32, ChainError> {
    let hash_at = |h: u32| -> Result<Option<u32>, ChainError> {
        Ok(if (h as usize) < chain.len() { Some(h) } else { None })
    };
    let time_at = |b: Option<u32>| -> Result<i64, ChainError> {
        Ok(match b {
            None => chain[chain.len() - 1],
            Some(h) => chain[h as usize],
        })
    };
    height_at_timestamp(&hash_at, &time_at, ts)
}

/// The first height whose block lies after the target.
fn first_block_after(chain: &Vec<i64>, ts: i64) -> u32 {
    let mut h = 1;
    while h < chain.len() && chain[h] / 1000 <= ts {
        h += 1;
    }
    h as u32
}

#[test]
fn regular_chain_mid_interval_targets() {
    let chain = regular_chain(60);
    for m in 0..58i64 {
        assert_eq!(resolve_on(&chain, T0 + 6 * m + 3), Ok(m as u32 + 2));
    }
}

#[test]
fn regular_chain_target_at_first_block() {
    let chain = regular_chain(10);
    assert_eq!(resolve_on(&chain, T0), Ok(2));
}

#[test]
fn regular_chain_far_target_takes_one_jump() {
    let chain = regular_chain(5000);
    assert_eq!(resolve_on(&chain, T0 + 6 * 4321 + 3), Ok(4323));
}

#[test]
fn future_timestamp_is_refused() {
    let chain = regular_chain(10);
    let latest = chain[10] / 1000;
    assert_eq!(
        resolve_on(&chain, latest + 1),
        Err(ChainError::PreconditionViolated(Violation::FutureTimestamp))
    );
    assert_eq!(
        resolve_on(&chain, i64::MAX),
        Err(ChainError::PreconditionViolated(Violation::FutureTimestamp))
    );
    assert!(resolve_on(&chain, latest).is_ok());
}

#[test]
fn future_timestamp_looks_up_no_height() {
    let chain = regular_chain(10);
    let lookups = Cell::new(0u32);
    let hash_at = |h: u32| -> Result<Option<u32>, ChainError> {
        lookups.set(lookups.get() + 1);
        Ok(Some(h))
    };
    let time_at = |_b: Option<u32>| -> Result<i64, ChainError> { Ok(chain[10]) };
    let r = height_at_timestamp(&hash_at, &time_at, chain[10] / 1000 + 100);
    assert_eq!(r, Err(ChainError::PreconditionViolated(Violation::FutureTimestamp)));
    assert_eq!(lookups.get(), 0);
}

#[test]
fn irregular_chain_matches_linear_scan() {
    for short in 1..12usize {
        let chain = irregular_chain(14, short);
        let latest = chain[14] / 1000;
        let short_block = chain[short] / 1000;
        for ts in T0..=latest {
            let found = resolve_on(&chain, ts);
            assert!(found.is_ok());
            // Right after the block before the short interval the estimate by
            // the nominal block time stops one height early.
            if ts > short_block && ts < short_block + BLOCK_TIME_SECONDS {
                assert_eq!(found, Ok(short as u32 + 1));
            } else {
                assert_eq!(found, Ok(first_block_after(&chain, ts)));
            }
        }
    }
}

#[test]
fn irregular_chain_single_targets() {
    // Blocks at T0, T0 + 6, T0 + 7, T0 + 13, T0 + 19.
    let chain = irregular_chain(5, 2);
    assert_eq!(chain[3], (T0 + 7) * 1000);
    assert_eq!(resolve_on(&chain, T0 + 15), Ok(5));
    assert_eq!(resolve_on(&chain, T0 + 13), Ok(5));
    assert_eq!(resolve_on(&chain, T0 + 2), Ok(2));
    assert_eq!(resolve_on(&chain, T0 + 6), Ok(3));
}

#[test]
fn short_interval_stops_one_height_early() {
    // Blocks at T0, T0 + 6, T0 + 7, T0 + 13, T0 + 19: the target lies between
    // heights 3 and 4, but height 2 is already within a block time of it.
    let chain = irregular_chain(5, 2);
    assert_eq!(resolve_on(&chain, T0 + 10), Ok(3));
}

#[test]
fn target_before_first_block_yields_first_height() {
    let chain = regular_chain(10);
    assert_eq!(resolve_on(&chain, T0 - 2), Ok(1));
}

#[test]
fn target_long_before_chain_is_a_negative_height() {
    let chain = regular_chain(10);
    assert_eq!(
        resolve_on(&chain, T0 - 600),
        Err(ChainError::PreconditionViolated(Violation::NegativeHeight))
    );
}

#[test]
fn stalled_chain_does_not_converge() {
    // Only the genesis block exists: height 1 is never there.
    let chain = vec![T0 * 1000];
    assert_eq!(
        resolve_on(&chain, T0 - 1),
        Err(ChainError::PreconditionViolated(Violation::DidNotConverge))
    );
}

#[test]
fn lookups_are_retried_on_disconnect() {
    let chain = regular_chain(20);
    let calls = Cell::new(0u32);
    let hash_at = |h: u32| -> Result<Option<u32>, ChainError> {
        calls.set(calls.get() + 1);
        if calls.get() % 3 != 0 {
            return Err(ChainError::TransientDisconnect);
        }
        Ok(if (h as usize) < chain.len() { Some(h) } else { None })
    };
    let time_at = |b: Option<u32>| -> Result<i64, ChainError> {
        Ok(match b {
            None => chain[chain.len() - 1],
            Some(h) => chain[h as usize],
        })
    };
    assert_eq!(height_at_timestamp(&hash_at, &time_at, T0 + 6 * 7 + 3), Ok(9));
    assert_eq!(calls.get(), 6);
}

#[test]
fn backend_failure_ends_the_search() {
    let hash_at = |_h: u32| -> Result<Option<u32>, ChainError> { Err(ChainError::TransientDisconnect) };
    let time_at = |_b: Option<u32>| -> Result<i64, ChainError> { Ok(T0 * 1000) };
    assert_eq!(height_at_timestamp(&hash_at, &time_at, T0), Err(ChainError::TransientDisconnect));
    let refused = |_b: Option<u32>| -> Result<i64, ChainError> {
        Err(ChainError::Rejected(String::from("state pruned")))
    };
    assert_eq!(
        height_at_timestamp(&hash_at, &refused, T0),
        Err(ChainError::Rejected(String::from("state pruned")))
    );
}

#[test]
fn step_moves() {
    let s = Search { height: 10, last_height: 4 };
    assert_eq!(step(s, T0, Probe::Missing), Move::Look(Search { height: 7, last_height: 4 }));
    assert_eq!(step(s, T0, Probe::Block(T0 * 1000)), Move::Found(11));
    assert_eq!(step(s, T0 + 5, Probe::Block(T0 * 1000 + 999)), Move::Found(11));
    assert_eq!(step(s, T0 - 5, Probe::Block(T0 * 1000)), Move::Found(10));
    assert_eq!(
        step(s, T0 + 6, Probe::Block(T0 * 1000)),
        Move::Look(Search { height: 11, last_height: 10 })
    );
    assert_eq!(
        step(s, T0 + 61, Probe::Block(T0 * 1000)),
        Move::Look(Search { height: 20, last_height: 10 })
    );
    assert_eq!(
        step(s, T0 - 60, Probe::Block(T0 * 1000)),
        Move::Look(Search { height: 0, last_height: 10 })
    );
    assert_eq!(step(s, T0 - 66, Probe::Block(T0 * 1000)), Move::Fail(Violation::NegativeHeight));
}

#[test]
fn step_at_the_limits() {
    let top = Search { height: u32::MAX, last_height: 1 };
    assert_eq!(step(top, 0, Probe::Block(0)), Move::Fail(Violation::HeightOutOfRange));
    assert_eq!(step(top, 6, Probe::Block(0)), Move::Fail(Violation::HeightOutOfRange));
    assert_eq!(step(top, -1, Probe::Block(0)), Move::Found(u32::MAX));
    assert_eq!(
        step(top, 0, Probe::Missing),
        Move::Look(Search { height: 0x8000_0000, last_height: 1 })
    );
    let low = Search { height: 1, last_height: 1 };
    assert_eq!(
        step(low, i64::MAX, Probe::Block(i64::MIN)),
        Move::Fail(Violation::HeightOutOfRange)
    );
    assert_eq!(
        step(low, i64::MIN, Probe::Block(i64::MAX)),
        Move::Fail(Violation::NegativeHeight)
    );
}

#[test]
fn seconds_round_toward_zero() {
    assert_eq!(seconds_of(0), 0);
    assert_eq!(seconds_of(999), 0);
    assert_eq!(seconds_of(1000), 1);
    assert_eq!(seconds_of(1999), 1);
    assert_eq!(seconds_of(-1), 0);
    assert_eq!(seconds_of(-1500), -1);
    assert_eq!(seconds_of(i64::MIN), i64::MIN / 1000);
    assert_eq!(seconds_of(i64::MAX), i64::MAX / 1000);
}

#[test]
fn search_constants() {
    assert_eq!(BLOCK_TIME_SECONDS, 6);
    assert_eq!(MAX_PROBES, 4096);
}
