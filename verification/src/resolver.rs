//! The search that maps a wall-clock timestamp to a chain height.
//!
//! Block production is only roughly regular, so the search extrapolates from
//! the block it last looked at by the nominal block time and jumps there. When
//! a jump lands past the chain's tip it moves halfway back toward the height it
//! came from. It settles on a height as soon as the block it looks at lies
//! within one nominal block time of the target.

use vstd::prelude::*;
use crate::error::{ChainError, Violation};
use crate::retry::{retry, MAX_ATTEMPTS};

verus! {

/// Nominal time between two blocks, in seconds.
pub const BLOCK_TIME_SECONDS: i64 = 6;

/// Number of blocks that one search may look at before it gives up.
pub const MAX_PROBES: u32 = 4096;

/// Division that rounds toward zero, for a positive divisor.
pub open spec fn trunc_div(a: int, b: int) -> int
    recommends
        b > 0,
{
    if a >= 0 {
        a / b
    } else {
        -((-a) / b)
    }
}

/// Seconds since the epoch of a timestamp in milliseconds.
pub open spec fn seconds_of_spec(millis: i64) -> int {
    trunc_div(millis as int, 1000)
}

/// Where a search stands: the height it looks at next and the height it came
/// from.
#[derive(Clone, Copy, Debug, PartialEq, Eq)]
pub struct Search {
    pub height: u32,
    pub last_height: u32,
}

/// What the chain answered for the height that the search looks at.
#[derive(Clone, Copy, Debug, PartialEq, Eq)]
pub enum Probe {
    /// No block exists at that height yet.
    Missing,
    /// The block at that height, by its timestamp in milliseconds.
    Block(i64),
}

/// What the search does after one answer.
#[derive(Clone, Copy, Debug, PartialEq, Eq)]
pub enum Move {
    /// Look at another height.
    Look(Search),
    /// The search has settled on this height.
    Found(u32),
    /// The search cannot go on.
    Fail(Violation),
}

/// The rule of the search: the move that follows `answer`, given for the
/// height `s.height`, when the target is `target` seconds since the epoch.
pub open spec fn step_spec(s: Search, target: i64, answer: Probe) -> Move {
    match answer {
        Probe::Missing => Move::Look(
            Search { height: ((s.height + s.last_height) / 2) as u32, last_height: s.last_height },
        ),
        Probe::Block(millis) => {
            let time_delta = target - seconds_of_spec(millis);
            let block_delta = trunc_div(time_delta, BLOCK_TIME_SECONDS as int);
            if block_delta == 0 {
                if time_delta < 0 {
                    Move::Found(s.height)
                } else if s.height == u32::MAX {
                    Move::Fail(Violation::HeightOutOfRange)
                } else {
                    Move::Found((s.height + 1) as u32)
                }
            } else if s.height + block_delta < 0 {
                Move::Fail(Violation::NegativeHeight)
            } else if s.height + block_delta > u32::MAX {
                Move::Fail(Violation::HeightOutOfRange)
            } else {
                Move::Look(
                    Search { height: (s.height + block_delta) as u32, last_height: s.height },
                )
            }
        },
    }
}

/// A chain as the search sees it: the timestamp in milliseconds of each block,
/// by height. Heights from the sequence's length on do not exist yet.
pub open spec fn probe_at(chain: Seq<i64>, height: u32) -> Probe {
    if height < chain.len() {
        Probe::Block(chain[height as int])
    } else {
        Probe::Missing
    }
}

/// The outcome of a search on `chain` that stands at `s` and may still look at
/// `probes` blocks.
pub open spec fn resolve_from(chain: Seq<i64>, target: i64, s: Search, probes: nat) -> Result<
    u32,
    Violation,
>
    decreases probes,
{
    if probes == 0 {
        Err(Violation::DidNotConverge)
    } else {
        match step_spec(s, target, probe_at(chain, s.height)) {
            Move::Look(next) => resolve_from(chain, target, next, (probes - 1) as nat),
            Move::Found(height) => Ok(height),
            Move::Fail(violation) => Err(violation),
        }
    }
}

/// The height that a whole search for `target` yields on `chain`: it refuses a
/// target after the latest block and starts at height 1.
pub open spec fn resolve(chain: Seq<i64>, target: i64) -> Result<u32, Violation>
    recommends
        chain.len() > 0,
{
    if seconds_of_spec(chain.last()) < target {
        Err(Violation::FutureTimestamp)
    } else {
        resolve_from(chain, target, Search { height: 1, last_height: 1 }, MAX_PROBES as nat)
    }
}

/// A search result as the client reports it.
pub open spec fn reported(outcome: Result<u32, Violation>) -> Result<u32, ChainError> {
    match outcome {
        Ok(height) => Ok(height),
        Err(violation) => Err(ChainError::PreconditionViolated(violation)),
    }
}

/// Converts a timestamp in milliseconds to seconds, rounding toward zero.
pub fn seconds_of(millis: i64) -> (seconds: i64)
    ensures
        seconds == seconds_of_spec(millis),
{
    if millis >= 0 {
        millis / 1000
    } else {
        let magnitude: i128 = -(millis as i128);
        let whole: i128 = magnitude / 1000;
        (-whole) as i64
    }
}

/// Divides a difference of two timestamps by the nominal block time, rounding
/// toward zero.
fn blocks_in(time_delta: i128) -> (blocks: i128)
    requires
        -0x1_0000_0000_0000_0000 <= time_delta <= 0x1_0000_0000_0000_0000,
    ensures
        blocks == trunc_div(time_delta as int, BLOCK_TIME_SECONDS as int),
{
    if time_delta >= 0 {
        time_delta / 6
    } else {
        let magnitude: i128 = -time_delta;
        let whole: i128 = magnitude / 6;
        -whole
    }
}

/// Makes one move of the search.
pub fn step(s: Search, target: i64, answer: Probe) -> (m: Move)
    ensures
        m == step_spec(s, target, answer),
{
    match answer {
        Probe::Missing => {
            let sum: u64 = s.height as u64 + s.last_height as u64;
            Move::Look(Search { height: (sum / 2) as u32, last_height: s.last_height })
        },
        Probe::Block(millis) => {
            let time_delta: i128 = target as i128 - seconds_of(millis) as i128;
            let block_delta: i128 = blocks_in(time_delta);
            if block_delta == 0 {
                if time_delta < 0 {
                    Move::Found(s.height)
                } else if s.height == u32::MAX {
                    Move::Fail(Violation::HeightOutOfRange)
                } else {
                    Move::Found(s.height + 1)
                }
            } else {
                let next: i128 = s.height as i128 + block_delta;
                if next < 0 {
                    Move::Fail(Violation::NegativeHeight)
                } else if next > u32::MAX as i128 {
                    Move::Fail(Violation::HeightOutOfRange)
                } else {
                    Move::Look(Search { height: next as u32, last_height: s.height })
                }
            }
        },
    }
}

/// Whether the two lookups `hash_at` and `time_at` answer as a node that holds
/// `chain` does: every lookup succeeds, a height has a hash exactly when its
/// block exists, the block behind the hash of a height carries that height's
/// timestamp, and the latest block is the last of the chain.
pub open spec fn serves<H, FH, FT>(hash_at: &FH, time_at: &FT, chain: Seq<i64>) -> bool where
    H: Copy,
    FH: Fn(u32) -> Result<Option<H>, ChainError>,
    FT: Fn(Option<H>) -> Result<i64, ChainError>,
 {
    &&& chain.len() > 0
    &&& forall|height: u32, found: Result<Option<H>, ChainError>| #[trigger]
        hash_at.ensures((height,), found) ==> (found matches Ok(hash) && (hash is Some
            <==> height < chain.len()))
    &&& forall|height: u32, hash: H, time: Result<i64, ChainError>|
        (#[trigger] hash_at.ensures((height,), Ok(Some(hash)))) && (#[trigger] time_at.ensures(
            (Some(hash),),
            time,
        )) ==> height < chain.len() && time == Ok::<i64, ChainError>(chain[height as int])
    &&& forall|time: Result<i64, ChainError>| #[trigger]
        time_at.ensures((None,), time) ==> time == Ok::<i64, ChainError>(chain.last())
}

/// Finds the height just past the timestamp `ts`, in seconds since the epoch:
/// with `ts` between the blocks `x` and `x + 1`, the height `x + 1`.
///
/// `hash_at` looks up the hash of the block at a height, `time_at` the
/// timestamp in milliseconds of the block with a hash, or of the latest block.
/// Each lookup runs under the retry rule. On a node that holds a chain the
/// result is what the search rule yields on that chain. Whatever the lookups
/// answer, a height is returned only for a block that was looked up and on
/// which the search rule settles, and a failure that is no broken
/// precondition is one that a lookup gave.
pub fn height_at_timestamp<H, FH, FT>(hash_at: &FH, time_at: &FT, ts: i64) -> (r: Result<
    u32,
    ChainError,
>) where H: Copy, FH: Fn(u32) -> Result<Option<H>, ChainError>, FT: Fn(Option<H>) -> Result<i64, ChainError>
    requires
        forall|height: u32| hash_at.requires((height,)),
        forall|block: Option<H>| time_at.requires((block,)),
    ensures
        forall|chain: Seq<i64>| serves(hash_at, time_at, chain) ==> r == reported(resolve(chain, ts)),
        r matches Ok(found) ==> exists|s: Search, hash: H, millis: i64|
            (#[trigger] hash_at.ensures((s.height,), Ok(Some(hash)))) && (#[trigger] time_at.ensures(
                (Some(hash),),
                Ok(millis),
            )) && step_spec(s, ts, Probe::Block(millis)) == Move::Found(found),
        r matches Err(e) ==> e is PreconditionViolated || (exists|height: u32| #[trigger]
            hash_at.ensures((height,), Err(e))) || (exists|block: Option<H>| #[trigger]
            time_at.ensures((block,), Err(e))),
{
    let latest_lookup = || -> (time: Result<i64, ChainError>)
        ensures
            time_at.ensures((None,), time),
        { time_at(None) };
    let latest_ts = match retry(&latest_lookup, MAX_ATTEMPTS) {
        Ok(millis) => seconds_of(millis),
        Err(e) => {
            return Err(e);
        },
    };
    if latest_ts < ts {
        return Err(ChainError::PreconditionViolated(Violation::FutureTimestamp));
    }
    let mut search = Search { height: 1, last_height: 1 };
    let mut probes: u32 = 0;
    while probes < MAX_PROBES
        invariant
            probes <= MAX_PROBES,
            forall|height: u32| hash_at.requires((height,)),
            forall|block: Option<H>| time_at.requires((block,)),
            forall|chain: Seq<i64>| #[trigger]
                serves(hash_at, time_at, chain) ==> resolve(chain, ts) == resolve_from(
                    chain,
                    ts,
                    search,
                    (MAX_PROBES - probes) as nat,
                ),
        decreases MAX_PROBES - probes,
    {
        let height = search.height;
        let hash_lookup = || -> (found: Result<Option<H>, ChainError>)
            ensures
                hash_at.ensures((height,), found),
            { hash_at(height) };
        let answer = match retry(&hash_lookup, MAX_ATTEMPTS) {
            Err(e) => {
                return Err(e);
            },
            Ok(None) => Probe::Missing,
            Ok(Some(hash)) => {
                let time_lookup = || -> (time: Result<i64, ChainError>)
                    ensures
                        time_at.ensures((Some(hash),), time),
                    { time_at(Some(hash)) };
                match retry(&time_lookup, MAX_ATTEMPTS) {
                    Err(e) => {
                        return Err(e);
                    },
                    Ok(millis) => Probe::Block(millis),
                }
            },
        };
        assert forall|chain: Seq<i64>| #[trigger]
            serves(hash_at, time_at, chain) implies answer == probe_at(chain, height) by {}
        match step(search, ts, answer) {
            Move::Look(next) => {
                search = next;
            },
            Move::Found(found) => {
                return Ok(found);
            },
            Move::Fail(violation) => {
                return Err(ChainError::PreconditionViolated(violation));
            },
        }
        probes = probes + 1;
    }
    Err(ChainError::PreconditionViolated(Violation::DidNotConverge))
}

/// On a chain whose blocks from height 1 on are exactly one nominal block time
/// apart, the first at `t0` seconds, a search for a target `offset` seconds
/// (less than a block time) after the block at height `m + 1` yields the
/// height `m + 2`. For `m == 0` and `offset == 0` the target is the first
/// block's own timestamp, and the result is 2.
pub proof fn lemma_regular_chain(chain: Seq<i64>, t0: int, m: nat, offset: int, target: i64)
    requires
        2 <= chain.len() <= u32::MAX,
        forall|h: int| 1 <= h < chain.len() ==> seconds_of_spec(#[trigger] chain[h]) == t0 + 6 * (h - 1),
        0 <= offset < 6,
        target == t0 + 6 * m + offset,
        target <= seconds_of_spec(chain.last()),
    ensures
        resolve(chain, target) == Ok::<u32, Violation>((m + 2) as u32),
        m + 2 <= chain.len(),
{
    let start = Search { height: 1, last_height: 1 };
    assert(seconds_of_spec(chain[chain.len() - 1]) == t0 + 6 * (chain.len() - 2));
    assert(m + 2 <= chain.len());
    assert(seconds_of_spec(chain[1]) == t0);
    reveal_with_fuel(resolve_from, 3);
    if m > 0 {
        assert(seconds_of_spec(chain[1 + m as int]) == t0 + 6 * m);
        assert(step_spec(start, target, probe_at(chain, 1)) == Move::Look(
            Search { height: (1 + m) as u32, last_height: 1 },
        ));
    }
}

/// A target after the latest block of the chain is refused, whatever the chain
/// holds: the search never yields a height for it.
pub proof fn lemma_future_refused(chain: Seq<i64>, target: i64)
    requires
        chain.len() > 0,
        target > seconds_of_spec(chain.last()),
    ensures
        resolve(chain, target) == Err::<u32, Violation>(Violation::FutureTimestamp),
{
}

/// Whether the blocks around `height` bracket `target` within one nominal block
/// time: the block below `height` lies at most a block time before the target
/// or at it, or the block at `height` lies less than a block time after it.
pub open spec fn brackets(chain: Seq<i64>, target: i64, height: u32) -> bool {
    ||| (1 <= height <= chain.len() && 0 <= target - seconds_of_spec(chain[height - 1])
        < BLOCK_TIME_SECONDS)
    ||| (height < chain.len() && 0 < seconds_of_spec(chain[height as int]) - target
        < BLOCK_TIME_SECONDS)
}

/// Whatever the block times are, a height that the search settles on has a
/// block next to it within one nominal block time of the target.
pub proof fn lemma_found_brackets(chain: Seq<i64>, target: i64, s: Search, probes: nat)
    requires
        resolve_from(chain, target, s, probes) is Ok,
    ensures
        brackets(chain, target, resolve_from(chain, target, s, probes).unwrap()),
    decreases probes,
{
    if probes > 0 {
        match step_spec(s, target, probe_at(chain, s.height)) {
            Move::Look(next) => {
                lemma_found_brackets(chain, target, next, (probes - 1) as nat);
            },
            Move::Found(height) => {},
            Move::Fail(violation) => {},
        }
    }
}

/// Where the block at the height that the search settles on came at least one
/// nominal block time after the block below it, the two straddle the target:
/// the lower block lies at or before it, the block at the result after it.
pub proof fn lemma_found_straddles(chain: Seq<i64>, target: i64, s: Search, probes: nat)
    requires
        resolve_from(chain, target, s, probes) is Ok,
        ({
            let found = resolve_from(chain, target, s, probes).unwrap();
            &&& 1 <= found < chain.len()
            &&& seconds_of_spec(chain[found as int]) - seconds_of_spec(chain[found - 1])
                >= BLOCK_TIME_SECONDS
        }),
    ensures
        ({
            let found = resolve_from(chain, target, s, probes).unwrap();
            seconds_of_spec(chain[found - 1]) <= target < seconds_of_spec(chain[found as int])
        }),
{
    lemma_found_brackets(chain, target, s, probes);
}

} // verus!
