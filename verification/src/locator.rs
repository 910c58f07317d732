//! Binary search over the block-number axis for a target wall-clock time.
//!
//! The locator first asks for the latest block number, then probes block
//! snapshots at window midpoints. On a monotonic chain the answer is the
//! first block whose timestamp is at or after the target, clamped to the
//! latest block; an exact timestamp match returns its block immediately. A
//! transport failure mid-search degrades gracefully to the best bound
//! computed so far instead of failing.

use vstd::prelude::*;
use crate::pool::RpcService;
use crate::protocol::{
    AttemptOutcome, PayloadKind, RawBlock, RpcFailure, RpcParams, RpcPayload, RpcRequest,
    block_number_of, method_name,
};
use crate::transport::{BlockNumberCall, CallProgress, CallState};

verus! {

/// Where one locating operation stands.
pub enum LocatorPhase {
    /// Fetching the latest block number to bound the search.
    Latest(BlockNumberCall),
    /// Probing the midpoint of the active window `[low, high]`.
    Search { latest: u64, low: u64, high: u64, call: CallState },
    Finished(Result<u64, RpcFailure>),
}

/// One `find_block_by_timestamp` operation, driven attempt by attempt.
pub struct BlockLocator {
    pub target: u64,
    pub phase: LocatorPhase,
}

/// The probe index of an active window.
pub open spec fn mid_of(low: u64, high: u64) -> u64 {
    (low as int + (high as int - low as int) / 2) as u64
}

/// `v` clamped to at most `latest`.
pub open spec fn clamped(latest: u64, v: int) -> u64 {
    if v >= latest as int {
        latest
    } else {
        v as u64
    }
}

/// The timestamp a fetched block reports, defaulted to zero when absent.
pub open spec fn observed_ts(raw: RawBlock) -> u64 {
    match raw.timestamp {
        Some(t) => t,
        None => 0u64,
    }
}

/// The search transition on one observed probe timestamp: narrow the
/// window past the midpoint, or finish — with the midpoint on an exact
/// match, else with the final lower bound clamped to the chain.
pub open spec fn search_step(
    target: u64,
    latest: u64,
    low: u64,
    high: u64,
    ts: u64,
    budget: nat,
) -> LocatorPhase {
    let mid = mid_of(low, high) as int;
    if ts < target {
        if mid + 1 > high as int {
            LocatorPhase::Finished(Ok(clamped(latest, mid + 1)))
        } else {
            LocatorPhase::Search {
                latest,
                low: (mid + 1) as u64,
                high,
                call: CallState { attempts_left: budget as usize },
            }
        }
    } else if ts > target {
        if mid == 0 {
            LocatorPhase::Finished(Ok(low))
        } else if low as int > mid - 1 {
            LocatorPhase::Finished(Ok(clamped(latest, low as int)))
        } else {
            LocatorPhase::Search {
                latest,
                low,
                high: (mid - 1) as u64,
                call: CallState { attempts_left: budget as usize },
            }
        }
    } else {
        LocatorPhase::Finished(Ok(mid as u64))
    }
}

impl BlockLocator {
    pub open spec fn wf(&self) -> bool {
        match self.phase {
            LocatorPhase::Latest(c) => c.wf() && c.done is None,
            LocatorPhase::Search { latest, low, high, call } => low <= high && high <= latest
                && call.attempts_left > 0,
            LocatorPhase::Finished(_) => true,
        }
    }

    /// Begins locating the block for `target` by asking for the latest
    /// block number.
    pub fn start(svc: &RpcService, target: u64) -> (s: Self)
        requires
            svc.wf(),
        ensures
            s.wf(),
            s.target == target,
            (s.phase matches LocatorPhase::Latest(c) && c.done is None && c.call.attempts_left
                == svc.pool.urls@.len()),
    {
        BlockLocator { target, phase: LocatorPhase::Latest(BlockNumberCall::start(svc)) }
    }

    /// While unfinished: the URL to post to and a fresh envelope — a
    /// block-number query first, then one snapshot probe per window.
    pub fn next_request(&self, svc: &RpcService) -> (r: Option<(String, RpcRequest)>)
        requires
            svc.wf(),
            self.wf(),
        ensures
            match self.phase {
                LocatorPhase::Finished(_) => r is None,
                LocatorPhase::Latest(_) => (r matches Some(p) && p.0@ == svc.pool.current_url()
                    && p.1.jsonrpc@ == "2.0"@ && p.1.id == 1 && p.1.method@ == method_name(
                    RpcParams::BlockNumber,
                ) && p.1.params is BlockNumber),
                LocatorPhase::Search { low, high, .. } => (r matches Some(p) && p.0@
                    == svc.pool.current_url() && p.1.jsonrpc@ == "2.0"@ && p.1.id == 1
                    && p.1.method@ == method_name(p.1.params) && p.1.params
                    == RpcParams::GetBlockWithTxs { block_number: mid_of(low, high) }),
            },
    {
        match &self.phase {
            LocatorPhase::Finished(_) => None,
            LocatorPhase::Latest(c) => c.next_request(svc),
            LocatorPhase::Search { low, high, .. } => {
                let mid = *low + (*high - *low) / 2;
                let url = svc.pool.current().clone();
                Some((url, RpcRequest::make(RpcParams::GetBlockWithTxs { block_number: mid })))
            },
        }
    }

    /// Absorbs one attempt. While fetching the latest block number the
    /// transport behaves as for `BlockNumberCall`; a parsed latest opens
    /// the window `[0, latest]` and a failure there fails the locate.
    /// During the search, a delivered snapshot advances by `search_step`,
    /// and an exhausted probe degrades to the clamped lower bound.
    pub fn feed(self, svc: &mut RpcService, outcome: AttemptOutcome) -> (s: Self)
        requires
            old(svc).wf(),
            self.wf(),
            !(self.phase is Finished),
        ensures
            final(svc).wf(),
            final(svc).pool.urls == old(svc).pool.urls,
            s.wf(),
            s.target == self.target,
            match self.phase {
                LocatorPhase::Latest(c) => match outcome {
                    AttemptOutcome::Payload(pl) => match pl {
                        RpcPayload::BlockNumber(v) => {
                            &&& final(svc).pool.cursor == old(svc).pool.cursor
                            &&& match block_number_of(v) {
                                Ok(latest) => s.phase matches LocatorPhase::Search {
                                    latest: l2,
                                    low,
                                    high,
                                    call,
                                } && l2 == latest && low == 0 && high == latest
                                    && call.attempts_left == old(svc).pool.urls@.len(),
                                Err(e) => s.phase == LocatorPhase::Finished(
                                    Err::<u64, RpcFailure>(e),
                                ),
                            }
                        },
                        _ => {
                            &&& final(svc).pool.cursor == old(svc).pool.cursor
                            &&& if c.call.attempts_left > 1 {
                                s.phase matches LocatorPhase::Latest(c2) && c2.done is None
                                    && c2.call.attempts_left == c.call.attempts_left - 1
                            } else {
                                s.phase == LocatorPhase::Finished(
                                    Err::<u64, RpcFailure>(RpcFailure::AllEndpointsFailed),
                                )
                            }
                        },
                    },
                    AttemptOutcome::NetworkFailure => {
                        &&& final(svc).pool.cursor == (old(svc).pool.cursor + 1) % (
                        old(svc).pool.urls@.len() as int)
                        &&& if c.call.attempts_left > 1 {
                            s.phase matches LocatorPhase::Latest(c2) && c2.done is None
                                && c2.call.attempts_left == c.call.attempts_left - 1
                        } else {
                            s.phase == LocatorPhase::Finished(
                                Err::<u64, RpcFailure>(RpcFailure::AllEndpointsFailed),
                            )
                        }
                    },
                    AttemptOutcome::NoResult(_) => {
                        &&& final(svc).pool.cursor == old(svc).pool.cursor
                        &&& if c.call.attempts_left > 1 {
                            s.phase matches LocatorPhase::Latest(c2) && c2.done is None
                                && c2.call.attempts_left == c.call.attempts_left - 1
                        } else {
                            s.phase == LocatorPhase::Finished(
                                Err::<u64, RpcFailure>(RpcFailure::AllEndpointsFailed),
                            )
                        }
                    },
                },
                LocatorPhase::Search { latest, low, high, call } => match outcome {
                    AttemptOutcome::Payload(pl) => match pl {
                        RpcPayload::Block(raw) => {
                            &&& final(svc).pool.cursor == old(svc).pool.cursor
                            &&& s.phase == search_step(
                                self.target,
                                latest,
                                low,
                                high,
                                observed_ts(raw),
                                old(svc).pool.urls@.len(),
                            )
                        },
                        _ => {
                            &&& final(svc).pool.cursor == old(svc).pool.cursor
                            &&& if call.attempts_left > 1 {
                                s.phase == LocatorPhase::Search {
                                    latest,
                                    low,
                                    high,
                                    call: CallState {
                                        attempts_left: (call.attempts_left - 1) as usize,
                                    },
                                }
                            } else {
                                s.phase == LocatorPhase::Finished(
                                    Ok::<u64, RpcFailure>(clamped(latest, low as int)),
                                )
                            }
                        },
                    },
                    AttemptOutcome::NetworkFailure => {
                        &&& final(svc).pool.cursor == (old(svc).pool.cursor + 1) % (
                        old(svc).pool.urls@.len() as int)
                        &&& if call.attempts_left > 1 {
                            s.phase == LocatorPhase::Search {
                                latest,
                                low,
                                high,
                                call: CallState {
                                    attempts_left: (call.attempts_left - 1) as usize,
                                },
                            }
                        } else {
                            s.phase == LocatorPhase::Finished(
                                Ok::<u64, RpcFailure>(clamped(latest, low as int)),
                            )
                        }
                    },
                    AttemptOutcome::NoResult(_) => {
                        &&& final(svc).pool.cursor == old(svc).pool.cursor
                        &&& if call.attempts_left > 1 {
                            s.phase == LocatorPhase::Search {
                                latest,
                                low,
                                high,
                                call: CallState {
                                    attempts_left: (call.attempts_left - 1) as usize,
                                },
                            }
                        } else {
                            s.phase == LocatorPhase::Finished(
                                Ok::<u64, RpcFailure>(clamped(latest, low as int)),
                            )
                        }
                    },
                },
                LocatorPhase::Finished(_) => false,
            },
    {
        let target = self.target;
        match self.phase {
            LocatorPhase::Latest(c) => {
                let c2 = c.feed(svc, outcome);
                match c2.done {
                    None => BlockLocator { target, phase: LocatorPhase::Latest(c2) },
                    Some(res) => match res {
                        Ok(latest) => BlockLocator {
                            target,
                            phase: LocatorPhase::Search {
                                latest,
                                low: 0,
                                high: latest,
                                call: CallState::begin(svc),
                            },
                        },
                        Err(e) => BlockLocator { target, phase: LocatorPhase::Finished(Err(e)) },
                    },
                }
            },
            LocatorPhase::Search { latest, low, high, call } => {
                let (call2, prog) = call.absorb(svc, outcome, PayloadKind::Block);
                match prog {
                    CallProgress::Retry => BlockLocator {
                        target,
                        phase: LocatorPhase::Search { latest, low, high, call: call2 },
                    },
                    CallProgress::Exhausted => {
                        let r = if low >= latest {
                            latest
                        } else {
                            low
                        };
                        BlockLocator { target, phase: LocatorPhase::Finished(Ok(r)) }
                    },
                    CallProgress::Delivered(pl) => match pl {
                        RpcPayload::Block(raw) => {
                            let ts = match raw.timestamp {
                                Some(t) => t,
                                None => 0,
                            };
                            let mid = low + (high - low) / 2;
                            let budget = svc.pool.len();
                            let phase = if ts < target {
                                if mid == high {
                                    let r = if mid >= latest {
                                        latest
                                    } else {
                                        mid + 1
                                    };
                                    LocatorPhase::Finished(Ok(r))
                                } else {
                                    LocatorPhase::Search {
                                        latest,
                                        low: mid + 1,
                                        high,
                                        call: CallState { attempts_left: budget },
                                    }
                                }
                            } else if ts > target {
                                if mid == 0 {
                                    LocatorPhase::Finished(Ok(low))
                                } else if low > mid - 1 {
                                    let r = if low >= latest {
                                        latest
                                    } else {
                                        low
                                    };
                                    LocatorPhase::Finished(Ok(r))
                                } else {
                                    LocatorPhase::Search {
                                        latest,
                                        low,
                                        high: mid - 1,
                                        call: CallState { attempts_left: budget },
                                    }
                                }
                            } else {
                                LocatorPhase::Finished(Ok(mid))
                            };
                            BlockLocator { target, phase }
                        },
                        _ => {
                            proof {
                                assert(false);
                            }
                            BlockLocator { target, phase: LocatorPhase::Finished(Ok(low)) }
                        },
                    },
                }
            },
            LocatorPhase::Finished(res) => BlockLocator {
                target,
                phase: LocatorPhase::Finished(res),
            },
        }
    }

    /// The located block number, once finished.
    pub fn result(&self) -> (r: Option<Result<u64, RpcFailure>>)
        ensures
            match self.phase {
                LocatorPhase::Finished(res) => r == Some(res),
                _ => r is None,
            },
    {
        match &self.phase {
            LocatorPhase::Finished(res) => Some(*res),
            _ => None,
        }
    }
}

/// What an active locator asks for next: the latest block number while
/// bounding the search, then the midpoint probe of its window.
pub open spec fn locator_probe(loc: BlockLocator, params: RpcParams) -> bool {
    match loc.phase {
        LocatorPhase::Latest(_) => params is BlockNumber,
        LocatorPhase::Search { low, high, .. } => params == RpcParams::GetBlockWithTxs {
            block_number: mid_of(low, high),
        },
        LocatorPhase::Finished(_) => true,
    }
}

/// Whether feeding this outcome finishes the locate, and with what: the
/// locator's transition distilled to its verdict. Mirrors `feed` exactly,
/// so a session embedding a locator can state its own contract over it.
pub open spec fn locator_verdict(loc: BlockLocator, outcome: AttemptOutcome, budget: nat) -> Option<
    Result<u64, RpcFailure>,
> {
    match loc.phase {
        LocatorPhase::Latest(c) => match outcome {
            AttemptOutcome::Payload(pl) => match pl {
                RpcPayload::BlockNumber(v) => match block_number_of(v) {
                    Ok(_) => None,
                    Err(e) => Some(Err(e)),
                },
                _ => if c.call.attempts_left > 1 {
                    None
                } else {
                    Some(Err(RpcFailure::AllEndpointsFailed))
                },
            },
            _ => if c.call.attempts_left > 1 {
                None
            } else {
                Some(Err(RpcFailure::AllEndpointsFailed))
            },
        },
        LocatorPhase::Search { latest, low, high, call } => match outcome {
            AttemptOutcome::Payload(pl) => match pl {
                RpcPayload::Block(raw) => match search_step(
                    loc.target,
                    latest,
                    low,
                    high,
                    observed_ts(raw),
                    budget,
                ) {
                    LocatorPhase::Finished(res) => Some(res),
                    _ => None,
                },
                _ => if call.attempts_left > 1 {
                    None
                } else {
                    Some(Ok(clamped(latest, low as int)))
                },
            },
            _ => if call.attempts_left > 1 {
                None
            } else {
                Some(Ok(clamped(latest, low as int)))
            },
        },
        LocatorPhase::Finished(res) => Some(res),
    }
}

/// Chain model for the locator laws: block `i`'s timestamp is `chain[i]`.
pub open spec fn strictly_increasing(chain: Seq<u64>) -> bool {
    forall|i: int, j: int| 0 <= i < j < chain.len() ==> chain[i] < chain[j]
}

/// The search invariant: every block below the window is before the
/// target, every block above it is after the target.
pub open spec fn search_inv(
    chain: Seq<u64>,
    target: u64,
    latest: u64,
    low: u64,
    high: u64,
) -> bool {
    &&& chain.len() == latest as int + 1
    &&& low as int <= high as int + 1
    &&& high <= latest
    &&& forall|i: int| 0 <= i < low as int ==> chain[i] < target
    &&& forall|i: int| (high as int) < i <= (latest as int) ==> chain[i] > target
}

/// The answer characterisation: `r` is the first block whose timestamp is
/// at or after the target, clamped to the latest block.
pub open spec fn locator_answer(chain: Seq<u64>, target: u64, latest: u64, r: u64) -> bool {
    &&& r <= latest
    &&& forall|i: int| 0 <= i < r as int ==> chain[i] < target
    &&& (r as int) < latest as int ==> chain[r as int] >= target
}

/// Locator correctness, establishment: the initial window `[0, latest]`
/// satisfies the search invariant.
pub proof fn lemma_search_init(chain: Seq<u64>, target: u64, latest: u64)
    requires
        chain.len() == latest as int + 1,
    ensures
        search_inv(chain, target, latest, 0, latest),
{
}

/// Locator correctness, preservation: on a strictly increasing chain,
/// feeding the probe's true timestamp either keeps the invariant on a
/// strictly smaller window or finishes with the characterised answer.
pub proof fn lemma_search_step(
    chain: Seq<u64>,
    target: u64,
    latest: u64,
    low: u64,
    high: u64,
    budget: nat,
)
    requires
        strictly_increasing(chain),
        search_inv(chain, target, latest, low, high),
        low <= high,
    ensures
        match search_step(target, latest, low, high, chain[mid_of(low, high) as int], budget) {
            LocatorPhase::Search { latest: l2, low: low2, high: high2, .. } => {
                &&& l2 == latest
                &&& low2 <= high2
                &&& search_inv(chain, target, latest, low2, high2)
                &&& (high2 as int - low2 as int) < (high as int - low as int)
            },
            LocatorPhase::Finished(res) => (res matches Ok(r) && locator_answer(
                chain,
                target,
                latest,
                r,
            )),
            _ => false,
        },
{
    let mid = mid_of(low, high) as int;
    let ts = chain[mid];
    assert(low as int <= mid <= high as int);
    if ts < target {
        assert forall|i: int| 0 <= i <= mid implies chain[i] < target by {
            if i < mid {
                assert(chain[i] < chain[mid]);
            }
        }
    } else if ts > target {
        assert forall|i: int| mid <= i <= latest as int implies chain[i] > target by {
            if mid < i {
                assert(chain[mid] < chain[i]);
            }
        }
    } else {
        assert forall|i: int| 0 <= i < mid implies chain[i] < target by {
            assert(chain[i] < chain[mid]);
        }
    }
}

/// The verdict of running the search to completion from the window
/// `[low, high]`, feeding every probe its true timestamp from the chain.
pub open spec fn search_run(
    chain: Seq<u64>,
    target: u64,
    latest: u64,
    low: u64,
    high: u64,
    budget: nat,
) -> Result<u64, RpcFailure>
    decreases high as int - low as int,
    when low <= high
{
    match search_step(target, latest, low, high, chain[mid_of(low, high) as int], budget) {
        LocatorPhase::Search { latest: l2, low: low2, high: high2, .. } => search_run(
            chain,
            target,
            latest,
            low2,
            high2,
            budget,
        ),
        LocatorPhase::Finished(res) => res,
        // search_step never yields this shape
        LocatorPhase::Latest(_) => Err(RpcFailure::AllEndpointsFailed),
    }
}

/// Locator correctness, any window: on a strictly increasing chain, the
/// search run from a window satisfying the invariant answers with the
/// first block whose timestamp is at or after the target, clamped to the
/// latest block.
pub proof fn lemma_search_run_correct(
    chain: Seq<u64>,
    target: u64,
    latest: u64,
    low: u64,
    high: u64,
    budget: nat,
)
    requires
        strictly_increasing(chain),
        search_inv(chain, target, latest, low, high),
        low <= high,
    ensures
        search_run(chain, target, latest, low, high, budget) matches Ok(r) && locator_answer(
            chain,
            target,
            latest,
            r,
        ),
    decreases high as int - low as int,
{
    lemma_search_step(chain, target, latest, low, high, budget);
    match search_step(target, latest, low, high, chain[mid_of(low, high) as int], budget) {
        LocatorPhase::Search { latest: l2, low: low2, high: high2, .. } => {
            lemma_search_run_correct(chain, target, latest, low2, high2, budget);
        },
        LocatorPhase::Finished(res) => {},
        LocatorPhase::Latest(_) => {},
    }
}

/// Locator correctness, end to end: the full search over `[0, latest]`
/// answers with the first block whose timestamp is at or after the
/// target, clamped to the latest block.
pub proof fn lemma_find_block_correct(chain: Seq<u64>, target: u64, latest: u64, budget: nat)
    requires
        strictly_increasing(chain),
        chain.len() == latest as int + 1,
    ensures
        search_run(chain, target, latest, 0, latest, budget) matches Ok(r) && locator_answer(
            chain,
            target,
            latest,
            r,
        ),
{
    lemma_search_init(chain, target, latest);
    lemma_search_run_correct(chain, target, latest, 0, latest, budget);
}

/// Locator correctness, exact hit: on a strictly increasing chain a target
/// that equals block `b`'s timestamp is answered by `b` itself.
pub proof fn lemma_answer_exact_match(
    chain: Seq<u64>,
    target: u64,
    latest: u64,
    r: u64,
    b: int,
)
    requires
        strictly_increasing(chain),
        chain.len() == latest as int + 1,
        locator_answer(chain, target, latest, r),
        0 <= b <= latest as int,
        chain[b] == target,
    ensures
        r as int == b,
{
    if (r as int) < b {
        assert(chain[r as int] < chain[b]);
    }
    if (r as int) > b {
        assert(chain[b] < target);
    }
}

/// Locator correctness, left edge: a target at or before the genesis
/// timestamp is answered by block zero.
pub proof fn lemma_answer_below_genesis(chain: Seq<u64>, target: u64, latest: u64, r: u64)
    requires
        chain.len() == latest as int + 1,
        locator_answer(chain, target, latest, r),
        chain[0] >= target,
    ensures
        r == 0,
{
    if r > 0 {
        assert(chain[0] < target);
    }
}

/// Locator correctness, right edge: a target after the latest block's
/// timestamp is answered by the latest block.
pub proof fn lemma_answer_above_latest(chain: Seq<u64>, target: u64, latest: u64, r: u64)
    requires
        strictly_increasing(chain),
        chain.len() == latest as int + 1,
        locator_answer(chain, target, latest, r),
        chain[latest as int] < target,
    ensures
        r == latest,
{
    if r < latest {
        assert(chain[r as int] < chain[latest as int]);
    }
}

} // verus!
