//! Transport-level failover: one logical call retried across the pool.
//!
//! A logical call has a budget of one attempt per pooled endpoint. A
//! network-level failure rotates the cursor and spends an attempt; a
//! response without a usable result spends an attempt against the same
//! endpoint without rotating — the endpoint itself answered, only its
//! reply was unusable; a usable payload ends the call immediately. An exhausted budget means every endpoint
//! failed.

use vstd::prelude::*;
use crate::pool::RpcService;
use crate::protocol::{
    AttemptOutcome, BlockInfo, PayloadKind, RawBlock, RpcFailure, RpcParams, RpcPayload,
    RpcRequest, block_number_of, interpret_block, kind_of, method_name, parse_block_number,
};

verus! {

/// Remaining attempt budget of one logical call.
pub struct CallState {
    pub attempts_left: usize,
}

/// What absorbing one attempt did to a logical call.
pub enum CallProgress {
    /// The attempt failed; budget remains for another.
    Retry,
    /// The attempt failed and the budget is spent.
    Exhausted,
    /// A usable payload of the expected shape arrived.
    Delivered(RpcPayload),
}

/// A missing block number after interpretation falls back to the requested
/// one, a missing timestamp to zero; transactions are kept unchanged.
pub open spec fn interpreted_block(requested: u64, raw: RawBlock, b: BlockInfo) -> bool {
    &&& b.block_number == (match raw.block_number {
        Some(n) => n,
        None => requested,
    })
    &&& b.timestamp == (match raw.timestamp {
        Some(t) => t,
        None => 0u64,
    })
    &&& b.transactions == raw.transactions
}

impl CallState {
    pub fn begin(svc: &RpcService) -> (c: Self)
        ensures
            c.attempts_left == svc.pool.urls@.len(),
    {
        CallState { attempts_left: svc.pool.len() }
    }

    /// Absorbs one attempt's outcome: rotates on network failure, burns an
    /// attempt without rotating on an unusable response, and delivers a
    /// payload of the expected shape untouched.
    pub fn absorb(self, svc: &mut RpcService, outcome: AttemptOutcome, expect: PayloadKind) -> (r:
        (Self, CallProgress))
        requires
            old(svc).wf(),
            self.attempts_left > 0,
        ensures
            final(svc).wf(),
            final(svc).pool.urls == old(svc).pool.urls,
            (r.1 matches CallProgress::Delivered(q) ==> kind_of(q) == expect
                && outcome == AttemptOutcome::Payload(q)
                && final(svc).pool.cursor == old(svc).pool.cursor && r.0 == self),
            match outcome {
                AttemptOutcome::NetworkFailure => {
                    &&& final(svc).pool.cursor == (old(svc).pool.cursor + 1)
                        % (old(svc).pool.urls@.len() as int)
                    &&& r.0.attempts_left == self.attempts_left - 1
                    &&& if self.attempts_left > 1 {
                        r.1 is Retry
                    } else {
                        r.1 is Exhausted
                    }
                },
                AttemptOutcome::NoResult(_) => {
                    &&& final(svc).pool.cursor == old(svc).pool.cursor
                    &&& r.0.attempts_left == self.attempts_left - 1
                    &&& if self.attempts_left > 1 {
                        r.1 is Retry
                    } else {
                        r.1 is Exhausted
                    }
                },
                AttemptOutcome::Payload(pl) => {
                    if kind_of(pl) == expect {
                        r.1 matches CallProgress::Delivered(q) && q == pl
                    } else {
                        &&& final(svc).pool.cursor == old(svc).pool.cursor
                        &&& r.0.attempts_left == self.attempts_left - 1
                        &&& if self.attempts_left > 1 {
                            r.1 is Retry
                        } else {
                            r.1 is Exhausted
                        }
                    }
                },
            },
    {
        match outcome {
            AttemptOutcome::NetworkFailure => {
                svc.pool.advance();
                let a = self.attempts_left - 1;
                let prog = if a > 0 {
                    CallProgress::Retry
                } else {
                    CallProgress::Exhausted
                };
                (CallState { attempts_left: a }, prog)
            },
            AttemptOutcome::NoResult(_) => {
                let a = self.attempts_left - 1;
                let prog = if a > 0 {
                    CallProgress::Retry
                } else {
                    CallProgress::Exhausted
                };
                (CallState { attempts_left: a }, prog)
            },
            AttemptOutcome::Payload(pl) => {
                let matches_kind = match (&pl, expect) {
                    (RpcPayload::BlockNumber(_), PayloadKind::BlockNumber) => true,
                    (RpcPayload::Block(_), PayloadKind::Block) => true,
                    (RpcPayload::Events(_), PayloadKind::Events) => true,
                    _ => false,
                };
                if matches_kind {
                    (self, CallProgress::Delivered(pl))
                } else {
                    let a = self.attempts_left - 1;
                    let prog = if a > 0 {
                        CallProgress::Retry
                    } else {
                        CallProgress::Exhausted
                    };
                    (CallState { attempts_left: a }, prog)
                }
            },
        }
    }
}

/// One `starknet_blockNumber` operation, driven attempt by attempt.
pub struct BlockNumberCall {
    pub call: CallState,
    pub done: Option<Result<u64, RpcFailure>>,
}

impl BlockNumberCall {
    pub open spec fn wf(&self) -> bool {
        self.done is None ==> self.call.attempts_left > 0
    }

    pub fn start(svc: &RpcService) -> (s: Self)
        requires
            svc.wf(),
        ensures
            s.wf(),
            s.done is None,
            s.call.attempts_left == svc.pool.urls@.len(),
    {
        BlockNumberCall { call: CallState::begin(svc), done: None }
    }

    /// While unfinished: the URL to post to and a fresh envelope.
    pub fn next_request(&self, svc: &RpcService) -> (r: Option<(String, RpcRequest)>)
        requires
            svc.wf(),
        ensures
            match self.done {
                Some(_) => r is None,
                None => (r matches Some(p) && p.0@ == svc.pool.current_url() && p.1.jsonrpc@
                    == "2.0"@ && p.1.id == 1 && p.1.method@ == method_name(RpcParams::BlockNumber)
                    && p.1.params is BlockNumber),
            },
    {
        match self.done {
            Some(_) => None,
            None => {
                let url = svc.pool.current().clone();
                Some((url, RpcRequest::make(RpcParams::BlockNumber)))
            },
        }
    }

    /// Absorbs one attempt: a delivered payload finishes with the parsed
    /// block number, an exhausted budget with `AllEndpointsFailed`.
    pub fn feed(self, svc: &mut RpcService, outcome: AttemptOutcome) -> (s: Self)
        requires
            old(svc).wf(),
            self.wf(),
            self.done is None,
        ensures
            final(svc).wf(),
            final(svc).pool.urls == old(svc).pool.urls,
            s.wf(),
            match outcome {
                AttemptOutcome::NetworkFailure => {
                    &&& final(svc).pool.cursor == (old(svc).pool.cursor + 1)
                        % (old(svc).pool.urls@.len() as int)
                    &&& if self.call.attempts_left > 1 {
                        s.done is None && s.call.attempts_left == self.call.attempts_left - 1
                    } else {
                        s.done == Some(Err::<u64, RpcFailure>(RpcFailure::AllEndpointsFailed))
                    }
                },
                AttemptOutcome::NoResult(_) => {
                    &&& final(svc).pool.cursor == old(svc).pool.cursor
                    &&& if self.call.attempts_left > 1 {
                        s.done is None && s.call.attempts_left == self.call.attempts_left - 1
                    } else {
                        s.done == Some(Err::<u64, RpcFailure>(RpcFailure::AllEndpointsFailed))
                    }
                },
                AttemptOutcome::Payload(pl) => match pl {
                    RpcPayload::BlockNumber(v) => {
                        &&& final(svc).pool.cursor == old(svc).pool.cursor
                        &&& s.done == Some(block_number_of(v))
                    },
                    _ => {
                        &&& final(svc).pool.cursor == old(svc).pool.cursor
                        &&& if self.call.attempts_left > 1 {
                            s.done is None && s.call.attempts_left == self.call.attempts_left - 1
                        } else {
                            s.done == Some(Err::<u64, RpcFailure>(RpcFailure::AllEndpointsFailed))
                        }
                    },
                },
            },
    {
        let (call, prog) = self.call.absorb(svc, outcome, PayloadKind::BlockNumber);
        match prog {
            CallProgress::Retry => BlockNumberCall { call, done: None },
            CallProgress::Exhausted => BlockNumberCall {
                call,
                done: Some(Err(RpcFailure::AllEndpointsFailed)),
            },
            CallProgress::Delivered(pl) => match pl {
                RpcPayload::BlockNumber(v) => BlockNumberCall {
                    call,
                    done: Some(parse_block_number(&v)),
                },
                _ => {
                    proof {
                        assert(false);
                    }
                    BlockNumberCall { call, done: None }
                },
            },
        }
    }
}

impl BlockNumberCall {
    /// The parsed block number, once finished.
    pub fn into_result(self) -> (r: Option<Result<u64, RpcFailure>>)
        ensures
            r == self.done,
    {
        self.done
    }
}

/// One `starknet_getBlockWithTxs` operation for a fixed block number.
pub struct BlockFetchCall {
    pub block_number: u64,
    pub call: CallState,
    pub done: Option<Result<BlockInfo, RpcFailure>>,
}

impl BlockFetchCall {
    pub open spec fn wf(&self) -> bool {
        self.done is None ==> self.call.attempts_left > 0
    }

    pub fn start(svc: &RpcService, block_number: u64) -> (s: Self)
        requires
            svc.wf(),
        ensures
            s.wf(),
            s.done is None,
            s.block_number == block_number,
            s.call.attempts_left == svc.pool.urls@.len(),
    {
        BlockFetchCall { block_number, call: CallState::begin(svc), done: None }
    }

    /// While unfinished: the URL to post to and a fresh envelope.
    pub fn next_request(&self, svc: &RpcService) -> (r: Option<(String, RpcRequest)>)
        requires
            svc.wf(),
        ensures
            match self.done {
                Some(_) => r is None,
                None => (r matches Some(p) && p.0@ == svc.pool.current_url() && p.1.jsonrpc@
                    == "2.0"@ && p.1.id == 1 && p.1.method@ == method_name(p.1.params)
                    && p.1.params == RpcParams::GetBlockWithTxs {
                    block_number: self.block_number,
                }),
            },
    {
        match self.done {
            Some(_) => None,
            None => {
                let url = svc.pool.current().clone();
                Some(
                    (
                        url,
                        RpcRequest::make(
                            RpcParams::GetBlockWithTxs { block_number: self.block_number },
                        ),
                    ),
                )
            },
        }
    }

    /// Absorbs one attempt: a delivered block finishes with its interpreted
    /// snapshot, an exhausted budget with `AllEndpointsFailed`.
    pub fn feed(self, svc: &mut RpcService, outcome: AttemptOutcome) -> (s: Self)
        requires
            old(svc).wf(),
            self.wf(),
            self.done is None,
        ensures
            final(svc).wf(),
            final(svc).pool.urls == old(svc).pool.urls,
            s.wf(),
            s.block_number == self.block_number,
            match outcome {
                AttemptOutcome::NetworkFailure => {
                    &&& final(svc).pool.cursor == (old(svc).pool.cursor + 1)
                        % (old(svc).pool.urls@.len() as int)
                    &&& if self.call.attempts_left > 1 {
                        s.done is None && s.call.attempts_left == self.call.attempts_left - 1
                    } else {
                        s.done == Some(
                            Err::<BlockInfo, RpcFailure>(RpcFailure::AllEndpointsFailed),
                        )
                    }
                },
                AttemptOutcome::NoResult(_) => {
                    &&& final(svc).pool.cursor == old(svc).pool.cursor
                    &&& if self.call.attempts_left > 1 {
                        s.done is None && s.call.attempts_left == self.call.attempts_left - 1
                    } else {
                        s.done == Some(
                            Err::<BlockInfo, RpcFailure>(RpcFailure::AllEndpointsFailed),
                        )
                    }
                },
                AttemptOutcome::Payload(pl) => match pl {
                    RpcPayload::Block(raw) => {
                        &&& final(svc).pool.cursor == old(svc).pool.cursor
                        &&& (s.done matches Some(res) && res matches Ok(b) && interpreted_block(
                            self.block_number,
                            raw,
                            b,
                        ))
                    },
                    _ => {
                        &&& final(svc).pool.cursor == old(svc).pool.cursor
                        &&& if self.call.attempts_left > 1 {
                            s.done is None && s.call.attempts_left == self.call.attempts_left - 1
                        } else {
                            s.done == Some(
                                Err::<BlockInfo, RpcFailure>(RpcFailure::AllEndpointsFailed),
                            )
                        }
                    },
                },
            },
    {
        let (call, prog) = self.call.absorb(svc, outcome, PayloadKind::Block);
        let block_number = self.block_number;
        match prog {
            CallProgress::Retry => BlockFetchCall { block_number, call, done: None },
            CallProgress::Exhausted => BlockFetchCall {
                block_number,
                call,
                done: Some(Err(RpcFailure::AllEndpointsFailed)),
            },
            CallProgress::Delivered(pl) => match pl {
                RpcPayload::Block(raw) => BlockFetchCall {
                    block_number,
                    call,
                    done: Some(Ok(interpret_block(block_number, raw))),
                },
                _ => {
                    proof {
                        assert(false);
                    }
                    BlockFetchCall { block_number, call, done: None }
                },
            },
        }
    }
}

impl BlockFetchCall {
    /// The interpreted block, once finished.
    pub fn into_result(self) -> (r: Option<Result<BlockInfo, RpcFailure>>)
        ensures
            r == self.done,
    {
        self.done
    }
}

} // verus!
