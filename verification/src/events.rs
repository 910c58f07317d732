//! Event pagination, decoding, and timestamp interpolation.
//!
//! Pages of raw events are accumulated by carrying the provider's
//! continuation token until it is omitted or a hard page cap is reached.
//! Decoding happens as pages arrive; timestamps are then estimated for all
//! events with exactly two extra block fetches — the window ends — instead
//! of one fetch per event.

use vstd::prelude::*;
use vstd::string::*;
use crate::decoder::{
    DecodedData, decode_event, decoded_data_corresponds, decoded_name, strings_view,
};
use crate::interp::{estimate_timestamp, estimated_timestamp};
use crate::locator::observed_ts;
use crate::pool::RpcService;
use crate::protocol::{
    AttemptOutcome, CHUNK_SIZE, EventFilter, PayloadKind, RawEvent, RpcFailure, RpcParams,
    RpcPayload, RpcRequest, method_name,
};
use crate::timefmt::{format_rfc3339_utc, rfc3339_of};
use crate::transport::{CallProgress, CallState};

verus! {

/// Hard cap on pages fetched by one query: the safety valve against a
/// provider that returns continuation tokens forever.
pub const MAX_PAGES: u64 = 100;

/// A raw event with its decoded name and fields, awaiting timestamps.
pub struct PendingEvent {
    pub block_number: u64,
    pub transaction_hash: String,
    pub keys: Vec<String>,
    pub data: Vec<String>,
    pub event_name: String,
    pub decoded_data: DecodedData,
}

/// A fully decoded event with its estimated timestamp, raw and rendered.
pub struct EventData {
    pub block_number: u64,
    pub transaction_hash: String,
    pub keys: Vec<String>,
    pub data: Vec<String>,
    pub event_name: String,
    pub decoded_data: DecodedData,
    pub timestamp: String,
    pub timestamp_raw: u64,
}

/// View of an optional token as an optional character sequence.
pub open spec fn opt_view(o: Option<String>) -> Option<Seq<char>> {
    match o {
        Some(s) => Some(s@),
        None => None,
    }
}

/// The pending record produced from one raw event: number and hash
/// defaulted, keys and data kept, name and fields decoded.
pub open spec fn pending_corresponds(p: PendingEvent, e: RawEvent) -> bool {
    &&& p.block_number == (match e.block_number {
        Some(n) => n,
        None => 0u64,
    })
    &&& p.transaction_hash@ == (match e.transaction_hash {
        Some(h) => h@,
        None => Seq::<char>::empty(),
    })
    &&& p.keys == e.keys
    &&& p.data == e.data
    &&& p.event_name@ == decoded_name(strings_view(e.keys@), strings_view(e.data@))
    &&& decoded_data_corresponds(p.decoded_data, strings_view(e.keys@), strings_view(e.data@))
}

/// `c2` extends `c1` by the pending records of `evs`, in order.
pub open spec fn accumulated(c2: Seq<PendingEvent>, c1: Seq<PendingEvent>, evs: Seq<RawEvent>) -> bool {
    &&& c2.len() == c1.len() + evs.len()
    &&& forall|j: int| 0 <= j < c1.len() ==> c2[j] == c1[j]
    &&& forall|j: int| 0 <= j < evs.len() ==> pending_corresponds(
        #[trigger] c2[c1.len() + j],
        evs[j],
    )
}

/// The final record produced from a pending one once the window
/// timestamps are known.
pub open spec fn event_corresponds(
    ev: EventData,
    p: PendingEvent,
    from_block: u64,
    to_block: u64,
    from_ts: u64,
    to_ts: u64,
) -> bool {
    &&& ev.block_number == p.block_number
    &&& ev.transaction_hash == p.transaction_hash
    &&& ev.keys == p.keys
    &&& ev.data == p.data
    &&& ev.event_name == p.event_name
    &&& ev.decoded_data == p.decoded_data
    &&& ev.timestamp_raw == estimated_timestamp(from_block, to_block, from_ts, to_ts, p.block_number)
    &&& ev.timestamp@ == rfc3339_of(ev.timestamp_raw)
}

/// Where one events query stands.
pub enum EventsPhase {
    /// Accumulating pages while the provider keeps returning tokens.
    Paging { token: Option<String>, pages: u64, collected: Vec<PendingEvent>, call: CallState },
    /// Fetching the window-end block for interpolation.
    FetchToBlock { collected: Vec<PendingEvent>, call: CallState },
    /// Fetching the window-start block for interpolation.
    FetchFromBlock { to_ts: u64, collected: Vec<PendingEvent>, call: CallState },
    Finished(Result<Vec<EventData>, RpcFailure>),
}

/// One `get_events` operation, driven attempt by attempt.
pub struct EventsQuery {
    pub address: String,
    pub from_block: u64,
    pub to_block: u64,
    pub phase: EventsPhase,
}

impl EventsQuery {
    /// An active pagination has always fetched fewer than `MAX_PAGES`
    /// pages: the loop can only terminate.
    pub open spec fn wf(&self) -> bool {
        match self.phase {
            EventsPhase::Paging { pages, call, .. } => pages < MAX_PAGES && call.attempts_left > 0,
            EventsPhase::FetchToBlock { call, .. } => call.attempts_left > 0,
            EventsPhase::FetchFromBlock { call, .. } => call.attempts_left > 0,
            EventsPhase::Finished(_) => true,
        }
    }

    /// Begins an events query for `address` over `[from_block, to_block]`.
    pub fn start(svc: &RpcService, address: String, from_block: u64, to_block: u64) -> (s: Self)
        requires
            svc.wf(),
        ensures
            s.wf(),
            s.address == address,
            s.from_block == from_block,
            s.to_block == to_block,
            (s.phase matches EventsPhase::Paging { token, pages, collected, call } && token
                is None && pages == 0 && collected@.len() == 0 && call.attempts_left
                == svc.pool.urls@.len()),
    {
        EventsQuery {
            address,
            from_block,
            to_block,
            phase: EventsPhase::Paging {
                token: None,
                pages: 0,
                collected: Vec::new(),
                call: CallState::begin(svc),
            },
        }
    }

    /// While unfinished: the URL to post to and a fresh envelope — an
    /// events page with the current token, then the two window blocks.
    pub fn next_request(&self, svc: &RpcService) -> (r: Option<(String, RpcRequest)>)
        requires
            svc.wf(),
            self.wf(),
        ensures
            match self.phase {
                EventsPhase::Finished(_) => r is None,
                EventsPhase::Paging { token, .. } => (r matches Some(p) && p.0@
                    == svc.pool.current_url() && p.1.jsonrpc@ == "2.0"@ && p.1.id == 1
                    && p.1.method@ == method_name(p.1.params)
                    && (p.1.params matches RpcParams::GetEvents { filter } && filter.address@
                    == self.address@ && filter.from_block == self.from_block && filter.to_block
                    == self.to_block && filter.chunk_size == CHUNK_SIZE && opt_view(
                    filter.continuation_token,
                ) == opt_view(token))),
                EventsPhase::FetchToBlock { .. } => (r matches Some(p) && p.0@
                    == svc.pool.current_url() && p.1.jsonrpc@ == "2.0"@ && p.1.id == 1
                    && p.1.method@ == method_name(p.1.params) && p.1.params
                    == RpcParams::GetBlockWithTxs { block_number: self.to_block }),
                EventsPhase::FetchFromBlock { .. } => (r matches Some(p) && p.0@
                    == svc.pool.current_url() && p.1.jsonrpc@ == "2.0"@ && p.1.id == 1
                    && p.1.method@ == method_name(p.1.params) && p.1.params
                    == RpcParams::GetBlockWithTxs { block_number: self.from_block }),
            },
    {
        match &self.phase {
            EventsPhase::Finished(_) => None,
            EventsPhase::Paging { token, .. } => {
                let url = svc.pool.current().clone();
                let tok = match token {
                    Some(t) => Some(t.clone()),
                    None => None,
                };
                let filter = EventFilter {
                    address: self.address.clone(),
                    from_block: self.from_block,
                    to_block: self.to_block,
                    chunk_size: CHUNK_SIZE,
                    continuation_token: tok,
                };
                Some((url, RpcRequest::make(RpcParams::GetEvents { filter })))
            },
            EventsPhase::FetchToBlock { .. } => {
                let url = svc.pool.current().clone();
                Some(
                    (
                        url,
                        RpcRequest::make(
                            RpcParams::GetBlockWithTxs { block_number: self.to_block },
                        ),
                    ),
                )
            },
            EventsPhase::FetchFromBlock { .. } => {
                let url = svc.pool.current().clone();
                Some(
                    (
                        url,
                        RpcRequest::make(
                            RpcParams::GetBlockWithTxs { block_number: self.from_block },
                        ),
                    ),
                )
            },
        }
    }

    /// Absorbs one attempt. A delivered page without an `events` array
    /// fails with `InvalidEventsResponse`; otherwise its events are
    /// decoded and appended, and pagination continues exactly when a token
    /// was returned and fewer than `MAX_PAGES` pages are in. The two block
    /// fetches then supply the window timestamps, and the final feed
    /// produces one interpolated record per accumulated event. Transport
    /// exhaustion anywhere fails the query with `AllEndpointsFailed`.
    pub fn feed(self, svc: &mut RpcService, outcome: AttemptOutcome) -> (s: Self)
        requires
            old(svc).wf(),
            self.wf(),
            !(self.phase is Finished),
        ensures
            final(svc).wf(),
            final(svc).pool.urls == old(svc).pool.urls,
            s.wf(),
            s.address == self.address,
            s.from_block == self.from_block,
            s.to_block == self.to_block,
            match self.phase {
                EventsPhase::Paging { token, pages, collected, call } => match outcome {
                    AttemptOutcome::Payload(pl) => match pl {
                        RpcPayload::Events(page) => match page.events {
                            None => s.phase == EventsPhase::Finished(
                                Err::<Vec<EventData>, RpcFailure>(RpcFailure::InvalidEventsResponse),
                            ),
                            Some(evs) => {
                                if page.continuation_token is Some && pages + 1 < MAX_PAGES {
                                    s.phase matches EventsPhase::Paging {
                                        token: t2,
                                        pages: p2,
                                        collected: c2,
                                        call: k2,
                                    } && opt_view(t2) == opt_view(page.continuation_token) && p2
                                        == pages + 1 && accumulated(c2@, collected@, evs@)
                                        && k2.attempts_left == old(svc).pool.urls@.len()
                                } else {
                                    s.phase matches EventsPhase::FetchToBlock {
                                        collected: c2,
                                        call: k2,
                                    } && accumulated(c2@, collected@, evs@) && k2.attempts_left
                                        == old(svc).pool.urls@.len()
                                }
                            },
                        },
                        _ => self.failed_attempt_spec(s, call, RetryTarget::Paging),
                    },
                    AttemptOutcome::NetworkFailure => self.failed_attempt_spec(
                        s,
                        call,
                        RetryTarget::Paging,
                    ),
                    AttemptOutcome::NoResult(_) => self.failed_attempt_spec(
                        s,
                        call,
                        RetryTarget::Paging,
                    ),
                },
                EventsPhase::FetchToBlock { collected, call } => match outcome {
                    AttemptOutcome::Payload(pl) => match pl {
                        RpcPayload::Block(raw) => s.phase matches EventsPhase::FetchFromBlock {
                            to_ts,
                            collected: c2,
                            call: k2,
                        } && to_ts == observed_ts(raw) && c2 == collected && k2.attempts_left
                            == old(svc).pool.urls@.len(),
                        _ => self.failed_attempt_spec(s, call, RetryTarget::FetchTo),
                    },
                    AttemptOutcome::NetworkFailure => self.failed_attempt_spec(
                        s,
                        call,
                        RetryTarget::FetchTo,
                    ),
                    AttemptOutcome::NoResult(_) => self.failed_attempt_spec(
                        s,
                        call,
                        RetryTarget::FetchTo,
                    ),
                },
                EventsPhase::FetchFromBlock { to_ts, collected, call } => match outcome {
                    AttemptOutcome::Payload(pl) => match pl {
                        RpcPayload::Block(raw) => s.phase
                            matches EventsPhase::Finished(res) && res matches Ok(evs) && evs@.len()
                            == collected@.len() && (forall|j: int|
                            0 <= j < collected@.len() ==> event_corresponds(
                                #[trigger] evs@[j],
                                collected@[j],
                                self.from_block,
                                self.to_block,
                                observed_ts(raw),
                                to_ts,
                            )),
                        _ => self.failed_attempt_spec(s, call, RetryTarget::FetchFrom),
                    },
                    AttemptOutcome::NetworkFailure => self.failed_attempt_spec(
                        s,
                        call,
                        RetryTarget::FetchFrom,
                    ),
                    AttemptOutcome::NoResult(_) => self.failed_attempt_spec(
                        s,
                        call,
                        RetryTarget::FetchFrom,
                    ),
                },
                EventsPhase::Finished(_) => false,
            },
    {
        let address = self.address;
        let from_block = self.from_block;
        let to_block = self.to_block;
        match self.phase {
            EventsPhase::Paging { token, pages, collected, call } => {
                let (call2, prog) = call.absorb(svc, outcome, PayloadKind::Events);
                match prog {
                    CallProgress::Retry => EventsQuery {
                        address,
                        from_block,
                        to_block,
                        phase: EventsPhase::Paging { token, pages, collected, call: call2 },
                    },
                    CallProgress::Exhausted => EventsQuery {
                        address,
                        from_block,
                        to_block,
                        phase: EventsPhase::Finished(Err(RpcFailure::AllEndpointsFailed)),
                    },
                    CallProgress::Delivered(pl) => match pl {
                        RpcPayload::Events(page) => match page.events {
                            None => EventsQuery {
                                address,
                                from_block,
                                to_block,
                                phase: EventsPhase::Finished(
                                    Err(RpcFailure::InvalidEventsResponse),
                                ),
                            },
                            Some(evs) => {
                                let collected2 = append_page(collected, evs);
                                let pages2 = pages + 1;
                                let has_token = match &page.continuation_token {
                                    Some(_) => true,
                                    None => false,
                                };
                                let phase = if has_token && pages2 < MAX_PAGES {
                                    EventsPhase::Paging {
                                        token: page.continuation_token,
                                        pages: pages2,
                                        collected: collected2,
                                        call: CallState::begin(svc),
                                    }
                                } else {
                                    EventsPhase::FetchToBlock {
                                        collected: collected2,
                                        call: CallState::begin(svc),
                                    }
                                };
                                EventsQuery { address, from_block, to_block, phase }
                            },
                        },
                        _ => {
                            proof {
                                assert(false);
                            }
                            EventsQuery {
                                address,
                                from_block,
                                to_block,
                                phase: EventsPhase::Finished(Err(RpcFailure::AllEndpointsFailed)),
                            }
                        },
                    },
                }
            },
            EventsPhase::FetchToBlock { collected, call } => {
                let (call2, prog) = call.absorb(svc, outcome, PayloadKind::Block);
                match prog {
                    CallProgress::Retry => EventsQuery {
                        address,
                        from_block,
                        to_block,
                        phase: EventsPhase::FetchToBlock { collected, call: call2 },
                    },
                    CallProgress::Exhausted => EventsQuery {
                        address,
                        from_block,
                        to_block,
                        phase: EventsPhase::Finished(Err(RpcFailure::AllEndpointsFailed)),
                    },
                    CallProgress::Delivered(pl) => match pl {
                        RpcPayload::Block(raw) => {
                            let to_ts = match raw.timestamp {
                                Some(t) => t,
                                None => 0,
                            };
                            EventsQuery {
                                address,
                                from_block,
                                to_block,
                                phase: EventsPhase::FetchFromBlock {
                                    to_ts,
                                    collected,
                                    call: CallState::begin(svc),
                                },
                            }
                        },
                        _ => {
                            proof {
                                assert(false);
                            }
                            EventsQuery {
                                address,
                                from_block,
                                to_block,
                                phase: EventsPhase::Finished(Err(RpcFailure::AllEndpointsFailed)),
                            }
                        },
                    },
                }
            },
            EventsPhase::FetchFromBlock { to_ts, collected, call } => {
                let (call2, prog) = call.absorb(svc, outcome, PayloadKind::Block);
                match prog {
                    CallProgress::Retry => EventsQuery {
                        address,
                        from_block,
                        to_block,
                        phase: EventsPhase::FetchFromBlock { to_ts, collected, call: call2 },
                    },
                    CallProgress::Exhausted => EventsQuery {
                        address,
                        from_block,
                        to_block,
                        phase: EventsPhase::Finished(Err(RpcFailure::AllEndpointsFailed)),
                    },
                    CallProgress::Delivered(pl) => match pl {
                        RpcPayload::Block(raw) => {
                            let from_ts = match raw.timestamp {
                                Some(t) => t,
                                None => 0,
                            };
                            let out = finish_events(collected, from_block, to_block, from_ts, to_ts);
                            EventsQuery {
                                address,
                                from_block,
                                to_block,
                                phase: EventsPhase::Finished(Ok(out)),
                            }
                        },
                        _ => {
                            proof {
                                assert(false);
                            }
                            EventsQuery {
                                address,
                                from_block,
                                to_block,
                                phase: EventsPhase::Finished(Err(RpcFailure::AllEndpointsFailed)),
                            }
                        },
                    },
                }
            },
            EventsPhase::Finished(res) => EventsQuery {
                address,
                from_block,
                to_block,
                phase: EventsPhase::Finished(res),
            },
        }
    }

    /// What a failed attempt leaves behind: the same phase with one fewer
    /// attempt, or `AllEndpointsFailed` once the budget is spent.
    pub open spec fn failed_attempt_spec(
        self,
        s: EventsQuery,
        call: CallState,
        target: RetryTarget,
    ) -> bool {
        if call.attempts_left > 1 {
            match target {
                RetryTarget::Paging => (s.phase matches EventsPhase::Paging {
                    token: t2,
                    pages: p2,
                    collected: c2,
                    call: k2,
                } && (self.phase matches EventsPhase::Paging {
                    token: t1,
                    pages: p1,
                    collected: c1,
                    ..
                } && t2 == t1 && p2 == p1 && c2 == c1) && k2.attempts_left == call.attempts_left
                    - 1),
                RetryTarget::FetchTo => (s.phase matches EventsPhase::FetchToBlock {
                    collected: c2,
                    call: k2,
                } && (self.phase matches EventsPhase::FetchToBlock { collected: c1, .. } && c2
                    == c1) && k2.attempts_left == call.attempts_left - 1),
                RetryTarget::FetchFrom => (s.phase matches EventsPhase::FetchFromBlock {
                    to_ts: ts2,
                    collected: c2,
                    call: k2,
                } && (self.phase matches EventsPhase::FetchFromBlock {
                    to_ts: ts1,
                    collected: c1,
                    ..
                } && ts2 == ts1 && c2 == c1) && k2.attempts_left == call.attempts_left - 1),
            }
        } else {
            s.phase == EventsPhase::Finished(
                Err::<Vec<EventData>, RpcFailure>(RpcFailure::AllEndpointsFailed),
            )
        }
    }

    /// The decoded events, once finished.
    pub fn into_result(self) -> (r: Option<Result<Vec<EventData>, RpcFailure>>)
        ensures
            match self.phase {
                EventsPhase::Finished(res) => r == Some(res),
                _ => r is None,
            },
    {
        match self.phase {
            EventsPhase::Finished(res) => Some(res),
            _ => None,
        }
    }
}

/// Pagination termination: an active query has always fetched fewer than
/// `MAX_PAGES` pages, and `feed` raises the count by one and keeps paging
/// only while the provider returned a continuation token and the count
/// stays below the cap — so a run of the protocol issues at most
/// `MAX_PAGES` page requests, and exactly `MAX_PAGES` against a provider
/// that returns a token forever.
pub proof fn lemma_pagination_bounded(q: EventsQuery)
    requires
        q.wf(),
    ensures
        q.phase matches EventsPhase::Paging { pages, .. } ==> pages < MAX_PAGES,
{
}

/// Which phase a failed attempt retries into.
pub enum RetryTarget {
    Paging,
    FetchTo,
    FetchFrom,
}

/// Decodes one page of raw events and appends the pending records.
fn append_page(collected: Vec<PendingEvent>, evs: Vec<RawEvent>) -> (r: Vec<PendingEvent>)
    ensures
        accumulated(r@, collected@, evs@),
{
    let ghost c1 = collected@;
    let ghost evs0 = evs@;
    let n0 = evs.len();
    let mut out = collected;
    let mut evs = evs;
    let mut i: usize = 0;
    while evs.len() > 0
        invariant
            n0 == evs0.len(),
            i + evs@.len() == evs0.len(),
            evs@ == evs0.skip(i as int),
            out@.len() == c1.len() + i,
            forall|j: int| 0 <= j < c1.len() ==> out@[j] == c1[j],
            forall|j: int| 0 <= j < i ==> pending_corresponds(#[trigger] out@[c1.len() + j], evs0[j]),
        decreases evs@.len(),
    {
        let e = evs.remove(0);
        proof {
            assert(evs0.skip(i as int)[0] == evs0[i as int]);
            assert(evs0.skip(i as int).remove(0) =~= evs0.skip(i as int + 1));
        }
        let bn = match e.block_number {
            Some(n) => n,
            None => 0,
        };
        let th = match e.transaction_hash {
            Some(h) => h,
            None => String::new(),
        };
        let (name, decoded) = decode_event(&e.keys, &e.data);
        out.push(
            PendingEvent {
                block_number: bn,
                transaction_hash: th,
                keys: e.keys,
                data: e.data,
                event_name: name,
                decoded_data: decoded,
            },
        );
        i = i + 1;
    }
    proof {
        assert(evs0.skip(i as int).len() == 0);
    }
    out
}

/// Interpolates and renders timestamps for every accumulated event.
fn finish_events(
    collected: Vec<PendingEvent>,
    from_block: u64,
    to_block: u64,
    from_ts: u64,
    to_ts: u64,
) -> (r: Vec<EventData>)
    ensures
        r@.len() == collected@.len(),
        forall|j: int|
            0 <= j < collected@.len() ==> event_corresponds(
                #[trigger] r@[j],
                collected@[j],
                from_block,
                to_block,
                from_ts,
                to_ts,
            ),
{
    let ghost c0 = collected@;
    let n0 = collected.len();
    let mut rest = collected;
    let mut out: Vec<EventData> = Vec::new();
    let mut i: usize = 0;
    while rest.len() > 0
        invariant
            n0 == c0.len(),
            i + rest@.len() == c0.len(),
            rest@ == c0.skip(i as int),
            out@.len() == i,
            forall|j: int|
                0 <= j < i ==> event_corresponds(
                    #[trigger] out@[j],
                    c0[j],
                    from_block,
                    to_block,
                    from_ts,
                    to_ts,
                ),
        decreases rest@.len(),
    {
        let p = rest.remove(0);
        proof {
            assert(c0.skip(i as int)[0] == c0[i as int]);
            assert(c0.skip(i as int).remove(0) =~= c0.skip(i as int + 1));
        }
        let est = estimate_timestamp(from_block, to_block, from_ts, to_ts, p.block_number);
        let iso = format_rfc3339_utc(est);
        out.push(
            EventData {
                block_number: p.block_number,
                transaction_hash: p.transaction_hash,
                keys: p.keys,
                data: p.data,
                event_name: p.event_name,
                decoded_data: p.decoded_data,
                timestamp: iso,
                timestamp_raw: est,
            },
        );
        i = i + 1;
    }
    out
}

} // verus!
