use starknet_rpc::events::{EventsQuery, MAX_PAGES};
use starknet_rpc::pool::RpcService;
use starknet_rpc::protocol::{
    AttemptOutcome, RawBlock, RawEvent, RawEventsPage, RpcFailure, RpcParams, RpcPayload,
    CHUNK_SIZE,
};

const TRANSFER: &str = "0x99cd8bde557814842a3121e8ddfd433a539b8c9f14bf31ebf108d12e6196e9";

fn single_endpoint() -> RpcService {
    RpcService::with_endpoints(vec!["http://mock".to_string()])
}

fn addr() -> String {
    "0xcontract".to_string()
}

fn transfer_event(block_number: u64) -> RawEvent {
    RawEvent {
        block_number: Some(block_number),
        transaction_hash: Some("0xhash".to_string()),
        keys: vec![TRANSFER.to_string()],
        data: vec!["0xa".to_string(), "0xb".to_string(), "0x64".to_string()],
    }
}

fn block(block_number: u64, timestamp: u64) -> RawBlock {
    RawBlock { block_number: Some(block_number), timestamp: Some(timestamp), transactions: vec![] }
}

#[test]
fn relentless_tokens_stop_at_the_page_cap() {
    // a provider that always returns a continuation token is cut off
    // after exactly the page cap
    let mut svc = single_endpoint();
    let mut q = svc.get_events(addr(), 100, 200);
    let mut pages_fed = 0u64;
    loop {
        let (_, req) = q.next_request(&svc).expect("active query issues requests");
        match req.params {
            RpcParams::GetEvents { filter } => {
                assert_eq!(req.method, "starknet_getEvents");
                assert_eq!(req.jsonrpc, "2.0");
                assert_eq!(filter.chunk_size, CHUNK_SIZE);
                assert_eq!(filter.from_block, 100);
                assert_eq!(filter.to_block, 200);
                if pages_fed == 0 {
                    assert_eq!(filter.continuation_token, None);
                } else {
                    assert_eq!(filter.continuation_token, Some("more".to_string()));
                }
                pages_fed += 1;
                let page = RawEventsPage {
                    events: Some(vec![transfer_event(150)]),
                    continuation_token: Some("more".to_string()),
                };
                q = q.feed(&mut svc, AttemptOutcome::Payload(RpcPayload::Events(page)));
            },
            RpcParams::GetBlockWithTxs { .. } => break,
            _ => panic!("unexpected request kind"),
        }
        assert!(pages_fed <= MAX_PAGES, "pagination ran past the cap");
    }
    assert_eq!(pages_fed, MAX_PAGES);
}

#[test]
fn missing_token_ends_pagination_and_events_are_interpolated() {
    let mut svc = single_endpoint();
    let mut q = svc.get_events(addr(), 100, 200);

    let page = RawEventsPage {
        events: Some(vec![transfer_event(150), transfer_event(200)]),
        continuation_token: None,
    };
    q = q.feed(&mut svc, AttemptOutcome::Payload(RpcPayload::Events(page)));

    // the window-end block is fetched first, then the window start
    let (_, req) = q.next_request(&svc).unwrap();
    assert_eq!(req.method, "starknet_getBlockWithTxs");
    match req.params {
        RpcParams::GetBlockWithTxs { block_number } => assert_eq!(block_number, 200),
        _ => panic!("expected the window-end fetch"),
    }
    q = q.feed(&mut svc, AttemptOutcome::Payload(RpcPayload::Block(block(200, 2000))));

    let (_, req) = q.next_request(&svc).unwrap();
    match req.params {
        RpcParams::GetBlockWithTxs { block_number } => assert_eq!(block_number, 100),
        _ => panic!("expected the window-start fetch"),
    }
    q = q.feed(&mut svc, AttemptOutcome::Payload(RpcPayload::Block(block(100, 1000))));

    let events = q.into_result().expect("finished").expect("succeeded");
    assert_eq!(events.len(), 2);

    let e = &events[0];
    assert_eq!(e.block_number, 150);
    assert_eq!(e.transaction_hash, "0xhash");
    assert_eq!(e.event_name, "Transfer");
    assert_eq!(e.timestamp_raw, 1500);
    let expected_iso = chrono::DateTime::from_timestamp(1500, 0).unwrap().to_rfc3339();
    assert_eq!(e.timestamp, expected_iso);

    assert_eq!(events[1].block_number, 200);
    assert_eq!(events[1].timestamp_raw, 2000);
}

#[test]
fn response_without_events_array_is_rejected() {
    let mut svc = single_endpoint();
    let mut q = svc.get_events(addr(), 0, 10);
    let page = RawEventsPage { events: None, continuation_token: None };
    q = q.feed(&mut svc, AttemptOutcome::Payload(RpcPayload::Events(page)));
    match q.into_result() {
        Some(Err(RpcFailure::InvalidEventsResponse)) => {},
        _ => panic!("expected InvalidEventsResponse"),
    }
}

#[test]
fn transport_exhaustion_fails_the_query() {
    let mut svc = single_endpoint();
    let mut q = svc.get_events(addr(), 0, 10);
    q = q.feed(&mut svc, AttemptOutcome::NetworkFailure);
    match q.into_result() {
        Some(Err(RpcFailure::AllEndpointsFailed)) => {},
        _ => panic!("expected AllEndpointsFailed"),
    }
}

#[test]
fn event_defaults_apply_when_fields_are_missing() {
    let mut svc = single_endpoint();
    let mut q = svc.get_events(addr(), 100, 200);
    let bare = RawEvent {
        block_number: None,
        transaction_hash: None,
        keys: vec![],
        data: vec![],
    };
    let page = RawEventsPage { events: Some(vec![bare]), continuation_token: None };
    q = q.feed(&mut svc, AttemptOutcome::Payload(RpcPayload::Events(page)));
    q = q.feed(&mut svc, AttemptOutcome::Payload(RpcPayload::Block(block(200, 2000))));
    q = q.feed(&mut svc, AttemptOutcome::Payload(RpcPayload::Block(block(100, 1000))));
    let events = q.into_result().unwrap().unwrap();
    assert_eq!(events.len(), 1);
    assert_eq!(events[0].block_number, 0);
    assert_eq!(events[0].transaction_hash, "");
    assert_eq!(events[0].event_name, "Unknown Event");
}

#[test]
fn payload_of_the_wrong_shape_counts_as_a_failed_attempt() {
    let mut svc = single_endpoint();
    let mut q = svc.get_events(addr(), 0, 10);
    // a block payload where an events page was expected burns the single
    // endpoint's attempt without delivering anything
    q = q.feed(&mut svc, AttemptOutcome::Payload(RpcPayload::Block(block(1, 10))));
    match q.into_result() {
        Some(Err(RpcFailure::AllEndpointsFailed)) => {},
        _ => panic!("expected AllEndpointsFailed"),
    }
}
