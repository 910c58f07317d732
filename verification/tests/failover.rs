use starknet_rpc::pool::RpcService;
use starknet_rpc::protocol::{
    AttemptOutcome, BlockNumberResult, RawBlock, RpcError, RpcFailure, RpcPayload,
};

fn two_endpoints() -> RpcService {
    RpcService::with_endpoints(vec!["http://a".to_string(), "http://b".to_string()])
}

#[test]
fn failing_endpoint_rotates_to_the_next() {
    // endpoints [A, B]: A fails by connection error, B answers
    let mut svc = two_endpoints();
    let mut call = svc.get_block_number();

    let (url, req) = call.next_request(&svc).expect("request expected");
    assert_eq!(url, "http://a");
    assert_eq!(req.jsonrpc, "2.0");
    assert_eq!(req.id, 1);
    assert_eq!(req.method, "starknet_blockNumber");

    call = call.feed(&mut svc, AttemptOutcome::NetworkFailure);
    let (url, _) = call.next_request(&svc).expect("second attempt expected");
    assert_eq!(url, "http://b");

    let payload = RpcPayload::BlockNumber(BlockNumberResult::Text("0x2a".to_string()));
    call = call.feed(&mut svc, AttemptOutcome::Payload(payload));
    assert_eq!(call.done, Some(Ok(42)));
}

#[test]
fn numeric_block_number_is_accepted() {
    let mut svc = two_endpoints();
    let mut call = svc.get_block_number();
    let payload = RpcPayload::BlockNumber(BlockNumberResult::Number(1234));
    call = call.feed(&mut svc, AttemptOutcome::Payload(payload));
    assert_eq!(call.done, Some(Ok(1234)));
}

#[test]
fn malformed_block_number_is_reported() {
    let mut svc = two_endpoints();
    let mut call = svc.get_block_number();
    let payload = RpcPayload::BlockNumber(BlockNumberResult::Text("zz".to_string()));
    call = call.feed(&mut svc, AttemptOutcome::Payload(payload));
    assert_eq!(call.done, Some(Err(RpcFailure::InvalidBlockNumberFormat)));
}

#[test]
fn unusable_response_retries_same_endpoint() {
    let mut svc = two_endpoints();
    let mut call = svc.get_block_number();
    let err = RpcError { code: -32000, message: "busy".to_string() };
    call = call.feed(&mut svc, AttemptOutcome::NoResult(Some(err)));
    // no rotation on a response that parsed but carried no result
    let (url, _) = call.next_request(&svc).expect("second attempt expected");
    assert_eq!(url, "http://a");
}

#[test]
fn exhausting_the_pool_fails_the_call() {
    let mut svc = two_endpoints();
    let mut call = svc.get_block_number();
    call = call.feed(&mut svc, AttemptOutcome::NetworkFailure);
    call = call.feed(&mut svc, AttemptOutcome::NetworkFailure);
    assert_eq!(call.done, Some(Err(RpcFailure::AllEndpointsFailed)));
    assert!(call.next_request(&svc).is_none());
}

#[test]
fn default_pool_holds_the_four_public_endpoints() {
    let svc = RpcService::new();
    assert_eq!(svc.pool.cursor, 0);
    assert_eq!(svc.pool.urls.len(), 4);
    assert_eq!(svc.pool.urls[0], "https://rpc.starknet.lava.build");
    assert_eq!(svc.pool.urls[1], "https://starknet-mainnet.g.alchemy.com/v2/demo");
    assert_eq!(svc.pool.urls[2], "https://starknet-mainnet.public.blastapi.io");
    assert_eq!(svc.pool.urls[3], "https://free-rpc.nethermind.io/mainnet-juno");
}

#[test]
fn block_fetch_defaults_missing_fields() {
    let mut svc = two_endpoints();
    let mut call = svc.get_block_with_txs(77);
    let raw = RawBlock { block_number: None, timestamp: None, transactions: vec![] };
    call = call.feed(&mut svc, AttemptOutcome::Payload(RpcPayload::Block(raw)));
    match call.done {
        Some(Ok(info)) => {
            assert_eq!(info.block_number, 77);
            assert_eq!(info.timestamp, 0);
            assert!(info.transactions.is_empty());
        },
        _ => panic!("expected an interpreted block"),
    }
}
