use starknet_rpc::locator::BlockLocator;
use starknet_rpc::pool::RpcService;
use starknet_rpc::protocol::{
    AttemptOutcome, BlockNumberResult, RawBlock, RpcFailure, RpcParams, RpcPayload,
};

fn single_endpoint() -> RpcService {
    RpcService::with_endpoints(vec!["http://mock".to_string()])
}

/// Answers every request from a synthetic chain of `latest + 1` blocks
/// whose timestamps are `ts_of(block_number)`.
fn drive<F: Fn(u64) -> u64>(
    svc: &mut RpcService,
    mut loc: BlockLocator,
    latest: u64,
    ts_of: F,
) -> Result<u64, RpcFailure> {
    loop {
        if let Some(res) = loc.result() {
            return res;
        }
        let (_, req) = loc.next_request(svc).expect("active locator issues requests");
        let outcome = match req.params {
            RpcParams::BlockNumber => AttemptOutcome::Payload(RpcPayload::BlockNumber(
                BlockNumberResult::Number(latest),
            )),
            RpcParams::GetBlockWithTxs { block_number } => AttemptOutcome::Payload(
                RpcPayload::Block(RawBlock {
                    block_number: Some(block_number),
                    timestamp: Some(ts_of(block_number)),
                    transactions: vec![],
                }),
            ),
            _ => panic!("unexpected request kind"),
        };
        loc = loc.feed(svc, outcome);
    }
}

#[test]
fn uniform_chain_exact_target() {
    // block 100 at 1000, block 200 at 2000, uniform spacing: 1500 -> 150
    let mut svc = single_endpoint();
    let loc = svc.find_block_by_timestamp(1500);
    let r = drive(&mut svc, loc, 200, |b| 10 * b);
    assert_eq!(r, Ok(150));
}

#[test]
fn target_between_blocks_picks_first_at_or_after() {
    let mut svc = single_endpoint();
    let loc = svc.find_block_by_timestamp(1505);
    let r = drive(&mut svc, loc, 200, |b| 10 * b);
    assert_eq!(r, Ok(151));
}

#[test]
fn target_before_genesis_returns_zero() {
    let mut svc = single_endpoint();
    let loc = svc.find_block_by_timestamp(999);
    let r = drive(&mut svc, loc, 200, |b| 1000 + 10 * b);
    assert_eq!(r, Ok(0));
}

#[test]
fn target_after_latest_returns_latest() {
    let mut svc = single_endpoint();
    let loc = svc.find_block_by_timestamp(1_000_000);
    let r = drive(&mut svc, loc, 200, |b| 10 * b);
    assert_eq!(r, Ok(200));
}

#[test]
fn hex_latest_block_number_is_parsed() {
    let mut svc = single_endpoint();
    let mut loc = svc.find_block_by_timestamp(0);
    let (_, req) = loc.next_request(&svc).unwrap();
    assert_eq!(req.method, "starknet_blockNumber");
    loc = loc.feed(
        &mut svc,
        AttemptOutcome::Payload(RpcPayload::BlockNumber(BlockNumberResult::Text(
            "0xc8".to_string(),
        ))),
    );
    // the search window opened over [0, 200]: the first probe is block 100
    let (_, req) = loc.next_request(&svc).unwrap();
    match req.params {
        RpcParams::GetBlockWithTxs { block_number } => assert_eq!(block_number, 100),
        _ => panic!("expected a block probe"),
    }
}

#[test]
fn malformed_latest_fails_the_locate() {
    let mut svc = single_endpoint();
    let mut loc = svc.find_block_by_timestamp(0);
    loc = loc.feed(
        &mut svc,
        AttemptOutcome::Payload(RpcPayload::BlockNumber(BlockNumberResult::Other)),
    );
    assert_eq!(loc.result(), Some(Err(RpcFailure::InvalidBlockNumberFormat)));
}

#[test]
fn probe_failure_degrades_to_best_bound() {
    // a transport failure mid-search returns the bound reached so far
    let mut svc = single_endpoint();
    let mut loc = svc.find_block_by_timestamp(1500);
    loc = loc.feed(
        &mut svc,
        AttemptOutcome::Payload(RpcPayload::BlockNumber(BlockNumberResult::Number(200))),
    );
    // probe block 100: timestamp 1000 < 1500, so low moves to 101
    loc = loc.feed(
        &mut svc,
        AttemptOutcome::Payload(RpcPayload::Block(RawBlock {
            block_number: Some(100),
            timestamp: Some(1000),
            transactions: vec![],
        })),
    );
    // the single endpoint fails: the locate ends with the current low
    loc = loc.feed(&mut svc, AttemptOutcome::NetworkFailure);
    assert_eq!(loc.result(), Some(Ok(101)));
}
