use starknet_rpc::pool::RpcService;
use starknet_rpc::protocol::{
    AttemptOutcome, BlockNumberResult, RawBlock, RawTransaction, RpcFailure, RpcParams, RpcPayload,
};
use starknet_rpc::scanner::{ContractAnalysis, ContractScan, ScanPhase};

fn single_endpoint() -> RpcService {
    RpcService::with_endpoints(vec!["http://mock".to_string()])
}

fn target() -> String {
    format!("0x{}", "a".repeat(64))
}

fn empty_block(n: u64) -> RawBlock {
    RawBlock { block_number: Some(n), timestamp: Some(10 * n), transactions: vec![] }
}

fn tx(sender: Option<&str>, contract: Option<&str>, fee: Option<&str>) -> RawTransaction {
    RawTransaction {
        transaction_hash: Some("0xtx".to_string()),
        sender_address: sender.map(|s| s.to_string()),
        contract_address: contract.map(|s| s.to_string()),
        max_fee: fee.map(|s| s.to_string()),
        tx_type: None,
    }
}

/// Answers requests from a synthetic chain: the latest block number, then
/// one `block_of` answer per fetched block.
fn drive<F: Fn(u64) -> RawBlock>(
    svc: &mut RpcService,
    mut scan: ContractScan,
    latest: u64,
    block_of: F,
) -> Result<ContractAnalysis, RpcFailure> {
    loop {
        if let ScanPhase::Finished(_) = &scan.phase {
            return scan.into_result().unwrap();
        }
        let (_, req) = scan.next_request(svc).expect("active scan issues requests");
        let outcome = match req.params {
            RpcParams::BlockNumber => AttemptOutcome::Payload(RpcPayload::BlockNumber(
                BlockNumberResult::Number(latest),
            )),
            RpcParams::GetBlockWithTxs { block_number } => {
                AttemptOutcome::Payload(RpcPayload::Block(block_of(block_number)))
            },
            _ => panic!("unexpected request kind"),
        };
        scan = scan.feed(svc, outcome);
    }
}

#[test]
fn malformed_address_is_rejected_before_any_request() {
    let svc = single_endpoint();
    match svc.analyze_contract("0x123".to_string(), None, None) {
        Err(RpcFailure::InvalidAddressFormat) => {},
        _ => panic!("expected InvalidAddressFormat"),
    }
    match svc.analyze_contract("a".repeat(66), None, None) {
        Err(RpcFailure::InvalidAddressFormat) => {},
        _ => panic!("expected InvalidAddressFormat"),
    }
}

#[test]
fn range_with_no_matches_reports_no_recent_activity() {
    let mut svc = single_endpoint();
    let scan = svc.analyze_contract(target(), None, None).expect("valid address");
    // latest 3: the default range is [0, 3], four blocks, none matching
    let a = drive(&mut svc, scan, 3, empty_block).expect("analysis");
    assert_eq!(a.status, "No Recent Activity");
    assert_eq!(a.transaction_count, 0);
    assert_eq!(a.avg_fee, "0");
    assert_eq!(a.total_fees, "0");
    assert_eq!(a.unique_senders, 0);
    assert_eq!(a.blocks_analyzed, 4);
    assert_eq!(a.current_block, 3);
    assert_eq!(a.from_block, 0);
    assert_eq!(a.to_block, 3);
    assert!(a.transactions.is_empty());
}

#[test]
fn matching_transactions_are_aggregated() {
    let mut svc = single_endpoint();
    let scan = svc.analyze_contract(target(), None, None).expect("valid address");
    let addr = target();
    // latest 2: range [0, 2]; block 2 has one matching sender (3 tokens),
    // block 1 one matching contract (1 token), block 0 nothing
    let a = drive(&mut svc, scan, 2, |n| {
        let txs = match n {
            2 => vec![
                tx(Some(addr.as_str()), None, Some("0x29a2241af62c0000")),
                tx(Some("0xother"), None, Some("0x1")),
            ],
            1 => vec![tx(None, Some(addr.as_str()), Some("0xde0b6b3a7640000"))],
            _ => vec![],
        };
        RawBlock { block_number: Some(n), timestamp: Some(100 * n), transactions: txs }
    })
    .expect("analysis");

    assert_eq!(a.status, "Active");
    assert_eq!(a.transaction_count, 2);
    assert_eq!(a.total_fees, "4.0000");
    assert_eq!(a.avg_fee, "2.000000");
    // the matching senders are the target itself and the empty default
    assert_eq!(a.unique_senders, 2);
    assert_eq!(a.blocks_analyzed, 3);
    // newest first
    assert_eq!(a.transactions.len(), 2);
    assert_eq!(a.transactions[0].block_number, 2);
    assert_eq!(a.transactions[0].sender_address, addr);
    assert_eq!(a.transactions[0].timestamp, 200);
    assert_eq!(a.transactions[1].block_number, 1);
    assert_eq!(a.transactions[1].sender_address, "");
    assert_eq!(a.transactions[1].contract_address, addr);
    assert_eq!(a.transactions[1].tx_type, "INVOKE");
}

#[test]
fn exhausted_block_fetch_fails_the_scan() {
    // a transport failure that exhausts the pool is terminal: the scan
    // reports no partial aggregate
    let mut svc = single_endpoint();
    let mut scan = svc.analyze_contract(target(), None, None).expect("valid address");
    let addr = target();
    let latest = 2u64;
    loop {
        if let ScanPhase::Finished(_) = &scan.phase {
            break;
        }
        let (_, req) = scan.next_request(&svc).unwrap();
        let outcome = match req.params {
            RpcParams::BlockNumber => AttemptOutcome::Payload(RpcPayload::BlockNumber(
                BlockNumberResult::Number(latest),
            )),
            RpcParams::GetBlockWithTxs { block_number } if block_number == 1 => {
                // the only endpoint fails on this block
                AttemptOutcome::NetworkFailure
            },
            RpcParams::GetBlockWithTxs { block_number } => {
                let txs = if block_number == 2 {
                    vec![tx(Some(addr.as_str()), None, Some("0xde0b6b3a7640000"))]
                } else {
                    vec![]
                };
                AttemptOutcome::Payload(RpcPayload::Block(RawBlock {
                    block_number: Some(block_number),
                    timestamp: Some(10 * block_number),
                    transactions: txs,
                }))
            },
            _ => panic!("unexpected request kind"),
        };
        scan = scan.feed(&mut svc, outcome);
    }
    match scan.into_result() {
        Some(Err(RpcFailure::AllEndpointsFailed)) => {},
        _ => panic!("expected AllEndpointsFailed"),
    }
}

#[test]
fn one_failed_attempt_retries_before_failing() {
    // with two endpoints, one network failure on a block fetch rotates
    // and the second endpoint still serves the scan
    let mut svc = RpcService::with_endpoints(vec![
        "http://a".to_string(),
        "http://b".to_string(),
    ]);
    let mut scan = svc.analyze_contract(target(), None, None).expect("valid address");
    let mut failed_once = false;
    loop {
        if let ScanPhase::Finished(_) = &scan.phase {
            break;
        }
        let (_, req) = scan.next_request(&svc).unwrap();
        let outcome = match req.params {
            RpcParams::BlockNumber => AttemptOutcome::Payload(RpcPayload::BlockNumber(
                BlockNumberResult::Number(2),
            )),
            RpcParams::GetBlockWithTxs { block_number } if block_number == 1 && !failed_once => {
                failed_once = true;
                AttemptOutcome::NetworkFailure
            },
            RpcParams::GetBlockWithTxs { block_number } => {
                AttemptOutcome::Payload(RpcPayload::Block(empty_block(block_number)))
            },
            _ => panic!("unexpected request kind"),
        };
        scan = scan.feed(&mut svc, outcome);
    }
    let a = scan.into_result().unwrap().expect("analysis");
    assert!(failed_once);
    assert_eq!(a.status, "No Recent Activity");
    assert_eq!(a.blocks_analyzed, 3);
}

#[test]
fn wall_clock_bounds_resolve_through_the_locator() {
    let mut svc = single_endpoint();
    let scan = svc
        .analyze_contract(target(), Some(1500), Some(2500))
        .expect("valid address");
    // chain with timestamps 10 * block: 1500 -> 150, 2500 -> 250
    let a = drive(&mut svc, scan, 300, empty_block).expect("analysis");
    assert_eq!(a.from_block, 150);
    assert_eq!(a.to_block, 250);
    assert_eq!(a.current_block, 300);
    assert_eq!(a.blocks_analyzed, 101);
    assert_eq!(a.status, "No Recent Activity");
}

#[test]
fn at_most_ten_transactions_are_reported() {
    let mut svc = single_endpoint();
    let scan = svc.analyze_contract(target(), None, None).expect("valid address");
    let addr = target();
    // latest 11: range [0, 11]; every block holds one matching transaction
    let a = drive(&mut svc, scan, 11, |n| RawBlock {
        block_number: Some(n),
        timestamp: Some(10 * n),
        transactions: vec![tx(Some(addr.as_str()), None, Some("0x1"))],
    })
    .expect("analysis");
    assert_eq!(a.transaction_count, 12);
    assert_eq!(a.transactions.len(), 10);
    // the ten most recent: blocks 11 down to 2
    assert_eq!(a.transactions[0].block_number, 11);
    assert_eq!(a.transactions[9].block_number, 2);
}

#[test]
fn inverted_bounds_report_an_empty_range() {
    let mut svc = single_endpoint();
    let scan = svc
        .analyze_contract(target(), Some(2500), Some(1500))
        .expect("valid address");
    // chain with timestamps 10 * block: the bounds resolve to 250 and 150
    let a = drive(&mut svc, scan, 300, empty_block).expect("analysis");
    assert_eq!(a.from_block, 250);
    assert_eq!(a.to_block, 150);
    assert_eq!(a.blocks_analyzed, 0);
    assert_eq!(a.status, "No Recent Activity");
    assert_eq!(a.transaction_count, 0);
}
