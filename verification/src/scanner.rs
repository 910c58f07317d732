//! Contract activity scanning over a resolved block range.
//!
//! The scan walks the range from newest to oldest, fetching every block's
//! transaction list, keeping transactions whose sender or contract field
//! equals the target address, and aggregating fee totals, unique senders,
//! and a status over the full matched set. A transport failure that
//! exhausts the pool is terminal: the scan fails rather than return a
//! partial aggregate (only the locator degrades gracefully).

use vstd::prelude::*;
use vstd::string::*;
use crate::ADDRESS_CHARS;
use crate::decoder::strings_view;
use crate::hexnum::{format_scaled_fee, hex_u128, scaled_fee_string};
use crate::locator::{BlockLocator, locator_probe, locator_verdict, observed_ts};
use crate::pool::RpcService;
use crate::protocol::{
    AttemptOutcome, BlockInfo, PayloadKind, RawBlock, RawTransaction, RpcFailure, RpcParams,
    RpcPayload, RpcRequest, block_number_of, interpret_block, method_name,
};
use crate::transport::{BlockNumberCall, CallProgress, CallState};

verus! {

/// One matched transaction, as reported in the analysis.
#[derive(Debug)]
pub struct TransactionInfo {
    pub block_number: u64,
    pub transaction_hash: String,
    pub sender_address: String,
    pub contract_address: String,
    pub max_fee: String,
    pub tx_type: String,
    pub timestamp: u64,
}

/// The activity profile of a contract over a block range.
#[derive(Debug)]
pub struct ContractAnalysis {
    pub contract_address: String,
    pub status: String,
    pub transaction_count: usize,
    pub avg_fee: String,
    pub total_fees: String,
    pub unique_senders: usize,
    pub blocks_analyzed: usize,
    pub current_block: u64,
    pub from_block: u64,
    pub to_block: u64,
    pub transactions: Vec<TransactionInfo>,
}

/// A valid field-element address: `0x` followed by 64 more characters.
pub open spec fn valid_address(s: Seq<char>) -> bool {
    s.len() == ADDRESS_CHARS && s[0] == '0' && s[1] == 'x'
}

/// Checks the `0x`-plus-66-character address shape.
pub fn check_address(s: &str) -> (r: bool)
    ensures
        r == valid_address(s@),
{
    let n = s.unicode_len();
    if n != ADDRESS_CHARS {
        return false;
    }
    s.get_char(0) == '0' && s.get_char(1) == 'x'
}

/// An optional text field, or the given default when absent.
pub open spec fn opt_str_or(o: Option<String>, dflt: Seq<char>) -> Seq<char> {
    match o {
        Some(s) => s@,
        None => dflt,
    }
}

/// A transaction matches when its sender or its contract field equals the
/// target address; absent fields read as empty text.
pub open spec fn tx_matches(t: RawTransaction, addr: Seq<char>) -> bool {
    opt_str_or(t.sender_address, Seq::empty()) == addr || opt_str_or(
        t.contract_address,
        Seq::empty(),
    ) == addr
}

/// The subsequence of transactions matching the address, in list order.
pub open spec fn matching_of(txs: Seq<RawTransaction>, addr: Seq<char>) -> Seq<RawTransaction>
    decreases txs.len(),
{
    if txs.len() == 0 {
        Seq::empty()
    } else {
        let init = matching_of(txs.drop_last(), addr);
        if tx_matches(txs.last(), addr) {
            init.push(txs.last())
        } else {
            init
        }
    }
}

/// The report record built from one matched transaction: the scanned block
/// number and its timestamp, the transaction's own fields with their
/// defaults, and the target address itself in the contract column.
pub open spec fn info_corresponds(
    info: TransactionInfo,
    t: RawTransaction,
    block_number: u64,
    ts: u64,
    addr: Seq<char>,
) -> bool {
    &&& info.block_number == block_number
    &&& info.transaction_hash@ == opt_str_or(t.transaction_hash, Seq::empty())
    &&& info.sender_address@ == opt_str_or(t.sender_address, Seq::empty())
    &&& info.contract_address@ == addr
    &&& info.max_fee@ == opt_str_or(t.max_fee, "0x0"@)
    &&& info.tx_type@ == opt_str_or(t.tx_type, "INVOKE"@)
    &&& info.timestamp == ts
}

/// Collects the report records of the transactions matching `address`.
pub fn matching_transactions(block_number: u64, block: BlockInfo, address: &String) -> (r: Vec<
    TransactionInfo,
>)
    ensures
        r@.len() == matching_of(block.transactions@, address@).len(),
        forall|j: int|
            0 <= j < r@.len() ==> info_corresponds(
                #[trigger] r@[j],
                matching_of(block.transactions@, address@)[j],
                block_number,
                block.timestamp,
                address@,
            ),
{
    let ts = block.timestamp;
    let ghost txs0 = block.transactions@;
    let n0 = block.transactions.len();
    let mut txs = block.transactions;
    let mut out: Vec<TransactionInfo> = Vec::new();
    let mut i: usize = 0;
    proof {
        assert(txs0.skip(0) =~= txs0);
    }
    while txs.len() > 0
        invariant
            n0 == txs0.len(),
            i + txs@.len() == txs0.len(),
            txs@ == txs0.skip(i as int),
            out@.len() == matching_of(txs0.take(i as int), address@).len(),
            forall|j: int|
                0 <= j < out@.len() ==> info_corresponds(
                    #[trigger] out@[j],
                    matching_of(txs0.take(i as int), address@)[j],
                    block_number,
                    ts,
                    address@,
                ),
        decreases txs@.len(),
    {
        let t = txs.remove(0);
        proof {
            assert(txs0.skip(i as int)[0] == txs0[i as int]);
            assert(txs0.skip(i as int).remove(0) =~= txs0.skip(i as int + 1));
            assert(txs0.take(i as int + 1).drop_last() =~= txs0.take(i as int));
            assert(txs0.take(i as int + 1).last() == txs0[i as int]);
        }
        proof {
            if address@.len() == 0 {
                assert(Seq::<char>::empty() =~= address@);
            }
        }
        let sender_eq = match &t.sender_address {
            Some(s) => *s == *address,
            None => address.as_str().is_empty(),
        };
        let contract_eq = match &t.contract_address {
            Some(c) => *c == *address,
            None => address.as_str().is_empty(),
        };
        proof {
            assert(sender_eq == (opt_str_or(t.sender_address, Seq::empty()) == address@));
            assert(contract_eq == (opt_str_or(t.contract_address, Seq::empty()) == address@));
        }
        if sender_eq || contract_eq {
            let transaction_hash = match &t.transaction_hash {
                Some(h) => h.clone(),
                None => String::new(),
            };
            let sender_address = match &t.sender_address {
                Some(s) => s.clone(),
                None => String::new(),
            };
            let max_fee = match &t.max_fee {
                Some(f) => f.clone(),
                None => String::from_str("0x0"),
            };
            let tx_type = match &t.tx_type {
                Some(ty) => ty.clone(),
                None => String::from_str("INVOKE"),
            };
            out.push(
                TransactionInfo {
                    block_number,
                    transaction_hash,
                    sender_address,
                    contract_address: address.clone(),
                    max_fee,
                    tx_type,
                    timestamp: ts,
                },
            );
        }
        i = i + 1;
    }
    proof {
        assert(txs0.take(n0 as int) =~= txs0);
    }
    out
}

/// The fee one report record contributes to the total: its parsed 128-bit
/// value, zero when malformed.
pub open spec fn fee_value(info: TransactionInfo) -> nat {
    match hex_u128(info.max_fee@) {
        Some(v) => v as nat,
        None => 0,
    }
}

/// Total fees over the matched set, saturating at the 128-bit limit at
/// each step.
pub open spec fn total_fee_sum(s: Seq<TransactionInfo>) -> nat
    decreases s.len(),
{
    if s.len() == 0 {
        0
    } else {
        let rest = total_fee_sum(s.drop_last());
        if rest + fee_value(s.last()) > u128::MAX as nat {
            u128::MAX as nat
        } else {
            (rest + fee_value(s.last())) as nat
        }
    }
}

/// Sums the parseable fees, saturating at the 128-bit limit.
fn sum_fees(txs: &Vec<TransactionInfo>) -> (r: u128)
    ensures
        r as nat == total_fee_sum(txs@),
{
    let mut total: u128 = 0;
    let mut i: usize = 0;
    while i < txs.len()
        invariant
            i <= txs@.len(),
            total as nat == total_fee_sum(txs@.take(i as int)),
        decreases txs@.len() - i,
    {
        let f = match crate::hexnum::parse_hex_u128(txs[i].max_fee.as_str()) {
            Some(v) => v,
            None => 0,
        };
        proof {
            assert(txs@.take(i as int + 1).drop_last() =~= txs@.take(i as int));
            assert(txs@.take(i as int + 1).last() == txs@[i as int]);
        }
        total = total.saturating_add(f);
        i = i + 1;
    }
    proof {
        assert(txs@.take(txs@.len() as int) =~= txs@);
    }
    total
}

/// The sender column of the matched set.
pub open spec fn sender_views(s: Seq<TransactionInfo>) -> Seq<Seq<char>> {
    s.map_values(|t: TransactionInfo| t.sender_address@)
}

/// The set of distinct sender addresses among the matched transactions.
pub open spec fn sender_set(s: Seq<TransactionInfo>) -> Set<Seq<char>> {
    sender_views(s).to_set()
}

proof fn lemma_to_set_push<A>(s: Seq<A>, x: A)
    ensures
        s.push(x).to_set() == s.to_set().insert(x),
{
    assert forall|a: A| #[trigger] s.push(x).contains(a) implies (s.contains(a) || a == x) by {
        let j = choose|j: int| 0 <= j < s.push(x).len() && s.push(x)[j] == a;
        if j < s.len() {
            assert(s[j] == a);
        }
    };
    assert forall|a: A| s.contains(a) implies s.push(x).contains(a) by {
        let j = choose|j: int| 0 <= j < s.len() && s[j] == a;
        assert(s.push(x)[j] == a);
    };
    assert(s.push(x)[s.len() as int] == x);
    assert(s.push(x).contains(x));
    assert(s.push(x).to_set() =~= s.to_set().insert(x));
}

/// Counts distinct senders: the cardinality of the sender set.
fn count_unique_senders(txs: &Vec<TransactionInfo>) -> (n: usize)
    ensures
        n == sender_set(txs@).len(),
{
    broadcast use vstd::seq_lib::seq_to_set_is_finite;
    broadcast use vstd::set::group_set_axioms;

    let mut seen: Vec<String> = Vec::new();
    let mut i: usize = 0;
    proof {
        assert(strings_view(seen@) =~= Seq::<Seq<char>>::empty());
        assert(sender_views(txs@.take(0)) =~= Seq::<Seq<char>>::empty());
        assert(strings_view(seen@).to_set() =~= sender_set(txs@.take(0)));
    }
    while i < txs.len()
        invariant
            i <= txs@.len(),
            strings_view(seen@).no_duplicates(),
            strings_view(seen@).to_set() == sender_set(txs@.take(i as int)),
            seen@.len() == strings_view(seen@).len(),
        decreases txs@.len() - i,
    {
        broadcast use vstd::seq_lib::seq_to_set_is_finite;
        broadcast use vstd::set::group_set_axioms;

        let sender = &txs[i].sender_address;
        let mut found = false;
        let mut j: usize = 0;
        while j < seen.len()
            invariant
                j <= seen@.len(),
                found <==> exists|k: int|
                    0 <= k < j && strings_view(seen@)[k] == sender@,
            decreases seen@.len() - j,
        {
            proof {
                assert(strings_view(seen@)[j as int] == seen@[j as int]@);
            }
            if seen[j] == *sender {
                found = true;
            }
            j = j + 1;
        }
        proof {
            assert(sender_views(txs@.take(i as int + 1)) =~= sender_views(
                txs@.take(i as int),
            ).push(sender@));
            lemma_to_set_push(sender_views(txs@.take(i as int)), sender@);
            if found {
                let k = choose|k: int|
                    0 <= k < seen@.len() && strings_view(seen@)[k] == sender@;
                assert(strings_view(seen@).contains(sender@));
                assert(strings_view(seen@).to_set().contains(sender@));
                assert(strings_view(seen@).to_set().insert(sender@) =~= strings_view(
                    seen@,
                ).to_set());
            } else {
                assert(forall|k: int|
                    0 <= k < strings_view(seen@).len() ==> strings_view(seen@)[k] != sender@);
                assert(!strings_view(seen@).contains(sender@));
                assert(!strings_view(seen@).to_set().contains(sender@));
            }
        }
        if !found {
            let ghost m1 = strings_view(seen@);
            let ghost x = sender@;
            seen.push(sender.clone());
            proof {
                let m2 = strings_view(seen@);
                assert(m2 =~= m1.push(x));
                assert forall|p: int, q: int| 0 <= p < q < m2.len() implies m2[p] != m2[q] by {
                    if q < m1.len() {
                        assert(m1[p] != m1[q]);
                    } else {
                        assert(m2[q] == x);
                        assert(m1[p] != x);
                    }
                }
                lemma_to_set_push(m1, x);
            }
        }
        i = i + 1;
    }
    proof {
        assert(txs@.take(txs@.len() as int) =~= txs@);
        strings_view(seen@).unique_seq_to_set();
    }
    seen.len()
}

/// How many blocks the resolved range covers: zero when inverted, else the
/// inclusive width, clamped to the count type.
pub open spec fn blocks_in_range(from_block: u64, to_block: u64) -> int {
    if from_block <= to_block {
        if to_block - from_block + 1 > usize::MAX as int {
            usize::MAX as int
        } else {
            to_block - from_block + 1
        }
    } else {
        0
    }
}

/// Computes the inclusive width of the range, clamped.
pub fn range_size(from_block: u64, to_block: u64) -> (r: usize)
    ensures
        r == blocks_in_range(from_block, to_block),
{
    if from_block > to_block {
        return 0;
    }
    let d = to_block - from_block;
    if d >= usize::MAX as u64 {
        usize::MAX
    } else {
        (d + 1) as usize
    }
}

/// What the analysis reports: identity of the query, counts and fee
/// aggregates over the full matched set, the ten most recent records, and
/// the zeroed `No Recent Activity` shape when nothing matched.
pub open spec fn analysis_corresponds(
    a: ContractAnalysis,
    matched: Seq<TransactionInfo>,
    addr: Seq<char>,
    blocks_analyzed: int,
    current_block: u64,
    from_block: u64,
    to_block: u64,
) -> bool {
    &&& a.contract_address@ == addr
    &&& a.transaction_count == matched.len()
    &&& a.blocks_analyzed == blocks_analyzed
    &&& a.current_block == current_block
    &&& a.from_block == from_block
    &&& a.to_block == to_block
    &&& if matched.len() == 0 {
        &&& a.status@ == "No Recent Activity"@
        &&& a.avg_fee@ == "0"@
        &&& a.total_fees@ == "0"@
        &&& a.unique_senders == 0
        &&& a.transactions@ == Seq::<TransactionInfo>::empty()
    } else {
        &&& a.status@ == "Active"@
        &&& a.total_fees@ == scaled_fee_string(total_fee_sum(matched), 4)
        &&& a.avg_fee@ == scaled_fee_string(total_fee_sum(matched) / matched.len(), 6)
        &&& a.unique_senders == sender_set(matched).len()
        &&& a.transactions@ == matched.take(
            if matched.len() < 10 {
                matched.len() as int
            } else {
                10
            },
        )
    }
}

/// Builds the analysis record from the matched transactions: totals and
/// average in exact integer arithmetic, distinct senders by cardinality,
/// and at most the ten most recent records in the report.
pub fn aggregate_analysis(
    contract_address: &String,
    matched: Vec<TransactionInfo>,
    blocks_analyzed: usize,
    current_block: u64,
    from_block: u64,
    to_block: u64,
) -> (a: ContractAnalysis)
    ensures
        analysis_corresponds(
            a,
            matched@,
            contract_address@,
            blocks_analyzed as int,
            current_block,
            from_block,
            to_block,
        ),
{
    let count = matched.len();
    if count == 0 {
        return ContractAnalysis {
            contract_address: contract_address.clone(),
            status: String::from_str("No Recent Activity"),
            transaction_count: 0,
            avg_fee: String::from_str("0"),
            total_fees: String::from_str("0"),
            unique_senders: 0,
            blocks_analyzed,
            current_block,
            from_block,
            to_block,
            transactions: Vec::new(),
        };
    }
    let total = sum_fees(&matched);
    let avg = total / (count as u128);
    let unique = count_unique_senders(&matched);
    let total_str = format_scaled_fee(total, 4);
    let avg_str = format_scaled_fee(avg, 6);
    let ghost matched0 = matched@;
    let mut top = matched;
    proof {
        assert(matched0.take(matched0.len() as int) =~= matched0);
    }
    while top.len() > 10
        invariant
            top@.len() <= matched0.len(),
            top@.len() >= 10 || top@.len() == matched0.len(),
            top@ == matched0.take(top@.len() as int),
        decreases top@.len(),
    {
        proof {
            assert(matched0.take(top@.len() as int).subrange(0, top@.len() - 1) =~= matched0.take(
                top@.len() - 1,
            ));
        }
        top.pop();
    }
    ContractAnalysis {
        contract_address: contract_address.clone(),
        status: String::from_str("Active"),
        transaction_count: count,
        avg_fee: avg_str,
        total_fees: total_str,
        unique_senders: unique,
        blocks_analyzed,
        current_block,
        from_block,
        to_block,
        transactions: top,
    }
}

/// Where one contract analysis stands.
pub enum ScanPhase {
    /// Fetching the latest block number.
    Current(BlockNumberCall),
    /// Resolving the lower bound from the given wall-clock time.
    LocateFrom { current: u64, loc: BlockLocator },
    /// Resolving the upper bound from the given wall-clock time.
    LocateTo { current: u64, from_block: u64, loc: BlockLocator },
    /// Fetching block `next` and walking down to `from_block`.
    Scan {
        current: u64,
        from_block: u64,
        to_block: u64,
        next: u64,
        matched: Vec<TransactionInfo>,
        call: CallState,
    },
    Finished(Result<ContractAnalysis, RpcFailure>),
}

/// One `analyze_contract` operation, driven attempt by attempt.
pub struct ContractScan {
    pub contract_address: String,
    pub from_timestamp: Option<u64>,
    pub to_timestamp: Option<u64>,
    pub phase: ScanPhase,
}

/// The default lower bound when no start time is given: a thousand blocks
/// back, clamped at genesis.
pub open spec fn default_from_block(current: u64) -> u64 {
    if current >= 1000 {
        (current - 1000) as u64
    } else {
        0
    }
}

/// `m2` extends `m1` by the report records of the block's matching
/// transactions.
pub open spec fn scan_appended(
    m2: Seq<TransactionInfo>,
    m1: Seq<TransactionInfo>,
    raw: RawBlock,
    next: u64,
    addr: Seq<char>,
) -> bool {
    let found = matching_of(raw.transactions@, addr);
    &&& m2.len() == m1.len() + found.len()
    &&& forall|j: int| 0 <= j < m1.len() ==> m2[j] == m1[j]
    &&& forall|j: int|
        0 <= j < found.len() ==> info_corresponds(
            #[trigger] m2[m1.len() + j],
            found[j],
            next,
            observed_ts(raw),
            addr,
        )
}

/// Entry into the scan once the bounds are resolved: an inverted range
/// reports the empty profile at once, otherwise scanning starts at the
/// newest block of the range.
pub open spec fn scan_entry(
    phase: ScanPhase,
    addr: Seq<char>,
    current: u64,
    from_block: u64,
    to_block: u64,
    budget: nat,
) -> bool {
    if from_block > to_block {
        phase matches ScanPhase::Finished(res) && res matches Ok(a) && analysis_corresponds(
            a,
            Seq::empty(),
            addr,
            0,
            current,
            from_block,
            to_block,
        )
    } else {
        phase matches ScanPhase::Scan {
            current: c2,
            from_block: f2,
            to_block: t2,
            next,
            matched,
            call,
        } && c2 == current && f2 == from_block && t2 == to_block && next == to_block && matched@
            == Seq::<TransactionInfo>::empty() && call.attempts_left == budget
    }
}

/// What a failed block-fetch attempt leaves behind: the same block with
/// one fewer attempt while budget remains; an exhausted budget is
/// terminal — the scan fails, no partial aggregate is reported.
pub open spec fn scan_attempt_failed(
    s: ContractScan,
    current: u64,
    from_block: u64,
    to_block: u64,
    next: u64,
    matched: Seq<TransactionInfo>,
    call: CallState,
) -> bool {
    if call.attempts_left > 1 {
        s.phase matches ScanPhase::Scan {
            current: c2,
            from_block: f2,
            to_block: t2,
            next: n2,
            matched: mm,
            call: k2,
        } && c2 == current && f2 == from_block && t2 == to_block && n2 == next && mm@ == matched
            && k2.attempts_left == call.attempts_left - 1
    } else {
        s.phase == ScanPhase::Finished(
            Err::<ContractAnalysis, RpcFailure>(RpcFailure::AllEndpointsFailed),
        )
    }
}

impl ContractScan {
    pub open spec fn wf(&self) -> bool {
        match self.phase {
            ScanPhase::Current(c) => c.wf() && c.done is None,
            ScanPhase::LocateFrom { loc, .. } => loc.wf() && !(loc.phase is Finished),
            ScanPhase::LocateTo { loc, .. } => loc.wf() && !(loc.phase is Finished),
            ScanPhase::Scan { from_block, to_block, next, call, .. } => from_block <= next && next
                <= to_block && call.attempts_left > 0,
            ScanPhase::Finished(_) => true,
        }
    }

    /// The phase after the lower bound resolves to `from_block`: locate
    /// the upper bound when an end time was given, else scan up to the
    /// current block.
    pub open spec fn from_resolved(
        self,
        s: ContractScan,
        current: u64,
        from_block: u64,
        budget: nat,
    ) -> bool {
        match self.to_timestamp {
            Some(ts) => s.phase matches ScanPhase::LocateTo { current: c2, from_block: f2, loc }
                && c2 == current && f2 == from_block && loc.target == ts && loc.phase is Latest,
            None => scan_entry(
                s.phase,
                self.contract_address@,
                current,
                from_block,
                current,
                budget,
            ),
        }
    }

    /// The phase after the current block number resolves: locate the lower
    /// bound when a start time was given, else default it.
    pub open spec fn current_resolved(self, s: ContractScan, current: u64, budget: nat) -> bool {
        match self.from_timestamp {
            Some(ts) => s.phase matches ScanPhase::LocateFrom { current: c2, loc } && c2 == current
                && loc.target == ts && loc.phase is Latest,
            None => self.from_resolved(s, current, default_from_block(current), budget),
        }
    }

    /// Begins analysing `contract_address`, rejecting a malformed address
    /// before any network round trip.
    pub fn start(
        svc: &RpcService,
        contract_address: String,
        from_timestamp: Option<u64>,
        to_timestamp: Option<u64>,
    ) -> (r: Result<ContractScan, RpcFailure>)
        requires
            svc.wf(),
        ensures
            valid_address(contract_address@) ==> (r matches Ok(s) && s.wf() && s.contract_address
                == contract_address && s.from_timestamp == from_timestamp && s.to_timestamp
                == to_timestamp && (s.phase matches ScanPhase::Current(c) && c.done is None
                && c.call.attempts_left == svc.pool.urls@.len())),
            !valid_address(contract_address@) ==> r == Err::<ContractScan, RpcFailure>(
                RpcFailure::InvalidAddressFormat,
            ),
    {
        if !check_address(contract_address.as_str()) {
            return Err(RpcFailure::InvalidAddressFormat);
        }
        Ok(
            ContractScan {
                contract_address,
                from_timestamp,
                to_timestamp,
                phase: ScanPhase::Current(BlockNumberCall::start(svc)),
            },
        )
    }

    /// While unfinished: the URL to post to and a fresh envelope — the
    /// latest block number, the locators' probes, then one snapshot per
    /// scanned block.
    pub fn next_request(&self, svc: &RpcService) -> (r: Option<(String, RpcRequest)>)
        requires
            svc.wf(),
            self.wf(),
        ensures
            match self.phase {
                ScanPhase::Finished(_) => r is None,
                ScanPhase::Current(_) => (r matches Some(p) && p.0@ == svc.pool.current_url()
                    && p.1.jsonrpc@ == "2.0"@ && p.1.id == 1 && p.1.method@ == method_name(
                    p.1.params,
                ) && p.1.params is BlockNumber),
                ScanPhase::LocateFrom { loc, .. } => (r matches Some(p) && p.0@
                    == svc.pool.current_url() && p.1.jsonrpc@ == "2.0"@ && p.1.id == 1
                    && p.1.method@ == method_name(p.1.params) && locator_probe(loc, p.1.params)),
                ScanPhase::LocateTo { loc, .. } => (r matches Some(p) && p.0@
                    == svc.pool.current_url() && p.1.jsonrpc@ == "2.0"@ && p.1.id == 1
                    && p.1.method@ == method_name(p.1.params) && locator_probe(loc, p.1.params)),
                ScanPhase::Scan { next, .. } => (r matches Some(p) && p.0@
                    == svc.pool.current_url() && p.1.jsonrpc@ == "2.0"@ && p.1.id == 1
                    && p.1.method@ == method_name(p.1.params) && p.1.params
                    == RpcParams::GetBlockWithTxs { block_number: next }),
            },
    {
        match &self.phase {
            ScanPhase::Finished(_) => None,
            ScanPhase::Current(c) => c.next_request(svc),
            ScanPhase::LocateFrom { loc, .. } => loc.next_request(svc),
            ScanPhase::LocateTo { loc, .. } => loc.next_request(svc),
            ScanPhase::Scan { next, .. } => {
                let url = svc.pool.current().clone();
                Some((url, RpcRequest::make(RpcParams::GetBlockWithTxs { block_number: *next })))
            },
        }
    }

    /// Absorbs one attempt. The current block number and the two optional
    /// locates resolve the range; the scan then walks it newest to oldest,
    /// appending each fetched block's matching transactions; reaching the
    /// lower bound reports the aggregate analysis. A block fetch that
    /// exhausts every endpoint fails the whole scan with
    /// `AllEndpointsFailed` — no partial aggregate is returned.
    pub fn feed(self, svc: &mut RpcService, outcome: AttemptOutcome) -> (s: Self)
        requires
            old(svc).wf(),
            self.wf(),
            !(self.phase is Finished),
        ensures
            final(svc).wf(),
            final(svc).pool.urls == old(svc).pool.urls,
            s.wf(),
            s.contract_address == self.contract_address,
            s.from_timestamp == self.from_timestamp,
            s.to_timestamp == self.to_timestamp,
            match self.phase {
                ScanPhase::Current(c) => match outcome {
                    AttemptOutcome::Payload(pl) => match pl {
                        RpcPayload::BlockNumber(v) => match block_number_of(v) {
                            Ok(current) => self.current_resolved(
                                s,
                                current,
                                old(svc).pool.urls@.len(),
                            ),
                            Err(e) => s.phase == ScanPhase::Finished(
                                Err::<ContractAnalysis, RpcFailure>(e),
                            ),
                        },
                        _ => if c.call.attempts_left > 1 {
                            s.phase matches ScanPhase::Current(c2) && c2.done is None
                                && c2.call.attempts_left == c.call.attempts_left - 1
                        } else {
                            s.phase == ScanPhase::Finished(
                                Err::<ContractAnalysis, RpcFailure>(
                                    RpcFailure::AllEndpointsFailed,
                                ),
                            )
                        },
                    },
                    _ => if c.call.attempts_left > 1 {
                        s.phase matches ScanPhase::Current(c2) && c2.done is None
                            && c2.call.attempts_left == c.call.attempts_left - 1
                    } else {
                        s.phase == ScanPhase::Finished(
                            Err::<ContractAnalysis, RpcFailure>(RpcFailure::AllEndpointsFailed),
                        )
                    },
                },
                ScanPhase::LocateFrom { current, loc } => match locator_verdict(
                    loc,
                    outcome,
                    old(svc).pool.urls@.len(),
                ) {
                    None => (s.phase matches ScanPhase::LocateFrom { current: c2, loc: l2 } && c2
                        == current && l2.target == loc.target),
                    Some(res) => match res {
                        Err(e) => s.phase == ScanPhase::Finished(
                            Err::<ContractAnalysis, RpcFailure>(e),
                        ),
                        Ok(b) => self.from_resolved(s, current, b, old(svc).pool.urls@.len()),
                    },
                },
                ScanPhase::LocateTo { current, from_block, loc } => match locator_verdict(
                    loc,
                    outcome,
                    old(svc).pool.urls@.len(),
                ) {
                    None => (s.phase matches ScanPhase::LocateTo {
                        current: c2,
                        from_block: f2,
                        loc: l2,
                    } && c2 == current && f2 == from_block && l2.target == loc.target),
                    Some(res) => match res {
                        Err(e) => s.phase == ScanPhase::Finished(
                            Err::<ContractAnalysis, RpcFailure>(e),
                        ),
                        Ok(b) => scan_entry(
                            s.phase,
                            self.contract_address@,
                            current,
                            from_block,
                            b,
                            old(svc).pool.urls@.len(),
                        ),
                    },
                },
                ScanPhase::Scan { current, from_block, to_block, next, matched, call } => match outcome {
                    AttemptOutcome::Payload(pl) => match pl {
                        RpcPayload::Block(raw) => {
                            if next == from_block {
                                s.phase matches ScanPhase::Finished(res) && res matches Ok(a)
                                    && exists|m2: Seq<TransactionInfo>|
                                    #[trigger] scan_appended(
                                        m2,
                                        matched@,
                                        raw,
                                        next,
                                        self.contract_address@,
                                    ) && analysis_corresponds(
                                        a,
                                        m2,
                                        self.contract_address@,
                                        blocks_in_range(from_block, to_block),
                                        current,
                                        from_block,
                                        to_block,
                                    )
                            } else {
                                s.phase matches ScanPhase::Scan {
                                    current: c2,
                                    from_block: f2,
                                    to_block: t2,
                                    next: n2,
                                    matched: mm,
                                    call: k2,
                                } && c2 == current && f2 == from_block && t2 == to_block && n2
                                    == next - 1 && scan_appended(
                                    mm@,
                                    matched@,
                                    raw,
                                    next,
                                    self.contract_address@,
                                ) && k2.attempts_left == old(svc).pool.urls@.len()
                            }
                        },
                        _ => scan_attempt_failed(
                            s,
                            current,
                            from_block,
                            to_block,
                            next,
                            matched@,
                            call,
                        ),
                    },
                    _ => scan_attempt_failed(
                        s,
                        current,
                        from_block,
                        to_block,
                        next,
                        matched@,
                        call,
                    ),
                },
                ScanPhase::Finished(_) => false,
            },
    {
        let ContractScan { contract_address, from_timestamp, to_timestamp, phase } = self;
        match phase {
            ScanPhase::Current(c) => {
                let c2 = c.feed(svc, outcome);
                match c2.done {
                    None => ContractScan {
                        contract_address,
                        from_timestamp,
                        to_timestamp,
                        phase: ScanPhase::Current(c2),
                    },
                    Some(res) => match res {
                        Err(e) => ContractScan {
                            contract_address,
                            from_timestamp,
                            to_timestamp,
                            phase: ScanPhase::Finished(Err(e)),
                        },
                        Ok(current) => match from_timestamp {
                            Some(ts) => ContractScan {
                                contract_address,
                                from_timestamp,
                                to_timestamp,
                                phase: ScanPhase::LocateFrom {
                                    current,
                                    loc: BlockLocator::start(svc, ts),
                                },
                            },
                            None => {
                                let fb = current.saturating_sub(1000);
                                match to_timestamp {
                                    Some(ts) => ContractScan {
                                        contract_address,
                                        from_timestamp,
                                        to_timestamp,
                                        phase: ScanPhase::LocateTo {
                                            current,
                                            from_block: fb,
                                            loc: BlockLocator::start(svc, ts),
                                        },
                                    },
                                    None => {
                                        let phase = enter_scan_phase(
                                            svc,
                                            &contract_address,
                                            current,
                                            fb,
                                            current,
                                        );
                                        ContractScan {
                                            contract_address,
                                            from_timestamp,
                                            to_timestamp,
                                            phase,
                                        }
                                    },
                                }
                            },
                        },
                    },
                }
            },
            ScanPhase::LocateFrom { current, loc } => {
                let loc2 = loc.feed(svc, outcome);
                match loc2.result() {
                    None => ContractScan {
                        contract_address,
                        from_timestamp,
                        to_timestamp,
                        phase: ScanPhase::LocateFrom { current, loc: loc2 },
                    },
                    Some(res) => match res {
                        Err(e) => ContractScan {
                            contract_address,
                            from_timestamp,
                            to_timestamp,
                            phase: ScanPhase::Finished(Err(e)),
                        },
                        Ok(b) => match to_timestamp {
                            Some(ts) => ContractScan {
                                contract_address,
                                from_timestamp,
                                to_timestamp,
                                phase: ScanPhase::LocateTo {
                                    current,
                                    from_block: b,
                                    loc: BlockLocator::start(svc, ts),
                                },
                            },
                            None => {
                                let phase = enter_scan_phase(
                                    svc,
                                    &contract_address,
                                    current,
                                    b,
                                    current,
                                );
                                ContractScan { contract_address, from_timestamp, to_timestamp, phase }
                            },
                        },
                    },
                }
            },
            ScanPhase::LocateTo { current, from_block, loc } => {
                let loc2 = loc.feed(svc, outcome);
                match loc2.result() {
                    None => ContractScan {
                        contract_address,
                        from_timestamp,
                        to_timestamp,
                        phase: ScanPhase::LocateTo { current, from_block, loc: loc2 },
                    },
                    Some(res) => match res {
                        Err(e) => ContractScan {
                            contract_address,
                            from_timestamp,
                            to_timestamp,
                            phase: ScanPhase::Finished(Err(e)),
                        },
                        Ok(b) => {
                            let phase = enter_scan_phase(
                                svc,
                                &contract_address,
                                current,
                                from_block,
                                b,
                            );
                            ContractScan { contract_address, from_timestamp, to_timestamp, phase }
                        },
                    },
                }
            },
            ScanPhase::Scan { current, from_block, to_block, next, matched, call } => {
                let (call2, prog) = call.absorb(svc, outcome, PayloadKind::Block);
                match prog {
                    CallProgress::Retry => ContractScan {
                        contract_address,
                        from_timestamp,
                        to_timestamp,
                        phase: ScanPhase::Scan {
                            current,
                            from_block,
                            to_block,
                            next,
                            matched,
                            call: call2,
                        },
                    },
                    CallProgress::Exhausted => ContractScan {
                        contract_address,
                        from_timestamp,
                        to_timestamp,
                        phase: ScanPhase::Finished(Err(RpcFailure::AllEndpointsFailed)),
                    },
                    CallProgress::Delivered(pl) => match pl {
                        RpcPayload::Block(raw) => {
                            let m2 = extend_matched(matched, raw, next, &contract_address);
                            let phase = if next == from_block {
                                let blocks = range_size(from_block, to_block);
                                let a = aggregate_analysis(
                                    &contract_address,
                                    m2,
                                    blocks,
                                    current,
                                    from_block,
                                    to_block,
                                );
                                ScanPhase::Finished(Ok(a))
                            } else {
                                ScanPhase::Scan {
                                    current,
                                    from_block,
                                    to_block,
                                    next: next - 1,
                                    matched: m2,
                                    call: CallState::begin(svc),
                                }
                            };
                            ContractScan { contract_address, from_timestamp, to_timestamp, phase }
                        },
                        _ => {
                            proof {
                                assert(false);
                            }
                            ContractScan {
                                contract_address,
                                from_timestamp,
                                to_timestamp,
                                phase: ScanPhase::Finished(Err(RpcFailure::AllEndpointsFailed)),
                            }
                        },
                    },
                }
            },
            ScanPhase::Finished(res) => ContractScan {
                contract_address,
                from_timestamp,
                to_timestamp,
                phase: ScanPhase::Finished(res),
            },
        }
    }

    /// The analysis, once finished.
    pub fn into_result(self) -> (r: Option<Result<ContractAnalysis, RpcFailure>>)
        ensures
            match self.phase {
                ScanPhase::Finished(res) => r == Some(res),
                _ => r is None,
            },
    {
        match self.phase {
            ScanPhase::Finished(res) => Some(res),
            _ => None,
        }
    }
}

/// Opens the scan over a resolved range.
fn enter_scan_phase(
    svc: &RpcService,
    address: &String,
    current: u64,
    from_block: u64,
    to_block: u64,
) -> (p: ScanPhase)
    requires
        svc.wf(),
    ensures
        scan_entry(p, address@, current, from_block, to_block, svc.pool.urls@.len()),
{
    if from_block > to_block {
        let a = aggregate_analysis(address, Vec::new(), 0, current, from_block, to_block);
        ScanPhase::Finished(Ok(a))
    } else {
        ScanPhase::Scan {
            current,
            from_block,
            to_block,
            next: to_block,
            matched: Vec::new(),
            call: CallState::begin(svc),
        }
    }
}

/// Appends the report records of one fetched block's matching
/// transactions.
fn extend_matched(
    matched: Vec<TransactionInfo>,
    raw: RawBlock,
    next: u64,
    address: &String,
) -> (r: Vec<TransactionInfo>)
    ensures
        scan_appended(r@, matched@, raw, next, address@),
{
    let ghost m1 = matched@;
    let block = interpret_block(next, raw);
    let mut infos = matching_transactions(next, block, address);
    let ghost found = matching_of(raw.transactions@, address@);
    let mut m = matched;
    m.append(&mut infos);
    proof {
        assert(forall|j: int| 0 <= j < m1.len() ==> m@[j] == m1[j]);
    }
    m
}

} // verus!
