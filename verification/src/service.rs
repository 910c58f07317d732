//! The operations the service exposes, each as a driveable session.
//!
//! A caller obtains a session, posts the request it names, and feeds the
//! observed outcome back until the session finishes. All decisions —
//! failover, search bounds, pagination, aggregation — are made here in
//! verified code; the driver only moves bytes.

use vstd::prelude::*;
use crate::decoder::{DecodedData, decoded_data_corresponds, decoded_name, strings_view};
use crate::events::{EventsPhase, EventsQuery};
use crate::locator::{BlockLocator, LocatorPhase};
use crate::pool::RpcService;
use crate::protocol::RpcFailure;
use crate::scanner::{ContractScan, ScanPhase, valid_address};
use crate::transport::{BlockFetchCall, BlockNumberCall};

verus! {

impl RpcService {
    /// Begins a `starknet_blockNumber` query.
    pub fn get_block_number(&self) -> (s: BlockNumberCall)
        requires
            self.wf(),
        ensures
            s.wf(),
            s.done is None,
            s.call.attempts_left == self.pool.urls@.len(),
    {
        BlockNumberCall::start(self)
    }

    /// Begins a `starknet_getBlockWithTxs` query for one block.
    pub fn get_block_with_txs(&self, block_number: u64) -> (s: BlockFetchCall)
        requires
            self.wf(),
        ensures
            s.wf(),
            s.done is None,
            s.block_number == block_number,
            s.call.attempts_left == self.pool.urls@.len(),
    {
        BlockFetchCall::start(self, block_number)
    }

    /// Begins locating the block nearest a wall-clock time.
    pub fn find_block_by_timestamp(&self, target_timestamp: u64) -> (s: BlockLocator)
        requires
            self.wf(),
        ensures
            s.wf(),
            s.target == target_timestamp,
            (s.phase matches LocatorPhase::Latest(c) && c.done is None && c.call.attempts_left
                == self.pool.urls@.len()),
    {
        BlockLocator::start(self, target_timestamp)
    }

    /// Begins an events query for a contract over a block range.
    pub fn get_events(&self, contract_address: String, from_block: u64, to_block: u64) -> (s:
        EventsQuery)
        requires
            self.wf(),
        ensures
            s.wf(),
            s.address == contract_address,
            s.from_block == from_block,
            s.to_block == to_block,
            (s.phase matches EventsPhase::Paging { token, pages, collected, call } && token
                is None && pages == 0 && collected@.len() == 0 && call.attempts_left
                == self.pool.urls@.len()),
    {
        EventsQuery::start(self, contract_address, from_block, to_block)
    }

    /// Begins a contract activity analysis over optional wall-clock
    /// bounds, rejecting a malformed address before any network call.
    pub fn analyze_contract(
        &self,
        contract_address: String,
        from_timestamp: Option<u64>,
        to_timestamp: Option<u64>,
    ) -> (r: Result<ContractScan, RpcFailure>)
        requires
            self.wf(),
        ensures
            valid_address(contract_address@) ==> (r matches Ok(s) && s.wf() && s.contract_address
                == contract_address && s.from_timestamp == from_timestamp && s.to_timestamp
                == to_timestamp && (s.phase matches ScanPhase::Current(c) && c.done is None
                && c.call.attempts_left == self.pool.urls@.len())),
            !valid_address(contract_address@) ==> r == Err::<ContractScan, RpcFailure>(
                RpcFailure::InvalidAddressFormat,
            ),
    {
        ContractScan::start(self, contract_address, from_timestamp, to_timestamp)
    }

    /// Decodes one raw event's keys and data; total on every input.
    pub fn decode_event(&self, keys: &Vec<String>, data: &Vec<String>) -> (r: (String, DecodedData))
        ensures
            r.0@ == decoded_name(strings_view(keys@), strings_view(data@)),
            decoded_data_corresponds(r.1, strings_view(keys@), strings_view(data@)),
    {
        crate::decoder::decode_event(keys, data)
    }
}

} // verus!
