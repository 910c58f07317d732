//! Typed JSON-RPC 2.0 protocol values for the three provider methods.
//!
//! Requests are built here as plain typed values; the unverified driver
//! serialises them to JSON, posts them, and maps each response back into the
//! plain shapes below, preserving exactly which fields were present.

use vstd::prelude::*;
use vstd::string::*;
use crate::hexnum::hex_u64;

verus! {

/// Maximum number of events requested per page.
pub const CHUNK_SIZE: u64 = 1000;

/// Why a client operation failed.
#[derive(Clone, Copy, Debug, PartialEq, Eq, Structural)]
pub enum RpcFailure {
    /// Every endpoint in the pool failed or returned no usable result
    /// within the attempt budget.
    AllEndpointsFailed,
    /// A block-number result could not be read as hex text or a number.
    InvalidBlockNumberFormat,
    /// An events query response lacked an `events` array.
    InvalidEventsResponse,
    /// An address failed the `0x`-plus-66-character check.
    InvalidAddressFormat,
}

/// JSON-RPC error object carried in a response envelope.
#[derive(Debug)]
pub struct RpcError {
    pub code: i32,
    pub message: String,
}

/// Filter of a `starknet_getEvents` query.
#[derive(Debug)]
pub struct EventFilter {
    pub address: String,
    pub from_block: u64,
    pub to_block: u64,
    pub chunk_size: u64,
    pub continuation_token: Option<String>,
}

/// Typed parameters of the three provider methods.
#[derive(Debug)]
pub enum RpcParams {
    BlockNumber,
    GetBlockWithTxs { block_number: u64 },
    GetEvents { filter: EventFilter },
}

/// One JSON-RPC 2.0 request envelope.
#[derive(Debug)]
pub struct RpcRequest {
    pub jsonrpc: String,
    pub method: String,
    pub params: RpcParams,
    pub id: u64,
}

/// The wire name of each method.
pub open spec fn method_name(p: RpcParams) -> Seq<char> {
    match p {
        RpcParams::BlockNumber => "starknet_blockNumber"@,
        RpcParams::GetBlockWithTxs { .. } => "starknet_getBlockWithTxs"@,
        RpcParams::GetEvents { .. } => "starknet_getEvents"@,
    }
}

impl RpcRequest {
    /// Builds a fresh envelope; requests are sequential, so the id is the
    /// constant 1 and is never used for correlation.
    pub fn make(params: RpcParams) -> (r: RpcRequest)
        ensures
            r.jsonrpc@ == "2.0"@,
            r.id == 1,
            r.method@ == method_name(params),
            r.params == params,
    {
        let method = match &params {
            RpcParams::BlockNumber => String::from_str("starknet_blockNumber"),
            RpcParams::GetBlockWithTxs { .. } => String::from_str("starknet_getBlockWithTxs"),
            RpcParams::GetEvents { .. } => String::from_str("starknet_getEvents"),
        };
        RpcRequest { jsonrpc: String::from_str("2.0"), method, params, id: 1 }
    }
}

/// Raw result of `starknet_blockNumber`: providers answer with either a hex
/// string or a numeric literal; anything else is `Other`.
#[derive(Debug)]
pub enum BlockNumberResult {
    Text(String),
    Number(u64),
    Other,
}

/// A transaction record as present in a fetched block; absent or non-string
/// JSON fields arrive as `None`.
#[derive(Debug)]
pub struct RawTransaction {
    pub transaction_hash: Option<String>,
    pub sender_address: Option<String>,
    pub contract_address: Option<String>,
    pub max_fee: Option<String>,
    pub tx_type: Option<String>,
}

/// A block as returned by `starknet_getBlockWithTxs`, fields as present.
#[derive(Debug)]
pub struct RawBlock {
    pub block_number: Option<u64>,
    pub timestamp: Option<u64>,
    pub transactions: Vec<RawTransaction>,
}

/// One raw event record of a `starknet_getEvents` page.
#[derive(Debug)]
pub struct RawEvent {
    pub block_number: Option<u64>,
    pub transaction_hash: Option<String>,
    pub keys: Vec<String>,
    pub data: Vec<String>,
}

/// One page of `starknet_getEvents`; `events` is `None` when the response
/// carried no array under that key.
#[derive(Debug)]
pub struct RawEventsPage {
    pub events: Option<Vec<RawEvent>>,
    pub continuation_token: Option<String>,
}

/// A usable `result` payload, already mapped to the requested method's shape.
#[derive(Debug)]
pub enum RpcPayload {
    BlockNumber(BlockNumberResult),
    Block(RawBlock),
    Events(RawEventsPage),
}

/// What one HTTP attempt against one endpoint produced: a network-level
/// failure, a response without a usable `result` (carrying the provider's
/// error object when one was present), or a usable payload.
#[derive(Debug)]
pub enum AttemptOutcome {
    NetworkFailure,
    NoResult(Option<RpcError>),
    Payload(RpcPayload),
}

/// The three payload shapes, used to state which one a call expects.
#[derive(Clone, Copy, Debug, PartialEq, Eq, Structural)]
pub enum PayloadKind {
    BlockNumber,
    Block,
    Events,
}

pub open spec fn kind_of(p: RpcPayload) -> PayloadKind {
    match p {
        RpcPayload::BlockNumber(_) => PayloadKind::BlockNumber,
        RpcPayload::Block(_) => PayloadKind::Block,
        RpcPayload::Events(_) => PayloadKind::Events,
    }
}

/// A fetched block interpreted for use: number and timestamp defaulted, the
/// transaction list kept as-is.
#[derive(Debug)]
pub struct BlockInfo {
    pub block_number: u64,
    pub timestamp: u64,
    pub transactions: Vec<RawTransaction>,
}

/// The block number a `starknet_blockNumber` result denotes: hex text is
/// parsed, numbers pass through, anything else is a format error.
pub open spec fn block_number_of(v: BlockNumberResult) -> Result<u64, RpcFailure> {
    match v {
        BlockNumberResult::Text(s) => match hex_u64(s@) {
            Some(n) => Ok(n),
            None => Err(RpcFailure::InvalidBlockNumberFormat),
        },
        BlockNumberResult::Number(n) => Ok(n),
        BlockNumberResult::Other => Err(RpcFailure::InvalidBlockNumberFormat),
    }
}

/// Parses a raw block-number result, accepting hex strings and numbers.
pub fn parse_block_number(v: &BlockNumberResult) -> (r: Result<u64, RpcFailure>)
    ensures
        r == block_number_of(*v),
{
    match v {
        BlockNumberResult::Text(s) => match crate::hexnum::parse_hex_u64(s.as_str()) {
            Some(n) => Ok(n),
            None => Err(RpcFailure::InvalidBlockNumberFormat),
        },
        BlockNumberResult::Number(n) => Ok(*n),
        BlockNumberResult::Other => Err(RpcFailure::InvalidBlockNumberFormat),
    }
}

/// Interprets a raw block: a missing number falls back to the requested one,
/// a missing timestamp to zero; transactions are kept unchanged.
pub fn interpret_block(requested: u64, raw: RawBlock) -> (b: BlockInfo)
    ensures
        b.block_number == (match raw.block_number {
            Some(n) => n,
            None => requested,
        }),
        b.timestamp == (match raw.timestamp {
            Some(t) => t,
            None => 0u64,
        }),
        b.transactions == raw.transactions,
{
    let block_number = match raw.block_number {
        Some(n) => n,
        None => requested,
    };
    let timestamp = match raw.timestamp {
        Some(t) => t,
        None => 0,
    };
    BlockInfo { block_number, timestamp, transactions: raw.transactions }
}

} // verus!
