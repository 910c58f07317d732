//! Pure, total decoding of the recognised event signatures.
//!
//! Dispatch is solely on the first key. Two signatures are recognised — a
//! fungible-token `Transfer` and an `Approval`, each needing at least three
//! data fields — and everything else decodes to the `Unknown Event`
//! sentinel with no structured fields.

use vstd::prelude::*;
use vstd::string::*;
use crate::hexnum::{dec_string, hex_u128, dec_of_u128, parse_hex_u128};

verus! {

/// Selector hash of the fungible-token `Transfer` event.
pub open spec fn transfer_selector() -> Seq<char> {
    "0x99cd8bde557814842a3121e8ddfd433a539b8c9f14bf31ebf108d12e6196e9"@
}

/// Selector hash of the `Approval` event.
pub open spec fn approval_selector() -> Seq<char> {
    "0x1dcde06aabdbca2f80aa51392b345d7549d7757aa855f7e37f5d335ac8243b1"@
}

/// Structured fields decoded from a recognised event.
#[derive(Debug)]
pub enum DecodedData {
    Transfer { from: String, to: String, amount: String },
    Approval { owner: String, spender: String, amount: String },
    Unknown,
}

/// The rendered amount field: the decimal value when the field parses as
/// 128-bit hex, otherwise the raw text unchanged.
pub open spec fn amount_render(raw: Seq<char>) -> Seq<char> {
    match hex_u128(raw) {
        Some(v) => dec_string(v as nat),
        None => raw,
    }
}

/// View of a key or data column as its character sequences.
pub open spec fn strings_view(v: Seq<String>) -> Seq<Seq<char>> {
    v.map_values(|s: String| s@)
}

/// The event name `decode_event` yields, decided in dispatch order.
pub open spec fn decoded_name(keys: Seq<Seq<char>>, data: Seq<Seq<char>>) -> Seq<char> {
    if keys.len() == 0 {
        "Unknown Event"@
    } else if keys[0] == transfer_selector() && data.len() >= 3 {
        "Transfer"@
    } else if keys[0] == approval_selector() && data.len() >= 3 {
        "Approval"@
    } else {
        "Unknown Event"@
    }
}

/// The structured fields `decode_event` yields, decided in dispatch order.
pub open spec fn decoded_data_corresponds(
    d: DecodedData,
    keys: Seq<Seq<char>>,
    data: Seq<Seq<char>>,
) -> bool {
    if keys.len() == 0 {
        d is Unknown
    } else if keys[0] == transfer_selector() && data.len() >= 3 {
        d matches DecodedData::Transfer { from, to, amount } && from@ == data[0] && to@ == data[1]
            && amount@ == amount_render(data[2])
    } else if keys[0] == approval_selector() && data.len() >= 3 {
        d matches DecodedData::Approval { owner, spender, amount } && owner@ == data[0]
            && spender@ == data[1] && amount@ == amount_render(data[2])
    } else {
        d is Unknown
    }
}

/// Renders an amount field for display.
pub fn render_amount(raw: &String) -> (r: String)
    ensures
        r@ == amount_render(raw@),
{
    match parse_hex_u128(raw.as_str()) {
        Some(v) => dec_of_u128(v),
        None => raw.clone(),
    }
}

/// Decodes one raw event's keys and data into a name and structured
/// fields. Total: every input decodes, unrecognised or short inputs to
/// `("Unknown Event", no fields)`.
pub fn decode_event(keys: &Vec<String>, data: &Vec<String>) -> (r: (String, DecodedData))
    ensures
        r.0@ == decoded_name(strings_view(keys@), strings_view(data@)),
        decoded_data_corresponds(r.1, strings_view(keys@), strings_view(data@)),
{
    if keys.len() == 0 {
        return (String::from_str("Unknown Event"), DecodedData::Unknown);
    }
    let transfer = String::from_str(
        "0x99cd8bde557814842a3121e8ddfd433a539b8c9f14bf31ebf108d12e6196e9",
    );
    if keys[0] == transfer && data.len() >= 3 {
        let amount = render_amount(&data[2]);
        return (
            String::from_str("Transfer"),
            DecodedData::Transfer { from: data[0].clone(), to: data[1].clone(), amount },
        );
    }
    let approval = String::from_str(
        "0x1dcde06aabdbca2f80aa51392b345d7549d7757aa855f7e37f5d335ac8243b1",
    );
    if keys[0] == approval && data.len() >= 3 {
        let amount = render_amount(&data[2]);
        return (
            String::from_str("Approval"),
            DecodedData::Approval { owner: data[0].clone(), spender: data[1].clone(), amount },
        );
    }
    (String::from_str("Unknown Event"), DecodedData::Unknown)
}

} // verus!
