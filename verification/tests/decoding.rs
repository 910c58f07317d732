use starknet_rpc::decoder::{decode_event, DecodedData};

const TRANSFER: &str = "0x99cd8bde557814842a3121e8ddfd433a539b8c9f14bf31ebf108d12e6196e9";
const APPROVAL: &str = "0x1dcde06aabdbca2f80aa51392b345d7549d7757aa855f7e37f5d335ac8243b1";

fn strings(items: &[&str]) -> Vec<String> {
    items.iter().map(|s| s.to_string()).collect()
}

#[test]
fn transfer_decodes_with_decimal_amount() {
    let keys = strings(&[TRANSFER]);
    let data = strings(&["0xabc", "0xdef", "0x64"]);
    let (name, decoded) = decode_event(&keys, &data);
    assert_eq!(name, "Transfer");
    match decoded {
        DecodedData::Transfer { from, to, amount } => {
            assert_eq!(from, "0xabc");
            assert_eq!(to, "0xdef");
            assert_eq!(amount, "100");
        },
        _ => panic!("expected Transfer fields"),
    }
}

#[test]
fn approval_decodes() {
    let keys = strings(&[APPROVAL]);
    let data = strings(&["0x1", "0x2", "0xde0b6b3a7640000"]);
    let (name, decoded) = decode_event(&keys, &data);
    assert_eq!(name, "Approval");
    match decoded {
        DecodedData::Approval { owner, spender, amount } => {
            assert_eq!(owner, "0x1");
            assert_eq!(spender, "0x2");
            assert_eq!(amount, "1000000000000000000");
        },
        _ => panic!("expected Approval fields"),
    }
}

#[test]
fn empty_keys_decode_to_unknown() {
    let keys: Vec<String> = Vec::new();
    let data = strings(&["0x1", "0x2", "0x3"]);
    let (name, decoded) = decode_event(&keys, &data);
    assert_eq!(name, "Unknown Event");
    assert!(matches!(decoded, DecodedData::Unknown));
}

#[test]
fn unrecognised_selector_decodes_to_unknown() {
    let keys = strings(&["0x123456"]);
    let data = strings(&["0x1", "0x2", "0x3"]);
    let (name, decoded) = decode_event(&keys, &data);
    assert_eq!(name, "Unknown Event");
    assert!(matches!(decoded, DecodedData::Unknown));
}

#[test]
fn short_data_decodes_to_unknown() {
    let keys = strings(&[TRANSFER]);
    let data = strings(&["0xabc", "0xdef"]);
    let (name, decoded) = decode_event(&keys, &data);
    assert_eq!(name, "Unknown Event");
    assert!(matches!(decoded, DecodedData::Unknown));
}

#[test]
fn unparseable_amount_falls_back_to_raw_text() {
    let keys = strings(&[TRANSFER]);
    let data = strings(&["0xabc", "0xdef", "0xnothex"]);
    let (name, decoded) = decode_event(&keys, &data);
    assert_eq!(name, "Transfer");
    match decoded {
        DecodedData::Transfer { amount, .. } => assert_eq!(amount, "0xnothex"),
        _ => panic!("expected Transfer fields"),
    }
}

#[test]
fn decode_is_total_on_arbitrary_inputs() {
    // every (keys, data) shape decodes without failing
    let shapes: Vec<(Vec<String>, Vec<String>)> = vec![
        (Vec::new(), Vec::new()),
        (strings(&[""]), Vec::new()),
        (strings(&[TRANSFER]), Vec::new()),
        (strings(&[TRANSFER, "0x9"]), strings(&["", "", ""])),
        (strings(&["not hex at all"]), strings(&["x"])),
    ];
    for (keys, data) in shapes {
        let (name, _) = decode_event(&keys, &data);
        assert!(!name.is_empty());
    }
}
