use simbatch::error::SimulateError;
use simbatch::frontend::{build_transactions, build_tx, validate_request, NetworkRegistry};
use simbatch::types::{BatchTraceRequest, ChainInfo, TraceRequestSingle, TxKind};

fn req(
    from: &str,
    to: Option<&str>,
    value: Option<&str>,
    data: Option<&str>,
    operation: u8,
) -> TraceRequestSingle {
    TraceRequestSingle {
        from: from.to_string(),
        to: to.map(|s| s.to_string()),
        value: value.map(|s| s.to_string()),
        data: data.map(|s| s.to_string()),
        operation,
    }
}

fn chain(id: u64, symbol: &str, decimals: u8) -> ChainInfo {
    ChainInfo {
        chain_id: id,
        rpc_url: "http://localhost:8545".to_string(),
        symbol: symbol.to_string(),
        decimals,
    }
}

const FROM: &str = "0x1111111111111111111111111111111111111111";
const TO: &str = "0x2222222222222222222222222222222222222222";

#[test]
fn valid_call_entry() {
    let r = build_tx(&req(FROM, Some(TO), Some("1000"), Some("0x"), 0)).unwrap();
    assert_eq!(r.caller.bytes, vec![0x11u8; 20]);
    match r.transact_to {
        TxKind::Call(a) => assert_eq!(a.bytes, vec![0x22u8; 20]),
        TxKind::Create => panic!("expected a call"),
    }
    let mut expected = vec![0u8; 32];
    expected[0] = 0xe8;
    expected[1] = 0x03;
    assert_eq!(r.value.le_bytes, expected);
    assert!(r.data.is_empty());
}

#[test]
fn create_entry_ignores_destination() {
    let r = build_tx(&req(FROM, Some(TO), None, None, 2)).unwrap();
    assert!(matches!(r.transact_to, TxKind::Create));
    assert_eq!(r.value.le_bytes, vec![0u8; 32]);
    assert!(r.data.is_empty());
}

#[test]
fn address_without_prefix_is_accepted() {
    let r = build_tx(&req(
        "1111111111111111111111111111111111111111",
        Some(TO),
        None,
        None,
        0,
    ))
    .unwrap();
    assert_eq!(r.caller.bytes, vec![0x11u8; 20]);
}

#[test]
fn bad_from_address_is_rejected() {
    let e = build_tx(&req("0x12", Some(TO), None, None, 0)).unwrap_err();
    assert_eq!(e.message(), "Address parse error: Invalid address format: 0x12");
}

#[test]
fn bad_to_address_is_rejected() {
    let e = build_tx(&req(FROM, Some("0xzz"), None, None, 0)).unwrap_err();
    assert_eq!(e.message(), "Address parse error: Invalid address format: 0xzz");
}

#[test]
fn call_without_destination_is_rejected() {
    let e = build_tx(&req(FROM, None, None, None, 0)).unwrap_err();
    assert!(matches!(e, SimulateError::InvalidOperation(_)));
    assert_eq!(e.message(), "Invalid operation: Operation call must have a to address");
}

#[test]
fn delegate_call_code_is_rejected() {
    let e = build_tx(&req(FROM, Some(TO), None, None, 1)).unwrap_err();
    assert!(matches!(e, SimulateError::InvalidOperation(_)));
    assert_eq!(e.message(), "Invalid operation: Invalid operation type");
}

#[test]
fn unknown_operation_code_is_rejected() {
    let e = build_tx(&req(FROM, Some(TO), None, None, 7)).unwrap_err();
    assert_eq!(e.message(), "Invalid operation: Invalid operation type");
}

#[test]
fn bad_value_is_rejected() {
    let e = build_tx(&req(FROM, Some(TO), Some("abc"), None, 0)).unwrap_err();
    assert!(matches!(e, SimulateError::Uint256ParseError(_)));
    assert_eq!(
        e.message(),
        "Uint256 parse error: Invalid uint256 radix of decimal format: abc"
    );
}

#[test]
fn oversized_value_is_rejected() {
    // 79 nines: more than 256 bits.
    let big = "9".repeat(79);
    let e = build_tx(&req(FROM, Some(TO), Some(&big), None, 0)).unwrap_err();
    assert!(matches!(e, SimulateError::Uint256ParseError(_)));
}

#[test]
fn value_separators_are_skipped() {
    let r = build_tx(&req(FROM, Some(TO), Some("1_000"), None, 0)).unwrap();
    let mut expected = vec![0u8; 32];
    expected[0] = 0xe8;
    expected[1] = 0x03;
    assert_eq!(r.value.le_bytes, expected);
}

#[test]
fn empty_value_is_zero() {
    let r = build_tx(&req(FROM, Some(TO), Some(""), None, 0)).unwrap();
    assert_eq!(r.value.le_bytes, vec![0u8; 32]);
}

#[test]
fn data_is_decoded() {
    let r = build_tx(&req(FROM, Some(TO), None, Some("0xdeadBEEF"), 0)).unwrap();
    assert_eq!(r.data, vec![0xde, 0xad, 0xbe, 0xef]);
}

#[test]
fn bad_data_is_rejected() {
    let e = build_tx(&req(FROM, Some(TO), None, Some("zz"), 0)).unwrap_err();
    assert!(matches!(e, SimulateError::HexDecodeError(_)));
    assert_eq!(e.message(), "Hex decode error: invalid character 'z' at position 0");
}

#[test]
fn escaped_character_in_data_is_rendered_escaped() {
    let e = build_tx(&req(FROM, Some(TO), None, Some("\n\n"), 0)).unwrap_err();
    assert_eq!(
        e.message(),
        "Hex decode error: invalid character '\\n' at position 0"
    );
}

#[test]
fn odd_data_is_rejected() {
    let e = build_tx(&req(FROM, Some(TO), None, Some("0x123"), 0)).unwrap_err();
    assert_eq!(e.message(), "Hex decode error: odd number of digits");
}

#[test]
fn uppercase_prefix_and_mixed_case_are_accepted() {
    let r = build_tx(&req(
        "0XAbCdEfAbCdEfAbCdEfAbCdEfAbCdEfAbCdEfAbCd",
        Some(TO),
        None,
        Some("0XAB"),
        0,
    ))
    .unwrap();
    assert_eq!(r.caller.bytes[0], 0xab);
    assert_eq!(r.caller.bytes[19], 0xcd);
    assert_eq!(r.data, vec![0xab]);
}

#[test]
fn short_address_is_rejected() {
    let thirty_nine = "0x111111111111111111111111111111111111111";
    let e = build_tx(&req(thirty_nine, Some(TO), None, None, 0)).unwrap_err();
    assert!(matches!(e, SimulateError::AddressParseError(_)));
}

#[test]
fn zero_value_string_parses() {
    let r = build_tx(&req(FROM, Some(TO), Some("0"), None, 0)).unwrap();
    assert_eq!(r.value.le_bytes, vec![0u8; 32]);
}

#[test]
fn largest_value_fits_and_one_more_does_not() {
    // 2^256 - 1 in decimal.
    let max = "115792089237316195423570985008687907853269984665640564039457584007913129639935";
    let r = build_tx(&req(FROM, Some(TO), Some(max), None, 0)).unwrap();
    assert_eq!(r.value.le_bytes, vec![0xffu8; 32]);
    // 2^256 itself.
    let over = "115792089237316195423570985008687907853269984665640564039457584007913129639936";
    let e = build_tx(&req(FROM, Some(TO), Some(over), None, 0)).unwrap_err();
    assert!(matches!(e, SimulateError::Uint256ParseError(_)));
}

#[test]
fn empty_batch_builds_empty() {
    let txs = build_transactions(&vec![]).unwrap();
    assert!(txs.is_empty());
}

#[test]
fn batch_keeps_order_and_length() {
    let rs = vec![
        req(FROM, Some(TO), Some("1"), None, 0),
        req(FROM, None, Some("2"), None, 2),
        req(FROM, Some(TO), Some("3"), None, 0),
    ];
    let txs = build_transactions(&rs).unwrap();
    assert_eq!(txs.len(), 3);
    assert_eq!(txs[0].value.le_bytes[0], 1);
    assert_eq!(txs[1].value.le_bytes[0], 2);
    assert_eq!(txs[2].value.le_bytes[0], 3);
}

#[test]
fn first_fault_wins() {
    let rs = vec![
        req(FROM, Some(TO), None, None, 0),
        req(FROM, Some(TO), None, None, 1),
        req("0xbad", Some(TO), None, None, 0),
    ];
    let e = build_transactions(&rs).unwrap_err();
    assert_eq!(e.message(), "Invalid operation: Invalid operation type");
}

#[test]
fn unknown_network_is_rejected_before_queuing() {
    let mut reg = NetworkRegistry::new();
    reg.insert(chain(1, "ETH", 18));
    let br = BatchTraceRequest {
        chain_id: 999,
        is_stateful: false,
        block_number: None,
        requests: vec![req(FROM, Some(TO), None, None, 0)],
    };
    let e = validate_request(&reg, &br).unwrap_err();
    assert!(matches!(e, SimulateError::ChainNotFound(999)));
    assert_eq!(e.message(), "Chain not found: 999");
}

#[test]
fn configured_network_is_accepted() {
    let mut reg = NetworkRegistry::new();
    reg.insert(chain(1, "ETH", 18));
    let br = BatchTraceRequest {
        chain_id: 1,
        is_stateful: false,
        block_number: None,
        requests: vec![req(FROM, Some(TO), Some("1000"), Some("0x"), 0)],
    };
    let txs = validate_request(&reg, &br).unwrap();
    assert_eq!(txs.len(), 1);
}

#[test]
fn registry_lookup_finds_what_was_inserted() {
    let mut reg = NetworkRegistry::new();
    reg.insert(chain(5, "GOR", 18));
    assert!(reg.contains(5));
    assert!(!reg.contains(6));
    let c = reg.lookup(5).unwrap();
    assert_eq!(c.symbol, "GOR");
    assert_eq!(c.decimals, 18);
}
