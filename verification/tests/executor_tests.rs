use simbatch::error::SimulateError;
use simbatch::executor::{
    collect_token_addresses, finish_batch, missing_simulator_response, native_token_address,
};
use simbatch::frontend::{assemble_results, correlate, render_response, send_failure_error, AwaitOutcome};
use simbatch::{block_env_of, resolve_block_number, JOB_QUEUE_CAPACITY, TRACE_TIMEOUT_SECS};
use simbatch::types::{
    Address, AssetTransfer, ChainInfo, ExecutionResult, TokenInfo, TraceResponse, TxOutcome,
    TxTraceOutput, U256,
};

fn addr(b: u8) -> Address {
    Address { bytes: vec![b; 20] }
}

fn ok_outcome(success: bool, tokens: &[u8]) -> TxOutcome {
    Ok((
        ExecutionResult { success, output: String::new() },
        TxTraceOutput {
            asset_transfers: tokens.iter().map(|b| AssetTransfer { token: addr(*b) }).collect(),
            trace: String::new(),
        },
    ))
}

fn native_chain() -> ChainInfo {
    ChainInfo {
        chain_id: 1,
        rpc_url: "http://localhost:8545".to_string(),
        symbol: "ETH".to_string(),
        decimals: 18,
    }
}

#[test]
fn tokens_are_collected_once_in_first_appearance_order() {
    let outcomes = vec![
        ok_outcome(true, &[0xaa, 0xbb]),
        ok_outcome(true, &[0xaa]),
        ok_outcome(true, &[0xcc, 0xbb]),
    ];
    let tokens = collect_token_addresses(&outcomes);
    assert_eq!(tokens.len(), 3);
    assert_eq!(tokens[0].bytes, vec![0xaa; 20]);
    assert_eq!(tokens[1].bytes, vec![0xbb; 20]);
    assert_eq!(tokens[2].bytes, vec![0xcc; 20]);
}

#[test]
fn native_and_failed_transfers_are_not_collected() {
    let outcomes = vec![
        ok_outcome(true, &[0xee]),
        ok_outcome(false, &[0xaa]),
        Err("boom".to_string()),
    ];
    let tokens = collect_token_addresses(&outcomes);
    assert!(tokens.is_empty());
}

#[test]
fn native_sentinel_is_twenty_ee_bytes() {
    assert_eq!(native_token_address().bytes, vec![0xee; 20]);
}

#[test]
fn batch_without_foreign_assets_gets_native_entry_only() {
    let outcomes = vec![ok_outcome(true, &[])];
    let tokens = collect_token_addresses(&outcomes);
    assert!(tokens.is_empty());
    let resp = finish_batch(&native_chain(), outcomes, tokens, None);
    let entries = resp.token_infos.unwrap();
    assert_eq!(entries.len(), 1);
    assert_eq!(entries[0].0.bytes, vec![0xee; 20]);
    assert_eq!(entries[0].1.symbol, "ETH");
    assert_eq!(entries[0].1.decimals, 18);
    assert!(resp.result.is_ok());
}

#[test]
fn resolved_tokens_fill_the_map_with_native_last() {
    let outcomes = vec![ok_outcome(true, &[0xaa, 0xbb])];
    let tokens = collect_token_addresses(&outcomes);
    let infos = vec![
        TokenInfo { symbol: "AAA".to_string(), decimals: 6 },
        TokenInfo { symbol: "BBB".to_string(), decimals: 8 },
    ];
    let resp = finish_batch(&native_chain(), outcomes, tokens, Some(Ok(infos)));
    let entries = resp.token_infos.unwrap();
    assert_eq!(entries.len(), 3);
    assert_eq!(entries[0].0.bytes, vec![0xaa; 20]);
    assert_eq!(entries[0].1.symbol, "AAA");
    assert_eq!(entries[1].0.bytes, vec![0xbb; 20]);
    assert_eq!(entries[1].1.symbol, "BBB");
    assert_eq!(entries[2].0.bytes, vec![0xee; 20]);
    assert_eq!(entries[2].1.symbol, "ETH");
}

#[test]
fn token_resolution_failure_fails_the_whole_batch() {
    let outcomes = vec![ok_outcome(true, &[0xaa])];
    let tokens = collect_token_addresses(&outcomes);
    let resp = finish_batch(
        &native_chain(),
        outcomes,
        tokens,
        Some(Err("rpc unreachable".to_string())),
    );
    assert!(resp.token_infos.is_none());
    assert_eq!(resp.result.unwrap_err(), "Failed to get token infos: rpc unreachable");
}

#[test]
fn missing_simulator_still_answers() {
    let resp = missing_simulator_response(42);
    assert!(resp.token_infos.is_none());
    assert_eq!(resp.result.unwrap_err(), "EVM instance not found for chain 42");
}

#[test]
fn rows_keep_order_and_length() {
    let outcomes = vec![
        ok_outcome(true, &[]),
        Err("reverted".to_string()),
        ok_outcome(true, &[]),
    ];
    let rows = assemble_results(7, outcomes);
    assert_eq!(rows.len(), 3);
    for row in &rows {
        assert_eq!(row.block_number, 7);
    }
    assert!(rows[0].error.is_none());
    assert!(rows[0].execution_result.is_some());
    assert!(rows[0].trace_result.is_some());
    assert_eq!(rows[1].error.as_deref(), Some("Trace Error:reverted"));
    assert!(rows[1].execution_result.is_none());
    assert!(rows[1].trace_result.is_none());
    assert!(rows[2].error.is_none());
}

#[test]
fn batch_error_becomes_simulation_error() {
    let resp = TraceResponse { result: Err("bad day".to_string()), token_infos: None };
    let e = render_response(1, resp).unwrap_err();
    assert!(matches!(e, SimulateError::SimulationError(_)));
    assert_eq!(e.message(), "Simulation error: bad day");
}

#[test]
fn successful_response_is_rendered() {
    let resp = TraceResponse {
        result: Ok(vec![ok_outcome(true, &[])]),
        token_infos: Some(vec![(addr(0xee), TokenInfo { symbol: "ETH".to_string(), decimals: 18 })]),
    };
    let b = render_response(3, resp).unwrap();
    assert_eq!(b.results.len(), 1);
    assert_eq!(b.results[0].block_number, 3);
    assert!(b.results[0].error.is_none());
    assert_eq!(b.token_infos.unwrap().len(), 1);
}

#[test]
fn timeout_and_closed_channel_are_distinct_errors() {
    let t = correlate(AwaitOutcome::TimedOut).unwrap_err();
    let c = correlate(AwaitOutcome::ChannelClosed).unwrap_err();
    assert!(matches!(t, SimulateError::TimeoutError));
    assert!(matches!(c, SimulateError::SimulationError(_)));
    assert_eq!(t.message(), "Trace request timed out");
    assert_eq!(c.message(), "Simulation error: Response channel closed");
}

#[test]
fn received_response_is_passed_through() {
    let resp = TraceResponse { result: Ok(vec![]), token_infos: None };
    let got = correlate(AwaitOutcome::Received(resp)).unwrap();
    assert!(got.result.unwrap().is_empty());
}

#[test]
fn send_failure_is_a_simulation_error() {
    let e = send_failure_error("channel closed");
    assert_eq!(e.message(), "Simulation error: Failed to send trace request: channel closed");
}

#[test]
fn explicit_block_number_wins() {
    assert_eq!(resolve_block_number(Some(12), 99), 12);
    assert_eq!(resolve_block_number(None, 99), 99);
}

#[test]
fn block_env_needs_a_timestamp() {
    let b = block_env_of(5, Some(1700000000)).unwrap();
    assert_eq!(b.number, 5);
    assert_eq!(b.timestamp, 1700000000);
    assert_eq!(block_env_of(5, None).unwrap_err(), "Block get failed");
}

#[test]
fn queue_and_timeout_bounds_are_fixed() {
    assert_eq!(JOB_QUEUE_CAPACITY, 32);
    assert_eq!(TRACE_TIMEOUT_SECS, 300);
}

#[test]
fn zero_value_is_thirty_two_zero_bytes() {
    assert_eq!(U256::zero().le_bytes, vec![0u8; 32]);
}

#[test]
fn error_messages_render_their_class() {
    assert_eq!(
        SimulateError::AnyhowError("x".to_string()).message(),
        "Anyhow error: x"
    );
    assert_eq!(SimulateError::ChainNotFound(0).message(), "Chain not found: 0");
    assert_eq!(
        SimulateError::ChainNotFound(18446744073709551615).message(),
        "Chain not found: 18446744073709551615"
    );
    let e: SimulateError = SimulateError::from("oops".to_string());
    assert_eq!(e.message(), "Anyhow error: oops");
}
