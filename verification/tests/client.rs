//! Client behaviour: the local client end to end, the remote decision
//! helpers, and the parity between the in-process and decoded remote paths.

use ledger_queries::client::AbciQueryResult;
use ledger_queries::client::Client;
use ledger_queries::handle_path;
use ledger_queries::local::LocalClient;
use ledger_queries::remote::encode_abci_response;
use ledger_queries::remote::interpret_abci_response;
use ledger_queries::remote::prepare_remote_height;
use ledger_queries::remote::TRANSPORT_MAX_HEIGHT;
use ledger_queries::rpc_router;
use ledger_queries::types::Error;
use ledger_queries::types::EventLog;
use ledger_queries::types::RequestCtx;
use ledger_queries::types::RequestQuery;
use ledger_queries::types::StorageView;

fn local_client(last: u64, entries: Vec<(&str, Vec<u8>)>) -> LocalClient {
    let storage = StorageView {
        last_block_height: last,
        entries: entries.into_iter().map(|(k, v)| (k.to_string(), v)).collect(),
    };
    LocalClient::new(rpc_router(), storage)
}

#[test]
fn simple_request_returns_payload_bytes() {
    let c = local_client(10, vec![]);
    let data = c.simple_request("shell/last_block_height".to_string()).unwrap();
    assert_eq!(data, vec![10, 0, 0, 0, 0, 0, 0, 0]);
}

#[test]
fn simple_request_is_idempotent_against_unchanged_state() {
    let c = local_client(10, vec![("balance/alice", vec![5, 0, 0, 0, 0, 0, 0, 0])]);
    let first = c.simple_request("vp/token/balance/alice".to_string()).unwrap();
    let second = c.simple_request("vp/token/balance/alice".to_string()).unwrap();
    assert_eq!(first, second);
}

#[test]
fn simple_request_unknown_path_is_not_found() {
    let c = local_client(10, vec![]);
    match c.simple_request("shell/ended".to_string()) {
        Err(Error::NotFound(p)) => assert_eq!(p, "shell/ended"),
        other => panic!("expected NotFound, got {:?}", other.map(|_| ())),
    }
}

#[test]
fn request_with_explicit_latest_height_succeeds() {
    let c = local_client(10, vec![]);
    let resp = c
        .request("shell/last_block_height".to_string(), None, Some(10), false)
        .unwrap();
    assert_eq!(resp.data, vec![10, 0, 0, 0, 0, 0, 0, 0]);
}

#[test]
fn request_with_overlarge_height_fails_before_dispatch() {
    let c = local_client(10, vec![]);
    let h = TRANSPORT_MAX_HEIGHT + 1;
    // Even a path that no registry knows fails on the height first.
    match c.request("no/such/path".to_string(), None, Some(h), false) {
        Err(Error::InvalidHeight(got)) => assert_eq!(got, h),
        other => panic!("expected InvalidHeight, got {:?}", other.map(|_| ())),
    }
}

#[test]
fn local_perform_has_no_transport() {
    let c = local_client(10, vec![]);
    assert!(matches!(c.latest_block(), Err(Error::Transport(_))));
    assert!(matches!(c.status(), Err(Error::Transport(_))));
    assert!(matches!(c.health(), Err(Error::Transport(_))));
}

#[test]
fn blockchain_inverted_range_is_passed_through() {
    // The core does not pre-validate the range ordering: the request reaches
    // the transport (which the local client lacks) instead of being rejected
    // on this side.
    let c = local_client(10, vec![]);
    assert!(matches!(c.blockchain(10, 5), Err(Error::Transport(_))));
}

#[test]
fn prepare_height_passes_small_heights_and_latest() {
    assert_eq!(prepare_remote_height(None).unwrap(), None);
    assert_eq!(prepare_remote_height(Some(0)).unwrap(), Some(0));
    assert_eq!(prepare_remote_height(Some(12)).unwrap(), Some(12));
    assert_eq!(
        prepare_remote_height(Some(TRANSPORT_MAX_HEIGHT)).unwrap(),
        Some(TRANSPORT_MAX_HEIGHT)
    );
}

#[test]
fn prepare_height_rejects_unrepresentable_height() {
    let h = TRANSPORT_MAX_HEIGHT + 1;
    assert!(matches!(
        prepare_remote_height(Some(h)),
        Err(Error::InvalidHeight(got)) if got == h
    ));
}

#[test]
fn non_ok_status_code_surfaces_as_query_error() {
    let answer = AbciQueryResult {
        code: 7,
        value: vec![],
        info: "bad path".to_string(),
        proof: None,
    };
    match interpret_abci_response(answer) {
        Err(Error::Query(info, code)) => {
            assert_eq!(info, "bad path");
            assert_eq!(code, 7);
        },
        other => panic!("expected Query error, got {:?}", other),
    }
}

#[test]
fn ok_status_code_decodes_to_response() {
    let answer = AbciQueryResult {
        code: 0,
        value: vec![1, 2, 3],
        info: "".to_string(),
        proof: None,
    };
    let resp = interpret_abci_response(answer).unwrap();
    assert_eq!(resp.data, vec![1, 2, 3]);
    assert_eq!(resp.info, "");
    assert!(resp.proof.is_none());
}

#[test]
fn local_and_decoded_remote_answers_agree() {
    // The same logical query, served in process and decoded from a node's
    // framed answer, yields identical data, info, and proof presence.
    let entries = vec![("a/b", vec![9, 8, 7])];
    let storage = StorageView {
        last_block_height: 4,
        entries: entries.into_iter().map(|(k, v)| (k.to_string(), v)).collect(),
    };
    let router = rpc_router();
    let req = RequestQuery {
        path: "shell/value/a/b".to_string(),
        data: vec![],
        height: 0,
        prove: false,
    };

    let log = EventLog { entries: Vec::new() };
    let ctx = RequestCtx {
        storage: &storage,
        event_log: &log,
        storage_read_past_height_limit: None,
    };
    let node_side = handle_path(&router, ctx, &req);
    let framed = encode_abci_response(node_side);
    let remote_view = interpret_abci_response(framed).unwrap();

    let c = LocalClient::new(router, storage);
    let local_view = c.request(req.path.clone(), None, None, false).unwrap();

    assert_eq!(local_view.data, remote_view.data);
    assert_eq!(local_view.info, remote_view.info);
    assert_eq!(local_view.proof.is_none(), remote_view.proof.is_none());
}

#[test]
fn failed_dispatch_decodes_to_query_error_with_same_diagnostic() {
    let storage = StorageView { last_block_height: 4, entries: Vec::new() };
    let router = rpc_router();
    let req = RequestQuery {
        path: "shell/last_block_height".to_string(),
        data: vec![],
        height: 0,
        prove: true,
    };
    let log = EventLog { entries: Vec::new() };
    let ctx = RequestCtx {
        storage: &storage,
        event_log: &log,
        storage_read_past_height_limit: None,
    };
    let node_side = handle_path(&router, ctx, &req);
    let expected_message = match &node_side {
        Err(e) => e.message().to_string(),
        Ok(_) => panic!("a proof request against a proofless endpoint must fail"),
    };
    let framed = encode_abci_response(node_side);
    assert_ne!(framed.code, 0);
    match interpret_abci_response(framed) {
        Err(Error::Query(info, code)) => {
            assert_eq!(info, expected_message);
            assert_ne!(code, 0);
        },
        other => panic!("expected Query error, got {:?}", other),
    }
}

#[test]
fn error_messages_name_each_failure_kind() {
    assert!(Error::NotFound("x".to_string()).message().contains("registered"));
    assert!(Error::InvalidHeight(9).message().contains("latest committed block height"));
    assert!(Error::ProofNotSupported.message().contains("proofs"));
    assert!(Error::UnexpectedData.message().contains("request data"));
    assert!(Error::DecodeFailure.message().contains("decoded"));
    assert_eq!(Error::Query("node said no".to_string(), 3).message(), "node said no");
    assert_eq!(Error::Transport("conn reset".to_string()).message(), "conn reset");
}
