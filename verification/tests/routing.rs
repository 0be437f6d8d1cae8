//! Routing, guard, and storage behaviour, exercised against the real root
//! registry.

use ledger_queries::handle_path;
use ledger_queries::path::split_path;
use ledger_queries::require_latest_height;
use ledger_queries::require_no_data;
use ledger_queries::require_no_proof;
use ledger_queries::rpc_router;
use ledger_queries::types::encode_u64_le;
use ledger_queries::types::Error;
use ledger_queries::types::EventLog;
use ledger_queries::types::RequestCtx;
use ledger_queries::types::RequestQuery;
use ledger_queries::types::StorageView;

fn storage(last: u64, entries: Vec<(&str, Vec<u8>)>) -> StorageView {
    StorageView {
        last_block_height: last,
        entries: entries.into_iter().map(|(k, v)| (k.to_string(), v)).collect(),
    }
}

fn request(path: &str, data: Vec<u8>, height: u64, prove: bool) -> RequestQuery {
    RequestQuery { path: path.to_string(), data, height, prove }
}

fn dispatch(
    stor: &StorageView,
    req: &RequestQuery,
) -> Result<ledger_queries::types::EncodedResponseQuery, Error> {
    let router = rpc_router();
    let log = EventLog { entries: Vec::new() };
    let ctx = RequestCtx { storage: stor, event_log: &log, storage_read_past_height_limit: None };
    handle_path(&router, ctx, req)
}

#[test]
fn split_plain_path() {
    let segs = split_path("shell/value/a/b");
    assert_eq!(segs, vec!["shell", "value", "a", "b"]);
}

#[test]
fn split_drops_leading_slash_segment() {
    assert_eq!(split_path("/shell/value"), vec!["shell", "value"]);
}

#[test]
fn split_empty_path_is_one_empty_segment() {
    assert_eq!(split_path(""), vec![""]);
}

#[test]
fn split_keeps_inner_empty_segments() {
    assert_eq!(split_path("a//b/"), vec!["a", "", "b", ""]);
}

#[test]
fn encode_height_little_endian() {
    assert_eq!(encode_u64_le(10), vec![10, 0, 0, 0, 0, 0, 0, 0]);
    assert_eq!(
        encode_u64_le(0x0102030405060708),
        vec![0x08, 0x07, 0x06, 0x05, 0x04, 0x03, 0x02, 0x01]
    );
}

#[test]
fn storage_read_present_and_absent() {
    let stor = storage(3, vec![("a/b", vec![1, 2]), ("c", vec![3])]);
    assert_eq!(stor.read(&"a/b".to_string()), Some(vec![1, 2]));
    assert_eq!(stor.read(&"missing".to_string()), None);
}

#[test]
fn unknown_path_is_not_found() {
    let stor = storage(10, vec![]);
    let req = request("shell/ended", vec![], 0, false);
    match dispatch(&stor, &req) {
        Err(Error::NotFound(p)) => assert_eq!(p, "shell/ended"),
        other => panic!("expected NotFound, got {:?}", other),
    }
}

#[test]
fn unregistered_root_prefix_is_not_found() {
    let stor = storage(10, vec![]);
    let req = request("bogus/anything", vec![], 0, false);
    assert!(matches!(dispatch(&stor, &req), Err(Error::NotFound(_))));
}

#[test]
fn sibling_subtree_never_answers() {
    // "last_block_height" is registered under "shell", not under "vp".
    let stor = storage(10, vec![]);
    let req = request("vp/last_block_height", vec![], 0, false);
    assert!(matches!(dispatch(&stor, &req), Err(Error::NotFound(_))));
}

#[test]
fn last_block_height_at_latest_succeeds() {
    let stor = storage(10, vec![]);
    let req = request("shell/last_block_height", vec![], 0, false);
    let resp = dispatch(&stor, &req).unwrap();
    assert_eq!(resp.data, vec![10, 0, 0, 0, 0, 0, 0, 0]);
    assert_eq!(resp.info, "");
    assert!(resp.proof.is_none());
}

#[test]
fn last_block_height_at_exact_height_succeeds() {
    let stor = storage(10, vec![]);
    let req = request("shell/last_block_height", vec![], 10, false);
    assert!(dispatch(&stor, &req).is_ok());
}

#[test]
fn historical_height_on_latest_only_endpoint_fails() {
    let stor = storage(10, vec![]);
    let req = request("shell/last_block_height", vec![], 5, false);
    match dispatch(&stor, &req) {
        Err(e) => {
            assert!(matches!(e, Error::InvalidHeight(5)));
            assert!(e.message().contains("latest committed block height"));
        },
        Ok(_) => panic!("height 5 against last height 10 must fail"),
    }
}

#[test]
fn proof_request_on_proofless_endpoint_fails() {
    let stor = storage(10, vec![]);
    let req = request("shell/last_block_height", vec![], 0, true);
    assert!(matches!(dispatch(&stor, &req), Err(Error::ProofNotSupported)));
}

#[test]
fn data_on_dataless_endpoint_fails() {
    let stor = storage(10, vec![]);
    let req = request("shell/last_block_height", vec![7], 0, false);
    assert!(matches!(dispatch(&stor, &req), Err(Error::UnexpectedData)));
}

#[test]
fn storage_value_reads_key_from_path() {
    let stor = storage(4, vec![("a/b", vec![9, 9])]);
    let req = request("shell/value/a/b", vec![], 0, false);
    let resp = dispatch(&stor, &req).unwrap();
    assert_eq!(resp.data, vec![9, 9]);
}

#[test]
fn storage_value_of_absent_key_is_empty() {
    let stor = storage(4, vec![]);
    let req = request("shell/value/nothing/here", vec![], 0, false);
    let resp = dispatch(&stor, &req).unwrap();
    assert_eq!(resp.data, Vec::<u8>::new());
    assert_eq!(resp.info, "");
}

#[test]
fn storage_value_without_key_is_not_found() {
    let stor = storage(4, vec![]);
    let req = request("shell/value", vec![], 0, false);
    assert!(matches!(dispatch(&stor, &req), Err(Error::NotFound(_))));
}

#[test]
fn vp_token_balance_of_known_owner() {
    let stor = storage(7, vec![("balance/alice", vec![42, 0, 0, 0, 0, 0, 0, 0])]);
    let req = request("vp/token/balance/alice", vec![], 0, false);
    let resp = dispatch(&stor, &req).unwrap();
    assert_eq!(resp.data, vec![42, 0, 0, 0, 0, 0, 0, 0]);
}

#[test]
fn vp_token_balance_of_unknown_owner_is_zero() {
    let stor = storage(7, vec![]);
    let req = request("vp/token/balance/bob", vec![], 0, false);
    let resp = dispatch(&stor, &req).unwrap();
    assert_eq!(resp.data, vec![0, 0, 0, 0, 0, 0, 0, 0]);
    assert_eq!(resp.info, "");
    assert!(resp.proof.is_none());
}

#[test]
fn vp_token_balance_without_owner_is_not_found() {
    let stor = storage(7, vec![]);
    let req = request("vp/token/balance", vec![], 0, false);
    assert!(matches!(dispatch(&stor, &req), Err(Error::NotFound(_))));
}

#[test]
fn guard_latest_height_accepts_zero_sentinel() {
    let stor = storage(10, vec![]);
    let log = EventLog { entries: Vec::new() };
    let ctx = RequestCtx { storage: &stor, event_log: &log, storage_read_past_height_limit: None };
    let req = request("shell/last_block_height", vec![], 0, false);
    assert!(require_latest_height(&ctx, &req).is_ok());
}

#[test]
fn guard_latest_height_accepts_exact_and_rejects_other() {
    let stor = storage(10, vec![]);
    let log = EventLog { entries: Vec::new() };
    let ctx = RequestCtx { storage: &stor, event_log: &log, storage_read_past_height_limit: None };
    assert!(require_latest_height(&ctx, &request("p", vec![], 10, false)).is_ok());
    let e = require_latest_height(&ctx, &request("p", vec![], 5, false)).unwrap_err();
    assert!(e.message().contains("latest committed block height"));
}

#[test]
fn guard_no_proof_rejects_only_proof_requests() {
    assert!(require_no_proof(&request("p", vec![], 0, false)).is_ok());
    assert!(matches!(
        require_no_proof(&request("p", vec![], 0, true)),
        Err(Error::ProofNotSupported)
    ));
}

#[test]
fn guard_no_data_rejects_only_nonempty_data() {
    assert!(require_no_data(&request("p", vec![], 0, false)).is_ok());
    assert!(matches!(
        require_no_data(&request("p", vec![1], 0, false)),
        Err(Error::UnexpectedData)
    ));
}
