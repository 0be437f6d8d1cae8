//! The validity-predicate subtree: vp-specific read-only queries, registered
//! under the `"vp"` prefix of the root registry.

use vstd::prelude::*;
use vstd::string::StringExecFns;

use crate::height_is_latest;
use crate::path::seg_views;
use crate::require_latest_height;
use crate::require_no_data;
use crate::require_no_proof;
use crate::router::Handler;
use crate::router::Node;
use crate::types::u64_le_bytes;
use crate::types::encode_u64_le;
use crate::types::EncodedResponseQuery;
use crate::types::EncodedResponseQueryV;
use crate::types::Error;
use crate::types::ErrorV;
use crate::types::RequestCtx;
use crate::types::RequestQuery;
use crate::types::RequestQueryV;
use crate::types::StorageView;
use crate::types::query_result_view;

verus! {

/// Build the validity-predicate subtree: a nested token registry whose
/// balance endpoint reads one owner's balance.
pub fn vp_subtree() -> (n: Node)
    ensures
        n matches Node::Sub(es) && es@.len() == 1 && es@[0].0@ == "token"@ && (es@[0].1
            matches Node::Sub(ts) && ts@.len() == 1 && ts@[0].0@ == "balance"@ && ts@[0].1
            == Node::Leaf(Handler::TokenBalance)),
{
    let mut ts: Vec<(String, Node)> = Vec::new();
    ts.push((String::from_str("balance"), Node::Leaf(Handler::TokenBalance)));
    let mut es: Vec<(String, Node)> = Vec::new();
    es.push((String::from_str("token"), Node::Sub(ts)));
    Node::Sub(es)
}

/// The storage key under which an owner's token balance is committed.
pub open spec fn balance_key(owner: Seq<char>) -> Seq<char> {
    "balance/"@ + owner
}

/// What the token-balance endpoint answers: exactly one further path
/// segment names the owner; it takes no data and no proof request and
/// serves only the latest height. The response carries the committed
/// balance bytes of that owner, or the eight-byte encoding of zero when the
/// owner holds nothing.
pub open spec fn token_balance_spec(
    stor: StorageView,
    req: RequestQueryV,
    segs: Seq<Seq<char>>,
    i: int,
) -> Result<EncodedResponseQueryV, ErrorV> {
    if i + 1 != segs.len() {
        Err(ErrorV::NotFound(req.path))
    } else if req.data.len() != 0 {
        Err(ErrorV::UnexpectedData)
    } else if req.prove {
        Err(ErrorV::ProofNotSupported)
    } else if !height_is_latest(req.height, stor.last_block_height) {
        Err(ErrorV::InvalidHeight(req.height))
    } else {
        match stor.lookup(balance_key(segs[i])) {
            Some(v) => Ok(EncodedResponseQueryV { data: v, info: Seq::empty(), proof: None }),
            None => Ok(
                EncodedResponseQueryV { data: u64_le_bytes(0), info: Seq::empty(), proof: None },
            ),
        }
    }
}

/// Serve one owner's token balance.
pub fn token_balance_handler(
    ctx: &RequestCtx,
    request: &RequestQuery,
    segs: &Vec<String>,
    i: usize,
) -> (r: Result<EncodedResponseQuery, Error>)
    requires
        i <= segs@.len(),
    ensures
        query_result_view(r) == token_balance_spec(
            *ctx.storage,
            request@,
            seg_views(segs@),
            i as int,
        ),
{
    if i >= segs.len() || i + 1 != segs.len() {
        return Err(Error::NotFound(request.path.clone()));
    }
    if let Err(e) = require_no_data(request) {
        return Err(e);
    }
    if let Err(e) = require_no_proof(request) {
        return Err(e);
    }
    if let Err(e) = require_latest_height(ctx, request) {
        return Err(e);
    }
    let mut key = String::from_str("balance/");
    key.append(segs[i].as_str());
    match ctx.storage.read(&key) {
        Some(v) => Ok(EncodedResponseQuery { data: v, info: String::new(), proof: None }),
        None => Ok(EncodedResponseQuery { data: encode_u64_le(0), info: String::new(), proof: None }),
    }
}

} // verus!
