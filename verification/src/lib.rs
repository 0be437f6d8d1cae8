//! Read-only query routing and client dispatch for a ledger node.
//!
//! Queries are addressed by hierarchical `/`-separated path strings. A root
//! [`router::Router`] composes independently defined subtrees (the shell's
//! ledger queries and the validity-predicate queries); [`handle_path`] resolves
//! a request's path to exactly one handler and runs it against a read-only
//! storage view. The [`client::Client`] trait gives the same queries a uniform
//! client-side face, whether served in process ([`local::LocalClient`]) or by
//! a remote node whose answers are decoded by the helpers in [`remote`].

use vstd::prelude::*;

pub mod client;
pub mod local;
pub mod path;
pub mod remote;
pub mod router;
pub mod shell;
pub mod types;
pub mod vp;

use crate::path::path_segments;
use crate::path::seg_views;
use crate::path::split_path;
use crate::router::Handler;
use crate::router::Node;
use crate::router::Router;
use crate::router::lemma_resolve_into_matching_subtree;
use crate::router::lemma_resolve_unmatched;
use crate::types::EncodedResponseQuery;
use crate::types::EncodedResponseQueryV;
use crate::types::Error;
use crate::types::ErrorV;
use crate::types::RequestCtx;
use crate::types::RequestQuery;
use crate::types::RequestQueryV;
use crate::types::StorageView;
use crate::types::query_result_view;

verus! {

/// What a successful guard check means for the height fields: the request
/// either uses the latest-height sentinel `0` or names the last committed
/// height exactly.
pub open spec fn height_is_latest(height: u64, last_committed: u64) -> bool {
    height == 0 || height == last_committed
}

/// For queries that only support the latest height, check that the given
/// height is not different from the latest height, otherwise return an error.
pub fn require_latest_height(ctx: &RequestCtx, request: &RequestQuery) -> (r: Result<(), Error>)
    ensures
        r is Ok <==> height_is_latest(request.height, ctx.storage.last_block_height),
        r is Err ==> r->Err_0@ == ErrorV::InvalidHeight(request.height),
{
    if request.height != 0 && request.height != ctx.storage.last_block_height {
        return Err(Error::InvalidHeight(request.height));
    }
    Ok(())
}

/// For queries that do not support proofs, check that a proof is not
/// requested, otherwise return an error.
pub fn require_no_proof(request: &RequestQuery) -> (r: Result<(), Error>)
    ensures
        r is Ok <==> !request.prove,
        r is Err ==> r->Err_0@ == ErrorV::ProofNotSupported,
{
    if request.prove {
        return Err(Error::ProofNotSupported);
    }
    Ok(())
}

/// For queries that don't use request data, require that there are no data
/// attached.
pub fn require_no_data(request: &RequestQuery) -> (r: Result<(), Error>)
    ensures
        r is Ok <==> request.data@.len() == 0,
        r is Err ==> r->Err_0@ == ErrorV::UnexpectedData,
{
    if !request.data.is_empty() {
        return Err(Error::UnexpectedData);
    }
    Ok(())
}

/// What each handler answers, by handler.
pub open spec fn handler_spec(
    h: Handler,
    stor: StorageView,
    req: RequestQueryV,
    segs: Seq<Seq<char>>,
    i: int,
) -> Result<EncodedResponseQueryV, ErrorV> {
    match h {
        Handler::LastBlockHeight => shell::last_block_height_spec(stor, req, segs, i),
        Handler::StorageValue => shell::storage_value_spec(stor, req, segs, i),
        Handler::TokenBalance => vp::token_balance_spec(stor, req, segs, i),
    }
}

/// Run the handler a request resolved to.
pub fn run_handler(
    h: Handler,
    ctx: &RequestCtx,
    request: &RequestQuery,
    segs: &Vec<String>,
    i: usize,
) -> (r: Result<EncodedResponseQuery, Error>)
    requires
        i <= segs@.len(),
    ensures
        query_result_view(r) == handler_spec(h, *ctx.storage, request@, seg_views(segs@), i as int),
{
    match h {
        Handler::LastBlockHeight => shell::last_block_height_handler(ctx, request, segs, i),
        Handler::StorageValue => shell::storage_value_handler(ctx, request, segs, i),
        Handler::TokenBalance => vp::token_balance_handler(ctx, request, segs, i),
    }
}

/// What dispatching a request through a registry means: resolve the path's
/// segments to a handler and ask it, or fail with the unmatched path.
pub open spec fn handle_spec(router: Router, stor: StorageView, req: RequestQueryV) -> Result<
    EncodedResponseQueryV,
    ErrorV,
> {
    let segs = path_segments(req.path);
    match router.resolution(segs) {
        None => Err(ErrorV::NotFound(req.path)),
        Some((h, i)) => handler_spec(h, stor, req, segs, i),
    }
}

/// Handle a query request in the ledger: the single entry point the
/// surrounding node process calls on every inbound query, whatever the
/// transport. On success the response carries the handler's encoded data.
pub fn handle_path(router: &Router, ctx: RequestCtx, request: &RequestQuery) -> (r: Result<
    EncodedResponseQuery,
    Error,
>)
    ensures
        query_result_view(r) == handle_spec(*router, *ctx.storage, request@),
{
    let segs = split_path(request.path.as_str());
    match router.resolve(&segs) {
        None => Err(Error::NotFound(request.path.clone())),
        Some((h, i)) => run_handler(h, &ctx, request, &segs, i),
    }
}

/// Where the root registry routes given segments: the shell's endpoints
/// under `"shell"`, the validity-predicate endpoints under `"vp"`, nothing
/// anywhere else.
pub open spec fn rpc_resolution(segs: Seq<Seq<char>>) -> Option<(Handler, int)> {
    if segs.len() >= 1 && segs[0] == "shell"@ {
        if segs.len() >= 2 && segs[1] == "last_block_height"@ {
            Some((Handler::LastBlockHeight, 2))
        } else if segs.len() >= 2 && segs[1] == "value"@ {
            Some((Handler::StorageValue, 2))
        } else {
            None
        }
    } else if segs.len() >= 1 && segs[0] == "vp"@ {
        if segs.len() >= 2 && segs[1] == "token"@ {
            if segs.len() >= 3 && segs[2] == "balance"@ {
                Some((Handler::TokenBalance, 3))
            } else {
                None
            }
        } else {
            None
        }
    } else {
        None
    }
}

/// Build the root registry, composing the shell and validity-predicate
/// subtrees. Most commonly queried subtrees are declared first; since names
/// are distinct at every level, the order is documentation, not behaviour.
pub fn rpc_router() -> (r: Router)
    ensures
        forall|segs: Seq<Seq<char>>| r.resolution(segs) == rpc_resolution(segs),
{
    let shell_node = shell::shell_subtree();
    let vp_node = vp::vp_subtree();
    let ghost ses = shell_node->Sub_0@;
    let ghost ts = vp_node->Sub_0@;
    let ghost tts = ts[0].1->Sub_0@;
    let mut entries: Vec<(String, Node)> = Vec::new();
    entries.push((String::from_str("shell"), shell_node));
    entries.push((String::from_str("vp"), vp_node));
    let ghost es = entries@;
    let r = Router { root: Node::Sub(entries) };
    proof {
        reveal_strlit("shell");
        reveal_strlit("vp");
        reveal_strlit("last_block_height");
        reveal_strlit("value");
        reveal_strlit("token");
        reveal_strlit("balance");
        assert(es.len() == 2 && es[0].0@ == "shell"@ && es[1].0@ == "vp"@ && es[0].1 == shell_node
            && es[1].1 == vp_node);
        assert("shell"@.len() != "vp"@.len());
        assert(crate::router::entry_names_distinct(es));
        assert(ses.len() == 2 && ses[0].0@ == "last_block_height"@ && ses[1].0@ == "value"@);
        assert("last_block_height"@.len() != "value"@.len());
        assert(crate::router::entry_names_distinct(ses));
        assert(crate::router::entry_names_distinct(ts));
        assert(crate::router::entry_names_distinct(tts));
        assert forall|segs: Seq<Seq<char>>| r.resolution(segs) == rpc_resolution(segs) by {
            if segs.len() >= 1 {
                if segs[0] == "shell"@ {
                    lemma_resolve_into_matching_subtree(es, segs, 0, 0);
                    if segs.len() >= 2 {
                        if segs[1] == "last_block_height"@ {
                            lemma_resolve_into_matching_subtree(ses, segs, 1, 0);
                        } else if segs[1] == "value"@ {
                            lemma_resolve_into_matching_subtree(ses, segs, 1, 1);
                        } else {
                            lemma_resolve_unmatched(ses, segs, 1);
                        }
                    }
                } else if segs[0] == "vp"@ {
                    lemma_resolve_into_matching_subtree(es, segs, 0, 1);
                    if segs.len() >= 2 {
                        if segs[1] == "token"@ {
                            lemma_resolve_into_matching_subtree(ts, segs, 1, 0);
                            if segs.len() >= 3 {
                                if segs[2] == "balance"@ {
                                    lemma_resolve_into_matching_subtree(tts, segs, 2, 0);
                                } else {
                                    lemma_resolve_unmatched(tts, segs, 2);
                                }
                            }
                        } else {
                            lemma_resolve_unmatched(ts, segs, 1);
                        }
                    }
                } else {
                    lemma_resolve_unmatched(es, segs, 0);
                }
            }
        }
    }
    r
}

} // verus!
