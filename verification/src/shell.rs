//! The shell subtree: core ledger-state queries, registered under the
//! `"shell"` prefix of the root registry.

use vstd::prelude::*;
use vstd::string::StringExecFns;

use crate::height_is_latest;
use crate::path::seg_views;
use crate::require_latest_height;
use crate::require_no_data;
use crate::require_no_proof;
use crate::router::Handler;
use crate::router::Node;
use crate::types::u64_le_bytes;
use crate::types::encode_u64_le;
use crate::types::EncodedResponseQuery;
use crate::types::EncodedResponseQueryV;
use crate::types::Error;
use crate::types::ErrorV;
use crate::types::RequestCtx;
use crate::types::RequestQuery;
use crate::types::RequestQueryV;
use crate::types::StorageView;
use crate::types::query_result_view;

verus! {

/// Build the shell subtree: its last committed block height, and raw reads
/// of single storage keys.
pub fn shell_subtree() -> (n: Node)
    ensures
        n matches Node::Sub(es) && es@.len() == 2 && es@[0].0@ == "last_block_height"@ && es@[0].1
            == Node::Leaf(Handler::LastBlockHeight) && es@[1].0@ == "value"@ && es@[1].1
            == Node::Leaf(Handler::StorageValue),
{
    let mut es: Vec<(String, Node)> = Vec::new();
    es.push((String::from_str("last_block_height"), Node::Leaf(Handler::LastBlockHeight)));
    es.push((String::from_str("value"), Node::Leaf(Handler::StorageValue)));
    Node::Sub(es)
}

/// What the last-block-height endpoint answers: it takes no further path
/// segments, no data and no proof request, serves only the latest height,
/// and returns the last committed height in its eight-byte little-endian
/// wire form.
pub open spec fn last_block_height_spec(
    stor: StorageView,
    req: RequestQueryV,
    segs: Seq<Seq<char>>,
    i: int,
) -> Result<EncodedResponseQueryV, ErrorV> {
    if i != segs.len() {
        Err(ErrorV::NotFound(req.path))
    } else if req.data.len() != 0 {
        Err(ErrorV::UnexpectedData)
    } else if req.prove {
        Err(ErrorV::ProofNotSupported)
    } else if !height_is_latest(req.height, stor.last_block_height) {
        Err(ErrorV::InvalidHeight(req.height))
    } else {
        Ok(
            EncodedResponseQueryV {
                data: u64_le_bytes(stor.last_block_height),
                info: Seq::empty(),
                proof: None,
            },
        )
    }
}

/// Serve the shell's last committed block height.
pub fn last_block_height_handler(
    ctx: &RequestCtx,
    request: &RequestQuery,
    segs: &Vec<String>,
    i: usize,
) -> (r: Result<EncodedResponseQuery, Error>)
    requires
        i <= segs@.len(),
    ensures
        query_result_view(r) == last_block_height_spec(
            *ctx.storage,
            request@,
            seg_views(segs@),
            i as int,
        ),
{
    if i != segs.len() {
        return Err(Error::NotFound(request.path.clone()));
    }
    if let Err(e) = require_no_data(request) {
        return Err(e);
    }
    if let Err(e) = require_no_proof(request) {
        return Err(e);
    }
    if let Err(e) = require_latest_height(ctx, request) {
        return Err(e);
    }
    Ok(
        EncodedResponseQuery {
            data: encode_u64_le(ctx.storage.get_last_block_height()),
            info: String::new(),
            proof: None,
        },
    )
}

/// The storage key named by the path segments from `i` on, re-joined with
/// `'/'`.
pub open spec fn join_segments(segs: Seq<Seq<char>>, i: int) -> Seq<char>
    decreases segs.len() - i,
{
    if i < 0 || i >= segs.len() {
        Seq::empty()
    } else if i == segs.len() - 1 {
        segs[i]
    } else {
        segs[i] + "/"@ + join_segments(segs, i + 1)
    }
}

/// Re-join the owned segments from `i` on with `'/'`.
pub fn join_segments_exec(segs: &Vec<String>, i: usize) -> (s: String)
    requires
        i <= segs@.len(),
    ensures
        s@ == join_segments(seg_views(segs@), i as int),
    decreases segs@.len() - i,
{
    proof {
        assert(seg_views(segs@).len() == segs@.len());
        if i < segs@.len() {
            assert(seg_views(segs@)[i as int] == segs@[i as int]@);
        }
    }
    if i >= segs.len() {
        let s = String::new();
        proof {
            assert(s@ =~= join_segments(seg_views(segs@), i as int));
        }
        s
    } else if i == segs.len() - 1 {
        segs[i].clone()
    } else {
        let mut s = segs[i].clone();
        s.append("/");
        let rest = join_segments_exec(segs, i + 1);
        s.append(rest.as_str());
        proof {
            assert(seg_views(segs@)[i as int] + "/"@ + join_segments(seg_views(segs@), i as int + 1)
                =~= s@);
        }
        s
    }
}

/// What the raw storage-read endpoint answers: the remaining path segments
/// name the storage key; it supports no proofs and only the latest height;
/// the response carries the committed bytes under that key, or an empty
/// payload when nothing is stored there. Request data is ignored: the key
/// travels in the path.
pub open spec fn storage_value_spec(
    stor: StorageView,
    req: RequestQueryV,
    segs: Seq<Seq<char>>,
    i: int,
) -> Result<EncodedResponseQueryV, ErrorV> {
    if i >= segs.len() {
        Err(ErrorV::NotFound(req.path))
    } else if req.prove {
        Err(ErrorV::ProofNotSupported)
    } else if !height_is_latest(req.height, stor.last_block_height) {
        Err(ErrorV::InvalidHeight(req.height))
    } else {
        match stor.lookup(join_segments(segs, i)) {
            Some(v) => Ok(EncodedResponseQueryV { data: v, info: Seq::empty(), proof: None }),
            None => Ok(EncodedResponseQueryV { data: Seq::empty(), info: Seq::empty(), proof: None }),
        }
    }
}

/// Serve a raw read of one storage key.
pub fn storage_value_handler(
    ctx: &RequestCtx,
    request: &RequestQuery,
    segs: &Vec<String>,
    i: usize,
) -> (r: Result<EncodedResponseQuery, Error>)
    requires
        i <= segs@.len(),
    ensures
        query_result_view(r) == storage_value_spec(
            *ctx.storage,
            request@,
            seg_views(segs@),
            i as int,
        ),
{
    if i >= segs.len() {
        return Err(Error::NotFound(request.path.clone()));
    }
    if let Err(e) = require_no_proof(request) {
        return Err(e);
    }
    if let Err(e) = require_latest_height(ctx, request) {
        return Err(e);
    }
    let key = join_segments_exec(segs, i);
    match ctx.storage.read(&key) {
        Some(v) => Ok(EncodedResponseQuery { data: v, info: String::new(), proof: None }),
        None => Ok(EncodedResponseQuery { data: Vec::new(), info: String::new(), proof: None }),
    }
}

} // verus!
