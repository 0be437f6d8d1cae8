//! The local client: the same client face as a remote connection, served in
//! process by dispatching directly against an owned state snapshot.
//!
//! No serialization happens for the `(path, data, height, prove)` envelope,
//! but the same request and response shapes are used as over the wire, so a
//! test run against the local client exercises exactly the behaviour a
//! remote node would exhibit for the same logical query.

use vstd::prelude::*;
use vstd::string::StringExecFns;

use crate::client::Client;
use crate::client::TypedRequest;
use crate::client::TypedRequestV;
use crate::client::TypedResponse;
use crate::client::TypedResponseV;
use crate::handle_path;
use crate::handle_spec;
use crate::remote::TRANSPORT_MAX_HEIGHT;
use crate::router::Router;
use crate::types::EncodedResponseQuery;
use crate::types::EncodedResponseQueryV;
use crate::types::Error;
use crate::types::ErrorV;
use crate::types::EventLog;
use crate::types::RequestCtx;
use crate::types::RequestQuery;
use crate::types::RequestQueryV;
use crate::types::StorageView;

verus! {

/// A client with direct access to a state snapshot: path queries are
/// dispatched in process through an owned registry, and transport-native
/// requests fail, since there is no transport. The client outlives many
/// requests; the snapshot is read-only for the lifetime of each dispatch.
pub struct LocalClient {
    /// The root registry queries are dispatched through.
    pub router: Router,
    /// The owned state snapshot served to handlers.
    pub storage: StorageView,
    /// The owned event log, passed through to handlers.
    pub event_log: EventLog,
}

impl LocalClient {
    /// Initialize a local client over the given registry and snapshot, with
    /// an empty event log.
    pub fn new(router: Router, storage: StorageView) -> (c: LocalClient)
        ensures
            c.router == router,
            c.storage == storage,
            c.event_log.entries@.len() == 0,
    {
        LocalClient { router, storage, event_log: EventLog { entries: Vec::new() } }
    }

    /// What a local path query answers: defaults applied to the optional
    /// fields, the same transport height bound a remote client enforces, and
    /// then exactly the root dispatch outcome over the owned snapshot.
    pub open spec fn local_request_spec(
        &self,
        path: Seq<char>,
        data: Option<Seq<u8>>,
        height: Option<u64>,
        prove: bool,
    ) -> Result<EncodedResponseQueryV, ErrorV> {
        let h: u64 = match height {
            Some(h) => h,
            None => 0,
        };
        let d: Seq<u8> = match data {
            Some(d) => d,
            None => Seq::empty(),
        };
        if h > TRANSPORT_MAX_HEIGHT {
            Err(ErrorV::InvalidHeight(h))
        } else {
            handle_spec(self.router, self.storage, RequestQueryV { path, data: d, height: h, prove })
        }
    }
}

impl Client for LocalClient {
    /// A local request's outcome is a function of the snapshot and the
    /// request alone.
    open spec fn request_ensures(
        &self,
        path: Seq<char>,
        data: Option<Seq<u8>>,
        height: Option<u64>,
        prove: bool,
        r: Result<EncodedResponseQueryV, ErrorV>,
    ) -> bool {
        r == self.local_request_spec(path, data, height, prove)
    }

    /// The local client has no transport: every transport-native request
    /// fails with a transport error.
    open spec fn perform_ensures(
        &self,
        req: TypedRequestV,
        r: Result<TypedResponseV, ErrorV>,
    ) -> bool {
        r matches Err(e) && e is Transport
    }

    fn request(&self, path: String, data: Option<Vec<u8>>, height: Option<u64>, prove: bool) -> (r:
        Result<EncodedResponseQuery, Error>)
    {
        let d: Vec<u8> = match data {
            Some(d) => d,
            None => Vec::new(),
        };
        let h: u64 = match height {
            Some(h) => h,
            None => 0,
        };
        if h > TRANSPORT_MAX_HEIGHT {
            return Err(Error::InvalidHeight(h));
        }
        let request = RequestQuery { path, data: d, height: h, prove };
        let ctx = RequestCtx {
            storage: &self.storage,
            event_log: &self.event_log,
            storage_read_past_height_limit: None,
        };
        handle_path(&self.router, ctx, &request)
    }

    fn perform(&self, request: &TypedRequest) -> (r: Result<TypedResponse, Error>) {
        Err(
            Error::Transport(
                String::from_str("the local client has no transport for this request"),
            ),
        )
    }
}

/// Law (idempotence): a local path query is deterministic — any two
/// outcomes the request contract admits for the same query against the same
/// unchanged client are equal, so repeating an identical simple request
/// returns identical data each time.
pub proof fn lemma_local_request_idempotent(
    c: LocalClient,
    path: Seq<char>,
    data: Option<Seq<u8>>,
    height: Option<u64>,
    prove: bool,
    r1: Result<EncodedResponseQueryV, ErrorV>,
    r2: Result<EncodedResponseQueryV, ErrorV>,
)
    requires
        c.request_ensures(path, data, height, prove, r1),
        c.request_ensures(path, data, height, prove, r2),
    ensures
        r1 == r2,
{
}

} // verus!
