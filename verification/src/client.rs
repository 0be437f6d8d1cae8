//! The client abstraction: one low-level `request` primitive for
//! storage-path queries, one `perform` primitive for transport-native
//! endpoints, and a catalogue of typed convenience operations layered over
//! `perform`.
//!
//! The convenience operations contain no routing logic: each one's contract
//! pins exactly which typed request it hands to `perform`, unmodified. A
//! concrete client only chooses what `request` and `perform` mean: in
//! process against a registry ([`crate::local::LocalClient`]) or over a
//! remote transport.

use vstd::prelude::*;

use crate::types::EncodedResponseQuery;
use crate::types::EncodedResponseQueryV;
use crate::types::Error;
use crate::types::ErrorV;
use crate::types::MerkleProof;
use crate::types::query_result_view;

verus! {

/// Result ordering of the transport's paginated searches.
#[derive(Clone, Copy, PartialEq, Eq, Structural, Debug)]
pub enum Order {
    Ascending,
    Descending,
}

/// A remote node's answer to a path query: a status code (`0` is success),
/// the value bytes, a diagnostic string, and the proof, if one was requested
/// and produced.
#[derive(Debug)]
pub struct AbciQueryResult {
    pub code: u32,
    pub value: Vec<u8>,
    pub info: String,
    pub proof: Option<MerkleProof>,
}

/// Mathematical image of an [`AbciQueryResult`].
pub struct AbciQueryResultV {
    pub code: u32,
    pub value: Seq<u8>,
    pub info: Seq<char>,
    pub proof: Option<Seq<u8>>,
}

impl View for AbciQueryResult {
    type V = AbciQueryResultV;

    open spec fn view(&self) -> AbciQueryResultV {
        AbciQueryResultV {
            code: self.code,
            value: self.value@,
            info: self.info@,
            proof: match &self.proof {
                Some(p) => Some(p@),
                None => None,
            },
        }
    }
}

/// A transport-native request: the fixed consensus-engine endpoints that are
/// not expressed as ledger-storage paths. A height of `None` asks about the
/// latest state.
#[derive(Debug)]
pub enum TypedRequest {
    AbciInfo,
    BroadcastTxSync(Vec<u8>),
    Block(Option<u64>),
    BlockSearch(String, u32, u8, Order),
    BlockResults(Option<u64>),
    TxSearch(String, bool, u32, u8, Order),
    AbciQuery(Option<String>, Vec<u8>, Option<u64>, bool),
    Blockchain(u64, u64),
    Commit(Option<u64>),
    ConsensusParams(Option<u64>),
    ConsensusState,
    Health,
    NetInfo,
    Status,
}

/// Mathematical image of a [`TypedRequest`].
pub enum TypedRequestV {
    AbciInfo,
    BroadcastTxSync(Seq<u8>),
    Block(Option<u64>),
    BlockSearch(Seq<char>, u32, u8, Order),
    BlockResults(Option<u64>),
    TxSearch(Seq<char>, bool, u32, u8, Order),
    AbciQuery(Option<Seq<char>>, Seq<u8>, Option<u64>, bool),
    Blockchain(u64, u64),
    Commit(Option<u64>),
    ConsensusParams(Option<u64>),
    ConsensusState,
    Health,
    NetInfo,
    Status,
}

impl View for TypedRequest {
    type V = TypedRequestV;

    open spec fn view(&self) -> TypedRequestV {
        match self {
            TypedRequest::AbciInfo => TypedRequestV::AbciInfo,
            TypedRequest::BroadcastTxSync(tx) => TypedRequestV::BroadcastTxSync(tx@),
            TypedRequest::Block(h) => TypedRequestV::Block(*h),
            TypedRequest::BlockSearch(q, page, per_page, order) => TypedRequestV::BlockSearch(
                q@,
                *page,
                *per_page,
                *order,
            ),
            TypedRequest::BlockResults(h) => TypedRequestV::BlockResults(*h),
            TypedRequest::TxSearch(q, prove, page, per_page, order) => TypedRequestV::TxSearch(
                q@,
                *prove,
                *page,
                *per_page,
                *order,
            ),
            TypedRequest::AbciQuery(path, data, height, prove) => TypedRequestV::AbciQuery(
                match path {
                    Some(p) => Some(p@),
                    None => None,
                },
                data@,
                *height,
                *prove,
            ),
            TypedRequest::Blockchain(min, max) => TypedRequestV::Blockchain(*min, *max),
            TypedRequest::Commit(h) => TypedRequestV::Commit(*h),
            TypedRequest::ConsensusParams(h) => TypedRequestV::ConsensusParams(*h),
            TypedRequest::ConsensusState => TypedRequestV::ConsensusState,
            TypedRequest::Health => TypedRequestV::Health,
            TypedRequest::NetInfo => TypedRequestV::NetInfo,
            TypedRequest::Status => TypedRequestV::Status,
        }
    }
}

/// A transport-native answer. This layer never interprets the payloads of
/// transport-native endpoints, so they stay opaque bytes; only the path
/// query's structured answer is taken apart, by the decoding helpers below.
#[derive(Debug)]
pub enum TypedResponse {
    AbciQuery(AbciQueryResult),
    Other(Vec<u8>),
}

/// Mathematical image of a [`TypedResponse`].
pub enum TypedResponseV {
    AbciQuery(AbciQueryResultV),
    Other(Seq<u8>),
}

impl View for TypedResponse {
    type V = TypedResponseV;

    open spec fn view(&self) -> TypedResponseV {
        match self {
            TypedResponse::AbciQuery(q) => TypedResponseV::AbciQuery(q@),
            TypedResponse::Other(b) => TypedResponseV::Other(b@),
        }
    }
}

/// The view of a whole `perform` outcome.
pub open spec fn typed_result_view(r: Result<TypedResponse, Error>) -> Result<
    TypedResponseV,
    ErrorV,
> {
    match r {
        Ok(resp) => Ok(resp@),
        Err(e) => Err(e@),
    }
}

/// The view of a bytes-or-error outcome.
pub open spec fn bytes_result_view(r: Result<Vec<u8>, Error>) -> Result<Seq<u8>, ErrorV> {
    match r {
        Ok(b) => Ok(b@),
        Err(e) => Err(e@),
    }
}

/// The view of optional request data.
pub open spec fn opt_data_view(data: Option<Vec<u8>>) -> Option<Seq<u8>> {
    match data {
        Some(d) => Some(d@),
        None => None,
    }
}

/// Just the payload of a full path-query outcome.
pub open spec fn response_data_of(full: Result<EncodedResponseQueryV, ErrorV>) -> Result<
    Seq<u8>,
    ErrorV,
> {
    match full {
        Ok(resp) => Ok(resp.data),
        Err(e) => Err(e),
    }
}

/// Decoding a `perform` outcome into the opaque payload every
/// transport-native endpoint other than the path query answers with.
pub open spec fn other_payload_of(pr: Result<TypedResponseV, ErrorV>) -> Result<Seq<u8>, ErrorV> {
    match pr {
        Ok(TypedResponseV::Other(b)) => Ok(b),
        Ok(_) => Err(ErrorV::DecodeFailure),
        Err(e) => Err(e),
    }
}

/// Decoding a `perform` outcome into the path query's structured answer.
pub open spec fn abci_answer_of(pr: Result<TypedResponseV, ErrorV>) -> Result<
    AbciQueryResultV,
    ErrorV,
> {
    match pr {
        Ok(TypedResponseV::AbciQuery(q)) => Ok(q),
        Ok(_) => Err(ErrorV::DecodeFailure),
        Err(e) => Err(e),
    }
}

/// Discarding a `perform` outcome's payload, keeping only whether it
/// succeeded.
pub open spec fn unit_of(pr: Result<TypedResponseV, ErrorV>) -> Result<(), ErrorV> {
    match pr {
        Ok(_) => Ok(()),
        Err(e) => Err(e),
    }
}

/// The view of the structured path-query answer's outcome.
pub open spec fn abci_result_view(r: Result<AbciQueryResult, Error>) -> Result<
    AbciQueryResultV,
    ErrorV,
> {
    match r {
        Ok(q) => Ok(q@),
        Err(e) => Err(e@),
    }
}

/// The view of a unit outcome.
pub open spec fn unit_result_view(r: Result<(), Error>) -> Result<(), ErrorV> {
    match r {
        Ok(u) => Ok(u),
        Err(e) => Err(e@),
    }
}

/// A client that can issue path queries and transport-native requests
/// against one node. What an outcome means is the implementation's choice,
/// pinned by its two relational specifications; every typed convenience
/// operation below is a thin wrapper whose contract says exactly which
/// typed request it passed through.
pub trait Client {
    /// What this client's `request` promises of its outcome.
    spec fn request_ensures(
        &self,
        path: Seq<char>,
        data: Option<Seq<u8>>,
        height: Option<u64>,
        prove: bool,
        r: Result<EncodedResponseQueryV, ErrorV>,
    ) -> bool;

    /// What this client's `perform` promises of its outcome.
    spec fn perform_ensures(
        &self,
        req: TypedRequestV,
        r: Result<TypedResponseV, ErrorV>,
    ) -> bool;

    /// Send a query request at the given path. A height of `None` or
    /// `Some(0)` means the latest committed height.
    fn request(&self, path: String, data: Option<Vec<u8>>, height: Option<u64>, prove: bool) -> (r:
        Result<EncodedResponseQuery, Error>)
        ensures
            self.request_ensures(path@, opt_data_view(data), height, prove, query_result_view(r)),
    ;

    /// Perform a transport-native request against the node.
    fn perform(&self, request: &TypedRequest) -> (r: Result<TypedResponse, Error>)
        ensures
            self.perform_ensures(request@, typed_result_view(r)),
    ;

    /// Send a simple query request at the given path, with no data, no
    /// explicit height and no proof, returning just the payload bytes.
    fn simple_request(&self, path: String) -> (r: Result<Vec<u8>, Error>)
        ensures
            (exists|full: Result<EncodedResponseQueryV, ErrorV>|
                self.request_ensures(path@, None, None, false, full) && bytes_result_view(r)
                    == response_data_of(full)),
    {
        let r0 = self.request(path, None, None, false);
        let ghost full = query_result_view(r0);
        let res: Result<Vec<u8>, Error> = match r0 {
            Ok(resp) => Ok(resp.data),
            Err(e) => Err(e),
        };
        proof {
            assert(self.request_ensures(path@, None, None, false, full));
            assert(bytes_result_view(res) == response_data_of(full));
        }
        res
    }

    /// Get information about the application.
    fn abci_info(&self) -> (r: Result<Vec<u8>, Error>)
        ensures
            (exists|pr: Result<TypedResponseV, ErrorV>|
                self.perform_ensures(TypedRequestV::AbciInfo, pr) && bytes_result_view(r)
                    == other_payload_of(pr)),
    {
        let r0 = self.perform(&TypedRequest::AbciInfo);
        let ghost pr = typed_result_view(r0);
        let res: Result<Vec<u8>, Error> = match r0 {
            Ok(TypedResponse::Other(b)) => Ok(b),
            Ok(_) => Err(Error::DecodeFailure),
            Err(e) => Err(e),
        };
        proof {
            assert(self.perform_ensures(TypedRequestV::AbciInfo, pr));
            assert(bytes_result_view(res) == other_payload_of(pr));
        }
        res
    }

    /// Broadcast a transaction, returning the node's synchronous check
    /// answer.
    fn broadcast_tx_sync(&self, tx: Vec<u8>) -> (r: Result<TypedResponse, Error>)
        ensures
            self.perform_ensures(TypedRequestV::BroadcastTxSync(tx@), typed_result_view(r)),
    {
        self.perform(&TypedRequest::BroadcastTxSync(tx))
    }

    /// Get the latest block.
    fn latest_block(&self) -> (r: Result<TypedResponse, Error>)
        ensures
            self.perform_ensures(TypedRequestV::Block(None), typed_result_view(r)),
    {
        self.perform(&TypedRequest::Block(None))
    }

    /// Get the block at a given height.
    fn block(&self, height: u64) -> (r: Result<TypedResponse, Error>)
        ensures
            self.perform_ensures(TypedRequestV::Block(Some(height)), typed_result_view(r)),
    {
        self.perform(&TypedRequest::Block(Some(height)))
    }

    /// Search for blocks by their begin- and end-block events.
    fn block_search(&self, query: String, page: u32, per_page: u8, order: Order) -> (r: Result<
        TypedResponse,
        Error,
    >)
        ensures
            self.perform_ensures(
                TypedRequestV::BlockSearch(query@, page, per_page, order),
                typed_result_view(r),
            ),
    {
        self.perform(&TypedRequest::BlockSearch(query, page, per_page, order))
    }

    /// Get the application results for the block at a particular height.
    fn block_results(&self, height: u64) -> (r: Result<TypedResponse, Error>)
        ensures
            self.perform_ensures(TypedRequestV::BlockResults(Some(height)), typed_result_view(r)),
    {
        self.perform(&TypedRequest::BlockResults(Some(height)))
    }

    /// Get the application results for the latest block.
    fn latest_block_results(&self) -> (r: Result<TypedResponse, Error>)
        ensures
            self.perform_ensures(TypedRequestV::BlockResults(None), typed_result_view(r)),
    {
        self.perform(&TypedRequest::BlockResults(None))
    }

    /// Search for transactions with their results.
    fn tx_search(
        &self,
        query: String,
        prove: bool,
        page: u32,
        per_page: u8,
        order: Order,
    ) -> (r: Result<TypedResponse, Error>)
        ensures
            self.perform_ensures(
                TypedRequestV::TxSearch(query@, prove, page, per_page, order),
                typed_result_view(r),
            ),
    {
        self.perform(&TypedRequest::TxSearch(query, prove, page, per_page, order))
    }

    /// Query the application directly, getting back its structured answer.
    fn abci_query(
        &self,
        path: Option<String>,
        data: Vec<u8>,
        height: Option<u64>,
        prove: bool,
    ) -> (r: Result<AbciQueryResult, Error>)
        ensures
            (exists|pr: Result<TypedResponseV, ErrorV>|
                self.perform_ensures(
                    TypedRequestV::AbciQuery(
                        match path {
                            Some(p) => Some(p@),
                            None => None,
                        },
                        data@,
                        height,
                        prove,
                    ),
                    pr,
                ) && abci_result_view(r) == abci_answer_of(pr)),
    {
        let r0 = self.perform(&TypedRequest::AbciQuery(path, data, height, prove));
        let ghost pr = typed_result_view(r0);
        let res: Result<AbciQueryResult, Error> = match r0 {
            Ok(TypedResponse::AbciQuery(q)) => Ok(q),
            Ok(_) => Err(Error::DecodeFailure),
            Err(e) => Err(e),
        };
        proof {
            assert(self.perform_ensures(
                TypedRequestV::AbciQuery(
                    match path {
                        Some(p) => Some(p@),
                        None => None,
                    },
                    data@,
                    height,
                    prove,
                ),
                pr,
            ));
            assert(abci_result_view(res) == abci_answer_of(pr));
        }
        res
    }

    /// Get block headers for heights from `min` to `max`, newest first.
    ///
    /// The range is handed to the transport exactly as given: this layer
    /// does not pre-validate its ordering, so any rejection of an inverted
    /// range is the transport's responsibility.
    fn blockchain(&self, min: u64, max: u64) -> (r: Result<TypedResponse, Error>)
        ensures
            self.perform_ensures(TypedRequestV::Blockchain(min, max), typed_result_view(r)),
    {
        self.perform(&TypedRequest::Blockchain(min, max))
    }

    /// Get the block commit at a given height.
    fn commit(&self, height: u64) -> (r: Result<TypedResponse, Error>)
        ensures
            self.perform_ensures(TypedRequestV::Commit(Some(height)), typed_result_view(r)),
    {
        self.perform(&TypedRequest::Commit(Some(height)))
    }

    /// Get the consensus parameters at the given height.
    fn consensus_params(&self, height: u64) -> (r: Result<TypedResponse, Error>)
        ensures
            self.perform_ensures(
                TypedRequestV::ConsensusParams(Some(height)),
                typed_result_view(r),
            ),
    {
        self.perform(&TypedRequest::ConsensusParams(Some(height)))
    }

    /// Get the current consensus state.
    fn consensus_state(&self) -> (r: Result<TypedResponse, Error>)
        ensures
            self.perform_ensures(TypedRequestV::ConsensusState, typed_result_view(r)),
    {
        self.perform(&TypedRequest::ConsensusState)
    }

    /// Get the latest consensus parameters.
    fn latest_consensus_params(&self) -> (r: Result<TypedResponse, Error>)
        ensures
            self.perform_ensures(TypedRequestV::ConsensusParams(None), typed_result_view(r)),
    {
        self.perform(&TypedRequest::ConsensusParams(None))
    }

    /// Get the latest block commit.
    fn latest_commit(&self) -> (r: Result<TypedResponse, Error>)
        ensures
            self.perform_ensures(TypedRequestV::Commit(None), typed_result_view(r)),
    {
        self.perform(&TypedRequest::Commit(None))
    }

    /// Get the node's health: an empty success, or no answer on failure.
    fn health(&self) -> (r: Result<(), Error>)
        ensures
            (exists|pr: Result<TypedResponseV, ErrorV>|
                self.perform_ensures(TypedRequestV::Health, pr) && unit_result_view(r) == unit_of(
                    pr,
                )),
    {
        let r0 = self.perform(&TypedRequest::Health);
        let ghost pr = typed_result_view(r0);
        let res: Result<(), Error> = match r0 {
            Ok(_) => Ok(()),
            Err(e) => Err(e),
        };
        proof {
            assert(self.perform_ensures(TypedRequestV::Health, pr));
            assert(unit_result_view(res) == unit_of(pr));
        }
        res
    }

    /// Get information about the node's network connections.
    fn net_info(&self) -> (r: Result<TypedResponse, Error>)
        ensures
            self.perform_ensures(TypedRequestV::NetInfo, typed_result_view(r)),
    {
        self.perform(&TypedRequest::NetInfo)
    }

    /// Get the node's status: node info, latest block hash, app hash, block
    /// height and time.
    fn status(&self) -> (r: Result<TypedResponse, Error>)
        ensures
            self.perform_ensures(TypedRequestV::Status, typed_result_view(r)),
    {
        self.perform(&TypedRequest::Status)
    }
}

} // verus!
