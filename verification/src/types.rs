//! Wire types shared by every query endpoint, the error kinds a query can
//! fail with, and the read-only view of ledger state that handlers consume.

use vstd::prelude::*;

verus! {

/// A query request: the full envelope is built before dispatch and never
/// mutated afterwards.
#[derive(Debug)]
pub struct RequestQuery {
    /// Hierarchical path, segments separated by `/`; the first segment picks
    /// a registered subtree.
    pub path: String,
    /// Opaque request payload; its encoding is handler-specific. Empty for
    /// data-less endpoints.
    pub data: Vec<u8>,
    /// Requested ledger height; `0` is a sentinel meaning "latest committed
    /// height".
    pub height: u64,
    /// Whether a cryptographic proof must accompany the response.
    pub prove: bool,
}

/// Mathematical image of a [`RequestQuery`].
pub struct RequestQueryV {
    pub path: Seq<char>,
    pub data: Seq<u8>,
    pub height: u64,
    pub prove: bool,
}

impl View for RequestQuery {
    type V = RequestQueryV;

    open spec fn view(&self) -> RequestQueryV {
        RequestQueryV { path: self.path@, data: self.data@, height: self.height, prove: self.prove }
    }
}

/// An opaque cryptographic inclusion/exclusion proof. This layer never
/// inspects it: it is carried through from whoever produced it.
#[derive(Debug)]
pub struct MerkleProof {
    pub bytes: Vec<u8>,
}

impl View for MerkleProof {
    type V = Seq<u8>;

    open spec fn view(&self) -> Seq<u8> {
        self.bytes@
    }
}

/// A query response with the payload already in its wire encoding.
#[derive(Debug)]
pub struct EncodedResponseQuery {
    /// Opaque response payload; its encoding is handler-specific.
    pub data: Vec<u8>,
    /// Human-readable diagnostics; empty on pure success.
    pub info: String,
    /// Present iff the request asked for a proof and the handler supports
    /// proofs; never silently substituted.
    pub proof: Option<MerkleProof>,
}

/// Mathematical image of an [`EncodedResponseQuery`].
pub struct EncodedResponseQueryV {
    pub data: Seq<u8>,
    pub info: Seq<char>,
    pub proof: Option<Seq<u8>>,
}

impl View for EncodedResponseQuery {
    type V = EncodedResponseQueryV;

    open spec fn view(&self) -> EncodedResponseQueryV {
        EncodedResponseQueryV {
            data: self.data@,
            info: self.info@,
            proof: match &self.proof {
                Some(p) => Some(p@),
                None => None,
            },
        }
    }
}

/// Everything a query can fail with. Each failure is a typed result, never a
/// crash: one bad query must not take down the node or the client.
#[derive(Debug)]
pub enum Error {
    /// No registered path matches; carries the unmatched path.
    NotFound(String),
    /// The height is unsupported, either by a latest-height-only endpoint or
    /// by the remote transport's representable range.
    InvalidHeight(u64),
    /// A proof was requested from an endpoint with no Merkle structure.
    ProofNotSupported,
    /// Request data was attached to an endpoint that takes none.
    UnexpectedData,
    /// The transport's answer did not match the expected typed shape.
    DecodeFailure,
    /// A remote node answered with a non-ok status: its diagnostic string and
    /// numeric code.
    Query(String, u32),
    /// A connection-level failure, opaque to this layer.
    Transport(String),
}

/// Mathematical image of an [`Error`].
pub enum ErrorV {
    NotFound(Seq<char>),
    InvalidHeight(u64),
    ProofNotSupported,
    UnexpectedData,
    DecodeFailure,
    Query(Seq<char>, u32),
    Transport(Seq<char>),
}

impl View for Error {
    type V = ErrorV;

    open spec fn view(&self) -> ErrorV {
        match self {
            Error::NotFound(p) => ErrorV::NotFound(p@),
            Error::InvalidHeight(h) => ErrorV::InvalidHeight(*h),
            Error::ProofNotSupported => ErrorV::ProofNotSupported,
            Error::UnexpectedData => ErrorV::UnexpectedData,
            Error::DecodeFailure => ErrorV::DecodeFailure,
            Error::Query(info, code) => ErrorV::Query(info@, *code),
            Error::Transport(m) => ErrorV::Transport(m@),
        }
    }
}

/// The diagnostic text of each error kind; for kinds that carry a remote
/// node's own diagnostic, that text itself.
pub open spec fn error_message_view(e: ErrorV) -> Seq<char> {
    match e {
        ErrorV::NotFound(_) => "No query handler is registered under the given path"@,
        ErrorV::InvalidHeight(_) => (
        "This query doesn't support arbitrary block heights, only the latest committed block height ('0' can be used as a special value that means the latest block height)"@
        ),
        ErrorV::ProofNotSupported => "This query doesn't support proofs"@,
        ErrorV::UnexpectedData => "This query doesn't accept request data"@,
        ErrorV::DecodeFailure => "The response didn't match the expected shape and couldn't be decoded"@,
        ErrorV::Query(info, _) => info,
        ErrorV::Transport(m) => m,
    }
}

impl Error {
    /// A human-readable description of the failure, sufficient for a caller
    /// to decide whether retrying with other parameters could help.
    pub fn message(&self) -> (m: &str)
        ensures
            m@ == error_message_view(self@),
    {
        match self {
            Error::NotFound(_) => "No query handler is registered under the given path",
            Error::InvalidHeight(_) => (
            "This query doesn't support arbitrary block heights, only the latest committed block height ('0' can be used as a special value that means the latest block height)"
            ),
            Error::ProofNotSupported => "This query doesn't support proofs",
            Error::UnexpectedData => "This query doesn't accept request data",
            Error::DecodeFailure => "The response didn't match the expected shape and couldn't be decoded",
            Error::Query(info, _) => info.as_str(),
            Error::Transport(m) => m.as_str(),
        }
    }
}

/// The view of a whole query result, for contracts that pin both the success
/// and the failure shape at once.
pub open spec fn query_result_view(r: Result<EncodedResponseQuery, Error>) -> Result<
    EncodedResponseQueryV,
    ErrorV,
> {
    match r {
        Ok(resp) => Ok(resp@),
        Err(e) => Err(e@),
    }
}

/// A read-only snapshot of ledger state: the last committed block height and
/// the committed key-value entries, keyed by path-like storage keys.
///
/// The storage engine itself is an external collaborator; this view is what
/// the query layer reads of it, logically immutable for the lifetime of one
/// dispatch.
pub struct StorageView {
    pub last_block_height: u64,
    pub entries: Vec<(String, Vec<u8>)>,
}

/// First-match lookup among storage entries, by key.
pub open spec fn lookup_entries(entries: Seq<(String, Vec<u8>)>, key: Seq<char>) -> Option<Seq<u8>>
    decreases entries.len(),
{
    if entries.len() == 0 {
        None
    } else if entries[0].0@ == key {
        Some(entries[0].1@)
    } else {
        lookup_entries(entries.skip(1), key)
    }
}

impl StorageView {
    /// The value committed under `key`, if any.
    pub open spec fn lookup(&self, key: Seq<char>) -> Option<Seq<u8>> {
        lookup_entries(self.entries@, key)
    }

    /// Read the value at the given storage key.
    pub fn read(&self, key: &String) -> (r: Option<Vec<u8>>)
        ensures
            match r {
                Some(v) => self.lookup(key@) == Some(v@),
                None => self.lookup(key@) is None,
            },
    {
        let n = self.entries.len();
        let mut i: usize = 0;
        proof {
            assert(self.entries@.skip(0) =~= self.entries@);
        }
        while i < n
            invariant
                i <= n,
                n == self.entries@.len(),
                lookup_entries(self.entries@.skip(i as int), key@) == self.lookup(key@),
            decreases n - i,
        {
            proof {
                assert(self.entries@.skip(i as int)[0] == self.entries@[i as int]);
                assert(self.entries@.skip(i as int).skip(1) =~= self.entries@.skip(i as int + 1));
            }
            if self.entries[i].0 == *key {
                return Some(self.entries[i].1.clone());
            }
            i = i + 1;
        }
        proof {
            assert(self.entries@.skip(n as int) =~= Seq::<(String, Vec<u8>)>::empty());
        }
        None
    }

    /// The last committed block height of this snapshot.
    pub fn get_last_block_height(&self) -> (h: u64)
        ensures
            h == self.last_block_height,
    {
        self.last_block_height
    }
}

/// An event log handle. It is passed through to handlers but never
/// interpreted by the routing layer.
pub struct EventLog {
    pub entries: Vec<String>,
}

/// The execution context handed to every handler: read-only access to a
/// storage snapshot and the event log, created fresh per request and
/// discarded once the response is produced.
pub struct RequestCtx<'a> {
    pub storage: &'a StorageView,
    pub event_log: &'a EventLog,
    /// If set, a limit on how far below the last committed height historical
    /// reads may reach; `None` means no limit is configured.
    pub storage_read_past_height_limit: Option<u64>,
}

/// The little-endian bytes of a 64-bit ledger height, as handlers encode it.
pub open spec fn u64_le_bytes(x: u64) -> Seq<u8> {
    seq![
        (x % 256) as u8,
        ((x / 256) % 256) as u8,
        ((x / 65536) % 256) as u8,
        ((x / 16777216) % 256) as u8,
        ((x / 4294967296) % 256) as u8,
        ((x / 1099511627776) % 256) as u8,
        ((x / 281474976710656) % 256) as u8,
        ((x / 72057594037927936) % 256) as u8,
    ]
}

/// Encode a height in its fixed eight-byte little-endian wire form.
pub fn encode_u64_le(x: u64) -> (v: Vec<u8>)
    ensures
        v@ == u64_le_bytes(x),
{
    let mut v: Vec<u8> = Vec::new();
    v.push((x % 256) as u8);
    v.push(((x / 256) % 256) as u8);
    v.push(((x / 65536) % 256) as u8);
    v.push(((x / 16777216) % 256) as u8);
    v.push(((x / 4294967296) % 256) as u8);
    v.push(((x / 1099511627776) % 256) as u8);
    v.push(((x / 281474976710656) % 256) as u8);
    v.push(((x / 72057594037927936) % 256) as u8);
    proof {
        assert(v@ =~= u64_le_bytes(x));
    }
    v
}

} // verus!
