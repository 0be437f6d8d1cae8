//! The decision logic of a remote client, factored out of its transport.
//!
//! A remote client marshals `(path, data, height, prove)` into the
//! transport's native path-query call and decodes the node's answer. The
//! transport itself suspends, retries and times out as it pleases; what this
//! module owns is everything decided on this side of the wire: the height
//! bound checked before any network call, and the mapping from the node's
//! status code to a successful response or a protocol error.

use vstd::prelude::*;
use vstd::string::StringExecFns;

use crate::client::AbciQueryResult;
use crate::client::AbciQueryResultV;
use crate::types::EncodedResponseQuery;
use crate::types::EncodedResponseQueryV;
use crate::types::Error;
use crate::types::ErrorV;
use crate::types::error_message_view;
use crate::types::query_result_view;

verus! {

/// The largest block height the transport can represent: its wire form is a
/// signed 64-bit integer.
pub const TRANSPORT_MAX_HEIGHT: u64 = 9223372036854775807;

/// Check a requested height against the transport's representable range,
/// before any network call is made. `None` stands for the latest height and
/// needs no conversion.
pub fn prepare_remote_height(height: Option<u64>) -> (r: Result<Option<u64>, Error>)
    ensures
        (match height {
            Some(h) => if h > TRANSPORT_MAX_HEIGHT {
                r matches Err(e) && e@ == ErrorV::InvalidHeight(h)
            } else {
                r == Ok::<Option<u64>, Error>(Some(h))
            },
            None => r == Ok::<Option<u64>, Error>(None::<u64>),
        }),
{
    match height {
        Some(h) => {
            if h > TRANSPORT_MAX_HEIGHT {
                Err(Error::InvalidHeight(h))
            } else {
                Ok(Some(h))
            }
        },
        None => Ok(None),
    }
}

/// What decoding a node's path-query answer means: a zero status code
/// carries the response through unchanged, any other code surfaces the
/// node's diagnostic and code as a protocol error.
pub open spec fn interpret_abci_spec(a: AbciQueryResultV) -> Result<
    EncodedResponseQueryV,
    ErrorV,
> {
    if a.code == 0 {
        Ok(EncodedResponseQueryV { data: a.value, info: a.info, proof: a.proof })
    } else {
        Err(ErrorV::Query(a.info, a.code))
    }
}

/// Decode a node's path-query answer, as [`interpret_abci_spec`] describes.
/// A non-ok status is never swallowed: it becomes a protocol error carrying
/// the node's own diagnostic and code.
pub fn interpret_abci_response(resp: AbciQueryResult) -> (r: Result<EncodedResponseQuery, Error>)
    ensures
        query_result_view(r) == interpret_abci_spec(resp@),
{
    if resp.code == 0 {
        Ok(EncodedResponseQuery { data: resp.value, info: resp.info, proof: resp.proof })
    } else {
        Err(Error::Query(resp.info, resp.code))
    }
}

/// The nonzero status code under which a node reports each failure kind.
pub open spec fn error_code(e: ErrorV) -> u32 {
    match e {
        ErrorV::NotFound(_) => 1,
        ErrorV::InvalidHeight(_) => 2,
        ErrorV::ProofNotSupported => 3,
        ErrorV::UnexpectedData => 4,
        ErrorV::DecodeFailure => 5,
        ErrorV::Query(_, _) => 6,
        ErrorV::Transport(_) => 7,
    }
}

/// The status code a node answers with for this failure.
pub fn error_code_exec(e: &Error) -> (c: u32)
    ensures
        c == error_code(e@),
{
    match e {
        Error::NotFound(_) => 1,
        Error::InvalidHeight(_) => 2,
        Error::ProofNotSupported => 3,
        Error::UnexpectedData => 4,
        Error::DecodeFailure => 5,
        Error::Query(_, _) => 6,
        Error::Transport(_) => 7,
    }
}

/// How a node frames a dispatch outcome as a path-query answer: a success
/// keeps data, diagnostics and proof unchanged under status code zero; a
/// failure becomes its nonzero code and its diagnostic text, with an empty
/// value and no proof.
pub open spec fn abci_encode_spec(res: Result<EncodedResponseQueryV, ErrorV>) -> AbciQueryResultV {
    match res {
        Ok(resp) => AbciQueryResultV { code: 0, value: resp.data, info: resp.info, proof: resp.proof },
        Err(e) => AbciQueryResultV {
            code: error_code(e),
            value: Seq::empty(),
            info: error_message_view(e),
            proof: None,
        },
    }
}

/// Frame a dispatch outcome as a node's path-query answer, as
/// [`abci_encode_spec`] describes.
pub fn encode_abci_response(res: Result<EncodedResponseQuery, Error>) -> (a: AbciQueryResult)
    ensures
        a@ == abci_encode_spec(query_result_view(res)),
{
    match res {
        Ok(resp) => AbciQueryResult { code: 0, value: resp.data, info: resp.info, proof: resp.proof },
        Err(e) => {
            let code = error_code_exec(&e);
            let info = String::from_str(e.message());
            AbciQueryResult { code, value: Vec::new(), info, proof: None }
        },
    }
}

/// Law (transport round trip): framing any dispatch outcome as a node's
/// answer and decoding that answer on the client side loses nothing. A
/// successful outcome comes back bit-identical — same data, same
/// diagnostics, same proof presence — and a failed outcome comes back as a
/// protocol error carrying that failure's own diagnostic text and its
/// nonzero status code. Together with the dispatch contract this says the
/// same logical query is served identically in process and over the wire.
pub proof fn lemma_remote_roundtrip(res: Result<EncodedResponseQueryV, ErrorV>)
    ensures
        (match res {
            Ok(resp) => interpret_abci_spec(abci_encode_spec(res)) == Ok::<
                EncodedResponseQueryV,
                ErrorV,
            >(resp),
            Err(e) => interpret_abci_spec(abci_encode_spec(res)) == Err::<
                EncodedResponseQueryV,
                ErrorV,
            >(ErrorV::Query(error_message_view(e), error_code(e))) && error_code(e) != 0,
        }),
{
}

} // verus!
