//! The one inbound operation, "submit question": what is asked, and the
//! envelope that answers it.

use vstd::prelude::*;
use vstd::string::*;
use crate::admission::{AdmissionError, RangeAssignment};
use crate::signature::{
    authenticate, authentication_outcome, is_turned_away, Authentication, AuthenticationMode,
    AuthenticationView, VerificationError,
};
use crate::state::{cache_insert, ServerState};

verus! {

/// The error code of an answer that admits the request.
pub const SUCCESS: u32 = 0;

/// The error code of an answer given when the range oracle failed.
pub const OP_GET_RANGE_CONTRACT_ERROR: u32 = 2004;

/// The error code of an answer that turns a request away for its signature.
pub const OP_VERIFY_SIGNATURE_ERROR: u32 = 2005;

/// A question as it comes in.
#[derive(Debug)]
pub struct AdmissionRequest {
    pub request_id: String,
    pub prompt_hash: Vec<u8>,
    pub signature: Vec<u8>,
    /// Who signed the request, once that has been verified.
    pub requester_address: Option<[u8; 20]>,
}

/// The payload of an answer, which to this crate is one of two JSON values.
#[derive(Clone, Copy, Debug, PartialEq, Eq, Structural)]
pub enum ResponseData {
    /// `null`: the answer carries nothing.
    Null,
    /// `{}`: the request is admitted; what answers it comes later.
    EmptyObject,
}

/// The envelope that answers a question.
#[derive(Debug)]
pub struct Response {
    pub request_id: String,
    /// `0` for success.
    pub error_code: u32,
    pub error_message: String,
    pub data: ResponseData,
}

/// A `Response` with its texts read as sequences of characters.
pub struct ResponseView {
    pub request_id: Seq<char>,
    pub error_code: u32,
    pub error_message: Seq<char>,
    pub data: ResponseData,
}

impl View for Response {
    type V = ResponseView;

    open spec fn view(&self) -> ResponseView {
        ResponseView {
            request_id: self.request_id@,
            error_code: self.error_code,
            error_message: self.error_message@,
            data: self.data,
        }
    }
}

/// The words for a signature that did not verify.
pub open spec fn verification_message(fault: VerificationError) -> Seq<char> {
    match fault {
        VerificationError::MalformedSignature => "malformed signature"@,
        VerificationError::RecoveryFailed => "signature recovery failed"@,
    }
}

/// The words for a failed range oracle: a fixed opening, then what the
/// oracle said.
pub open spec fn oracle_message(detail: Seq<char>) -> Seq<char> {
    "get vrf range contract error: "@ + detail
}

/// The answer that turns `request_id` away for its signature.
pub open spec fn rejection_view(request_id: Seq<char>, fault: VerificationError) -> ResponseView {
    ResponseView {
        request_id,
        error_code: OP_VERIFY_SIGNATURE_ERROR,
        error_message: verification_message(fault),
        data: ResponseData::Null,
    }
}

/// The answer to `request_id` once the range oracle has been asked: success
/// with an empty object where a range came back, the oracle's error code
/// and words with no data where it failed.
pub open spec fn answer_view(
    request_id: Seq<char>,
    admission: Result<RangeAssignment, AdmissionError>,
) -> ResponseView {
    match admission {
        Ok(_) => ResponseView {
            request_id,
            error_code: SUCCESS,
            error_message: Seq::empty(),
            data: ResponseData::EmptyObject,
        },
        Err(fault) => ResponseView {
            request_id,
            error_code: OP_GET_RANGE_CONTRACT_ERROR,
            error_message: oracle_message(fault.detail_view()),
            data: ResponseData::Null,
        },
    }
}

/// The cached ids after `request_id` has been answered: the id is recorded
/// where a range came back, and nothing changes where the oracle failed.
pub open spec fn ids_after_answer(
    ids: Seq<Seq<char>>,
    capacity: nat,
    request_id: Seq<char>,
    admission: Result<RangeAssignment, AdmissionError>,
) -> Seq<Seq<char>> {
    match admission {
        Ok(_) => cache_insert(ids, capacity, request_id),
        Err(_) => ids,
    }
}

/// Puts an envelope together.
pub fn make_resp_json(
    request_id: String,
    error_code: u32,
    error_message: String,
    data: ResponseData,
) -> (response: Response)
    ensures
        response@ == (ResponseView {
            request_id: request_id@,
            error_code,
            error_message: error_message@,
            data,
        }),
{
    Response { request_id, error_code, error_message, data }
}

impl AdmissionRequest {
    /// A request as it arrives, its signer not yet known.
    pub fn new(request_id: String, prompt_hash: Vec<u8>, signature: Vec<u8>) -> (request: Self)
        ensures
            request.request_id == request_id,
            request.prompt_hash == prompt_hash,
            request.signature == signature,
            request.requester_address is None,
    {
        AdmissionRequest { request_id, prompt_hash, signature, requester_address: None }
    }

    /// Authenticates the request under `mode` and notes who signed it, if
    /// that could be verified. Nothing else about the request changes.
    pub fn authenticate(&mut self, mode: AuthenticationMode) -> (found: Authentication)
        ensures
            found@ == authentication_outcome(mode, old(self).signature@, old(self).prompt_hash@),
            final(self).request_id == old(self).request_id,
            final(self).prompt_hash == old(self).prompt_hash,
            final(self).signature == old(self).signature,
            match found {
                Authentication::Verified { signer } => final(self).requester_address == Some(
                    signer,
                ),
                _ => final(self).requester_address is None,
            },
    {
        let found = authenticate(mode, self.signature.as_slice(), self.prompt_hash.as_slice());
        self.requester_address = match found {
            Authentication::Verified { signer } => Some(signer),
            _ => None,
        };
        found
    }
}

/// The answer that turns a request away because its signature did not
/// verify, for use where the mode requires one.
pub fn rejection(request_id: &str, fault: VerificationError) -> (response: Response)
    ensures
        response@ == rejection_view(request_id@, fault),
{
    let words = match fault {
        VerificationError::MalformedSignature => "malformed signature",
        VerificationError::RecoveryFailed => "signature recovery failed",
    };
    make_resp_json(
        String::from_str(request_id),
        OP_VERIFY_SIGNATURE_ERROR,
        String::from_str(words),
        ResponseData::Null,
    )
}

/// Answers a question once the range oracle has been asked.
///
/// Where the oracle failed, the answer carries the oracle's error code and
/// words and no data, and the state is left exactly as it was. Where a range
/// came back, the answer is a success and the request id is recorded in the
/// cache.
pub fn question(
    state: &mut ServerState,
    request_id: &str,
    admission: &Result<RangeAssignment, AdmissionError>,
) -> (response: Response)
    requires
        old(state).wf(),
    ensures
        final(state).wf(),
        response@ == answer_view(request_id@, *admission),
        final(state).ids() == ids_after_answer(
            old(state).ids(),
            old(state).capacity(),
            request_id@,
            *admission,
        ),
        final(state).capacity() == old(state).capacity(),
        final(state).seeded_identity() == old(state).seeded_identity(),
        admission is Err ==> *final(state) == *old(state),
{
    match admission {
        Ok(_) => {
            state.insert(String::from_str(request_id));
            make_resp_json(
                String::from_str(request_id),
                SUCCESS,
                String::new(),
                ResponseData::EmptyObject,
            )
        },
        Err(fault) => {
            let words = String::from_str("get vrf range contract error: ").concat(fault.detail());
            make_resp_json(
                String::from_str(request_id),
                OP_GET_RANGE_CONTRACT_ERROR,
                words,
                ResponseData::Null,
            )
        },
    }
}

/// A failed oracle is always reported as such, with no data, and never
/// touches the cache.
pub proof fn oracle_failure_is_surfaced(
    ids: Seq<Seq<char>>,
    capacity: nat,
    request_id: Seq<char>,
    admission: Result<RangeAssignment, AdmissionError>,
)
    requires
        admission is Err,
    ensures
        answer_view(request_id, admission).error_code == OP_GET_RANGE_CONTRACT_ERROR,
        answer_view(request_id, admission).error_code != SUCCESS,
        answer_view(request_id, admission).data == ResponseData::Null,
        ids_after_answer(ids, capacity, request_id, admission) == ids,
{
}

/// Under `Optional` a request that carries no signature or no prompt hash is
/// not verified and not turned away, so its answer rests on the oracle
/// alone: a success where a range came back.
pub proof fn unsigned_request_is_admitted(
    signature: Seq<u8>,
    prompt_hash: Seq<u8>,
    request_id: Seq<char>,
    admission: Result<RangeAssignment, AdmissionError>,
)
    requires
        signature.len() == 0 || prompt_hash.len() == 0,
        admission is Ok,
    ensures
        authentication_outcome(AuthenticationMode::Optional, signature, prompt_hash)
            == AuthenticationView::Skipped,
        !is_turned_away(
            AuthenticationMode::Optional,
            authentication_outcome(AuthenticationMode::Optional, signature, prompt_hash),
        ),
        answer_view(request_id, admission).error_code == SUCCESS,
{
}

} // verus!
