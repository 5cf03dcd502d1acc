use vstd::prelude::*;

use crate::error::{ErrorCode, FlowyError};

verus! {

/// A response as received by the transport client: the body, and the error
/// descriptor that the backend embedded, if any. The transport client sets
/// the descriptor for every non-success status.
#[derive(Clone, Debug, PartialEq, Eq)]
pub struct FlowyResponse {
    pub data: Vec<u8>,
    pub error: Option<FlowyError>,
}

/// What the response interceptor asks its host to do.
#[derive(Clone, Debug, PartialEq, Eq)]
pub enum ResponseAction {
    /// Nothing.
    Ignore,
    /// Emit one diagnostic record noting the unauthorized condition and,
    /// where the call carried a credential, hand it to the observer of
    /// unauthorized users.
    Unauthorized { token: Option<String> },
}

/// How many diagnostic records an action emits.
pub open spec fn log_records(a: ResponseAction) -> nat {
    match a {
        ResponseAction::Ignore => 0,
        ResponseAction::Unauthorized { .. } => 1,
    }
}

/// The credential that an action hands to the observer, if any, as text.
pub open spec fn notified_token(a: ResponseAction) -> Option<Seq<char>> {
    match a {
        ResponseAction::Ignore => None,
        ResponseAction::Unauthorized { token } => token.deep_view(),
    }
}

/// Whether a response carries a descriptor that refuses the caller.
pub open spec fn refuses_caller(response: FlowyResponse) -> bool {
    &&& response.error is Some
    &&& response.error.unwrap().code == ErrorCode::UserUnauthorized
}

/// Whether `a` is what the interceptor asks for, given the call's credential
/// and a response: one record and the credential when the caller is
/// refused, nothing otherwise.
pub open spec fn is_action_for(
    a: ResponseAction,
    token: Option<Seq<char>>,
    response: FlowyResponse,
) -> bool {
    if refuses_caller(response) {
        a is Unauthorized && notified_token(a) == token
    } else {
        a is Ignore
    }
}

/// The same for a transport outcome: a failure that brought no response asks
/// for nothing.
pub open spec fn is_action_for_outcome(
    a: ResponseAction,
    token: Option<Seq<char>>,
    outcome: Result<FlowyResponse, FlowyError>,
) -> bool {
    match outcome {
        Ok(response) => is_action_for(a, token, response),
        Err(_) => a is Ignore,
    }
}

/// The result of a call whose body is discarded.
pub open spec fn send_result(outcome: Result<FlowyResponse, FlowyError>) -> Result<(), FlowyError> {
    match outcome {
        Err(e) => Err(e),
        Ok(response) => match response.error {
            Some(e) => Err(e),
            None => Ok(()),
        },
    }
}

/// The result of a call whose body is optional: an empty body is no document.
pub open spec fn option_result(outcome: Result<FlowyResponse, FlowyError>) -> Result<
    Option<Vec<u8>>,
    FlowyError,
> {
    match outcome {
        Err(e) => Err(e),
        Ok(response) => match response.error {
            Some(e) => Err(e),
            None => if response.data@.len() == 0 {
                Ok(None)
            } else {
                Ok(Some(response.data))
            },
        },
    }
}

/// A transport failure, or the descriptor that the transport client set on a
/// response, is what the caller gets back: neither translated nor swallowed,
/// whatever the operation.
pub proof fn lemma_transport_error_returned(outcome: Result<FlowyResponse, FlowyError>, e: FlowyError)
    requires
        outcome == Err::<FlowyResponse, FlowyError>(e) || (outcome is Ok && outcome->Ok_0.error
            == Some(e)),
    ensures
        send_result(outcome) == Err::<(), FlowyError>(e),
        option_result(outcome) == Err::<Option<Vec<u8>>, FlowyError>(e),
{
}

/// A successful response with an empty body means that there is no such
/// document: the read yields nothing, and no error.
pub proof fn lemma_empty_body_is_absent(response: FlowyResponse)
    requires
        response.error is None,
        response.data@.len() == 0,
    ensures
        option_result(Ok(response)) == Ok::<Option<Vec<u8>>, FlowyError>(None),
        send_result(Ok(response)) == Ok::<(), FlowyError>(()),
{
}

/// The interceptor acts on a refused caller only: one diagnostic record,
/// and the credential handed on when there was one; on a response without a
/// descriptor it does nothing.
pub proof fn lemma_interceptor_acts_on_refusal_only(
    a: ResponseAction,
    token: Option<Seq<char>>,
    response: FlowyResponse,
)
    requires
        is_action_for(a, token, response),
    ensures
        response.error is None ==> log_records(a) == 0 && notified_token(a) is None,
        refuses_caller(response) ==> log_records(a) == 1 && notified_token(a) == token,
        refuses_caller(response) && token is None ==> notified_token(a) is None,
{
}

/// What a completed call yields: the interceptor's action and the result
/// handed back to the caller.
#[derive(Debug, PartialEq, Eq)]
pub struct Received<T> {
    pub action: ResponseAction,
    pub result: Result<T, FlowyError>,
}

/// The hook that inspects every response of the document service for a
/// refused credential. It holds no state.
#[derive(Clone, Copy, Debug, PartialEq, Eq)]
pub struct DocumentResponseMiddleware {}

impl DocumentResponseMiddleware {
    pub fn new() -> (r: DocumentResponseMiddleware) {
        DocumentResponseMiddleware {  }
    }

    /// Inspects one response. It never fails and leaves the response as it is.
    pub fn receive_response(&self, token: &Option<String>, response: &FlowyResponse) -> (r:
        ResponseAction)
        ensures
            is_action_for(r, token.deep_view(), *response),
            log_records(r) == (if refuses_caller(*response) { 1nat } else { 0nat }),
    {
        let refused = match &response.error {
            Some(error) => error.is_unauthorized(),
            None => false,
        };
        if refused {
            let kept = match token {
                Some(t) => Some(t.clone()),
                None => None,
            };
            ResponseAction::Unauthorized { token: kept }
        } else {
            ResponseAction::Ignore
        }
    }
}

/// Completes a call whose body is discarded: the interceptor sees the
/// response, and the transport's error, or the descriptor, comes back as is.
pub fn send_response(
    middleware: &DocumentResponseMiddleware,
    token: &Option<String>,
    outcome: Result<FlowyResponse, FlowyError>,
) -> (r: Received<()>)
    ensures
        is_action_for_outcome(r.action, token.deep_view(), outcome),
        r.result == send_result(outcome),
{
    match outcome {
        Err(e) => Received { action: ResponseAction::Ignore, result: Err(e) },
        Ok(response) => {
            let action = middleware.receive_response(token, &response);
            match response.error {
                Some(e) => Received { action, result: Err(e) },
                None => Received { action, result: Ok(()) },
            }
        },
    }
}

/// Completes a call whose body is optional: an empty body is no document,
/// not an error.
pub fn option_response(
    middleware: &DocumentResponseMiddleware,
    token: &Option<String>,
    outcome: Result<FlowyResponse, FlowyError>,
) -> (r: Received<Option<Vec<u8>>>)
    ensures
        is_action_for_outcome(r.action, token.deep_view(), outcome),
        r.result == option_result(outcome),
{
    match outcome {
        Err(e) => Received { action: ResponseAction::Ignore, result: Err(e) },
        Ok(response) => {
            let action = middleware.receive_response(token, &response);
            match response.error {
                Some(e) => Received { action, result: Err(e) },
                None => {
                    if response.data.len() == 0 {
                        Received { action, result: Ok(None) }
                    } else {
                        Received { action, result: Ok(Some(response.data)) }
                    }
                },
            }
        },
    }
}

} // verus!
