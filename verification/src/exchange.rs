//! Classification of one request/response exchange with the endpoint. The
//! transport itself (the HTTP client) lives outside the library; it hands in
//! an [`HttpOutcome`] with plain values, and the functions here decide, in
//! the protocol's order, what the outcome means.

use crate::classifier::classify;
use crate::model::ErrorModel;
use crate::model::Prelogin;
use crate::model::PreloginError;
use crate::model::PreloginModel;
use vstd::prelude::*;
use vstd::string::StringExecFns;

verus! {

/// Mathematical view of [`HttpOutcome`].
pub ghost enum HttpOutcomeModel {
    NetworkFailure(Seq<char>),
    Response { status: u16, reason: Seq<char>, body: Seq<char> },
}

/// What one attempted HTTP exchange came to, as the transport reports it: a
/// network-level failure with its cause, or a response with its status code,
/// a human-readable reason and the raw body.
pub enum HttpOutcome {
    NetworkFailure(String),
    Response { status: u16, reason: String, body: String },
}

impl View for HttpOutcome {
    type V = HttpOutcomeModel;

    open spec fn view(&self) -> HttpOutcomeModel {
        match self {
            HttpOutcome::NetworkFailure(cause) => HttpOutcomeModel::NetworkFailure(cause@),
            HttpOutcome::Response { status, reason, body } => (HttpOutcomeModel::Response {
                status: *status,
                reason: reason@,
                body: body@,
            }),
        }
    }
}

/// The status range that counts as a successful HTTP response.
pub open spec fn is_http_success(status: u16) -> bool {
    200 <= status && status < 300
}

/// The HTTP status the endpoint answers when the prelogin path does not
/// exist.
pub const HTTP_NOT_FOUND: u16 = 404;

/// The transport-outcome classification, evaluated in order: a network
/// failure is a transport error, "not found" means the server is no such
/// portal, any other error status is a rejection with its reason, and a
/// success status hands the body on.
pub open spec fn classify_exchange_model(outcome: HttpOutcomeModel) -> Result<
    Seq<char>,
    ErrorModel,
> {
    match outcome {
        HttpOutcomeModel::NetworkFailure(cause) => Err(ErrorModel::TransportError(cause)),
        HttpOutcomeModel::Response { status, reason, body } => {
            if status == HTTP_NOT_FOUND {
                Err(ErrorModel::EndpointNotFound)
            } else if !is_http_success(status) {
                Err(ErrorModel::RemoteRejected(reason))
            } else {
                Ok(body)
            }
        },
    }
}

/// Classifies one exchange. Returns the raw body exactly on a successful
/// status, else the failure [`classify_exchange_model`] assigns.
pub fn classify_exchange(outcome: HttpOutcome) -> (r: Result<String, PreloginError>)
    ensures
        match r {
            Ok(body) => classify_exchange_model(outcome@) == Ok::<Seq<char>, ErrorModel>(body@),
            Err(e) => classify_exchange_model(outcome@) == Err::<Seq<char>, ErrorModel>(e@),
        },
{
    match outcome {
        HttpOutcome::NetworkFailure(cause) => Err(PreloginError::TransportError(cause)),
        HttpOutcome::Response { status, reason, body } => {
            if status == HTTP_NOT_FOUND {
                Err(PreloginError::EndpointNotFound)
            } else if !(200 <= status && status < 300) {
                Err(PreloginError::RemoteRejected(reason))
            } else {
                Ok(body)
            }
        },
    }
}

/// A "not found" answer means the server is no such portal, and is a failure
/// distinct from any other error status, which is a rejection carrying the
/// reason — whatever the reason and body were.
pub proof fn lemma_http_error_classification(status: u16, reason: Seq<char>, body: Seq<char>)
    requires
        !is_http_success(status),
    ensures
        status == HTTP_NOT_FOUND ==> classify_exchange_model(
            HttpOutcomeModel::Response { status, reason, body },
        ) == Err::<Seq<char>, ErrorModel>(ErrorModel::EndpointNotFound),
        status != HTTP_NOT_FOUND ==> classify_exchange_model(
            HttpOutcomeModel::Response { status, reason, body },
        ) == Err::<Seq<char>, ErrorModel>(ErrorModel::RemoteRejected(reason)),
        ErrorModel::EndpointNotFound != ErrorModel::RemoteRejected(reason),
{
}

/// The request path of the negotiation, relative to the already-normalized
/// server address: one path for gateway mode, another for portal mode.
pub open spec fn prelogin_path(is_gateway: bool) -> Seq<char> {
    if is_gateway {
        "/ssl-vpn/prelogin.esp"@
    } else {
        "/global-protect/prelogin.esp"@
    }
}

/// Builds the endpoint URL for the negotiation request.
pub fn prelogin_url(server: &str, is_gateway: bool) -> (r: String)
    ensures
        r@ == server@ + prelogin_path(is_gateway),
{
    let base = String::from_str(server);
    if is_gateway {
        base.concat("/ssl-vpn/prelogin.esp")
    } else {
        base.concat("/global-protect/prelogin.esp")
    }
}

/// What the whole negotiation produces for one transport outcome: the
/// exchange classification, then the response classification of the body.
pub open spec fn prelogin_outcome(outcome: HttpOutcomeModel, is_gateway: bool) -> Result<
    PreloginModel,
    ErrorModel,
> {
    match classify_exchange_model(outcome) {
        Err(e) => Err(e),
        Ok(body) => classify(body, is_gateway),
    }
}

/// Runs the decision part of a prelogin call on a transport outcome the
/// caller obtained: classify the exchange, then classify the body.
pub fn handle_prelogin_exchange(outcome: HttpOutcome, is_gateway: bool) -> (r: Result<
    Prelogin,
    PreloginError,
>)
    ensures
        match r {
            Ok(p) => prelogin_outcome(outcome@, is_gateway) == Ok::<PreloginModel, ErrorModel>(p@),
            Err(e) => prelogin_outcome(outcome@, is_gateway) == Err::<PreloginModel, ErrorModel>(
                e@,
            ),
        },
{
    match classify_exchange(outcome) {
        Err(e) => Err(e),
        Ok(body) => crate::classifier::parse_res_xml(body.as_str(), is_gateway),
    }
}

} // verus!
