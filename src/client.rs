//! The client: its configuration, what one call sends, and how each
//! operation turns the decoded reply into the result it promises.

use vstd::prelude::*;
use crate::wire::{Members, object_text, encode_object, parsed_object};
use crate::protocol::{
    AgentApiRequest, AgentApiResponse, Document, ExchangeClaimForSecret, ResponseView,
    ResponseKind, kind_of, response_view_ok,
};
use crate::error::{ApiError, ApiErrorView, outcome_view, is_parse_failure};
use crate::codec::{
    encode_request, request_members, response_members, decode_spec, body_spec, error_reply,
    success_reply, lemma_round_trip,
};

verus! {

/// The configuration of a client: the endpoint every call is posted to, and
/// the agent's secret once it has one. It does not change after construction.
#[derive(Debug)]
pub struct ApiClient {
    api_base: String,
    agent_secret: Option<String>,
}

/// What one call sends: a POST of `body` to `url`, with an `Authorization`
/// header where `authorization` holds one.
#[derive(Debug)]
pub struct Outgoing {
    pub url: String,
    pub authorization: Option<String>,
    pub body: Vec<u8>,
}

/// The `Authorization` header for a configured secret.
pub open spec fn authorization_for(secret: Option<Seq<char>>) -> Option<Seq<char>> {
    match secret {
        Some(s) => Some("agent-key "@ + s),
        None => None,
    }
}

impl ApiClient {
    /// The endpoint address.
    pub closed spec fn base(&self) -> Seq<char> {
        self.api_base@
    }

    /// The configured secret.
    pub closed spec fn secret(&self) -> Option<Seq<char>> {
        match self.agent_secret {
            Some(s) => Some(s@),
            None => None,
        }
    }

    /// A client that posts to `api_base`, authenticated by `agent_secret`
    /// where one is given.
    pub fn new(api_base: String, agent_secret: Option<String>) -> (r: Self)
        ensures
            r.base() == api_base@,
            r.secret() == (match agent_secret {
                Some(s) => Some(s@),
                None => None,
            }),
    {
        ApiClient { api_base, agent_secret }
    }

    /// The endpoint address.
    pub fn api_base(&self) -> (r: &String)
        ensures
            r@ == self.base(),
    {
        &self.api_base
    }

    /// The configured secret.
    pub fn agent_secret(&self) -> (r: Option<&String>)
        ensures
            match r {
                Some(s) => self.secret() == Some(s@),
                None => self.secret() is None,
            },
    {
        match &self.agent_secret {
            Some(s) => Some(s),
            None => None,
        }
    }

    /// The `Authorization` header value, `agent-key <secret>`, where a secret
    /// is configured; none otherwise.
    pub fn authorization(&self) -> (r: Option<String>)
        ensures
            match r {
                Some(h) => authorization_for(self.secret()) == Some(h@),
                None => authorization_for(self.secret()) is None,
            },
    {
        match &self.agent_secret {
            Some(s) => Some(String::from_str("agent-key ").concat(s.as_str())),
            None => None,
        }
    }

    /// What a call of `req` sends: its JSON text, posted to the endpoint,
    /// with the authorization header where a secret is configured. It fails
    /// only where a raw field of a document is not JSON text.
    pub fn prepare(&self, req: &AgentApiRequest) -> (r: Result<Outgoing, serde_json::Error>)
        requires
            req.wf(),
        ensures
            r is Err <==> object_text(request_members(*req)) is None,
            r matches Ok(out) ==> {
                &&& out.url@ == self.base()
                &&& match out.authorization {
                    Some(h) => authorization_for(self.secret()) == Some(h@),
                    None => authorization_for(self.secret()) is None,
                }
                &&& object_text(request_members(*req)) == Some(out.body@)
            },
    {
        let members = encode_request(req);
        let body = encode_object(&members)?;
        Ok(Outgoing { url: self.api_base.clone(), authorization: self.authorization(), body })
    }
}

/// The request that asks for a claim's secret.
pub fn claim_request(claim_key: &str) -> (r: AgentApiRequest)
    ensures
        r matches AgentApiRequest::ExchangeClaimForSecret(c) && c.claim_key@ == claim_key@,
{
    AgentApiRequest::ExchangeClaimForSecret(ExchangeClaimForSecret { claim_key: String::from_str(claim_key) })
}

/// The outcome of asking for the control address.
pub open spec fn control_addr_spec(res: Result<ResponseView, ApiErrorView>) -> Result<Seq<char>, ApiErrorView> {
    match res {
        Ok(ResponseView::ControlAddress(a)) => Ok(a),
        Ok(other) => Err(ApiErrorView::UnexpectedResponse(other)),
        Err(e) => Err(e),
    }
}

/// The outcome of asking for a tunnel request to be signed.
pub open spec fn signed_request_spec(res: Result<ResponseView, ApiErrorView>) -> Result<Members, ApiErrorView> {
    match res {
        Ok(ResponseView::SignedTunnelRequest(d)) => Ok(d),
        Ok(other) => Err(ApiErrorView::UnexpectedResponse(other)),
        Err(e) => Err(e),
    }
}

/// The outcome of asking for a session secret.
pub open spec fn session_secret_spec(res: Result<ResponseView, ApiErrorView>) -> Result<Members, ApiErrorView> {
    match res {
        Ok(ResponseView::SessionSecret(d)) => Ok(d),
        Ok(other) => Err(ApiErrorView::UnexpectedResponse(other)),
        Err(e) => Err(e),
    }
}

/// The outcome of exchanging a claim: code 404 means "not claimed yet".
pub open spec fn claim_secret_spec(res: Result<ResponseView, ApiErrorView>) -> Result<Option<Seq<char>>, ApiErrorView> {
    match res {
        Ok(ResponseView::AgentSecret(s)) => Ok(Some(s)),
        Ok(other) => Err(ApiErrorView::UnexpectedResponse(other)),
        Err(ApiErrorView::HttpError(404, _)) => Ok(None),
        Err(e) => Err(e),
    }
}

/// The outcome of asking for the agent configuration.
pub open spec fn agent_config_spec(res: Result<ResponseView, ApiErrorView>) -> Result<Members, ApiErrorView> {
    match res {
        Ok(ResponseView::AgentConfig(d)) => Ok(d),
        Ok(other) => Err(ApiErrorView::UnexpectedResponse(other)),
        Err(e) => Err(e),
    }
}

/// The view of a claim exchange's outcome.
pub open spec fn claim_view(r: Result<Option<String>, ApiError>) -> Result<Option<Seq<char>>, ApiErrorView> {
    match r {
        Ok(Some(s)) => Ok(Some(s@)),
        Ok(None) => Ok(None),
        Err(e) => Err(e@),
    }
}

/// The control address, from the reply to `GetControlAddr`.
pub fn control_addr_of(res: Result<AgentApiResponse, ApiError>) -> (r: Result<String, ApiError>)
    ensures
        outcome_view(r) == control_addr_spec(outcome_view(res)),
{
    match res {
        Ok(AgentApiResponse::ControlAddress(a)) => Ok(a.control_address),
        Ok(other) => Err(ApiError::UnexpectedResponse(other)),
        Err(e) => Err(e),
    }
}

/// The signed request, from the reply to `SignControlRequest`.
pub fn signed_request_of(res: Result<AgentApiResponse, ApiError>) -> (r: Result<Document, ApiError>)
    ensures
        outcome_view(r) == signed_request_spec(outcome_view(res)),
{
    match res {
        Ok(AgentApiResponse::SignedTunnelRequest(d)) => Ok(d),
        Ok(other) => Err(ApiError::UnexpectedResponse(other)),
        Err(e) => Err(e),
    }
}

/// The session secret, from the reply to `GenerateSharedTunnelSecret`.
pub fn session_secret_of(res: Result<AgentApiResponse, ApiError>) -> (r: Result<Document, ApiError>)
    ensures
        outcome_view(r) == session_secret_spec(outcome_view(res)),
{
    match res {
        Ok(AgentApiResponse::SessionSecret(d)) => Ok(d),
        Ok(other) => Err(ApiError::UnexpectedResponse(other)),
        Err(e) => Err(e),
    }
}

/// The agent's secret, from the reply to `ExchangeClaimForSecret`; none
/// where the server answers with code 404.
pub fn claim_secret_of(res: Result<AgentApiResponse, ApiError>) -> (r: Result<Option<String>, ApiError>)
    ensures
        claim_view(r) == claim_secret_spec(outcome_view(res)),
{
    match res {
        Ok(AgentApiResponse::AgentSecret(s)) => Ok(Some(s.secret_key)),
        Ok(other) => Err(ApiError::UnexpectedResponse(other)),
        Err(ApiError::HttpError(code, message)) => {
            if code == 404 {
                Ok(None)
            } else {
                Err(ApiError::HttpError(code, message))
            }
        },
        Err(e) => Err(e),
    }
}

/// The agent configuration, from the reply to `GetAgentConfig`.
pub fn agent_config_of(res: Result<AgentApiResponse, ApiError>) -> (r: Result<Document, ApiError>)
    ensures
        outcome_view(r) == agent_config_spec(outcome_view(res)),
{
    match res {
        Ok(AgentApiResponse::AgentConfig(d)) => Ok(d),
        Ok(other) => Err(ApiError::UnexpectedResponse(other)),
        Err(e) => Err(e),
    }
}

/// Where the server's well-formed reply is the variant that an operation
/// expects, that operation returns the reply's data unwrapped.
pub proof fn lemma_expected_reply_unwraps(r: ResponseView)
    requires
        response_view_ok(r),
    ensures
        r matches ResponseView::ControlAddress(a)
            ==> control_addr_spec(decode_spec(Some(response_members(r)))) == Ok::<Seq<char>, ApiErrorView>(a),
        r matches ResponseView::SignedTunnelRequest(d)
            ==> signed_request_spec(decode_spec(Some(response_members(r)))) == Ok::<Members, ApiErrorView>(d),
        r matches ResponseView::SessionSecret(d)
            ==> session_secret_spec(decode_spec(Some(response_members(r)))) == Ok::<Members, ApiErrorView>(d),
        r matches ResponseView::AgentSecret(s)
            ==> claim_secret_spec(decode_spec(Some(response_members(r))))
                == Ok::<Option<Seq<char>>, ApiErrorView>(Some(s)),
        r matches ResponseView::AgentConfig(d)
            ==> agent_config_spec(decode_spec(Some(response_members(r)))) == Ok::<Members, ApiErrorView>(d),
{
    lemma_round_trip(r);
}

/// Where the server's well-formed reply is a variant other than the one an
/// operation expects, that operation fails with a mismatch that carries the
/// reply.
pub proof fn lemma_other_reply_mismatches(r: ResponseView)
    requires
        response_view_ok(r),
    ensures
        kind_of(r) != ResponseKind::ControlAddress ==> control_addr_spec(
            decode_spec(Some(response_members(r))),
        ) == Err::<Seq<char>, ApiErrorView>(ApiErrorView::UnexpectedResponse(r)),
        kind_of(r) != ResponseKind::SignedTunnelRequest ==> signed_request_spec(
            decode_spec(Some(response_members(r))),
        ) == Err::<Members, ApiErrorView>(ApiErrorView::UnexpectedResponse(r)),
        kind_of(r) != ResponseKind::SessionSecret ==> session_secret_spec(
            decode_spec(Some(response_members(r))),
        ) == Err::<Members, ApiErrorView>(ApiErrorView::UnexpectedResponse(r)),
        kind_of(r) != ResponseKind::AgentSecret ==> claim_secret_spec(
            decode_spec(Some(response_members(r))),
        ) == Err::<Option<Seq<char>>, ApiErrorView>(ApiErrorView::UnexpectedResponse(r)),
        kind_of(r) != ResponseKind::AgentConfig ==> agent_config_spec(
            decode_spec(Some(response_members(r))),
        ) == Err::<Members, ApiErrorView>(ApiErrorView::UnexpectedResponse(r)),
{
    lemma_round_trip(r);
}

/// The error object with code 404 is "no secret yet" for a claim exchange,
/// and the server's error, unchanged, for every other operation.
pub proof fn lemma_not_found(m: Members, message: Seq<char>)
    requires
        error_reply(m) == Some((404u16, message)),
    ensures
        claim_secret_spec(decode_spec(Some(m))) == Ok::<Option<Seq<char>>, ApiErrorView>(None),
        control_addr_spec(decode_spec(Some(m)))
            == Err::<Seq<char>, ApiErrorView>(ApiErrorView::HttpError(404, message)),
        signed_request_spec(decode_spec(Some(m)))
            == Err::<Members, ApiErrorView>(ApiErrorView::HttpError(404, message)),
        session_secret_spec(decode_spec(Some(m)))
            == Err::<Members, ApiErrorView>(ApiErrorView::HttpError(404, message)),
        agent_config_spec(decode_spec(Some(m)))
            == Err::<Members, ApiErrorView>(ApiErrorView::HttpError(404, message)),
{
}

/// The parsed body is neither the error object nor any known reply.
pub open spec fn no_known_shape(o: Option<Members>) -> bool {
    match o {
        None => true,
        Some(m) => error_reply(m) is None && success_reply(m) is None,
    }
}

/// Bytes that are not JSON, or JSON of no known shape, are a parse failure
/// for every operation.
pub proof fn lemma_parse_failure_everywhere(b: Seq<u8>)
    requires
        parsed_object(b) is None || no_known_shape(parsed_object(b)->0),
    ensures
        body_spec(b) matches Err(e) && is_parse_failure(e),
        control_addr_spec(body_spec(b)) matches Err(e) && is_parse_failure(e),
        signed_request_spec(body_spec(b)) matches Err(e) && is_parse_failure(e),
        session_secret_spec(body_spec(b)) matches Err(e) && is_parse_failure(e),
        claim_secret_spec(body_spec(b)) matches Err(e) && is_parse_failure(e),
        agent_config_spec(body_spec(b)) matches Err(e) && is_parse_failure(e),
{
}

} // verus!
