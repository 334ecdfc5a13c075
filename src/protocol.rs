//! The closed catalog of operations an agent may ask of the control plane,
//! and of the replies the control plane may give.

use vstd::prelude::*;
use crate::wire::{Field, Members, members_view, has_key};

verus! {

/// A JSON object that this client carries without reading it: a tunnel
/// request, a registration proof, a signed request or an agent configuration.
/// Its members sit beside the `type` tag on the wire, so it holds no member
/// keyed `type`.
#[derive(Debug)]
pub struct Document {
    pub members: Vec<(String, Field)>,
}

impl View for Document {
    type V = Members;

    open spec fn view(&self) -> Members {
        members_view(self.members@)
    }
}

/// A document's members can sit beside the `type` tag.
pub open spec fn document_members_ok(m: Members) -> bool {
    !has_key(m, "type"@)
}

impl Document {
    pub open spec fn wf(&self) -> bool {
        document_members_ok(self@)
    }

    /// A document of these members, unless one of them is keyed `type`.
    pub fn from_members(members: Vec<(String, Field)>) -> (r: Option<Document>)
        ensures
            r matches Some(d) ==> d@ == members_view(members@) && d.wf(),
            r is None <==> !document_members_ok(members_view(members@)),
    {
        match crate::wire::find_key(&members, "type") {
            Some(_) => None,
            None => {
                proof {
                    let mv = members_view(members@);
                    if has_key(mv, "type"@) {
                        let i = choose|i: int| 0 <= i < mv.len() && mv[i].0 == "type"@;
                        crate::wire::lemma_some_first_key(mv, "type"@, i);
                    }
                }
                Some(Document { members })
            },
        }
    }
}

/// The payload of a claim exchange.
#[derive(Debug)]
pub struct ExchangeClaimForSecret {
    pub claim_key: String,
}

/// The address of the control server.
#[derive(Debug)]
pub struct ControlAddress {
    pub control_address: String,
}

/// The secret that a claimed agent authenticates with.
#[derive(Debug)]
pub struct AgentSecret {
    pub secret_key: String,
}

/// One operation of the control-plane API.
#[derive(Debug)]
pub enum AgentApiRequest {
    GetControlAddr,
    SignControlRequest(Document),
    GenerateSharedTunnelSecret(Document),
    ExchangeClaimForSecret(ExchangeClaimForSecret),
    GetAgentConfig,
}

impl AgentApiRequest {
    /// Every document that the request carries can sit beside its tag.
    pub open spec fn wf(&self) -> bool {
        match self {
            AgentApiRequest::SignControlRequest(d) => d.wf(),
            AgentApiRequest::GenerateSharedTunnelSecret(d) => d.wf(),
            _ => true,
        }
    }
}

/// One successful reply of the control-plane API.
#[derive(Debug)]
pub enum AgentApiResponse {
    ControlAddress(ControlAddress),
    SignedTunnelRequest(Document),
    SessionSecret(Document),
    AgentSecret(AgentSecret),
    AgentConfig(Document),
}

/// The mathematical value of a reply.
pub ghost enum ResponseView {
    ControlAddress(Seq<char>),
    SignedTunnelRequest(Members),
    SessionSecret(Members),
    AgentSecret(Seq<char>),
    AgentConfig(Members),
}

impl View for AgentApiResponse {
    type V = ResponseView;

    open spec fn view(&self) -> ResponseView {
        match self {
            AgentApiResponse::ControlAddress(a) => ResponseView::ControlAddress(a.control_address@),
            AgentApiResponse::SignedTunnelRequest(d) => ResponseView::SignedTunnelRequest(d@),
            AgentApiResponse::SessionSecret(d) => ResponseView::SessionSecret(d@),
            AgentApiResponse::AgentSecret(s) => ResponseView::AgentSecret(s.secret_key@),
            AgentApiResponse::AgentConfig(d) => ResponseView::AgentConfig(d@),
        }
    }
}

/// The variant of a reply, without its data.
#[derive(Clone, Copy, Debug, PartialEq, Eq, Structural)]
pub enum ResponseKind {
    ControlAddress,
    SignedTunnelRequest,
    SessionSecret,
    AgentSecret,
    AgentConfig,
}

/// The variant of a reply's value.
pub open spec fn kind_of(r: ResponseView) -> ResponseKind {
    match r {
        ResponseView::ControlAddress(_) => ResponseKind::ControlAddress,
        ResponseView::SignedTunnelRequest(_) => ResponseKind::SignedTunnelRequest,
        ResponseView::SessionSecret(_) => ResponseKind::SessionSecret,
        ResponseView::AgentSecret(_) => ResponseKind::AgentSecret,
        ResponseView::AgentConfig(_) => ResponseKind::AgentConfig,
    }
}

/// A reply's documents can sit beside its tag.
pub open spec fn response_view_ok(r: ResponseView) -> bool {
    match r {
        ResponseView::SignedTunnelRequest(m) => document_members_ok(m),
        ResponseView::SessionSecret(m) => document_members_ok(m),
        ResponseView::AgentConfig(m) => document_members_ok(m),
        _ => true,
    }
}

/// The one reply variant that answers each operation.
pub open spec fn expected_kind(req: AgentApiRequest) -> ResponseKind {
    match req {
        AgentApiRequest::GetControlAddr => ResponseKind::ControlAddress,
        AgentApiRequest::SignControlRequest(_) => ResponseKind::SignedTunnelRequest,
        AgentApiRequest::GenerateSharedTunnelSecret(_) => ResponseKind::SessionSecret,
        AgentApiRequest::ExchangeClaimForSecret(_) => ResponseKind::AgentSecret,
        AgentApiRequest::GetAgentConfig => ResponseKind::AgentConfig,
    }
}

impl Document {
    /// Whether the document holds no member keyed `type`.
    pub fn is_well_formed(&self) -> (r: bool)
        ensures
            r == self.wf(),
    {
        match crate::wire::find_key(&self.members, "type") {
            Some(_) => false,
            None => {
                proof {
                    let mv = self@;
                    if has_key(mv, "type"@) {
                        let i = choose|i: int| 0 <= i < mv.len() && mv[i].0 == "type"@;
                        crate::wire::lemma_some_first_key(mv, "type"@, i);
                    }
                }
                true
            },
        }
    }
}

impl AgentApiRequest {
    /// Whether every document that the request carries can sit beside its tag.
    pub fn is_well_formed(&self) -> (r: bool)
        ensures
            r == self.wf(),
    {
        match self {
            AgentApiRequest::SignControlRequest(d) => d.is_well_formed(),
            AgentApiRequest::GenerateSharedTunnelSecret(d) => d.is_well_formed(),
            _ => true,
        }
    }

    /// The reply variant that answers this operation.
    pub fn expected_response(&self) -> (r: ResponseKind)
        ensures
            r == expected_kind(*self),
    {
        match self {
            AgentApiRequest::GetControlAddr => ResponseKind::ControlAddress,
            AgentApiRequest::SignControlRequest(_) => ResponseKind::SignedTunnelRequest,
            AgentApiRequest::GenerateSharedTunnelSecret(_) => ResponseKind::SessionSecret,
            AgentApiRequest::ExchangeClaimForSecret(_) => ResponseKind::AgentSecret,
            AgentApiRequest::GetAgentConfig => ResponseKind::AgentConfig,
        }
    }
}

impl AgentApiResponse {
    /// The variant of this reply.
    pub fn kind(&self) -> (r: ResponseKind)
        ensures
            r == kind_of(self@),
    {
        match self {
            AgentApiResponse::ControlAddress(_) => ResponseKind::ControlAddress,
            AgentApiResponse::SignedTunnelRequest(_) => ResponseKind::SignedTunnelRequest,
            AgentApiResponse::SessionSecret(_) => ResponseKind::SessionSecret,
            AgentApiResponse::AgentSecret(_) => ResponseKind::AgentSecret,
            AgentApiResponse::AgentConfig(_) => ResponseKind::AgentConfig,
        }
    }
}

} // verus!
