//! Control-plane client logic of a network agent: the closed set of API
//! operations, the JSON envelope that carries them, and the decisions that
//! turn a server reply into the result each operation promises.
//!
//! The HTTP exchange itself is performed by the caller; this crate prepares
//! what is sent and interprets the bytes that come back.

pub mod wire;
pub mod protocol;
pub mod error;
pub mod codec;
pub mod client;

pub use wire::{Field, FieldView};
pub use protocol::{
    AgentApiRequest, AgentApiResponse, AgentSecret, ControlAddress, Document,
    ExchangeClaimForSecret, ResponseKind,
};
pub use error::{ApiError, ParseFailure};
pub use codec::{decode_body, decode_members, encode_request, encode_response, parse_code};
pub use client::{
    ApiClient, Outgoing, claim_request, control_addr_of, signed_request_of, session_secret_of,
    claim_secret_of, agent_config_of,
};
