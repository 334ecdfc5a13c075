//! The envelope codec. A request goes out as an object tagged by `type`; a
//! reply comes back either as the error object
//! `{"type": "error", "code": <integer>, "message": <string>}` or as one
//! reply, tagged by `type` or, for the two replies whose one key tells them
//! apart, untagged. The error object is matched first, then the replies.

use vstd::prelude::*;
use crate::wire::{
    Field, FieldView, Members, members_view, first_key, text_at, raw_at, is_first_key,
    lemma_first_key_unique, find_key, same_text, parsed_object, parsed_view, parse_object,
};
use crate::protocol::{
    AgentApiRequest, AgentApiResponse, ResponseView, ControlAddress, AgentSecret, Document,
    response_view_ok,
};
use crate::error::{ApiError, ApiErrorView, ParseFailure, outcome_view};

verus! {

/// The value of a string of decimal digits.
pub open spec fn decimal(s: Seq<char>) -> int
    decreases s.len(),
{
    if s.len() == 0 {
        0
    } else {
        decimal(s.drop_last()) * 10 + (s.last() as int - '0' as int)
    }
}

/// Every character is a decimal digit.
pub open spec fn all_digits(s: Seq<char>) -> bool {
    forall|i: int| 0 <= i < s.len() ==> '0' <= #[trigger] s[i] <= '9'
}

/// The status code that a JSON number's text stands for: a non-negative
/// integer that fits in 16 bits.
pub open spec fn code_value(s: Seq<char>) -> Option<u16> {
    if 0 < s.len() && all_digits(s) && decimal(s) <= 0xffff {
        Some(decimal(s) as u16)
    } else {
        None
    }
}

/// The code and message of the error object, where the members form one.
pub open spec fn error_reply(m: Members) -> Option<(u16, Seq<char>)> {
    if text_at(m, "type"@) == Some("error"@) {
        match (raw_at(m, "code"@), text_at(m, "message"@)) {
            (Some(c), Some(msg)) => match code_value(c) {
                Some(n) => Some((n, msg)),
                None => None,
            },
            _ => None,
        }
    } else {
        None
    }
}

/// The members without their `type` tag.
pub open spec fn untagged(m: Members) -> Members {
    match first_key(m, "type"@) {
        Some(i) => m.remove(i),
        None => m,
    }
}

/// The reply that the members form, if any: by its `type` tag where it has
/// one, else by the one key that sets the control address or the agent
/// secret apart.
pub open spec fn success_reply(m: Members) -> Option<ResponseView> {
    match text_at(m, "type"@) {
        Some(t) => if t == "control-address"@ {
            match text_at(m, "control_address"@) {
                Some(a) => Some(ResponseView::ControlAddress(a)),
                None => None,
            }
        } else if t == "signed-tunnel-request"@ {
            Some(ResponseView::SignedTunnelRequest(untagged(m)))
        } else if t == "shared-tunnel-secret"@ {
            Some(ResponseView::SessionSecret(untagged(m)))
        } else if t == "agent-secret"@ {
            match text_at(m, "secret_key"@) {
                Some(s) => Some(ResponseView::AgentSecret(s)),
                None => None,
            }
        } else if t == "agent-config"@ {
            Some(ResponseView::AgentConfig(untagged(m)))
        } else {
            None
        },
        None => match text_at(m, "control_address"@) {
            Some(a) => Some(ResponseView::ControlAddress(a)),
            None => match text_at(m, "secret_key"@) {
                Some(s) => Some(ResponseView::AgentSecret(s)),
                None => None,
            },
        },
    }
}

/// How a parsed reply is read: the error object first, then the replies;
/// a value that is neither, or no object at all, has an unknown shape.
pub open spec fn decode_spec(o: Option<Members>) -> Result<ResponseView, ApiErrorView> {
    match o {
        None => Err(ApiErrorView::UnknownShape),
        Some(m) => match error_reply(m) {
            Some((c, msg)) => Err(ApiErrorView::HttpError(c, msg)),
            None => match success_reply(m) {
                Some(r) => Ok(r),
                None => Err(ApiErrorView::UnknownShape),
            },
        },
    }
}

/// How a reply body is read: bytes that are not JSON fail as invalid JSON.
pub open spec fn body_spec(b: Seq<u8>) -> Result<ResponseView, ApiErrorView> {
    match parsed_object(b) {
        None => Err(ApiErrorView::InvalidJson),
        Some(o) => decode_spec(o),
    }
}

/// Members led by a `type` tag.
pub open spec fn tagged(tag: Seq<char>, rest: Members) -> Members {
    seq![("type"@, FieldView::Text(tag))] + rest
}

/// The members that a request is sent as.
pub open spec fn request_members(req: AgentApiRequest) -> Members {
    match req {
        AgentApiRequest::GetControlAddr => tagged("get-control-address"@, seq![]),
        AgentApiRequest::SignControlRequest(d) => tagged("sign-tunnel-request"@, d@),
        AgentApiRequest::GenerateSharedTunnelSecret(d) => tagged("generate-shared-tunnel-secret"@, d@),
        AgentApiRequest::ExchangeClaimForSecret(c) => tagged(
            "exchange-claim-for-secret"@,
            seq![("claim_key"@, FieldView::Text(c.claim_key@))],
        ),
        AgentApiRequest::GetAgentConfig => tagged("get-agent-config"@, seq![]),
    }
}

/// The members that the server sends a reply as.
pub open spec fn response_members(r: ResponseView) -> Members {
    match r {
        ResponseView::ControlAddress(a) => tagged(
            "control-address"@,
            seq![("control_address"@, FieldView::Text(a))],
        ),
        ResponseView::SignedTunnelRequest(d) => tagged("signed-tunnel-request"@, d),
        ResponseView::SessionSecret(d) => tagged("shared-tunnel-secret"@, d),
        ResponseView::AgentSecret(s) => tagged("agent-secret"@, seq![("secret_key"@, FieldView::Text(s))]),
        ResponseView::AgentConfig(d) => tagged("agent-config"@, d),
    }
}

/// The keys and tags of the protocol differ from one another.
proof fn lemma_literals_distinct()
    ensures
        "type"@ != "control_address"@,
        "type"@ != "secret_key"@,
        "error"@ != "control-address"@,
        "error"@ != "signed-tunnel-request"@,
        "error"@ != "shared-tunnel-secret"@,
        "error"@ != "agent-secret"@,
        "error"@ != "agent-config"@,
        "control-address"@ != "signed-tunnel-request"@,
        "control-address"@ != "shared-tunnel-secret"@,
        "control-address"@ != "agent-secret"@,
        "control-address"@ != "agent-config"@,
        "signed-tunnel-request"@ != "shared-tunnel-secret"@,
        "signed-tunnel-request"@ != "agent-secret"@,
        "signed-tunnel-request"@ != "agent-config"@,
        "shared-tunnel-secret"@ != "agent-secret"@,
        "shared-tunnel-secret"@ != "agent-config"@,
        "agent-secret"@ != "agent-config"@,
{
    reveal_strlit("type");
    reveal_strlit("error");
    reveal_strlit("control-address");
    reveal_strlit("control_address");
    reveal_strlit("signed-tunnel-request");
    reveal_strlit("shared-tunnel-secret");
    reveal_strlit("agent-secret");
    reveal_strlit("secret_key");
    reveal_strlit("agent-config");
    assert("type"@.len() == 4);
    assert("error"@.len() == 5);
    assert("control-address"@.len() == 15);
    assert("control_address"@.len() == 15);
    assert("signed-tunnel-request"@.len() == 21);
    assert("shared-tunnel-secret"@.len() == 20);
    assert("agent-secret"@.len() == 12);
    assert("secret_key"@.len() == 10);
    assert("agent-config"@.len() == 12);
    assert("signed-tunnel-request"@[1] != "shared-tunnel-secret"@[1]);
    assert("agent-secret"@[6] != "agent-config"@[6]);
}

/// Decoding what the server encodes gives back the very reply it encoded,
/// field for field.
pub proof fn lemma_round_trip(r: ResponseView)
    requires
        response_view_ok(r),
    ensures
        decode_spec(Some(response_members(r))) == Ok::<ResponseView, ApiErrorView>(r),
{
    lemma_literals_distinct();
    let m = response_members(r);
    assert(is_first_key(m, "type"@, 0));
    lemma_first_key_unique(m, "type"@, 0);
    match r {
        ResponseView::ControlAddress(a) => {
            assert(is_first_key(m, "control_address"@, 1));
            lemma_first_key_unique(m, "control_address"@, 1);
        },
        ResponseView::AgentSecret(s) => {
            assert(is_first_key(m, "secret_key"@, 1));
            lemma_first_key_unique(m, "secret_key"@, 1);
        },
        ResponseView::SignedTunnelRequest(d) => {
            assert(m.remove(0) =~= d);
        },
        ResponseView::SessionSecret(d) => {
            assert(m.remove(0) =~= d);
        },
        ResponseView::AgentConfig(d) => {
            assert(m.remove(0) =~= d);
        },
    }
}

/// The status code that a JSON number's text stands for.
pub fn parse_code(t: &String) -> (r: Option<u16>)
    ensures
        r == code_value(t@),
{
    let s = t.as_str();
    let n = s.unicode_len();
    if n == 0 {
        return None;
    }
    let mut acc: u32 = 0;
    let mut i: usize = 0;
    while i < n
        invariant
            s@ == t@,
            n == s@.len(),
            i <= n,
            all_digits(s@.take(i as int)),
            acc <= 0x10000,
            acc as int == if decimal(s@.take(i as int)) <= 0xffff {
                decimal(s@.take(i as int))
            } else {
                0x10000
            },
        decreases n - i,
    {
        let c = s.get_char(i);
        if c < '0' || c > '9' {
            assert(!all_digits(t@) && s@[i as int] == c);
            return None;
        }
        let d: u32 = (c as u32) - ('0' as u32);
        let ghost prev = decimal(s@.take(i as int));
        assert(s@.take(i + 1).drop_last() =~= s@.take(i as int));
        assert(s@.take(i + 1).last() == c);
        assert(decimal(s@.take(i + 1)) == prev * 10 + d);
        if acc * 10 + d > 0xffff {
            acc = 0x10000;
        } else {
            acc = acc * 10 + d;
        }
        assert(all_digits(s@.take(i + 1)));
        i = i + 1;
    }
    assert(s@.take(n as int) =~= s@);
    if acc <= 0xffff {
        Some(acc as u16)
    } else {
        None
    }
}

/// The member at `i` is the string `lit`.
fn text_is(m: &Vec<(String, Field)>, i: usize, lit: &str) -> (r: bool)
    requires
        i < m.len(),
    ensures
        r == (members_view(m@)[i as int].1 == FieldView::Text(lit@)),
{
    match &m[i].1 {
        Field::Text(s) => same_text(s, lit),
        Field::Raw(_) => false,
    }
}

/// The string at the first member keyed `k`, if that member is a string.
fn text_of(m: &Vec<(String, Field)>, k: &str) -> (r: Option<String>)
    ensures
        match r {
            Some(s) => text_at(members_view(m@), k@) == Some(s@),
            None => text_at(members_view(m@), k@) is None,
        },
{
    match find_key(m, k) {
        Some(i) => match &m[i].1 {
            Field::Text(s) => Some(s.clone()),
            Field::Raw(_) => None,
        },
        None => None,
    }
}

/// The code and message of the error object, where the members form one.
fn error_of(m: &Vec<(String, Field)>) -> (r: Option<(u16, String)>)
    ensures
        match r {
            Some((c, msg)) => error_reply(members_view(m@)) == Some((c, msg@)),
            None => error_reply(members_view(m@)) is None,
        },
{
    match find_key(m, "type") {
        Some(ti) => {
            if !text_is(m, ti, "error") {
                return None;
            }
        },
        None => {
            return None;
        },
    }
    let code = match find_key(m, "code") {
        Some(ci) => match &m[ci].1 {
            Field::Raw(c) => parse_code(c),
            Field::Text(_) => None,
        },
        None => None,
    };
    match (code, text_of(m, "message")) {
        (Some(c), Some(msg)) => Some((c, msg)),
        _ => None,
    }
}

/// The reply for a parsed body: the error object first, then the replies.
pub fn decode_members(o: Option<Vec<(String, Field)>>) -> (r: Result<AgentApiResponse, ApiError>)
    ensures
        outcome_view(r) == decode_spec(parsed_view(o)),
{
    proof {
        lemma_literals_distinct();
    }
    let mut m = match o {
        Some(m) => m,
        None => {
            return Err(ApiError::ParseError(ParseFailure::UnknownShape));
        },
    };
    let ghost mv = members_view(m@);
    if let Some((c, msg)) = error_of(&m) {
        return Err(ApiError::HttpError(c, msg));
    }
    let tag = match text_of(&m, "type") {
        Some(tag) => tag,
        None => {
            return match text_of(&m, "control_address") {
                Some(a) => Ok(AgentApiResponse::ControlAddress(ControlAddress { control_address: a })),
                None => match text_of(&m, "secret_key") {
                    Some(s) => Ok(AgentApiResponse::AgentSecret(AgentSecret { secret_key: s })),
                    None => Err(ApiError::ParseError(ParseFailure::UnknownShape)),
                },
            };
        },
    };
    if same_text(&tag, "control-address") {
        return match text_of(&m, "control_address") {
            Some(a) => Ok(AgentApiResponse::ControlAddress(ControlAddress { control_address: a })),
            None => Err(ApiError::ParseError(ParseFailure::UnknownShape)),
        };
    }
    if same_text(&tag, "agent-secret") {
        return match text_of(&m, "secret_key") {
            Some(s) => Ok(AgentApiResponse::AgentSecret(AgentSecret { secret_key: s })),
            None => Err(ApiError::ParseError(ParseFailure::UnknownShape)),
        };
    }
    let ti = match find_key(&m, "type") {
        Some(ti) => ti,
        None => {
            return Err(ApiError::ParseError(ParseFailure::UnknownShape));
        },
    };
    if same_text(&tag, "signed-tunnel-request") {
        m.remove(ti);
        assert(members_view(m@) =~= mv.remove(ti as int));
        Ok(AgentApiResponse::SignedTunnelRequest(Document { members: m }))
    } else if same_text(&tag, "shared-tunnel-secret") {
        m.remove(ti);
        assert(members_view(m@) =~= mv.remove(ti as int));
        Ok(AgentApiResponse::SessionSecret(Document { members: m }))
    } else if same_text(&tag, "agent-config") {
        m.remove(ti);
        assert(members_view(m@) =~= mv.remove(ti as int));
        Ok(AgentApiResponse::AgentConfig(Document { members: m }))
    } else {
        Err(ApiError::ParseError(ParseFailure::UnknownShape))
    }
}

/// Reads a reply body: bytes that are not JSON fail as invalid JSON, and
/// the rest is read as `decode_members` reads it.
pub fn decode_body(b: &[u8]) -> (r: Result<AgentApiResponse, ApiError>)
    ensures
        outcome_view(r) == body_spec(b@),
{
    match parse_object(b) {
        Ok(o) => decode_members(o),
        Err(e) => Err(ApiError::ParseError(ParseFailure::InvalidJson(e))),
    }
}

/// A copy of a field.
pub fn copy_field(f: &Field) -> (r: Field)
    ensures
        r@ == f@,
{
    match f {
        Field::Text(s) => Field::Text(s.clone()),
        Field::Raw(s) => Field::Raw(s.clone()),
    }
}

/// The members `rest`, led by a `type` tag.
fn tagged_members(tag: &str, rest: &Vec<(String, Field)>) -> (r: Vec<(String, Field)>)
    ensures
        members_view(r@) == tagged(tag@, members_view(rest@)),
{
    let mut out: Vec<(String, Field)> = Vec::new();
    out.push((String::from_str("type"), Field::Text(String::from_str(tag))));
    let mut i: usize = 0;
    while i < rest.len()
        invariant
            i <= rest.len(),
            members_view(out@) =~= tagged(tag@, members_view(rest@).take(i as int)),
        decreases rest.len() - i,
    {
        let key = rest[i].0.clone();
        let field = copy_field(&rest[i].1);
        let ghost before = out@;
        let ghost entry = (key@, field@);
        out.push((key, field));
        assert(members_view(out@) =~= members_view(before).push(entry));
        assert(members_view(rest@).take(i + 1) =~= members_view(rest@).take(i as int).push(
            members_view(rest@)[i as int],
        ));
        i = i + 1;
    }
    assert(members_view(rest@).take(rest.len() as int) =~= members_view(rest@));
    out
}

/// The members that a request is sent as: its tag, then its payload.
pub fn encode_request(req: &AgentApiRequest) -> (r: Vec<(String, Field)>)
    ensures
        members_view(r@) == request_members(*req),
{
    let none: Vec<(String, Field)> = Vec::new();
    match req {
        AgentApiRequest::GetControlAddr => tagged_members("get-control-address", &none),
        AgentApiRequest::SignControlRequest(d) => tagged_members("sign-tunnel-request", &d.members),
        AgentApiRequest::GenerateSharedTunnelSecret(d) => tagged_members(
            "generate-shared-tunnel-secret",
            &d.members,
        ),
        AgentApiRequest::ExchangeClaimForSecret(c) => {
            let mut payload: Vec<(String, Field)> = Vec::new();
            payload.push((String::from_str("claim_key"), Field::Text(c.claim_key.clone())));
            let r = tagged_members("exchange-claim-for-secret", &payload);
            assert(members_view(payload@) =~= seq![("claim_key"@, FieldView::Text(c.claim_key@))]);
            r
        },
        AgentApiRequest::GetAgentConfig => tagged_members("get-agent-config", &none),
    }
}

/// The members that the server sends a reply as: its tag, then its payload.
pub fn encode_response(resp: &AgentApiResponse) -> (r: Vec<(String, Field)>)
    ensures
        members_view(r@) == response_members(resp@),
{
    match resp {
        AgentApiResponse::ControlAddress(a) => {
            let mut payload: Vec<(String, Field)> = Vec::new();
            payload.push(
                (String::from_str("control_address"), Field::Text(a.control_address.clone())),
            );
            let r = tagged_members("control-address", &payload);
            assert(members_view(payload@) =~= seq![
                ("control_address"@, FieldView::Text(a.control_address@)),
            ]);
            r
        },
        AgentApiResponse::SignedTunnelRequest(d) => tagged_members("signed-tunnel-request", &d.members),
        AgentApiResponse::SessionSecret(d) => tagged_members("shared-tunnel-secret", &d.members),
        AgentApiResponse::AgentSecret(s) => {
            let mut payload: Vec<(String, Field)> = Vec::new();
            payload.push((String::from_str("secret_key"), Field::Text(s.secret_key.clone())));
            let r = tagged_members("agent-secret", &payload);
            assert(members_view(payload@) =~= seq![("secret_key"@, FieldView::Text(s.secret_key@))]);
            r
        },
        AgentApiResponse::AgentConfig(d) => tagged_members("agent-config", &d.members),
    }
}

} // verus!
