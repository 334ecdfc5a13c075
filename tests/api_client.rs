use agent_api::{
    agent_config_of, claim_request, claim_secret_of, control_addr_of, decode_body,
    decode_members, encode_request, encode_response, parse_code, session_secret_of,
    signed_request_of, AgentApiRequest, AgentApiResponse, AgentSecret, ApiClient, ApiError,
    ControlAddress, Document, Field, ParseFailure, ResponseKind,
};

fn text(k: &str, v: &str) -> (String, Field) {
    (k.to_string(), Field::Text(v.to_string()))
}

fn raw(k: &str, v: &str) -> (String, Field) {
    (k.to_string(), Field::Raw(v.to_string()))
}

fn doc(members: Vec<(String, Field)>) -> Document {
    Document::from_members(members).expect("document without a type key")
}

fn text_of(d: &Document, key: &str) -> Option<String> {
    d.members.iter().find(|(k, _)| k == key).and_then(|(_, f)| match f {
        Field::Text(s) => Some(s.clone()),
        Field::Raw(_) => None,
    })
}

fn raw_of(d: &Document, key: &str) -> Option<String> {
    d.members.iter().find(|(k, _)| k == key).and_then(|(_, f)| match f {
        Field::Raw(s) => Some(s.clone()),
        Field::Text(_) => None,
    })
}

fn is_http(e: &ApiError, code: u16, message: &str) -> bool {
    matches!(e, ApiError::HttpError(c, m) if *c == code && m == message)
}

fn is_invalid_json(e: &ApiError) -> bool {
    matches!(e, ApiError::ParseError(ParseFailure::InvalidJson(_)))
}

fn is_unknown_shape(e: &ApiError) -> bool {
    matches!(e, ApiError::ParseError(ParseFailure::UnknownShape))
}

const NOT_FOUND: &[u8] = br#"{"type":"error","code":404,"message":"not found"}"#;

#[test]
fn claim_not_found_is_no_secret() {
    let _ = claim_request("abc");
    match claim_secret_of(decode_body(NOT_FOUND)) {
        Ok(None) => {}
        other => panic!("expected no secret, got {:?}", other),
    }
}

#[test]
fn claim_returns_secret() {
    match claim_secret_of(decode_body(br#"{"secret_key": "xyz"}"#)) {
        Ok(Some(s)) => assert_eq!(s, "xyz"),
        other => panic!("expected the secret, got {:?}", other),
    }
    match claim_secret_of(decode_body(br#"{"type":"agent-secret","secret_key":"xyz"}"#)) {
        Ok(Some(s)) => assert_eq!(s, "xyz"),
        other => panic!("expected the secret, got {:?}", other),
    }
}

#[test]
fn claim_request_carries_key() {
    match claim_request("abc") {
        AgentApiRequest::ExchangeClaimForSecret(c) => assert_eq!(c.claim_key, "abc"),
        other => panic!("wrong request {:?}", other),
    }
}

#[test]
fn control_address_unwraps() {
    let body = br#"{"type":"control-address","control_address":"10.0.0.1:5525"}"#;
    assert_eq!(control_addr_of(decode_body(body)).unwrap(), "10.0.0.1:5525");
}

#[test]
fn signed_request_unwraps() {
    let body = br#"{"type":"signed-tunnel-request","signature":"ab12","request_timestamp":17,"content":{"k":1}}"#;
    let d = signed_request_of(decode_body(body)).unwrap();
    assert_eq!(d.members.len(), 3);
    assert_eq!(text_of(&d, "signature").as_deref(), Some("ab12"));
    assert_eq!(raw_of(&d, "request_timestamp").as_deref(), Some("17"));
    assert_eq!(raw_of(&d, "content").as_deref(), Some(r#"{"k":1}"#));
    assert!(text_of(&d, "type").is_none() && raw_of(&d, "type").is_none());
}

#[test]
fn session_secret_unwraps() {
    let body = br#"{"type":"shared-tunnel-secret","secret":"s3"}"#;
    let d = session_secret_of(decode_body(body)).unwrap();
    assert_eq!(d.members.len(), 1);
    assert_eq!(text_of(&d, "secret").as_deref(), Some("s3"));
}

#[test]
fn agent_config_unwraps() {
    let body = br#"{"type":"agent-config","refresh_from_api":true,"mappings":[]}"#;
    let d = agent_config_of(decode_body(body)).unwrap();
    assert_eq!(d.members.len(), 2);
    assert_eq!(raw_of(&d, "refresh_from_api").as_deref(), Some("true"));
    assert_eq!(raw_of(&d, "mappings").as_deref(), Some("[]"));
}

#[test]
fn other_reply_is_a_mismatch() {
    let secret = br#"{"type":"agent-secret","secret_key":"xyz"}"#;
    let addr = br#"{"type":"control-address","control_address":"1.2.3.4:5"}"#;
    match control_addr_of(decode_body(secret)) {
        Err(ApiError::UnexpectedResponse(AgentApiResponse::AgentSecret(s))) => {
            assert_eq!(s.secret_key, "xyz")
        }
        other => panic!("expected a mismatch, got {:?}", other),
    }
    match signed_request_of(decode_body(secret)) {
        Err(ApiError::UnexpectedResponse(AgentApiResponse::AgentSecret(_))) => {}
        other => panic!("expected a mismatch, got {:?}", other),
    }
    match session_secret_of(decode_body(addr)) {
        Err(ApiError::UnexpectedResponse(AgentApiResponse::ControlAddress(a))) => {
            assert_eq!(a.control_address, "1.2.3.4:5")
        }
        other => panic!("expected a mismatch, got {:?}", other),
    }
    match claim_secret_of(decode_body(addr)) {
        Err(ApiError::UnexpectedResponse(AgentApiResponse::ControlAddress(_))) => {}
        other => panic!("expected a mismatch, got {:?}", other),
    }
    match agent_config_of(decode_body(secret)) {
        Err(ApiError::UnexpectedResponse(AgentApiResponse::AgentSecret(_))) => {}
        other => panic!("expected a mismatch, got {:?}", other),
    }
}

#[test]
fn not_found_elsewhere_is_an_error() {
    assert!(is_http(&control_addr_of(decode_body(NOT_FOUND)).unwrap_err(), 404, "not found"));
    assert!(is_http(&signed_request_of(decode_body(NOT_FOUND)).unwrap_err(), 404, "not found"));
    assert!(is_http(&session_secret_of(decode_body(NOT_FOUND)).unwrap_err(), 404, "not found"));
    assert!(is_http(&agent_config_of(decode_body(NOT_FOUND)).unwrap_err(), 404, "not found"));
}

#[test]
fn other_codes_propagate_on_claim() {
    let body = br#"{"type":"error","code":500,"message":"boom"}"#;
    assert!(is_http(&claim_secret_of(decode_body(body)).unwrap_err(), 500, "boom"));
}

#[test]
fn invalid_json_is_a_parse_failure() {
    let body = b"not json {";
    assert!(is_invalid_json(&decode_body(body).unwrap_err()));
    assert!(is_invalid_json(&control_addr_of(decode_body(body)).unwrap_err()));
    assert!(is_invalid_json(&signed_request_of(decode_body(body)).unwrap_err()));
    assert!(is_invalid_json(&session_secret_of(decode_body(body)).unwrap_err()));
    assert!(is_invalid_json(&claim_secret_of(decode_body(body)).unwrap_err()));
    assert!(is_invalid_json(&agent_config_of(decode_body(body)).unwrap_err()));
}

#[test]
fn unknown_shape_is_a_parse_failure() {
    let bodies: [&[u8]; 6] = [
        br#"[1,2]"#,
        br#"{"hello":"world"}"#,
        br#"{"type":"something-else"}"#,
        br#"{"type":"control-address"}"#,
        br#"{"type":"error","code":70000,"message":"x"}"#,
        br#"{"type":"error","code":"404","message":"x"}"#,
    ];
    for body in bodies {
        assert!(is_unknown_shape(&decode_body(body).unwrap_err()));
        assert!(is_unknown_shape(&claim_secret_of(decode_body(body)).unwrap_err()));
        assert!(is_unknown_shape(&agent_config_of(decode_body(body)).unwrap_err()));
    }
}

#[test]
fn error_shape_is_read_first() {
    let body = br#"{"type":"error","code":403,"message":"no","secret_key":"xyz"}"#;
    assert!(is_http(&decode_body(body).unwrap_err(), 403, "no"));
}

#[test]
fn escaped_strings_are_unescaped() {
    let body = br#"{"type":"agent-secret","secret_key":"a\"bA"}"#;
    assert_eq!(claim_secret_of(decode_body(body)).unwrap().unwrap(), "a\"bA");
}

#[test]
fn authorization_header_with_secret() {
    let client = ApiClient::new("https://api.example/agent".to_string(), Some("s3cr3t".to_string()));
    assert_eq!(client.authorization().as_deref(), Some("agent-key s3cr3t"));
    let out = client.prepare(&AgentApiRequest::GetControlAddr).unwrap();
    assert_eq!(out.url, "https://api.example/agent");
    assert_eq!(out.authorization.as_deref(), Some("agent-key s3cr3t"));
}

#[test]
fn no_authorization_header_without_secret() {
    let client = ApiClient::new("https://api.example/agent".to_string(), None);
    assert!(client.authorization().is_none());
    let out = client.prepare(&AgentApiRequest::GetAgentConfig).unwrap();
    assert!(out.authorization.is_none());
    assert_eq!(client.api_base(), "https://api.example/agent");
    assert!(client.agent_secret().is_none());
}

#[test]
fn request_body_is_tagged_json() {
    let client = ApiClient::new("http://localhost".to_string(), None);
    let out = client.prepare(&claim_request("abc")).unwrap();
    assert_eq!(
        String::from_utf8(out.body).unwrap(),
        r#"{"claim_key":"abc","type":"exchange-claim-for-secret"}"#
    );
    let out = client.prepare(&AgentApiRequest::GetControlAddr).unwrap();
    assert_eq!(String::from_utf8(out.body).unwrap(), r#"{"type":"get-control-address"}"#);
    let tunnel = doc(vec![text("name", "x\"y"), raw("port", "80"), raw("tags", r#"["a"]"#)]);
    let out = client.prepare(&AgentApiRequest::SignControlRequest(tunnel)).unwrap();
    assert_eq!(
        String::from_utf8(out.body).unwrap(),
        r#"{"name":"x\"y","port":80,"tags":["a"],"type":"sign-tunnel-request"}"#
    );
}

#[test]
fn raw_field_that_is_not_json_fails_to_encode() {
    let client = ApiClient::new("http://localhost".to_string(), None);
    let bad = doc(vec![raw("proof", "{not json")]);
    assert!(client.prepare(&AgentApiRequest::GenerateSharedTunnelSecret(bad)).is_err());
}

#[test]
fn document_rejects_type_key() {
    assert!(Document::from_members(vec![text("type", "x")]).is_none());
    assert!(Document::from_members(vec![text("a", "x"), raw("type", "1")]).is_none());
    assert!(Document::from_members(vec![text("a", "x")]).is_some());
    let bad = Document { members: vec![text("type", "x")] };
    assert!(!bad.is_well_formed());
    assert!(!AgentApiRequest::SignControlRequest(bad).is_well_formed());
    assert!(claim_request("k").is_well_formed());
}

#[test]
fn encode_request_leads_with_tag() {
    let m = encode_request(&AgentApiRequest::GetAgentConfig);
    assert_eq!(m.len(), 1);
    assert_eq!(m[0].0, "type");
    assert!(matches!(&m[0].1, Field::Text(t) if t == "get-agent-config"));
}

#[test]
fn reply_round_trip() {
    let replies = vec![
        AgentApiResponse::ControlAddress(ControlAddress { control_address: "1.2.3.4:5".to_string() }),
        AgentApiResponse::AgentSecret(AgentSecret { secret_key: "k".to_string() }),
        AgentApiResponse::SignedTunnelRequest(doc(vec![text("sig", "aa"), raw("ts", "5")])),
        AgentApiResponse::SessionSecret(doc(vec![text("secret", "bb")])),
        AgentApiResponse::AgentConfig(doc(vec![raw("mappings", "[]")])),
    ];
    for r in replies {
        let back = decode_members(Some(encode_response(&r))).unwrap();
        assert_eq!(format!("{:?}", back), format!("{:?}", r));
    }
}

#[test]
fn code_values() {
    assert_eq!(parse_code(&"404".to_string()), Some(404));
    assert_eq!(parse_code(&"0".to_string()), Some(0));
    assert_eq!(parse_code(&"65535".to_string()), Some(65535));
    assert_eq!(parse_code(&"65536".to_string()), None);
    assert_eq!(parse_code(&"99999999999999999999".to_string()), None);
    assert_eq!(parse_code(&"-1".to_string()), None);
    assert_eq!(parse_code(&"4.0".to_string()), None);
    assert_eq!(parse_code(&"".to_string()), None);
}

#[test]
fn expected_response_table() {
    assert_eq!(AgentApiRequest::GetControlAddr.expected_response(), ResponseKind::ControlAddress);
    assert_eq!(claim_request("a").expected_response(), ResponseKind::AgentSecret);
    assert_eq!(AgentApiRequest::GetAgentConfig.expected_response(), ResponseKind::AgentConfig);
    let r = AgentApiResponse::AgentSecret(AgentSecret { secret_key: "k".to_string() });
    assert_eq!(r.kind(), ResponseKind::AgentSecret);
}
