//! The OAuth server's replies, and what a login sends to it.

use base64::Engine;
use csswitch_gateway::codex_auth::callback::{
    parse_callback, parse_callback_head, read_fields, write_callback, write_callback_response,
    CallbackAction, HeadEvent, HeadReader, MAX_CALLBACK_HEAD,
};
use csswitch_gateway::codex_auth::oauth::{
    build_authorization_url, declared_response_kind, decode_jwt_claims, generate_pkce,
    generate_state, jwt_payload, parse_new_oauth_tokens, response_kind, state_from_random,
    token_request_body, url_is_endpoint, BrowserEvent, BrowserTask, ClientFault, HttpOAuthTransport,
    JwtAuthClaims, JwtClaims, LoginOptions, OAuthErrorCode, OAuthFlowError, PkceCodes, RefreshResponse, ReplyBody,
    ReplyHead, RequestFailure, SystemBrowser, TokenResponse, CALLBACK_PATH, CODEX_OAUTH_CLIENT_ID,
    CODEX_OAUTH_ISSUER, CODEX_OAUTH_ORIGINATOR, CODEX_OAUTH_SCOPE, MAX_JWT_PAYLOAD, MAX_TOKEN_BYTES,
    MAX_TOKEN_RESPONSE,
};
use csswitch_gateway::codex_auth::storage::{RevokeToken, RevokeTokenKind, StorageError};
use csswitch_gateway::duration::Duration;
use sha2::{Digest, Sha256};
use std::collections::HashMap;

fn jwt(payload: &str) -> String {
    let encode = |bytes: &[u8]| base64::engine::general_purpose::URL_SAFE_NO_PAD.encode(bytes);
    format!("{}.{}.signature", encode(b"{\"alg\":\"none\"}"), encode(payload.as_bytes()))
}

/// The claims in the payload of a token, if it has one.
fn parsed(token: &str) -> Option<JwtClaims> {
    let payload = jwt_payload(token).ok()?;
    let value: serde_json::Value = serde_json::from_slice(&payload).ok()?;
    let id = |value: &serde_json::Value| {
        value.get("chatgpt_account_id").and_then(|id| id.as_str()).map(str::to_string)
    };
    Some(JwtClaims {
        exp: value.get("exp").and_then(|exp| exp.as_i64()),
        auth: value
            .get("https://api.openai.com/auth")
            .map(|auth| JwtAuthClaims { chatgpt_account_id: id(auth) }),
        chatgpt_account_id: id(&value),
    })
}

fn tokens_of(
    response: TokenResponse,
) -> Result<csswitch_gateway::codex_auth::storage::NewOAuthTokens, OAuthFlowError> {
    let id_claims = parsed(&response.id_token);
    let access_claims = parsed(&response.access_token);
    response.into_tokens(id_claims, access_claims)
}

fn update_of(
    response: RefreshResponse,
) -> Result<csswitch_gateway::codex_auth::storage::RefreshUpdate, OAuthFlowError> {
    let id_claims = response.id_token.as_deref().and_then(parsed);
    let access_claims = response.access_token.as_deref().and_then(parsed);
    response.into_update(id_claims, access_claims)
}

fn transport() -> HttpOAuthTransport {
    HttpOAuthTransport::new(
        "http://127.0.0.1:9/oauth/token".into(),
        "client-test".into(),
        false,
    )
    .unwrap()
}

fn reply_head(status: u16, content_type: Option<&str>, length: Option<u64>) -> ReplyHead {
    ReplyHead {
        status,
        challenge_header: None,
        content_type: content_type.map(str::to_string),
        content_length: length,
    }
}

#[test]
fn production_options_and_authorization_parameters_match_pinned_codex_contract() {
    let options = LoginOptions::production();
    assert_eq!(options.issuer, CODEX_OAUTH_ISSUER);
    assert_eq!(options.client_id, CODEX_OAUTH_CLIENT_ID);
    assert_eq!(options.ports, vec![1455, 1457]);
    assert_eq!(options.timeout, Duration::from_secs(5 * 60));

    let url = build_authorization_url(
        &options.issuer,
        &options.client_id,
        "http://localhost:1455/auth/callback",
        "challenge-test",
        "state-test",
    )
    .unwrap();
    let parsed = url::Url::parse(&url).unwrap();
    let fields: HashMap<_, _> = parsed.query_pairs().into_owned().collect();
    assert_eq!(
        parsed.as_str().split('?').next().unwrap(),
        "https://auth.openai.com/oauth/authorize"
    );
    assert_eq!(fields.get("response_type").unwrap(), "code");
    assert_eq!(fields.get("client_id").unwrap(), CODEX_OAUTH_CLIENT_ID);
    assert_eq!(fields.get("scope").unwrap(), CODEX_OAUTH_SCOPE);
    assert_eq!(fields.get("code_challenge_method").unwrap(), "S256");
    assert_eq!(fields.get("id_token_add_organizations").unwrap(), "true");
    assert_eq!(fields.get("codex_cli_simplified_flow").unwrap(), "true");
    assert_eq!(fields.get("originator").unwrap(), CODEX_OAUTH_ORIGINATOR);
}

#[test]
fn issuers_that_are_no_web_address_are_refused() {
    for issuer in ["", "not a url", "ftp://example.com", "mailto:a@b"] {
        let error = build_authorization_url(issuer, "c", "r", "ch", "s").unwrap_err();
        assert_eq!(error.code, OAuthErrorCode::OAuthProtocol);
        assert_eq!(error.message, "The OAuth issuer is invalid");
        assert!(!url_is_endpoint(issuer));
        let error =
            HttpOAuthTransport::new(issuer.into(), "client-test".into(), false).unwrap_err();
        assert_eq!(error.code, OAuthErrorCode::OAuthProtocol);
    }
    assert!(url_is_endpoint("https://auth.openai.com/x?y"));
}

#[test]
fn revocation_endpoint_stands_beside_the_token_endpoint() {
    let transport = HttpOAuthTransport::production(true).unwrap();
    assert_eq!(
        transport.debug_text(),
        "HttpOAuthTransport { token_endpoint: \"https://auth.openai.com/oauth/token\", revoke_endpoint: \"https://auth.openai.com/oauth/revoke\", client_id: \"app_EMoamEEZ73f0CkXaXp7hrann\", .. }"
    );
    assert_eq!(transport.token_endpoint, "https://auth.openai.com/oauth/token");
    assert_eq!(transport.revoke_endpoint, "https://auth.openai.com/oauth/revoke");
    assert_eq!(transport.client_id, CODEX_OAUTH_CLIENT_ID);
    assert!(transport.has_proxy);
    let local = HttpOAuthTransport::new(
        "http://127.0.0.1:9/oauth/token?x=1#f".into(),
        "client-test".into(),
        false,
    )
    .unwrap();
    assert_eq!(local.revoke_endpoint, "http://127.0.0.1:9/oauth/revoke");
}

#[test]
fn generated_pkce_and_state_have_expected_entropy_and_s256_binding() {
    let pkce = generate_pkce().unwrap();
    let state = generate_state().unwrap();
    assert_eq!(
        base64::engine::general_purpose::URL_SAFE_NO_PAD
            .decode(pkce.verifier.as_bytes())
            .unwrap()
            .len(),
        64
    );
    assert_eq!(
        base64::engine::general_purpose::URL_SAFE_NO_PAD
            .decode(state.as_bytes())
            .unwrap()
            .len(),
        32
    );
    assert_eq!(
        pkce.challenge,
        base64::engine::general_purpose::URL_SAFE_NO_PAD
            .encode(Sha256::digest(pkce.verifier.as_bytes()))
    );
}

#[test]
fn challenge_of_known_random_bytes() {
    let codes = PkceCodes::from_random(&[0xfb, 0xff]);
    assert_eq!(codes.verifier, "-_8");
    assert_eq!(
        codes.challenge,
        base64::engine::general_purpose::URL_SAFE_NO_PAD.encode(Sha256::digest(b"-_8"))
    );
    assert_ne!(generate_state().unwrap(), generate_state().unwrap());
}

#[test]
fn token_response_requires_account_id_and_enforces_token_bound() {
    let private_value = "private-token-value";
    let missing_account = tokens_of(TokenResponse {
        id_token: jwt(r#"{"exp":2000000000}"#),
        access_token: jwt(r#"{"exp":1900000000}"#),
        refresh_token: private_value.to_string(),
    })
    .err()
    .unwrap();
    assert_eq!(missing_account.code, OAuthErrorCode::OAuthProtocol);
    assert!(!format!("{missing_account:?} {}", missing_account.to_text()).contains(private_value));

    let oversized = tokens_of(TokenResponse {
        id_token: jwt(r#"{"https://api.openai.com/auth":{"chatgpt_account_id":"acct-test"}}"#),
        access_token: "x".repeat(MAX_TOKEN_BYTES + 1),
        refresh_token: "refresh-test".into(),
    })
    .err()
    .unwrap();
    assert_eq!(oversized.code, OAuthErrorCode::OAuthProtocol);
}

#[test]
fn tokens_take_the_account_of_the_id_token_and_the_expiry_of_the_access_token() {
    let id_token = jwt(
        r#"{"exp":2000000000,"https://api.openai.com/auth":{"chatgpt_account_id":"acct-test"}}"#,
    );
    let tokens = tokens_of(TokenResponse {
        id_token: id_token.clone(),
        access_token: jwt(r#"{"exp":1900000000}"#),
        refresh_token: "refresh-test".into(),
    })
    .ok()
    .unwrap();
    assert_eq!(tokens.account_id, "acct-test");
    assert_eq!(tokens.expires_at, Some(1_900_000_000));
    assert_eq!(tokens.refresh_token, "refresh-test");

    let opaque = tokens_of(TokenResponse {
        id_token,
        access_token: "opaque".into(),
        refresh_token: "refresh-test".into(),
    })
    .ok()
    .unwrap();
    assert_eq!(opaque.expires_at, Some(2_000_000_000));
    assert_eq!(
        parse_new_oauth_tokens(None, None, None).err().unwrap().code,
        OAuthErrorCode::OAuthProtocol
    );
}

#[test]
fn token_payloads_are_decoded_within_a_limit() {
    assert_eq!(jwt_payload(&jwt("{\"a\":1}")).unwrap(), b"{\"a\":1}");
    for token in ["", "one", "a.b", "a.b.c.d", "a.!!!.c"] {
        assert_eq!(jwt_payload(token).unwrap_err().code, OAuthErrorCode::OAuthProtocol);
    }
    let large = jwt(&"x".repeat(MAX_JWT_PAYLOAD + 1));
    assert!(jwt_payload(&large).is_err());
    assert!(decode_jwt_claims(&jwt("[]"), None).is_err());
    let claims = decode_jwt_claims(&jwt("{\"exp\":7}"), parsed(&jwt("{\"exp\":7}"))).ok().unwrap();
    assert_eq!(claims.exp, Some(7));
}

#[test]
fn nested_account_claim_comes_before_the_outer_one() {
    let mut both = JwtClaims {
        exp: None,
        auth: Some(JwtAuthClaims { chatgpt_account_id: Some("nested".into()) }),
        chatgpt_account_id: Some("outer".into()),
    };
    assert_eq!(both.take_account_id().as_deref(), Some("nested"));
    let mut outer = JwtClaims {
        exp: None,
        auth: Some(JwtAuthClaims { chatgpt_account_id: None }),
        chatgpt_account_id: Some("outer".into()),
    };
    assert_eq!(outer.take_account_id().as_deref(), Some("outer"));
}

#[test]
fn storage_error_mapping_preserves_stable_public_codes() {
    let cases = [
        (StorageError::Busy, OAuthErrorCode::AuthBusy),
        (StorageError::AuthChanged, OAuthErrorCode::AuthChanged),
        (
            StorageError::InvalidState("private detail".into()),
            OAuthErrorCode::AuthStateInvalid,
        ),
        (
            StorageError::UnsupportedPlatform,
            OAuthErrorCode::UnsupportedPlatform,
        ),
    ];
    for (storage, expected) in cases {
        let error = OAuthFlowError::from(storage);
        assert_eq!(error.code, expected);
        assert_eq!(error.code.as_str(), expected.as_str());
        assert!(!format!("{error:?} {}", error.to_text()).contains("private detail"));
    }
}

#[test]
fn remaining_storage_errors_have_their_codes() {
    let cases = [
        (StorageError::NotAuthenticated, "not_authenticated"),
        (StorageError::Unavailable("detail".into()), "auth_storage_error"),
        (StorageError::RollbackFailed, "auth_storage_error"),
    ];
    for (storage, expected) in cases {
        assert_eq!(OAuthFlowError::from(storage).code.as_str(), expected);
    }
}

#[test]
fn response_kind_contract_covers_json_html_empty_other_and_unknown() {
    assert_eq!(declared_response_kind(Some("application/json")), "json");
    assert_eq!(
        declared_response_kind(Some("application/problem+json; charset=utf-8")),
        "json"
    );
    assert_eq!(
        declared_response_kind(Some("text/html; charset=UTF-8")),
        "html"
    );
    assert_eq!(declared_response_kind(Some("text/plain")), "other");
    assert_eq!(declared_response_kind(None), "unknown");
    assert_eq!(response_kind("json", true), "empty");
    assert_eq!(response_kind("other", false), "other");
}

#[test]
fn token_response_limits_cover_declared_and_streamed_oversize_bodies() {
    let declared = reply_head(200, None, Some(MAX_TOKEN_RESPONSE + 1));
    assert!(!declared.needs_body());
    let error = transport()
        .exchange_code(Ok((declared, ReplyBody::Unread)), None, None)
        .err()
        .unwrap();
    assert_eq!(error.code, OAuthErrorCode::OAuthProtocol);

    let streamed = reply_head(200, None, None);
    assert!(streamed.needs_body());
    let error = transport()
        .exchange_code(
            Ok((streamed, ReplyBody::Read { length: MAX_TOKEN_RESPONSE + 1, value: None })),
            None,
            None,
        )
        .err()
        .unwrap();
    assert_eq!(error.code, OAuthErrorCode::OAuthProtocol);
}

#[test]
fn token_exchange_does_not_follow_redirects() {
    let error = transport()
        .exchange_code(Ok((reply_head(307, None, Some(0)), ReplyBody::Unread)), None, None)
        .err()
        .unwrap();
    assert_eq!(error.code, OAuthErrorCode::OAuthUnexpectedContentType);
    assert_eq!(error.stage, "token_exchange");
    assert_eq!(error.upstream_status, Some(307));
    assert_eq!(error.response_kind, Some("unknown"));
}

#[test]
fn token_exchange_is_bounded_by_remaining_login_deadline() {
    assert_eq!(
        HttpOAuthTransport::exchange_timeout(Duration::from_millis(100)),
        Ok(Duration::from_millis(100))
    );
    assert_eq!(
        HttpOAuthTransport::exchange_timeout(Duration::from_secs(300)),
        Ok(Duration::from_secs(30))
    );
    let late = HttpOAuthTransport::exchange_timeout(Duration::from_millis(0)).unwrap_err();
    assert_eq!(late.code, OAuthErrorCode::CallbackTimeout);
    let failure = RequestFailure { timed_out: true, tls_failed: false, connect_failed: false };
    let error = transport().exchange_code(Err(failure), None, None).err().unwrap();
    assert_eq!(error.code, OAuthErrorCode::OAuthNetwork);
    assert_eq!(error.transport_kind, Some("timeout"));
}

#[test]
fn failed_requests_are_told_apart() {
    let kinds = [
        ((true, true, true), false, OAuthErrorCode::OAuthNetwork, "timeout"),
        ((false, true, true), false, OAuthErrorCode::TlsFailed, "tls"),
        ((false, false, true), true, OAuthErrorCode::ProxyConnectFailed, "proxy_connect"),
        ((false, false, true), false, OAuthErrorCode::OAuthNetwork, "unknown"),
        ((false, false, false), true, OAuthErrorCode::OAuthNetwork, "unknown"),
    ];
    for ((timed_out, tls_failed, connect_failed), has_proxy, code, kind) in kinds {
        let failure = RequestFailure { timed_out, tls_failed, connect_failed };
        assert_eq!(failure.classify_request_error(has_proxy), (code, kind));
    }
    assert_eq!(ClientFault::InvalidRoute.error().code, OAuthErrorCode::OAuthNetwork);
    assert_eq!(ClientFault::NotCreated.staged_error().stage, "proxy_config");
}

#[test]
fn refused_replies_are_told_apart() {
    let challenge = ReplyHead {
        status: 403,
        challenge_header: Some("Challenge".into()),
        content_type: Some("text/html".into()),
        content_length: None,
    };
    let error = challenge.blocking_response_error("refresh", "rejected");
    assert_eq!(error.code, OAuthErrorCode::OAuthChallengeResponse);
    assert_eq!(error.challenge_detected, Some(true));
    let json = reply_head(400, Some("application/json"), None);
    let error = json.blocking_response_error("refresh", "rejected");
    assert_eq!(error.code, OAuthErrorCode::OAuthProtocol);
    assert_eq!(error.message, "rejected");
    assert_eq!(error.response_kind, Some("json"));
    let failed = reply_head(200, Some("application/json"), None)
        .read_bounded_json::<u8>("refresh", ReplyBody::Failed)
        .unwrap_err();
    assert_eq!(failed.stage, "refresh");
    let value = reply_head(200, Some("application/json"), None)
        .read_bounded_json("refresh", ReplyBody::Read { length: 2, value: Some(5u8) });
    assert_eq!(value, Ok(5));
}

#[test]
fn refresh_uses_pinned_json_contract_and_accepts_token_rotation() {
    let id_token = jwt(
        r#"{"exp":2100000000,"https://api.openai.com/auth":{"chatgpt_account_id":"acct-test"}}"#,
    );
    let access_token = jwt(r#"{"exp":2000000000}"#);
    let body = transport().refresh_request("refresh-old").unwrap();
    let request: serde_json::Value = serde_json::from_str(&body).unwrap();
    assert_eq!(request["client_id"], "client-test");
    assert_eq!(request["grant_type"], "refresh_token");
    assert_eq!(request["refresh_token"], "refresh-old");
    let (id_claims, access_claims) = (parsed(&id_token), parsed(&access_token));
    let reply = Ok((
        reply_head(200, Some("application/json"), Some(500)),
        ReplyBody::Read {
            length: 500,
            value: Some(RefreshResponse {
                id_token: Some(id_token),
                access_token: Some(access_token),
                refresh_token: Some("refresh-rotated".into()),
            }),
        },
    ));
    let update = transport().refresh(reply, id_claims, access_claims).ok().unwrap();
    assert_eq!(update.refresh_token.as_deref(), Some("refresh-rotated"));
    assert_eq!(update.account_id.as_deref(), Some("acct-test"));
    assert_eq!(update.expires_at, Some(2_000_000_000));
}

#[test]
fn refresh_response_allows_optional_fields_and_checks_both_account_claims() {
    let refresh_only = update_of(RefreshResponse {
        id_token: None,
        access_token: None,
        refresh_token: Some("refresh-only".into()),
    })
    .ok()
    .unwrap();
    assert!(refresh_only.access_token.is_none());
    assert_eq!(refresh_only.refresh_token.as_deref(), Some("refresh-only"));
    assert!(refresh_only.id_token.is_none());

    let access_only = update_of(RefreshResponse {
        id_token: None,
        access_token: Some(jwt(
            r#"{"exp":2200000000,"https://api.openai.com/auth":{"chatgpt_account_id":"acct-access"}}"#,
        )),
        refresh_token: None,
    })
    .ok()
    .unwrap();
    assert_eq!(access_only.account_id.as_deref(), Some("acct-access"));
    assert_eq!(access_only.expires_at, Some(2_200_000_000));

    let conflict = update_of(RefreshResponse {
        id_token: Some(jwt(
            r#"{"https://api.openai.com/auth":{"chatgpt_account_id":"acct-id"}}"#,
        )),
        access_token: Some(jwt(
            r#"{"https://api.openai.com/auth":{"chatgpt_account_id":"acct-access"}}"#,
        )),
        refresh_token: None,
    })
    .err()
    .unwrap();
    assert_eq!(conflict.code, OAuthErrorCode::OAuthProtocol);
}

#[test]
fn refresh_transport_accepts_success_without_access_token() {
    let reply = Ok((
        reply_head(200, Some("application/json"), Some(32)),
        ReplyBody::Read {
            length: 32,
            value: Some(RefreshResponse {
                id_token: None,
                access_token: None,
                refresh_token: Some("refresh-only".into()),
            }),
        },
    ));
    let update = transport().refresh(reply, None, None).ok().unwrap();
    assert!(update.access_token.is_none());
    assert_eq!(update.refresh_token.as_deref(), Some("refresh-only"));
}

#[test]
fn revoke_prefers_official_refresh_token_json_shape() {
    let transport = transport();
    let token = RevokeToken { kind: RevokeTokenKind::Refresh, token: "refresh-private".into() };
    let body = transport.revoke_request(&token).unwrap();
    let request: serde_json::Value = serde_json::from_str(&body).unwrap();
    assert_eq!(request["token"], "refresh-private");
    assert_eq!(request["token_type_hint"], "refresh_token");
    assert_eq!(request["client_id"], "client-test");
    assert!(transport.revoke(Ok(reply_head(200, None, Some(0)))).is_ok());

    let access = RevokeToken { kind: RevokeTokenKind::Access, token: "access-private".into() };
    assert_eq!(
        transport.revoke_request(&access).unwrap(),
        r#"{"token":"access-private","token_type_hint":"access_token"}"#
    );
    let refused = transport.revoke(Ok(reply_head(400, Some("application/json"), None)));
    assert_eq!(refused.unwrap_err().stage, "revoke");
}

#[test]
fn token_request_carries_the_code_and_the_verifier() {
    let body = token_request_body("client-test", "a code&", "http://localhost/cb", "verifier");
    let fields: HashMap<_, _> =
        url::form_urlencoded::parse(body.as_bytes()).into_owned().collect();
    assert_eq!(fields.get("grant_type").unwrap(), "authorization_code");
    assert_eq!(fields.get("code").unwrap(), "a code&");
    assert_eq!(fields.get("client_id").unwrap(), "client-test");
    assert_eq!(fields.get("redirect_uri").unwrap(), "http://localhost/cb");
    assert_eq!(fields.get("code_verifier").unwrap(), "verifier");
    assert_eq!(fields.len(), 5);
}

#[test]
fn callback_code_debug_is_redacted() {
    let sentinel = "private-authorization-code";
    let action = CallbackAction::Code(sentinel.to_string());
    assert!(!action.debug_text().contains(sentinel));
    assert_eq!(action.debug_text(), "Code(<redacted>)");
    assert_eq!(CallbackAction::Ignore(404).debug_text(), "Ignore(404)");
}

#[test]
fn callback_head_over_64_kib_is_rejected() {
    let mut reader = HeadReader::new();
    let mut request = format!(
        "GET {CALLBACK_PATH}?state=expected&code=value HTTP/1.1\r\nHost: localhost:1455\r\nX-Fill: "
    )
    .into_bytes();
    request.extend(vec![b'x'; MAX_CALLBACK_HEAD + 1]);
    request.extend_from_slice(b"\r\n\r\n");
    let mut outcome = Ok(());
    for chunk in request.chunks(1024) {
        outcome = reader.read_http_head(HeadEvent::Read(chunk.to_vec()));
        if outcome.is_err() || reader.complete() {
            break;
        }
    }
    assert_eq!(outcome.unwrap_err().code, OAuthErrorCode::OAuthProtocol);
}

#[test]
fn unreadable_callback_requests_are_refused() {
    for event in [
        HeadEvent::Expired,
        HeadEvent::TimedOut,
        HeadEvent::Unconfigurable,
        HeadEvent::Failed,
        HeadEvent::Read(Vec::new()),
    ] {
        assert!(HeadReader::new().read_http_head(event).is_err());
    }
    let cancelled = HeadReader::new().read_callback_chunk(HeadEvent::Cancelled).unwrap_err();
    assert_eq!(cancelled.code, OAuthErrorCode::AuthCancelled);
    assert_eq!(cancelled.stage, "callback_wait");
    let mut reader = HeadReader::new();
    assert!(reader.read_callback_chunk(HeadEvent::Read(b"GET / HTTP/1.1\r\n\r\n".to_vec())).is_ok());
    assert!(reader.complete());
}

#[test]
fn duplicate_callback_fields_are_rejected() {
    let head = format!(
        "GET {CALLBACK_PATH}?state=expected&state=expected&code=value HTTP/1.1\r\nHost: localhost:1455\r\nConnection: close\r\n\r\n"
    );
    let error = parse_callback(head.as_bytes(), 1455, "expected").err().unwrap();
    assert_eq!(error.code, OAuthErrorCode::OAuthProtocol);
    let pairs = vec![
        ("code".to_string(), "a".to_string()),
        ("code".to_string(), "b".to_string()),
        ("state".to_string(), "expected".to_string()),
    ];
    assert!(read_fields(pairs, "expected").is_err());
}

#[test]
fn callbacks_are_read_by_path_host_and_state() {
    let callback = |line: &str, host: &str| {
        let head = format!("{line} HTTP/1.1\r\nHost: {host}\r\n\r\n");
        parse_callback_head(head.as_bytes(), 1455, "expected").map(|action| action.debug_text())
    };
    let target = format!("GET {CALLBACK_PATH}");
    let ok = format!("{target}?code=a%20b&state=expected");
    let head = format!("{ok} HTTP/1.1\r\nHost: localhost:1455\r\n\r\n");
    let action = parse_callback_head(head.as_bytes(), 1455, "expected").ok().unwrap();
    assert!(matches!(action, CallbackAction::Code(code) if code == "a b"));
    assert_eq!(callback(&ok, "127.0.0.1:1455").unwrap(), "Code(<redacted>)");
    assert!(callback(&ok, "example.com").is_err());
    assert!(callback(&ok, "localhost:1456").is_err());
    assert_eq!(
        callback(&format!("GET /other?code=a&state=expected"), "localhost:1455").unwrap(),
        "Ignore(404)"
    );
    assert!(callback(&format!("{target}?code=a&state=wrong"), "localhost:1455").is_err());
    assert_eq!(
        callback(&format!("{target}?error=access_denied&state=expected"), "localhost:1455").unwrap(),
        "Denied"
    );
    assert!(parse_callback(&[0xff, 0xfe], 1455, "expected").is_err());
}

#[test]
fn callback_pages_carry_their_length() {
    let page = write_callback_response(200, "done");
    let (head, body) = page.split_once("\r\n\r\n").unwrap();
    assert!(head.starts_with("HTTP/1.1 200 "));
    assert!(head.to_lowercase().contains(&format!("content-length: {}", body.len())));
    assert!(body.contains("<p>done</p>"));
    let page = write_callback(400, "no");
    assert!(page.starts_with("HTTP/1.1 400 "));
    assert!(page.ends_with("<html><body>no</body></html>"));
}

#[test]
fn browser_launcher_is_killed_when_its_time_is_up() {
    let browser = SystemBrowser;
    assert!(matches!(
        browser.open_browser(BrowserEvent::Exited { success: true }),
        BrowserTask::Opened
    ));
    assert!(matches!(
        browser.open_browser(BrowserEvent::Running { expired: false }),
        BrowserTask::PollAgain
    ));
    let BrowserTask::KillAndFail(error) =
        browser.open_browser_cancellable(BrowserEvent::Running { expired: true })
    else {
        panic!("an overdue launcher is killed")
    };
    assert_eq!(error.stage, "browser_open");
    let BrowserTask::Fail(error) = browser.open_browser(BrowserEvent::Unsupported) else {
        panic!("no browser, no login")
    };
    assert_eq!(error.code, OAuthErrorCode::BrowserOpenFailed);
    assert!(!error.retryable);
    let BrowserTask::KillAndFail(error) = browser.open_browser_cancellable(BrowserEvent::Cancelled)
    else {
        panic!("a cancelled launcher is killed")
    };
    assert_eq!(error.code, OAuthErrorCode::AuthCancelled);
}

#[test]
fn refresh_with_a_token_that_cannot_be_used_is_refused() {
    let reply = || {
        Ok((
            reply_head(200, Some("application/json"), Some(32)),
            ReplyBody::Read {
                length: 32,
                value: Some(RefreshResponse {
                    id_token: Some("no token at all".into()),
                    access_token: None,
                    refresh_token: Some(" ".into()),
                }),
            },
        ))
    };
    let error = transport().refresh(reply(), None, None).err().unwrap();
    assert_eq!(error.code, OAuthErrorCode::OAuthProtocol);
    assert_eq!(error.message, "The OAuth refresh response contains an empty token");
}

#[test]
fn login_state_is_its_random_bytes_in_letters() {
    assert_eq!(state_from_random(&[]), "");
    assert_eq!(state_from_random(&[0xfb, 0xff, 0x00]), "-_8A");
    let decoded = |state: &str| {
        base64::engine::general_purpose::URL_SAFE_NO_PAD.decode(state).unwrap()
    };
    let bytes: Vec<u8> = (0..32).collect();
    assert_eq!(decoded(&state_from_random(&bytes)), bytes);
    assert_eq!(decoded(&generate_state().unwrap()).len(), 32);
    assert_eq!(decoded(&generate_pkce().unwrap().verifier).len(), 64);
}

#[test]
fn taking_the_account_leaves_the_other_claims() {
    let claims = || JwtClaims {
        exp: Some(7),
        auth: Some(JwtAuthClaims { chatgpt_account_id: Some("nested".into()) }),
        chatgpt_account_id: Some("outer".into()),
    };
    let mut both = claims();
    assert_eq!(both.take_account_id().as_deref(), Some("nested"));
    assert_eq!(both.exp, Some(7));
    assert!(both.auth.is_none() || both.auth.as_ref().unwrap().chatgpt_account_id.is_none());
    assert_eq!(both.chatgpt_account_id.as_deref(), Some("outer"));
    let mut outer = claims();
    outer.auth = None;
    assert_eq!(outer.take_account_id().as_deref(), Some("outer"));
    assert!(outer.chatgpt_account_id.is_none());
    assert!(outer.take_account_id().is_none());
}

#[test]
fn json_requests_escape_what_json_does_not_hold_bare() {
    let token = "q\" b\\ n\n r\r t\t b\u{8} f\u{c} c\u{1} u\u{1f} d\u{7f} e\u{e9}";
    let body = transport().refresh_request(token).unwrap();
    assert!(body.contains(
        r#""refresh_token":"q\" b\\ n\n r\r t\t b\b f\f c\u0001 u\u001f d\u007f e"#
            .replace(r"\u007f", "\u{7f}")
            .as_str()
    ));
    assert!(!body.contains('\n'));
    let value: serde_json::Value = serde_json::from_str(&body).unwrap();
    assert_eq!(value["refresh_token"], token);
}
