//! What tokens, refreshes and refused requests come to, over what goes in and what comes out.

use vstd::prelude::*;

use crate::codex_auth::oauth::{
    jwt_payload, payload_of, response_kind, BrowserEvent, BrowserTask, ClientFault, FlowError,
    HttpOAuthTransport, JwtAuthClaims, JwtClaims, LoginOptions, OAuthErrorCode, OAuthFlowError,
    PkceCodes, RefreshResponse, ReplyBody, ReplyHead, RequestFailure, SystemBrowser, TokenResponse,
};
use crate::codex_auth::storage::{
    NewOAuthTokens, RefreshUpdate, RevokeToken, RevokeTokenKind, StorageError,
};
use crate::crypto::{base64url_decoded, base64url_of, sha256_of};
use crate::duration::Duration;
use crate::json_text::{json_string_of, object_text};
use crate::text::{found_at, is_blank, lowered, split_by};
use crate::text_laws::{law_split_by, law_split_by_absent};
use vstd::string::*;
use vstd::utf8::*;

verus! {

/// The same text, or none on either side.
pub open spec fn same_text(a: Option<String>, b: Option<String>) -> bool {
    match (a, b) {
        (Some(a), Some(b)) => a@ == b@,
        (None, None) => true,
        _ => false,
    }
}

/// A token is one that can be used: not blank, and of at most 256 KiB.
pub open spec fn usable(token: Option<String>) -> bool {
    token matches Some(token) ==> !is_blank(token@) && encode_utf8(token@).len() <= 262_144
}

/// The account that claims name: the nested one, or else the outer one.
pub open spec fn names_account(claims: JwtClaims, account: Seq<char>) -> bool {
    &&& !is_blank(account)
    &&& match claims.auth {
        Some(JwtAuthClaims { chatgpt_account_id: Some(nested) }) => nested@ == account,
        _ => claims.chatgpt_account_id matches Some(outer) && outer@ == account,
    }
}

/// Every token that a usable refresh brings is in the update, character for character, and
/// no other. A refresh with a blank or an oversized token is refused.
pub proof fn law_refresh_keeps_every_token(
    response: RefreshResponse,
    id_claims: Option<JwtClaims>,
    access_claims: Option<JwtClaims>,
    result: Result<RefreshUpdate, OAuthFlowError>,
)
    requires
        call_ensures(RefreshResponse::into_update, (response, id_claims, access_claims), result),
    ensures
        result matches Ok(update) ==> {
            &&& same_text(update.access_token, response.access_token)
            &&& same_text(update.refresh_token, response.refresh_token)
            &&& same_text(update.id_token, response.id_token)
        },
        result is Ok ==> usable(response.access_token) && usable(response.refresh_token) && usable(
            response.id_token,
        ),
        result matches Err(error) ==> error.code == OAuthErrorCode::OAuthProtocol
            && !error.retryable,
{
}

/// What a refresh without an identity token comes to: it is refused only for a token that
/// cannot be used; the account and the expiry are those of the access token, where it has
/// claims, and stay as they were where it has none.
pub proof fn law_refresh_by_access_token(
    response: RefreshResponse,
    id_claims: Option<JwtClaims>,
    access_claims: Option<JwtClaims>,
    result: Result<RefreshUpdate, OAuthFlowError>,
)
    requires
        call_ensures(RefreshResponse::into_update, (response, id_claims, access_claims), result),
        response.id_token is None,
    ensures
        result is Ok <==> usable(response.access_token) && usable(response.refresh_token),
        result matches Ok(update) ==> match (response.access_token, access_claims) {
            (Some(token), Some(claims)) if payload_of(token@) is Ok => {
                &&& update.expires_at == claims.exp
                &&& update.account_id matches Some(account) ==> names_account(claims, account@)
                &&& update.account_id is None ==> forall|account: Seq<char>|
                    !#[trigger] names_account(claims, account)
            },
            _ => update.expires_at is None && update.account_id is None,
        },
{
}

/// What a refresh with an identity token comes to: its account is the one that the token
/// names, and an access token that names another one is refused. The access token's expiry
/// goes before the identity token's.
pub proof fn law_refresh_by_identity_token(
    response: RefreshResponse,
    id_claims: Option<JwtClaims>,
    access_claims: Option<JwtClaims>,
    result: Result<RefreshUpdate, OAuthFlowError>,
    account: Seq<char>,
)
    requires
        call_ensures(RefreshResponse::into_update, (response, id_claims, access_claims), result),
        response.id_token is Some,
    ensures
        result is Ok ==> payload_of(response.id_token->Some_0@) is Ok && id_claims is Some,
        result matches Ok(update) ==> (update.account_id matches Some(named) && names_account(
            id_claims->Some_0,
            named@,
        )),
        result matches Ok(update) ==> match (response.access_token, access_claims) {
            (Some(token), Some(claims)) if payload_of(token@) is Ok => {
                &&& claims.exp is Some ==> update.expires_at == claims.exp
                &&& claims.exp is None ==> update.expires_at == id_claims->Some_0.exp
                &&& names_account(claims, account) ==> names_account(id_claims->Some_0, account)
            },
            _ => update.expires_at == id_claims->Some_0.exp,
        },
{
}

/// The tokens of a login are those of the reply, for the account that the identity token
/// names. A reply whose tokens are oversized, or that names no account, is refused.
pub proof fn law_login_keeps_every_token(
    response: TokenResponse,
    id_claims: Option<JwtClaims>,
    access_claims: Option<JwtClaims>,
    result: Result<NewOAuthTokens, OAuthFlowError>,
    account: Seq<char>,
)
    requires
        call_ensures(TokenResponse::into_tokens, (response, id_claims, access_claims), result),
    ensures
        result matches Ok(tokens) ==> {
            &&& tokens.access_token@ == response.access_token@
            &&& tokens.refresh_token@ == response.refresh_token@
            &&& tokens.id_token@ == response.id_token@
            &&& id_claims is Some && names_account(id_claims->Some_0, tokens.account_id@)
            &&& encode_utf8(response.access_token@).len() <= 262_144
            &&& encode_utf8(response.refresh_token@).len() <= 262_144
            &&& encode_utf8(response.id_token@).len() <= 262_144
            &&& match access_claims {
                Some(claims) if payload_of(response.access_token@) is Ok && claims.exp is Some =>
                    tokens.expires_at == claims.exp,
                _ => tokens.expires_at == id_claims->Some_0.exp,
            }
        },
        result is Err ==> {
            ||| encode_utf8(response.access_token@).len() > 262_144
            ||| encode_utf8(response.refresh_token@).len() > 262_144
            ||| encode_utf8(response.id_token@).len() > 262_144
            ||| payload_of(response.id_token@) is Err
            ||| id_claims is None
            ||| !names_account(id_claims->Some_0, account)
        },
        result matches Err(error) ==> error.code == OAuthErrorCode::OAuthProtocol
            && !error.retryable,
{
}

proof fn lemma_split_at_dot(head: Seq<char>, rest: Seq<char>)
    requires
        !head.contains('.'),
    ensures
        split_by(head + seq!['.'] + rest, seq!['.']) == seq![head] + split_by(rest, seq!['.']),
        split_by(head, seq!['.']) == seq![head],
{
    let dot = seq!['.'];
    let text = head + dot + rest;
    assert forall|k: int| 0 <= k < head.len() implies !found_at(text, dot, k) by {
        if found_at(text, dot, k) {
            assert(text.subrange(k, k + 1)[0] == head[k]);
            assert(head.contains(head[k]));
        }
    }
    law_split_by(text, head, dot, rest);
    assert forall|k: int| !found_at(head, dot, k) by {
        if found_at(head, dot, k) {
            assert(head.subrange(k, k + 1)[0] == head[k]);
            assert(head.contains(head[k]));
        }
    }
    law_split_by_absent(head, dot);
}

/// A token has a payload only where it has three parts that are not empty, with a dot
/// between them, and then it is what the middle one decodes to, up to 256 KiB.
pub proof fn law_payload_is_the_middle(
    jwt: &str,
    payload: Result<Vec<u8>, OAuthFlowError>,
    first: Seq<char>,
    middle: Seq<char>,
    last: Seq<char>,
)
    requires
        call_ensures(jwt_payload, (jwt,), payload),
        !first.contains('.') && !middle.contains('.') && !last.contains('.'),
    ensures
        jwt@ == first || jwt@ == first + seq!['.'] + middle ==> payload is Err,
        jwt@ == first + seq!['.'] + (middle + seq!['.'] + last) ==> {
            &&& payload is Ok ==> first.len() > 0 && middle.len() > 0 && last.len() > 0
            &&& payload matches Ok(bytes) ==> base64url_decoded(middle) == Some(bytes@)
                && bytes@.len() <= 262_144
            &&& first.len() > 0 && middle.len() > 0 && last.len() > 0 && (base64url_decoded(middle)
                matches Some(bytes) && bytes.len() <= 262_144) ==> payload is Ok
        },
{
    lemma_split_at_dot(first, middle + seq!['.'] + last);
    lemma_split_at_dot(first, middle);
    lemma_split_at_dot(middle, last);
    lemma_split_at_dot(last, last);
    if jwt@ == first + seq!['.'] + (middle + seq!['.'] + last) {
        let parts = split_by(jwt@, seq!['.']);
        assert(parts =~= seq![first, middle, last]);
    }
}

/// A token of four parts or more has no payload.
pub proof fn law_longer_tokens_have_no_payload(
    jwt: &str,
    payload: Result<Vec<u8>, OAuthFlowError>,
    first: Seq<char>,
    second: Seq<char>,
    third: Seq<char>,
    rest: Seq<char>,
)
    requires
        call_ensures(jwt_payload, (jwt,), payload),
        !first.contains('.') && !second.contains('.') && !third.contains('.'),
        jwt@ == first + seq!['.'] + (second + seq!['.'] + (third + seq!['.'] + rest)),
    ensures
        payload is Err,
{
    lemma_split_at_dot(first, second + seq!['.'] + (third + seq!['.'] + rest));
    lemma_split_at_dot(second, third + seq!['.'] + rest);
    lemma_split_at_dot(third, rest);
    assert(split_by(rest, seq!['.']).len() > 0);
    assert(split_by(jwt@, seq!['.']).len() > 3);
}

/// The tokens of a code exchange are those of a reply that was a success, whole and of at
/// most 1 MiB. Where there was no reply, the error names how the request failed.
pub proof fn law_exchange_brings_the_reply(
    transport: &HttpOAuthTransport,
    reply: Result<(ReplyHead, ReplyBody<TokenResponse>), RequestFailure>,
    id_claims: Option<JwtClaims>,
    access_claims: Option<JwtClaims>,
    result: Result<NewOAuthTokens, OAuthFlowError>,
)
    requires
        call_ensures(
            HttpOAuthTransport::exchange_code,
            (transport, reply, id_claims, access_claims),
            result,
        ),
    ensures
        result matches Ok(tokens) ==> {
            &&& reply matches Ok((head, ReplyBody::Read { length, value: Some(response) }))
            &&& 200 <= head.status <= 299
            &&& length <= 1_048_576
            &&& head.content_length matches Some(declared) ==> declared <= 1_048_576
            &&& tokens.access_token@ == response.access_token@
            &&& tokens.refresh_token@ == response.refresh_token@
            &&& tokens.id_token@ == response.id_token@
            &&& id_claims is Some && names_account(id_claims->Some_0, tokens.account_id@)
        },
        reply matches Err(failure) ==> (result matches Err(error) && names_failure(
            error,
            failure,
            transport.has_proxy,
            "token_exchange"@,
        )),
        reply matches Ok((head, _)) ==> 200 <= head.status <= 299 || (result matches Err(error)
            && names_refusal(
            error,
            head,
            "token_exchange"@,
            "The OAuth token exchange was rejected"@,
        )),
{
}

/// How a request that got no reply is told: by whether it was late, and then by whether the
/// connection could not be made safe, or the proxy could not be reached.
pub open spec fn names_failure(
    error: OAuthFlowError,
    failure: RequestFailure,
    has_proxy: bool,
    stage: Seq<char>,
) -> bool {
    &&& error.retryable
    &&& error.stage@ == stage
    &&& error.upstream_status is None
    &&& error.transport_kind matches Some(kind)
    &&& failure.timed_out ==> error.code == OAuthErrorCode::OAuthNetwork && kind@ == "timeout"@
    &&& !failure.timed_out && failure.tls_failed ==> error.code == OAuthErrorCode::TlsFailed
        && kind@ == "tls"@
    &&& !failure.timed_out && !failure.tls_failed && failure.connect_failed && has_proxy
        ==> error.code == OAuthErrorCode::ProxyConnectFailed && kind@ == "proxy_connect"@
    &&& !failure.timed_out && !failure.tls_failed && !(failure.connect_failed && has_proxy)
        ==> error.code == OAuthErrorCode::OAuthNetwork && kind@ == "unknown"@
}

/// How a refused request is told: with its status, as a challenge where it is one, and as
/// refused by the protocol only where the reply is JSON.
pub open spec fn names_refusal(
    error: OAuthFlowError,
    head: ReplyHead,
    stage: Seq<char>,
    message: Seq<char>,
) -> bool {
    let challenge = head.challenge_header matches Some(value) && lowered(value@) == "challenge"@;
    &&& error.stage@ == stage
    &&& error.upstream_status == Some(head.status)
    &&& error.challenge_detected == Some(challenge)
    &&& challenge <==> error.code == OAuthErrorCode::OAuthChallengeResponse
    &&& challenge || error.code == OAuthErrorCode::OAuthProtocol || error.code
        == OAuthErrorCode::OAuthUnexpectedContentType
    &&& error.retryable <==> error.code != OAuthErrorCode::OAuthProtocol
    &&& error.response_kind matches Some(kind)
    &&& error.code == OAuthErrorCode::OAuthProtocol ==> error.message@ == message && kind@
        != "html"@ && kind@ != "other"@ && kind@ != "unknown"@
}

/// What a refresh changes is what a reply said that was a success, JSON, not empty and of at
/// most 1 MiB.
pub proof fn law_refresh_brings_the_reply(
    transport: &HttpOAuthTransport,
    reply: Result<(ReplyHead, ReplyBody<RefreshResponse>), RequestFailure>,
    id_claims: Option<JwtClaims>,
    access_claims: Option<JwtClaims>,
    result: Result<RefreshUpdate, OAuthFlowError>,
)
    requires
        call_ensures(
            HttpOAuthTransport::refresh,
            (transport, reply, id_claims, access_claims),
            result,
        ),
    ensures
        result matches Ok(update) ==> {
            &&& reply matches Ok((head, ReplyBody::Read { length, value: Some(response) }))
            &&& 200 <= head.status <= 299
            &&& 0 < length <= 1_048_576
            &&& !(head.challenge_header matches Some(value) && lowered(value@) == "challenge"@)
            &&& same_text(update.access_token, response.access_token)
            &&& same_text(update.refresh_token, response.refresh_token)
            &&& same_text(update.id_token, response.id_token)
            &&& usable(response.access_token) && usable(response.refresh_token) && usable(
                response.id_token,
            )
        },
        reply matches Err(failure) ==> (result matches Err(error) && names_failure(
            error,
            failure,
            transport.has_proxy,
            "refresh"@,
        )),
        reply matches Ok((head, _)) ==> 200 <= head.status <= 299 || (result matches Err(error)
            && names_refusal(error, head, "refresh"@, "The OAuth refresh request was rejected"@)),
{
    reveal_strlit("empty");
    reveal_strlit("json");
    assert("empty"@.len() != "json"@.len());
    if result is Ok {
        let (head, body) = reply->Ok_0;
        assert(head.bounded_json_error("refresh"@, body) is None);
        assert(body is Read && body->value is Some);
        let response = body->value->Some_0;
        assert(response.error(id_claims, access_claims) is None);
        assert(response.gives(result->Ok_0, id_claims, access_claims));
    }
}

/// A revocation succeeds exactly where the reply is a success.
pub proof fn law_revocation_is_told_by_its_status(
    transport: &HttpOAuthTransport,
    reply: Result<ReplyHead, RequestFailure>,
    result: Result<(), OAuthFlowError>,
)
    requires
        call_ensures(HttpOAuthTransport::revoke, (transport, reply), result),
    ensures
        result is Ok <==> (reply matches Ok(head) && 200 <= head.status <= 299),
        reply matches Err(failure) ==> (result matches Err(error) && names_failure(
            error,
            failure,
            transport.has_proxy,
            "revoke"@,
        )),
        reply matches Ok(head) ==> 200 <= head.status <= 299 || (result matches Err(error)
            && names_refusal(error, head, "revoke"@, "The OAuth revoke request was rejected"@)),
{
}

/// What the token endpoint is asked for newer tokens with: the client, and the token that
/// was stored.
pub proof fn law_refresh_request_holds_the_token(
    transport: &HttpOAuthTransport,
    refresh_token: &str,
    body: Result<String, OAuthFlowError>,
)
    requires
        call_ensures(HttpOAuthTransport::refresh_request, (transport, refresh_token), body),
    ensures
        body matches Ok(body) ==> object_text(
            seq![
                ("client_id"@, json_string_of(transport.client_id@)),
                ("grant_type"@, json_string_of("refresh_token"@)),
                ("refresh_token"@, json_string_of(refresh_token@)),
            ],
        ) == Some(body@),
{
}

/// What the token endpoint is asked to revoke: the token, and for a refresh token the client
/// that it was given to.
pub proof fn law_revoke_request_holds_the_token(
    transport: &HttpOAuthTransport,
    token: &RevokeToken,
    body: Result<String, OAuthFlowError>,
)
    requires
        call_ensures(HttpOAuthTransport::revoke_request, (transport, token), body),
    ensures
        token.kind == RevokeTokenKind::Refresh && body is Ok ==> object_text(
            seq![
                ("token"@, json_string_of(token.token@)),
                ("token_type_hint"@, json_string_of("refresh_token"@)),
                ("client_id"@, json_string_of(transport.client_id@)),
            ],
        ) == Some(body->Ok_0@),
        token.kind == RevokeTokenKind::Access && body is Ok ==> object_text(
            seq![
                ("token"@, json_string_of(token.token@)),
                ("token_type_hint"@, json_string_of("access_token"@)),
            ],
        ) == Some(body->Ok_0@),
{
}

/// How a failure of the credential store is told, and which of them another try may mend.
pub proof fn law_store_failures_are_told_apart(error: StorageError)
    ensures
        ({
            let told = crate::codex_auth::oauth::storage_failure(error);
            &&& error is Busy <==> told.code == OAuthErrorCode::AuthBusy
            &&& error is AuthChanged <==> told.code == OAuthErrorCode::AuthChanged
            &&& error is InvalidState <==> told.code == OAuthErrorCode::AuthStateInvalid
            &&& error is NotAuthenticated <==> told.code == OAuthErrorCode::NotAuthenticated
            &&& error is UnsupportedPlatform <==> told.code == OAuthErrorCode::UnsupportedPlatform
            &&& error is Unavailable || error is RollbackFailed <==> told.code
                == OAuthErrorCode::Storage
            &&& told.retryable <==> error is Busy || error is AuthChanged || error is Unavailable
                || error is RollbackFailed
            &&& told.upstream_status is None
        }),
{
}

/// A code exchange may take what the login has left, and half a minute at most; a login
/// that has nothing left has timed out.
pub proof fn law_exchange_takes_half_a_minute(
    remaining: Duration,
    timeout: Result<Duration, OAuthFlowError>,
)
    requires
        call_ensures(HttpOAuthTransport::exchange_timeout, (remaining,), timeout),
    ensures
        timeout is Err <==> remaining.millis == 0,
        timeout matches Ok(timeout) ==> timeout.millis <= remaining.millis && timeout.millis
            <= 30_000 && (timeout.millis == remaining.millis || timeout.millis == 30_000),
        timeout matches Err(error) ==> error.code == OAuthErrorCode::CallbackTimeout
            && error.retryable,
{
}

/// The production login and transport talk to the one pinned issuer, as the one client.
pub proof fn law_production_is_pinned(
    options: LoginOptions,
    has_proxy: bool,
    transport: Result<HttpOAuthTransport, OAuthFlowError>,
)
    requires
        call_ensures(LoginOptions::production, (), options),
        call_ensures(HttpOAuthTransport::production, (has_proxy,), transport),
    ensures
        options.issuer@ == "https://auth.openai.com"@,
        options.client_id@ == "app_EMoamEEZ73f0CkXaXp7hrann"@,
        options.ports@.len() == 2 && options.ports@[0] == 1455 && options.ports@[1] == 1457,
        options.timeout.millis == 5 * 60 * 1_000,
        transport matches Ok(transport) ==> transport.token_endpoint@
            == "https://auth.openai.com"@ + "/oauth/token"@ && transport.client_id@
            == options.client_id@ && transport.has_proxy == has_proxy,
{
}

/// What becomes of the browser's launcher: it has opened the page exactly where it ended
/// well, is looked at again as long as it runs in time, and is killed exactly where it still
/// runs when it has to be given up.
pub proof fn law_launcher_is_never_left_running(
    browser: SystemBrowser,
    event: BrowserEvent,
    task: BrowserTask,
    staged: BrowserTask,
)
    requires
        call_ensures(SystemBrowser::open_browser, (browser, event), task),
        call_ensures(SystemBrowser::open_browser_cancellable, (browser, event), staged),
    ensures
        task is Opened <==> event == (BrowserEvent::Exited { success: true }),
        task is PollAgain <==> event == (BrowserEvent::Running { expired: false }),
        task is KillAndFail <==> event == (BrowserEvent::Running { expired: true }) || event
            is Cancelled,
        staged is Opened <==> task is Opened,
        staged is PollAgain <==> task is PollAgain,
        staged is KillAndFail <==> task is KillAndFail,
        task matches BrowserTask::Fail(error) ==> error.code == OAuthErrorCode::BrowserOpenFailed
            && error.retryable == !(event is Unsupported),
        task matches BrowserTask::KillAndFail(error) ==> error.retryable && (event is Cancelled
            <==> error.code == OAuthErrorCode::AuthCancelled),
        staged matches BrowserTask::Fail(error) ==> error.stage@ == "browser_open"@,
        staged matches BrowserTask::KillAndFail(error) ==> error.stage@ == "browser_open"@,
{
}

/// The challenge commits to the verifier: it is its digest, and the verifier is the random
/// bytes themselves in letters.
pub proof fn law_challenge_commits_to_the_verifier(random: &[u8], codes: PkceCodes)
    requires
        call_ensures(PkceCodes::from_random, (random,), codes),
    ensures
        codes.verifier@ == base64url_of(random@),
        codes.challenge@ == base64url_of(sha256_of(encode_utf8(codes.verifier@))),
{
}

/// A fault of the network client is told as one of the network; only an invalid route
/// cannot be mended by another try.
pub proof fn law_client_faults_are_network_faults(fault: ClientFault, error: OAuthFlowError)
    requires
        call_ensures(ClientFault::error, (fault,), error),
    ensures
        error.code == OAuthErrorCode::OAuthNetwork,
        error.retryable <==> fault == ClientFault::NotCreated,
{
}

/// The public names of the error codes.
pub proof fn law_error_codes_have_their_names(code: OAuthErrorCode, name: &'static str)
    requires
        call_ensures(OAuthErrorCode::as_str, (code,), name),
    ensures
        code == OAuthErrorCode::AuthBusy ==> name@ == "auth_busy"@,
        code == OAuthErrorCode::AuthChanged ==> name@ == "auth_changed"@,
        code == OAuthErrorCode::AuthStateInvalid ==> name@ == "auth_state_invalid"@,
        code == OAuthErrorCode::BrowserOpenFailed ==> name@ == "browser_open_failed"@,
        code == OAuthErrorCode::CallbackTimeout ==> name@ == "callback_timeout"@,
        code == OAuthErrorCode::CallbackUnavailable ==> name@ == "callback_unavailable"@,
        code == OAuthErrorCode::NotAuthenticated ==> name@ == "not_authenticated"@,
        code == OAuthErrorCode::OAuthDenied ==> name@ == "oauth_denied"@,
        code == OAuthErrorCode::OAuthNetwork ==> name@ == "oauth_network_error"@,
        code == OAuthErrorCode::OAuthProtocol ==> name@ == "oauth_protocol_error"@,
        code == OAuthErrorCode::OAuthUnexpectedContentType ==> name@
            == "oauth_unexpected_content_type"@,
        code == OAuthErrorCode::OAuthChallengeResponse ==> name@ == "oauth_challenge_response"@,
        code == OAuthErrorCode::ProxyConnectFailed ==> name@ == "proxy_connect_failed"@,
        code == OAuthErrorCode::TlsFailed ==> name@ == "tls_failed"@,
        code == OAuthErrorCode::AuthCancelled ==> name@ == "auth_cancelled"@,
        code == OAuthErrorCode::Storage ==> name@ == "auth_storage_error"@,
        code == OAuthErrorCode::UnsupportedPlatform ==> name@ == "unsupported_platform"@,
{
}

/// An empty body is told as such, whatever kind it was declared to be; any other keeps its
/// kind.
pub proof fn law_empty_bodies_are_told(
    declared: &'static str,
    body_is_empty: bool,
    kind: &'static str,
)
    requires
        call_ensures(response_kind, (declared, body_is_empty), kind),
    ensures
        body_is_empty ==> kind@ == "empty"@,
        !body_is_empty ==> kind@ == declared@,
{
}

} // verus!
