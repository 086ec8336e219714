//! What every reply of the OAuth endpoint and every refusal comes to.

use vstd::prelude::*;

use crate::codex_auth::login_async::{send_request, ReplyReader, ResponseData, SendEvent};
use crate::codex_auth::oauth::{
    build_authorization_url, declared_response_kind, decode_jwt_claims, generate_pkce,
    generate_state, jwt_payload, parse_new_oauth_tokens, payload_of, state_from_random,
    storage_failure, token_request_body, url_is_endpoint, BrowserEvent, BrowserTask, ClientFault,
    HttpOAuthTransport, JwtClaims, OAuthErrorCode, OAuthFlowError, PkceCodes, RefreshResponse,
    ReplyBody, ReplyHead, RequestFailure, SystemBrowser, TokenResponse,
};
use crate::codex_auth::oauth_laws::{names_account, usable};
use crate::codex_auth::storage::{NewOAuthTokens, RefreshUpdate, StorageError};
use crate::crypto::{base64url_decoded, base64url_of};
use crate::text::{before, decimal, is_blank, lowered, quoted_text, trimmed};
use crate::web::{form_fields, scheme_and_host_of, url_at_path, url_at_path_with_query};
use vstd::string::*;
use vstd::utf8::*;

verus! {

/// Nothing is known of a reply.
pub open spec fn speaks_of_no_reply(error: OAuthFlowError) -> bool {
    &&& error.upstream_status is None
    &&& error.response_kind is None
    &&& error.challenge_detected is None
    &&& error.transport_kind is None
}

/// The error has this code and this message.
pub open spec fn says(
    error: OAuthFlowError,
    code: OAuthErrorCode,
    retryable: bool,
    message: Seq<char>,
) -> bool {
    &&& error.code == code
    &&& error.retryable == retryable
    &&& error.message@ == message
}

/// The error was met at this stage, in a reply of this status and kind.
pub open spec fn met_in_reply(
    error: OAuthFlowError,
    stage: Seq<char>,
    status: u16,
    kind: Seq<char>,
    challenge: bool,
) -> bool {
    &&& error.stage@ == stage
    &&& error.upstream_status == Some(status)
    &&& error.response_kind matches Some(told) && told@ == kind
    &&& error.challenge_detected == Some(challenge)
}

/// A new error has its code, its message and the first stage, and speaks of no reply;
/// one of the protocol is not retried.
pub proof fn law_new_errors(
    code: OAuthErrorCode,
    retryable: bool,
    message: &'static str,
    error: OAuthFlowError,
    protocol: OAuthFlowError,
    text: &'static str,
)
    requires
        call_ensures(OAuthFlowError::new, (code, retryable, message), error),
        call_ensures(OAuthFlowError::protocol, (message,), protocol),
        call_ensures(OAuthFlowError::to_text, (&error,), text),
    ensures
        says(error, code, retryable, message@),
        error.stage@ == "token_exchange"@,
        speaks_of_no_reply(error),
        says(protocol, OAuthErrorCode::OAuthProtocol, false, message@),
        protocol.stage@ == "token_exchange"@,
        speaks_of_no_reply(protocol),
        text@ == message@,
{
}

/// To name the stage of an error, its reply or its transport changes that and nothing
/// else.
pub proof fn law_errors_are_told_more_of(
    error: OAuthFlowError,
    stage: &'static str,
    staged: OAuthFlowError,
    status: Option<u16>,
    kind: Option<&'static str>,
    challenge: Option<bool>,
    replied: OAuthFlowError,
    transport: &'static str,
    carried: OAuthFlowError,
)
    requires
        call_ensures(OAuthFlowError::at_stage, (error, stage), staged),
        call_ensures(OAuthFlowError::with_http, (error, status, kind, challenge), replied),
        call_ensures(OAuthFlowError::with_transport, (error, transport), carried),
    ensures
        says(staged, error.code, error.retryable, error.message@),
        staged.stage@ == stage@,
        staged.upstream_status == error.upstream_status,
        staged.challenge_detected == error.challenge_detected,
        (staged.response_kind is Some) == (error.response_kind is Some),
        staged.response_kind is Some ==> staged.response_kind->0@ == error.response_kind->0@,
        (staged.transport_kind is Some) == (error.transport_kind is Some),
        staged.transport_kind is Some ==> staged.transport_kind->0@ == error.transport_kind->0@,
        says(replied, error.code, error.retryable, error.message@),
        replied.stage@ == error.stage@,
        replied.upstream_status == status,
        replied.challenge_detected == challenge,
        (replied.response_kind is Some) == (kind is Some),
        replied.response_kind is Some ==> replied.response_kind->0@ == kind->0@,
        (replied.transport_kind is Some) == (error.transport_kind is Some),
        replied.transport_kind is Some ==> replied.transport_kind->0@ == error.transport_kind->0@,
        says(carried, error.code, error.retryable, error.message@),
        carried.stage@ == error.stage@,
        carried.upstream_status == error.upstream_status,
        carried.challenge_detected == error.challenge_detected,
        (carried.response_kind is Some) == (error.response_kind is Some),
        carried.response_kind is Some ==> carried.response_kind->0@ == error.response_kind->0@,
        carried.transport_kind matches Some(told) && told@ == transport@,
{
    assert(staged@.stage == stage@);
    assert(replied@.stage == error@.stage);
    assert(carried@.stage == error@.stage);
    assert(staged@.response_kind == error@.response_kind);
    assert(staged@.transport_kind == error@.transport_kind);
    assert(replied@.transport_kind == error@.transport_kind);
    assert(carried@.response_kind == error@.response_kind);
}

/// The media type of a content type: what stands before its parameters, without white
/// space around it, in lower case.
pub open spec fn media_type(content_type: Seq<char>) -> Seq<char> {
    lowered(trimmed(before(content_type, ';')))
}

/// The media type is that of JSON, or is built on it.
pub open spec fn is_json_type(media: Seq<char>) -> bool {
    media == "application/json"@ || exists|head: Seq<char>| media == #[trigger] (head + "+json"@)
}

/// A reply is of the kind that its media type says, whatever its parameters: JSON, a
/// page, or something else; without a content type its kind is not known.
pub proof fn law_kinds_of_replies(
    content_type: &str,
    kind: &'static str,
    unknown: &'static str,
)
    requires
        call_ensures(declared_response_kind, (Some(content_type),), kind),
        call_ensures(declared_response_kind, (None,), unknown),
    ensures
        unknown@ == "unknown"@,
        ({
            let media = media_type(content_type@);
            if is_json_type(media) {
                kind@ == "json"@
            } else if media == "text/html"@ || media == "application/xhtml+xml"@ {
                kind@ == "html"@
            } else {
                kind@ == "other"@
            }
        }),
{
    let media = media_type(content_type@);
    let tail = "+json"@;
    if tail.len() <= media.len() && media.skip(media.len() - tail.len()) == tail {
        let head = media.take(media.len() - tail.len());
        assert(media =~= head + tail);
        assert(media == head + "+json"@);
    }
    if exists|head: Seq<char>| media == #[trigger] (head + "+json"@) {
        let head = choose|head: Seq<char>| media == #[trigger] (head + "+json"@);
        assert(media.skip(media.len() - tail.len()) =~= tail);
    }
}

/// The head says that a challenge was met.
pub open spec fn bears_a_challenge(head: ReplyHead) -> bool {
    head.challenge_header matches Some(value) && lowered(value@) == "challenge"@
}

/// The head says that over a mebibyte follows.
pub open spec fn announces_too_much(head: ReplyHead) -> bool {
    head.content_length matches Some(length) && length > 1_048_576
}

/// The head of a reply tells its kind by its content type, and a challenge by its own
/// header; the body is asked for unless the head is a challenge or announces over a
/// mebibyte.
pub proof fn law_heads_of_replies(
    head: &ReplyHead,
    found: (&'static str, bool),
    content_type: &str,
    kind: &'static str,
    needed: bool,
)
    requires
        call_ensures(ReplyHead::metadata, (head,), found),
        call_ensures(declared_response_kind, (Some(content_type),), kind),
        call_ensures(ReplyHead::needs_body, (head,), needed),
    ensures
        head.content_type is None ==> found.0@ == "unknown"@,
        head.content_type matches Some(value) ==> content_type@ == trimmed(value@) ==> found.0@
            == kind@,
        found.1 == bears_a_challenge(*head),
        needed == (!bears_a_challenge(*head) && !announces_too_much(*head)),
{
}

/// A refused request is told as a challenge, as an unexpected kind of reply or, where
/// the reply is JSON, by the caller's own words.
pub proof fn law_refused_requests(
    head: &ReplyHead,
    stage: &'static str,
    message: &'static str,
    error: OAuthFlowError,
    found: (&'static str, bool),
)
    requires
        call_ensures(ReplyHead::blocking_response_error, (head, stage, message), error),
        call_ensures(ReplyHead::metadata, (head,), found),
    ensures
        met_in_reply(error, stage@, head.status, found.0@, found.1),
        error.transport_kind is None,
        found.1 ==> says(
            error,
            OAuthErrorCode::OAuthChallengeResponse,
            true,
            "The OAuth endpoint returned a challenge response"@,
        ),
        !found.1 && found.0@ == "json"@ ==> says(
            error,
            OAuthErrorCode::OAuthProtocol,
            false,
            message@,
        ),
        !found.1 && found.0@ != "json"@ ==> says(
            error,
            OAuthErrorCode::OAuthUnexpectedContentType,
            true,
            "The OAuth endpoint returned an unexpected content type"@,
        ),
{
    lemma_kinds_differ();
    assert(error@.stage == stage@);
    assert(error@.response_kind == Some(found.0@));
}

proof fn lemma_kinds_differ()
    ensures
        "json"@ != "html"@,
        "json"@ != "other"@,
        "json"@ != "unknown"@,
        "json"@ != "empty"@,
{
    reveal_strlit("json");
    reveal_strlit("html");
    reveal_strlit("other");
    reveal_strlit("unknown");
    reveal_strlit("empty");
    assert("json"@[0] == 'j');
    assert("html"@[0] == 'h');
    assert("other"@.len() == 5);
    assert("unknown"@.len() == 7);
    assert("empty"@.len() == 5);
    assert("json"@.len() == 4);
}

/// A reply gives its value if and only if it is no challenge, has 1 byte to a mebibyte
/// of JSON and the JSON holds a value of the asked form; otherwise the first thing that
/// is wrong with it is told.
pub proof fn law_values_of_replies<T>(
    head: &ReplyHead,
    stage: &'static str,
    body: ReplyBody<T>,
    result: Result<T, OAuthFlowError>,
    found: (&'static str, bool),
)
    requires
        body is Unread ==> bears_a_challenge(*head) || announces_too_much(*head),
        call_ensures(ReplyHead::read_bounded_json::<T>, (head, stage, body), result),
        call_ensures(ReplyHead::metadata, (head,), found),
    ensures
        result is Ok <==> !bears_a_challenge(*head) && !announces_too_much(*head) && found.0@
            == "json"@ && (body matches ReplyBody::Read { length, value } && 1 <= length
            <= 1_048_576 && value is Some),
        result matches Ok(given) ==> (body matches ReplyBody::Read { length, value } && value
            == Some(given)),
        bears_a_challenge(*head) ==> (result matches Err(error) && says(
            error,
            OAuthErrorCode::OAuthChallengeResponse,
            true,
            "The OAuth endpoint returned a challenge response"@,
        ) && met_in_reply(error, stage@, head.status, found.0@, true)),
        !bears_a_challenge(*head) && (announces_too_much(*head) || (body matches ReplyBody::Read {
            length,
            value,
        } && length > 1_048_576)) ==> (result matches Err(error) && says(
            error,
            OAuthErrorCode::OAuthProtocol,
            false,
            "The OAuth response is too large"@,
        ) && met_in_reply(error, stage@, head.status, found.0@, false)),
        !bears_a_challenge(*head) && !announces_too_much(*head) && body is Failed ==> (
        result matches Err(error) && says(
            error,
            OAuthErrorCode::OAuthNetwork,
            true,
            "The OAuth response could not be read"@,
        ) && met_in_reply(error, stage@, head.status, found.0@, false) && (
        error.transport_kind matches Some(kind) && kind@ == "http"@)),
        !bears_a_challenge(*head) && !announces_too_much(*head) && (body matches ReplyBody::Read {
            length,
            value,
        } && length == 0) ==> (result matches Err(error) && says(
            error,
            OAuthErrorCode::OAuthUnexpectedContentType,
            true,
            "The OAuth endpoint returned an unexpected content type"@,
        ) && met_in_reply(error, stage@, head.status, "empty"@, false)),
        !bears_a_challenge(*head) && !announces_too_much(*head) && found.0@ != "json"@ && (
        body matches ReplyBody::Read { length, value } && 1 <= length <= 1_048_576) ==> (
        result matches Err(error) && says(
            error,
            OAuthErrorCode::OAuthUnexpectedContentType,
            true,
            "The OAuth endpoint returned an unexpected content type"@,
        ) && met_in_reply(error, stage@, head.status, found.0@, false)),
        !bears_a_challenge(*head) && !announces_too_much(*head) && found.0@ == "json"@ && (
        body matches ReplyBody::Read { length, value } && 1 <= length <= 1_048_576 && value is None)
            ==> (result matches Err(error) && says(
            error,
            OAuthErrorCode::OAuthProtocol,
            false,
            "The OAuth response is invalid"@,
        ) && met_in_reply(error, stage@, head.status, "json"@, false)),
{
    lemma_kinds_differ();
    if result is Err {
        let error = result->Err_0;
        assert(error@.stage == error.stage@);
        assert(error@.response_kind == match error.response_kind {
            Some(kind) => Some(kind@),
            None => None::<Seq<char>>,
        });
    }
}

/// The account of a token is the nested one, and the outer one where there is no
/// nested one. It is taken out; the expiry stays.
pub proof fn law_the_account_is_taken_out(claims: &mut JwtClaims, id: Option<String>)
    requires
        call_ensures(JwtClaims::take_account_id, (claims,), id),
    ensures
        ({
            let nested = old(claims).auth is Some && old(claims).auth->0.chatgpt_account_id is Some;
            &&& nested ==> id == old(claims).auth->0.chatgpt_account_id
            &&& !nested ==> id == old(claims).chatgpt_account_id
            &&& nested ==> final(claims).auth is Some
                && final(claims).auth->0.chatgpt_account_id is None
                && final(claims).chatgpt_account_id == old(claims).chatgpt_account_id
            &&& !nested ==> final(claims).chatgpt_account_id is None && final(claims).auth
                == old(claims).auth
            &&& final(claims).exp == old(claims).exp
        }),
{
}

/// A token has claims if and only if it has a payload and the payload holds them.
pub proof fn law_claims_of_a_token(
    jwt: &str,
    parsed: Option<JwtClaims>,
    claims: Result<JwtClaims, OAuthFlowError>,
    payload: Result<Vec<u8>, OAuthFlowError>,
)
    requires
        call_ensures(decode_jwt_claims, (jwt, parsed), claims),
        call_ensures(jwt_payload, (jwt,), payload),
    ensures
        claims is Ok <==> payload is Ok && parsed is Some,
        claims matches Ok(given) ==> parsed == Some(given),
        payload is Ok && parsed is None ==> (claims matches Err(error) && says(
            error,
            OAuthErrorCode::OAuthProtocol,
            false,
            "The OAuth token payload is invalid"@,
        )),
        payload matches Err(fault) ==> (claims matches Err(error) && says(
            error,
            fault.code,
            fault.retryable,
            fault.message@,
        )),
{
    if payload is Err {
        let error = claims->Err_0;
        assert(error@ == payload->Err_0@);
        assert(error@.message == error.message@);
    }
}

/// A login reply of another form is refused; one of the right form is as good as its
/// tokens.
pub proof fn law_login_replies(
    parsed: Option<TokenResponse>,
    id_claims: Option<JwtClaims>,
    access_claims: Option<JwtClaims>,
    result: Result<NewOAuthTokens, OAuthFlowError>,
    tokens: Result<NewOAuthTokens, OAuthFlowError>,
)
    requires
        call_ensures(parse_new_oauth_tokens, (parsed, id_claims, access_claims), result),
        parsed is Some ==> call_ensures(
            TokenResponse::into_tokens,
            (parsed->0, id_claims, access_claims),
            tokens,
        ),
    ensures
        parsed is None ==> (result matches Err(error) && says(
            error,
            OAuthErrorCode::OAuthProtocol,
            false,
            "The OAuth token response is invalid"@,
        )),
        parsed is Some ==> (result is Ok <==> tokens is Ok),
        parsed is Some && result is Ok ==> {
            &&& result->Ok_0.access_token@ == parsed->0.access_token@
            &&& result->Ok_0.refresh_token@ == parsed->0.refresh_token@
            &&& result->Ok_0.id_token@ == parsed->0.id_token@
            &&& result->Ok_0.account_id@ == tokens->Ok_0.account_id@
            &&& result->Ok_0.expires_at == tokens->Ok_0.expires_at
        },
{
}

/// Why the tokens of a login are refused: one is oversized, the identity token has no
/// payload or no claims, or it names no account.
pub proof fn law_refused_logins(
    response: TokenResponse,
    id_claims: Option<JwtClaims>,
    access_claims: Option<JwtClaims>,
    result: Result<NewOAuthTokens, OAuthFlowError>,
    account: Seq<char>,
)
    requires
        call_ensures(TokenResponse::into_tokens, (response, id_claims, access_claims), result),
    ensures
        ({
            let oversized = encode_utf8(response.id_token@).len() > 262_144 || encode_utf8(
                response.access_token@,
            ).len() > 262_144 || encode_utf8(response.refresh_token@).len() > 262_144;
            let readable = payload_of(response.id_token@) is Ok && id_claims is Some;
            &&& oversized ==> (result matches Err(error) && says(
                error,
                OAuthErrorCode::OAuthProtocol,
                false,
                "The OAuth token response contains an oversized token"@,
            ))
            &&& !oversized && !readable ==> result is Err
            &&& !oversized && readable && names_account(id_claims->0, account) ==> result is Ok
            &&& !oversized && readable && (forall|named: Seq<char>|
                !#[trigger] names_account(id_claims->0, named)) ==> (result matches Err(error)
                && says(
                error,
                OAuthErrorCode::OAuthProtocol,
                false,
                "The OAuth token is missing an account identifier"@,
            ))
        }),
{
    if result is Err {
        assert(result->Err_0@.message == result->Err_0.message@);
    }
    if id_claims is Some && id_claims->0.usable_account() is Some {
        assert(names_account(id_claims->0, id_claims->0.usable_account()->0));
    }
}

/// A refresh that names its account is taken, unless the access token names another
/// one; a refresh that does not, or whose two tokens differ, is refused in these words.
pub proof fn law_refreshes_that_name_their_account(
    response: RefreshResponse,
    id_claims: Option<JwtClaims>,
    access_claims: Option<JwtClaims>,
    result: Result<RefreshUpdate, OAuthFlowError>,
    account: Seq<char>,
    other: Seq<char>,
)
    requires
        call_ensures(RefreshResponse::into_update, (response, id_claims, access_claims), result),
        usable(response.access_token) && usable(response.refresh_token) && usable(
            response.id_token,
        ),
        response.id_token is Some,
        payload_of(response.id_token->0@) is Ok,
        id_claims is Some,
    ensures
        ({
            let readable = response.access_token is Some && payload_of(
                response.access_token->0@,
            ) is Ok && access_claims is Some;
            &&& names_account(id_claims->0, account) && !readable ==> result is Ok
            &&& names_account(id_claims->0, account) && readable && names_account(
                access_claims->0,
                account,
            ) ==> result is Ok
            &&& names_account(id_claims->0, account) && readable && (forall|named: Seq<char>|
                !#[trigger] names_account(access_claims->0, named)) ==> result is Ok
            &&& names_account(id_claims->0, account) && readable && names_account(
                access_claims->0,
                other,
            ) && other != account ==> (result matches Err(error) && says(
                error,
                OAuthErrorCode::OAuthProtocol,
                false,
                "The OAuth refresh response contains conflicting accounts"@,
            ))
            &&& (forall|named: Seq<char>| !#[trigger] names_account(id_claims->0, named)) ==> (
            result matches Err(error) && says(
                error,
                OAuthErrorCode::OAuthProtocol,
                false,
                "The OAuth refresh token is missing an account identifier"@,
            ))
        }),
{
    if result is Err {
        assert(result->Err_0@.message == result->Err_0.message@);
    }
    if id_claims->0.usable_account() is Some {
        assert(names_account(id_claims->0, id_claims->0.usable_account()->0));
    }
    if access_claims is Some && access_claims->0.usable_account() is Some {
        assert(names_account(access_claims->0, access_claims->0.usable_account()->0));
    }
}

/// A refresh with a token that is blank is refused before one with a token that is
/// oversized, each in its own words.
pub proof fn law_refreshes_with_unusable_tokens(
    response: RefreshResponse,
    id_claims: Option<JwtClaims>,
    access_claims: Option<JwtClaims>,
    result: Result<RefreshUpdate, OAuthFlowError>,
)
    requires
        call_ensures(RefreshResponse::into_update, (response, id_claims, access_claims), result),
    ensures
        ({
            let blank = (response.id_token is Some && is_blank(response.id_token->0@)) || (
            response.access_token is Some && is_blank(response.access_token->0@)) || (
            response.refresh_token is Some && is_blank(response.refresh_token->0@));
            let oversized = (response.id_token is Some && encode_utf8(
                response.id_token->0@,
            ).len() > 262_144) || (response.access_token is Some && encode_utf8(
                response.access_token->0@,
            ).len() > 262_144) || (response.refresh_token is Some && encode_utf8(
                response.refresh_token->0@,
            ).len() > 262_144);
            &&& blank ==> (result matches Err(error) && says(
                error,
                OAuthErrorCode::OAuthProtocol,
                false,
                "The OAuth refresh response contains an empty token"@,
            ))
            &&& !blank && oversized ==> (result matches Err(error) && says(
                error,
                OAuthErrorCode::OAuthProtocol,
                false,
                "The OAuth refresh response contains an oversized token"@,
            ))
        }),
{
    if result is Err {
        assert(result->Err_0@.message == result->Err_0.message@);
    }
}

/// A request without a reply is told as a timeout, then as a TLS fault, then, behind a
/// proxy, as a fault of the proxy, and otherwise as a fault of the network; it is always
/// worth a retry.
pub proof fn law_requests_without_a_reply(
    failure: &RequestFailure,
    has_proxy: bool,
    kind: (OAuthErrorCode, &'static str),
    stage: &'static str,
    message: &'static str,
    error: OAuthFlowError,
)
    requires
        call_ensures(RequestFailure::classify_request_error, (failure, has_proxy), kind),
        call_ensures(RequestFailure::request_error, (failure, has_proxy, stage, message), error),
    ensures
        failure.timed_out ==> kind.0 is OAuthNetwork && kind.1@ == "timeout"@,
        !failure.timed_out && failure.tls_failed ==> kind.0 is TlsFailed && kind.1@ == "tls"@,
        !failure.timed_out && !failure.tls_failed && failure.connect_failed && has_proxy
            ==> kind.0 is ProxyConnectFailed && kind.1@ == "proxy_connect"@,
        !failure.timed_out && !failure.tls_failed && !(failure.connect_failed && has_proxy)
            ==> kind.0 is OAuthNetwork && kind.1@ == "unknown"@,
        says(error, kind.0, true, message@),
        error.stage@ == stage@,
        error.transport_kind matches Some(told) && told@ == kind.1@,
        error.upstream_status is None,
        error.response_kind is None,
        error.challenge_detected is None,
{
    assert(error@.message == error.message@);
    assert(error@.stage == error.stage@);
}

/// The form that asks for tokens gives back its five fields, each with its value.
pub proof fn law_form_of_a_token_request(
    client_id: &str,
    code: &str,
    redirect_uri: &str,
    verifier: &str,
    body: String,
)
    requires
        call_ensures(token_request_body, (client_id, code, redirect_uri, verifier), body),
    ensures
        ({
            let fields = form_fields(encode_utf8(body@));
            &&& fields.len() == 5
            &&& fields[0] == ("grant_type"@, "authorization_code"@)
            &&& fields[1] == ("code"@, code@)
            &&& fields[2] == ("redirect_uri"@, redirect_uri@)
            &&& fields[3] == ("client_id"@, client_id@)
            &&& fields[4] == ("code_verifier"@, verifier@)
        }),
{
}

/// A URL that the flow may talk to: of the web, and with a host.
pub open spec fn is_of_the_web(url: Seq<char>) -> bool {
    scheme_and_host_of(url) matches Some((scheme, host)) && host is Some && (scheme == "http"@
        || scheme == "https"@)
}

/// Only a URL of the web with a host is an endpoint, and a transport is made for no
/// other; it revokes at `/oauth/revoke` of the same place.
pub proof fn law_endpoints_are_of_the_web(
    url: &str,
    yes: bool,
    token_endpoint: String,
    client_id: String,
    has_proxy: bool,
    transport: Result<HttpOAuthTransport, OAuthFlowError>,
)
    requires
        call_ensures(url_is_endpoint, (url,), yes),
        token_endpoint@ == url@,
        token_endpoint@.len() <= 0x0fff_0000,
        call_ensures(HttpOAuthTransport::new, (token_endpoint, client_id, has_proxy), transport),
    ensures
        yes == is_of_the_web(url@),
        transport is Ok <==> is_of_the_web(url@),
        transport matches Ok(made) ==> {
            &&& made.token_endpoint@ == url@
            &&& Some(made.revoke_endpoint@) == url_at_path(url@, "/oauth/revoke"@)
            &&& made.client_id@ == client_id@
            &&& made.has_proxy == has_proxy
        },
        transport matches Err(error) ==> says(
            error,
            OAuthErrorCode::OAuthProtocol,
            false,
            "The OAuth token endpoint is invalid"@,
        ),
{
    if transport is Err {
        assert(transport->Err_0@.message == transport->Err_0.message@);
    }
}

/// A transport shows a developer its endpoints and its client.
pub proof fn law_what_an_oauth_transport_shows(transport: &HttpOAuthTransport, text: String)
    requires
        call_ensures(HttpOAuthTransport::debug_text, (transport,), text),
    ensures
        text@ == "HttpOAuthTransport { token_endpoint: "@ + quoted_text(transport.token_endpoint@)
            + ", revoke_endpoint: "@ + quoted_text(transport.revoke_endpoint@) + ", client_id: "@
            + quoted_text(transport.client_id@) + ", .. }"@,
{
}

/// A fault of the client at start is told with its stage and is otherwise unchanged.
pub proof fn law_client_faults_have_a_stage(
    fault: ClientFault,
    error: OAuthFlowError,
    staged: OAuthFlowError,
)
    requires
        call_ensures(ClientFault::error, (fault,), error),
        call_ensures(ClientFault::staged_error, (fault,), staged),
    ensures
        fault is InvalidRoute ==> says(
            error,
            OAuthErrorCode::OAuthNetwork,
            false,
            "The Codex network route is invalid"@,
        ),
        fault is NotCreated ==> says(
            error,
            OAuthErrorCode::OAuthNetwork,
            true,
            "The OAuth network client could not be created"@,
        ),
        says(staged, error.code, error.retryable, error.message@),
        staged.stage@ == "proxy_config"@,
        error.stage@ == "token_exchange"@,
        speaks_of_no_reply(staged),
{
    assert(error@.message == error.message@);
    assert(staged@.message == staged.message@);
    assert(staged@.stage == staged.stage@);
}

/// The state of a login is what was drawn for it, in the URL alphabet; it can be read
/// back.
pub proof fn law_state_holds_what_was_drawn(random: &[u8], state: String)
    requires
        call_ensures(state_from_random, (random,), state),
    ensures
        state@ == base64url_of(random@),
        base64url_decoded(state@) == Some(random@),
{
}

/// The URL that a login opens is `/oauth/authorize` of the issuer, with these ten
/// fields; it is made for an issuer of the web alone.
pub proof fn law_the_login_url(
    issuer: &str,
    client_id: &str,
    redirect_uri: &str,
    challenge: &str,
    state: &str,
    url: Result<String, OAuthFlowError>,
    fields: Seq<(Seq<char>, Seq<char>)>,
)
    requires
        issuer@.len() <= 0x0fff_0000,
        call_ensures(
            build_authorization_url,
            (issuer, client_id, redirect_uri, challenge, state),
            url,
        ),
        fields.len() == 10,
        fields[0] == ("response_type"@, "code"@),
        fields[1] == ("client_id"@, client_id@),
        fields[2] == ("redirect_uri"@, redirect_uri@),
        fields[3] == (
            "scope"@,
            "openid profile email offline_access api.connectors.read api.connectors.invoke"@,
        ),
        fields[4] == ("code_challenge"@, challenge@),
        fields[5] == ("code_challenge_method"@, "S256"@),
        fields[6] == ("id_token_add_organizations"@, "true"@),
        fields[7] == ("codex_cli_simplified_flow"@, "true"@),
        fields[8] == ("state"@, state@),
        fields[9] == ("originator"@, "codex_cli_rs"@),
    ensures
        url is Ok <==> is_of_the_web(issuer@),
        url matches Ok(target) ==> Some(target@) == url_at_path_with_query(
            issuer@,
            "/oauth/authorize"@,
            fields,
        ),
        url matches Err(error) ==> says(
            error,
            OAuthErrorCode::OAuthProtocol,
            false,
            "The OAuth issuer is invalid"@,
        ),
{
    let wanted = crate::codex_auth::oauth::authorization_fields(
        client_id@,
        redirect_uri@,
        challenge@,
        state@,
    );
    assert(fields =~= wanted);
    if url is Err {
        assert(url->Err_0@.message == url->Err_0.message@);
    }
}

/// A reader starts with the head's status and kind, and with no body.
pub proof fn law_a_reader_starts_with_the_head(
    head: &ReplyHead,
    reader: ReplyReader,
    found: (&'static str, bool),
)
    requires
        call_ensures(ReplyReader::new, (head,), reader),
        call_ensures(ReplyHead::metadata, (head,), found),
    ensures
        reader.status == head.status,
        reader.declared_kind@ == found.0@,
        reader.challenge == found.1,
        reader.body@.len() == 0,
{
}

/// What is shown of a reply: its status and kind, whether it is a challenge, and how
/// long it is.
pub proof fn law_what_is_shown_of_a_reply(response: &ResponseData, text: String)
    requires
        call_ensures(ResponseData::debug_text, (response,), text),
    ensures
        text@ == "ResponseData { status: "@ + decimal(response.status as nat) + ", kind: "@
            + quoted_text(response.kind@) + ", challenge: "@ + (if response.challenge {
            "true"@
        } else {
            "false"@
        }) + ", body_len: "@ + decimal(response.body@.len()) + " }"@,
{
}

/// A reply brings tokens if and only if it is no challenge, is a success with JSON, and
/// its tokens are good; the tokens are those of the reply. What is wrong with the tokens
/// is told with the reply's status.
pub proof fn law_a_reply_brings_its_tokens(
    response: &ResponseData,
    parsed: Option<TokenResponse>,
    id_claims: Option<JwtClaims>,
    access_claims: Option<JwtClaims>,
    result: Result<NewOAuthTokens, OAuthFlowError>,
    tokens: Result<NewOAuthTokens, OAuthFlowError>,
)
    requires
        call_ensures(
            ResponseData::exchange_code,
            (response, parsed, id_claims, access_claims),
            result,
        ),
        call_ensures(parse_new_oauth_tokens, (parsed, id_claims, access_claims), tokens),
    ensures
        ({
            let good = !response.challenge && response.kind@ == "json"@ && 200 <= response.status
                <= 299;
            &&& result is Ok <==> good && tokens is Ok
            &&& result is Ok ==> {
                &&& parsed is Some
                &&& result->Ok_0.access_token@ == parsed->0.access_token@
                &&& result->Ok_0.refresh_token@ == parsed->0.refresh_token@
                &&& result->Ok_0.id_token@ == parsed->0.id_token@
                &&& result->Ok_0.account_id@ == tokens->Ok_0.account_id@
                &&& result->Ok_0.expires_at == tokens->Ok_0.expires_at
            }
            &&& good && tokens is Err ==> (result matches Err(error) && says(
                error,
                tokens->Err_0.code,
                tokens->Err_0.retryable,
                tokens->Err_0.message@,
            ) && met_in_reply(error, "token_exchange"@, response.status, "json"@, false))
            &&& response.challenge ==> (result matches Err(error) && says(
                error,
                OAuthErrorCode::OAuthChallengeResponse,
                true,
                "The OAuth endpoint returned a challenge response"@,
            ) && met_in_reply(error, "token_exchange"@, response.status, response.kind@, true))
        }),
{
    lemma_kinds_differ();
    if result is Err {
        let error = result->Err_0;
        assert(error@.message == error.message@);
        assert(error@.stage == error.stage@);
    }
    if tokens is Err {
        assert(tokens->Err_0@.message == tokens->Err_0.message@);
    }
}

/// What a store that fails is told as.
pub proof fn law_words_of_store_failures(error: StorageError)
    ensures
        ({
            let told = storage_failure(error);
            &&& told.stage@ == "token_exchange"@
            &&& speaks_of_no_reply(told)
            &&& match error {
                StorageError::Busy => says(
                    told,
                    OAuthErrorCode::AuthBusy,
                    true,
                    "Another Codex auth operation is in progress"@,
                ),
                StorageError::AuthChanged => says(
                    told,
                    OAuthErrorCode::AuthChanged,
                    true,
                    "Codex authentication changed during the operation"@,
                ),
                StorageError::InvalidState(_) => says(
                    told,
                    OAuthErrorCode::AuthStateInvalid,
                    false,
                    "Codex authentication state is invalid"@,
                ),
                StorageError::NotAuthenticated => says(
                    told,
                    OAuthErrorCode::NotAuthenticated,
                    false,
                    "Codex is not signed in through CSSwitch"@,
                ),
                StorageError::UnsupportedPlatform => says(
                    told,
                    OAuthErrorCode::UnsupportedPlatform,
                    false,
                    "Codex authentication storage is unsupported on this platform"@,
                ),
                _ => says(
                    told,
                    OAuthErrorCode::Storage,
                    true,
                    "Codex credentials could not be stored safely"@,
                ),
            }
        }),
{
}

/// A token without a payload is malformed, or its payload is over 256 KiB; either is a
/// fault of the protocol.
pub proof fn law_words_of_malformed_tokens(jwt: &str, payload: Result<Vec<u8>, OAuthFlowError>)
    requires
        call_ensures(jwt_payload, (jwt,), payload),
    ensures
        payload matches Ok(bytes) ==> bytes@.len() <= 262_144,
        payload matches Err(error) ==> says(
            error,
            OAuthErrorCode::OAuthProtocol,
            false,
            "The OAuth token format is invalid"@,
        ) || says(
            error,
            OAuthErrorCode::OAuthProtocol,
            false,
            "The OAuth token payload is too large"@,
        ),
{
    if payload is Err {
        assert(payload->Err_0@.message == payload->Err_0.message@);
    }
}

/// What is told of a browser that did not open.
pub proof fn law_words_of_the_browser(
    browser: SystemBrowser,
    event: BrowserEvent,
    task: BrowserTask,
    error: OAuthFlowError,
)
    requires
        call_ensures(SystemBrowser::open_browser, (browser, event), task),
        task == BrowserTask::Fail(error) || task == BrowserTask::KillAndFail(error),
    ensures
        event is Unsupported ==> says(
            error,
            OAuthErrorCode::BrowserOpenFailed,
            false,
            "Codex browser login is supported only on macOS"@,
        ),
        event is SpawnFailed || event is WaitFailed || event is Exited ==> says(
            error,
            OAuthErrorCode::BrowserOpenFailed,
            true,
            "The system browser could not be opened"@,
        ),
        event is Running ==> says(
            error,
            OAuthErrorCode::BrowserOpenFailed,
            true,
            "The system browser did not return promptly"@,
        ),
        event is Cancelled ==> says(
            error,
            OAuthErrorCode::AuthCancelled,
            true,
            "Codex sign-in was cancelled"@,
        ),
        speaks_of_no_reply(error),
{
    assert(error@.message == error.message@);
}

/// What is told of an exchange, a refresh and a revocation that got no reply.
pub proof fn law_words_of_lost_requests(
    transport: &HttpOAuthTransport,
    failure: RequestFailure,
    id_claims: Option<JwtClaims>,
    access_claims: Option<JwtClaims>,
    exchanged: Result<NewOAuthTokens, OAuthFlowError>,
    refreshed: Result<RefreshUpdate, OAuthFlowError>,
    revoked: Result<(), OAuthFlowError>,
    kind: (OAuthErrorCode, &'static str),
)
    requires
        call_ensures(
            HttpOAuthTransport::exchange_code,
            (transport, Err(failure), id_claims, access_claims),
            exchanged,
        ),
        call_ensures(
            HttpOAuthTransport::refresh,
            (transport, Err(failure), id_claims, access_claims),
            refreshed,
        ),
        call_ensures(HttpOAuthTransport::revoke, (transport, Err(failure)), revoked),
        call_ensures(
            RequestFailure::classify_request_error,
            (&failure, transport.has_proxy),
            kind,
        ),
    ensures
        exchanged matches Err(error) && says(
            error,
            kind.0,
            true,
            "The OAuth token exchange could not connect"@,
        ) && error.stage@ == "token_exchange"@,
        refreshed matches Err(error) && says(
            error,
            kind.0,
            true,
            "The OAuth refresh request could not connect"@,
        ) && error.stage@ == "refresh"@,
        revoked matches Err(error) && says(
            error,
            kind.0,
            true,
            "The OAuth revoke request could not connect"@,
        ) && error.stage@ == "revoke"@,
{
    assert(exchanged->Err_0@.message == exchanged->Err_0.message@);
    assert(refreshed->Err_0@.message == refreshed->Err_0.message@);
    assert(revoked->Err_0@.message == revoked->Err_0.message@);
    assert(exchanged->Err_0@.stage == exchanged->Err_0.stage@);
    assert(refreshed->Err_0@.stage == refreshed->Err_0.stage@);
    assert(revoked->Err_0@.stage == revoked->Err_0.stage@);
}

/// What is told of an exchange whose reply is over a mebibyte or cannot be read.
pub proof fn law_words_of_lost_replies(
    transport: &HttpOAuthTransport,
    head: ReplyHead,
    body: ReplyBody<TokenResponse>,
    id_claims: Option<JwtClaims>,
    access_claims: Option<JwtClaims>,
    result: Result<NewOAuthTokens, OAuthFlowError>,
)
    requires
        body is Unread ==> announces_too_much(head),
        200 <= head.status <= 299,
        call_ensures(
            HttpOAuthTransport::exchange_code,
            (transport, Ok((head, body)), id_claims, access_claims),
            result,
        ),
    ensures
        announces_too_much(head) || (body matches ReplyBody::Read { length, value } && length
            > 1_048_576) ==> (result matches Err(error) && says(
            error,
            OAuthErrorCode::OAuthProtocol,
            false,
            "The OAuth token response is too large"@,
        )),
        !announces_too_much(head) && body is Failed ==> (result matches Err(error) && says(
            error,
            OAuthErrorCode::OAuthNetwork,
            true,
            "The OAuth token response could not be read"@,
        )),
{
    if result is Err {
        assert(result->Err_0@.message == result->Err_0.message@);
    }
}

/// What is told where nothing random could be drawn.
pub proof fn law_words_of_missing_randomness(
    codes: Result<PkceCodes, OAuthFlowError>,
    state: Result<String, OAuthFlowError>,
)
    requires
        call_ensures(generate_pkce, (), codes),
        call_ensures(generate_state, (), state),
    ensures
        codes matches Err(error) ==> says(
            error,
            OAuthErrorCode::Storage,
            false,
            "Secure random generation failed"@,
        ),
        state matches Err(error) ==> says(
            error,
            OAuthErrorCode::Storage,
            false,
            "Secure random generation failed"@,
        ),
{
    if codes is Err {
        assert(codes->Err_0@.message == codes->Err_0.message@);
    }
    if state is Err {
        assert(state->Err_0@.message == state->Err_0.message@);
    }
}

/// What is told of a request of the browser flow that got no reply; a reply is handed on.
pub proof fn law_words_of_lost_sends(
    event: SendEvent,
    has_proxy: bool,
    stage: &'static str,
    result: Result<ReplyHead, OAuthFlowError>,
)
    requires
        call_ensures(send_request, (event, has_proxy, stage), result),
    ensures
        event matches SendEvent::Replied(head) ==> result == Ok::<ReplyHead, OAuthFlowError>(head),
        event is TimedOut ==> (result matches Err(error) && says(
            error,
            OAuthErrorCode::OAuthNetwork,
            true,
            "The OAuth request timed out"@,
        ) && error.stage@ == stage@),
        event is Failed ==> (result matches Err(error) && error.retryable && error.message@
            == "The OAuth request could not connect"@ && error.stage@ == stage@),
        event is Cancelled ==> (result matches Err(error) && error.code is AuthCancelled
            && error.stage@ == stage@),
{
    if result is Err {
        assert(result->Err_0@.message == result->Err_0.message@);
        assert(result->Err_0@.stage == result->Err_0.stage@);
    }
}

} // verus!
