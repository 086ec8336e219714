//! What holds of every request to the callback page, and of every reply to a sign-in.

use vstd::prelude::*;

use crate::codex_auth::callback::{
    callback_outcome, cancelled_error, field_value, fields_outcome, hosts_in, is_local_target,
    is_own_host, lemma_field_at, lemma_no_field, name_digest, names_differ, parse_callback,
    parse_callback_head, path_and_query, read_fields, request_target, write_callback,
    write_callback_response, CallbackAction, HeadEvent, HeadReader,
};
use crate::codex_auth::login_async::{
    send_request, token_endpoint, validate_headless_callback_port, without_trailing,
    AsyncLoginOptions, CancelDisposition, ControlState, LoginControl, ReadEvent, ReadProgress,
    ReplyReader, ResponseData, SendEvent,
};
use crate::codex_auth::oauth::{
    ends_with, FlowError, OAuthErrorCode, OAuthFlowError, ReplyHead, RequestFailure,
};
use crate::codex_auth::storage::{
    AuthStatus, AuthStatusReason, RefreshSnapshot, RefreshUpdate, RevokeToken, StorageError,
};
use crate::codex_auth::{
    production_status, refresh_production_for_generation, run_production_login,
    run_production_logout, run_production_logout_local, state_root_from_home, LogoutEvent,
    LogoutTask, ProductionLogin, RefreshEvent, RefreshTask,
};
use crate::codex_auth::oauth::HttpOAuthTransport;
use crate::text::{contains, decimal, found_at, lowered, split_by, split_once, trimmed, words_of};
use crate::text_laws::law_split_once;
use crate::web::{form_fields, pair_views};
use vstd::utf8::*;

verus! {

/// An error of the protocol, which trying again does not mend.
pub open spec fn is_protocol_error(error: OAuthFlowError, message: Seq<char>) -> bool {
    &&& error.code == OAuthErrorCode::OAuthProtocol
    &&& !error.retryable
    &&& error.message@ == message
    &&& error.upstream_status is None
    &&& error.response_kind is None
    &&& error.challenge_detected is None
    &&& error.transport_kind is None
}

/// A field of this name and value is there, and no other of the name.
pub open spec fn has_field(
    fields: Seq<(Seq<char>, Seq<char>)>,
    name: Seq<char>,
    value: Seq<char>,
    i: int,
) -> bool {
    &&& 0 <= i < fields.len()
    &&& fields[i] == (name, value)
    &&& forall|k: int| 0 <= k < fields.len() && k != i ==> (#[trigger] fields[k]).0 != name
}

pub open spec fn lacks_field(fields: Seq<(Seq<char>, Seq<char>)>, name: Seq<char>) -> bool {
    forall|k: int| 0 <= k < fields.len() ==> (#[trigger] fields[k]).0 != name
}

/// A callback with the state of this login brings its code, unless it tells of an error; one
/// with another state, or without a code, is refused.
pub proof fn law_fields_of_a_callback(
    fields: Vec<(String, String)>,
    expected_state: &str,
    result: Result<CallbackAction, OAuthFlowError>,
    state: Seq<char>,
    s: int,
    code: Seq<char>,
    c: int,
    error: Seq<char>,
    e: int,
)
    requires
        call_ensures(read_fields, (fields, expected_state), result),
        names_differ(pair_views(fields@)),
    ensures
        ({
            let all = pair_views(fields@);
            &&& lacks_field(all, "state"@) ==> result is Err && is_protocol_error(
                result->Err_0,
                "The OAuth callback state is invalid"@,
            )
            &&& has_field(all, "state"@, state, s) && state != expected_state@ ==> result is Err
                && is_protocol_error(result->Err_0, "The OAuth callback state is invalid"@)
            &&& has_field(all, "state"@, expected_state@, s) && has_field(all, "error"@, error, e)
                && error.len() > 0 ==> result is Ok && result->Ok_0 is Denied
            &&& has_field(all, "state"@, expected_state@, s) && lacks_field(all, "error"@)
                && has_field(all, "code"@, code, c) && code.len() > 0 ==> result is Ok
                && result->Ok_0 is Code && result->Ok_0->Code_0@ == code
            &&& has_field(all, "state"@, expected_state@, s) && lacks_field(all, "error"@) && (
            lacks_field(all, "code"@) || (has_field(all, "code"@, code, c) && code.len() == 0))
                ==> result is Err && is_protocol_error(
                result->Err_0,
                "The OAuth callback code is missing"@,
            )
        }),
{
    let all = pair_views(fields@);
    if lacks_field(all, "state"@) {
        lemma_no_field(all, "state"@);
    }
    if has_field(all, "state"@, state, s) {
        lemma_field_at(all, s);
    }
    if has_field(all, "state"@, expected_state@, s) {
        lemma_field_at(all, s);
    }
    if lacks_field(all, "error"@) {
        lemma_no_field(all, "error"@);
    }
    if has_field(all, "error"@, error, e) {
        lemma_field_at(all, e);
    }
    if lacks_field(all, "code"@) {
        lemma_no_field(all, "code"@);
    }
    if has_field(all, "code"@, code, c) {
        lemma_field_at(all, c);
    }
}

/// Two fields of one name are refused, whatever they say.
pub proof fn law_repeated_fields(
    fields: Vec<(String, String)>,
    expected_state: &str,
    result: Result<CallbackAction, OAuthFlowError>,
    i: int,
    j: int,
)
    requires
        call_ensures(read_fields, (fields, expected_state), result),
        0 <= i < j < fields@.len(),
        fields@[i].0@ == fields@[j].0@,
    ensures
        result is Err && is_protocol_error(
            result->Err_0,
            "The OAuth callback contains duplicate fields"@,
        ),
{
    let all = pair_views(fields@);
    assert(all[i].0 == fields@[i].0@ && all[j].0 == fields@[j].0@);
    crate::codex_auth::callback::law_repeated_names_are_refused(all, i, j, expected_state@);
}

/// The parts of the head of a callback that counts: a request line of three words, the
/// method, the target and the version, and one host, which is this machine at this port.
pub open spec fn is_callback_head(head: Seq<u8>, port: u16, target: Seq<char>) -> bool {
    let lines = split_by(decode_utf8(head), "\r\n"@);
    let words = words_of(lines[0]);
    &&& valid_utf8(head)
    &&& words.len() == 3
    &&& words[0] == "GET"@
    &&& words[1] == target
    &&& found_at(words[2], "HTTP/1."@, 0)
    &&& forall|k: int|
        1 <= k < lines.len() ==> (#[trigger] lines[k]).len() == 0 || split_once(lines[k], ':')
            is Some
    &&& hosts_in(lines.skip(1)).len() == 1
    &&& ({
        let host = hosts_in(lines.skip(1))[0];
        host == "localhost:"@ + decimal(port as nat) || host == "127.0.0.1:"@ + decimal(port as nat)
    })
}

proof fn lemma_callback_head(
    head: Seq<u8>,
    port: u16,
    state: Seq<char>,
    invalid: Seq<char>,
    path: Seq<char>,
    query: Seq<char>,
)
    requires
        !path.contains('?'),
        is_callback_head(head, port, path.push('?') + query),
        found_at(path.push('?') + query, "/"@, 0),
        !found_at(path.push('?') + query, "//"@, 0),
        !contains(path.push('?') + query, "#"@),
    ensures
        path != "/auth/callback"@ ==> callback_outcome(head, port, state, invalid) == Ok::<
            crate::codex_auth::callback::Callback,
            FlowError,
        >(crate::codex_auth::callback::Callback::Ignore(404)),
        path == "/auth/callback"@ ==> callback_outcome(head, port, state, invalid)
            == fields_outcome(form_fields(encode_utf8(query)), state),
{
    let lines = split_by(decode_utf8(head), "\r\n"@);
    law_split_once(path, '?', query);
    let rest = lines.skip(1);
    assert forall|k: int| 0 <= k < rest.len() implies #[trigger] rest[k].len() == 0 || split_once(
        rest[k],
        ':',
    ) is Some by {
        assert(rest[k] == lines[k + 1]);
    }
}

/// A request for the callback page of this machine is read by its fields; one for another
/// page is not found. Both kinds of login read it so.
pub proof fn law_callbacks_are_read(
    head: &[u8],
    port: u16,
    expected_state: &str,
    path: Seq<char>,
    query: Seq<char>,
    fields: Vec<(String, String)>,
    blocking: Result<CallbackAction, OAuthFlowError>,
    cancellable: Result<CallbackAction, OAuthFlowError>,
    of_fields: Result<CallbackAction, OAuthFlowError>,
)
    requires
        call_ensures(parse_callback, (head, port, expected_state), blocking),
        call_ensures(parse_callback_head, (head, port, expected_state), cancellable),
        pair_views(fields@) == form_fields(encode_utf8(query)),
        call_ensures(read_fields, (fields, expected_state), of_fields),
        !path.contains('?'),
        is_callback_head(head@, port, path.push('?') + query),
        found_at(path.push('?') + query, "/"@, 0),
        !found_at(path.push('?') + query, "//"@, 0),
        !contains(path.push('?') + query, "#"@),
    ensures
        path != "/auth/callback"@ ==> blocking is Ok && blocking->Ok_0@
            == crate::codex_auth::callback::Callback::Ignore(404) && cancellable is Ok
            && cancellable->Ok_0@ == crate::codex_auth::callback::Callback::Ignore(404),
        path == "/auth/callback"@ ==> {
            &&& of_fields matches Ok(action) ==> blocking is Ok && blocking->Ok_0@ == action@
                && cancellable is Ok && cancellable->Ok_0@ == action@
            &&& of_fields matches Err(error) ==> blocking is Err && blocking->Err_0@ == error@
                && cancellable is Err && cancellable->Err_0@ == error@
        },
{
    lemma_callback_head(
        head@,
        port,
        expected_state@,
        "The OAuth callback request is invalid"@,
        path,
        query,
    );
    lemma_callback_head(
        head@,
        port,
        expected_state@,
        "The OAuth callback is invalid"@,
        path,
        query,
    );
}

/// A request that is no `GET` of the first major version, has a header line without a colon
/// or more than one host is invalid; one that is taken names this machine and a local path.
pub proof fn law_callbacks_are_refused(
    head: &[u8],
    port: u16,
    expected_state: &str,
    blocking: Result<CallbackAction, OAuthFlowError>,
    cancellable: Result<CallbackAction, OAuthFlowError>,
    k: int,
)
    requires
        call_ensures(parse_callback, (head, port, expected_state), blocking),
        call_ensures(parse_callback_head, (head, port, expected_state), cancellable),
    ensures
        ({
            let lines = split_by(decode_utf8(head@), "\r\n"@);
            let words = words_of(lines[0]);
            let hosts = hosts_in(lines.skip(1));
            let unreadable = !valid_utf8(head@) || words.len() != 3 || words[0] != "GET"@
                || !found_at(words[2], "HTTP/1."@, 0) || hosts.len() > 1 || (1 <= k < lines.len()
                && lines[k].len() > 0 && split_once(lines[k], ':') is None);
            unreadable ==> blocking is Err && is_protocol_error(
                blocking->Err_0,
                "The OAuth callback request is invalid"@,
            ) && cancellable is Err && is_protocol_error(
                cancellable->Err_0,
                "The OAuth callback is invalid"@,
            )
        }),
        (blocking is Ok <==> cancellable is Ok),
        blocking is Ok ==> ({
            let lines = split_by(decode_utf8(head@), "\r\n"@);
            let hosts = hosts_in(lines.skip(1));
            let target = words_of(lines[0])[1];
            &&& hosts.len() == 1
            &&& hosts[0] == "localhost:"@ + decimal(port as nat) || hosts[0] == "127.0.0.1:"@
                + decimal(port as nat)
            &&& found_at(target, "/"@, 0) && !found_at(target, "//"@, 0) && !contains(target, "#"@)
        }),
{
    let lines = split_by(decode_utf8(head@), "\r\n"@);
    let rest = lines.skip(1);
    if 1 <= k < lines.len() && lines[k].len() > 0 && split_once(lines[k], ':') is None {
        assert(rest[k - 1] == lines[k]);
    }
}

/// A request that can be read and names no host, or another one, is told that the host is
/// invalid; one that names this machine and a target that is no local path is told that
/// the URL is.
pub proof fn law_callbacks_from_elsewhere(
    head: &[u8],
    port: u16,
    expected_state: &str,
    blocking: Result<CallbackAction, OAuthFlowError>,
    cancellable: Result<CallbackAction, OAuthFlowError>,
)
    requires
        call_ensures(parse_callback, (head, port, expected_state), blocking),
        call_ensures(parse_callback_head, (head, port, expected_state), cancellable),
        valid_utf8(head@),
        ({
            let lines = split_by(decode_utf8(head@), "\r\n"@);
            let words = words_of(lines[0]);
            &&& words.len() == 3
            &&& words[0] == "GET"@
            &&& found_at(words[2], "HTTP/1."@, 0)
            &&& hosts_in(lines.skip(1)).len() <= 1
            &&& forall|k: int|
                1 <= k < lines.len() ==> (#[trigger] lines[k]).len() == 0 || split_once(
                    lines[k],
                    ':',
                ) is Some
        }),
    ensures
        ({
            let lines = split_by(decode_utf8(head@), "\r\n"@);
            let hosts = hosts_in(lines.skip(1));
            let target = words_of(lines[0])[1];
            let own = hosts.len() == 1 && (hosts[0] == "localhost:"@ + decimal(port as nat)
                || hosts[0] == "127.0.0.1:"@ + decimal(port as nat));
            let local = found_at(target, "/"@, 0) && !found_at(target, "//"@, 0) && !contains(
                target,
                "#"@,
            );
            &&& !own ==> blocking is Err && is_protocol_error(
                blocking->Err_0,
                "The OAuth callback host is invalid"@,
            ) && cancellable is Err && is_protocol_error(
                cancellable->Err_0,
                "The OAuth callback host is invalid"@,
            )
            &&& own && !local ==> blocking is Err && is_protocol_error(
                blocking->Err_0,
                "The OAuth callback URL is invalid"@,
            ) && cancellable is Err && is_protocol_error(
                cancellable->Err_0,
                "The OAuth callback URL is invalid"@,
            )
        }),
{
    let lines = split_by(decode_utf8(head@), "\r\n"@);
    let rest = lines.skip(1);
    assert forall|k: int| 0 <= k < rest.len() implies (#[trigger] rest[k]).len() == 0
        || split_once(rest[k], ':') is Some by {
        assert(rest[k] == lines[k + 1]);
    }
}

/// A line that names the host does so before its first colon, with space of no account and
/// in whatever case.
pub proof fn law_host_lines(
    lines: Seq<Seq<char>>,
    raw: Seq<char>,
    value: Seq<char>,
    other: Seq<char>,
)
    requires
        !raw.contains(':'),
    ensures
        hosts_in(Seq::<Seq<char>>::empty()).len() == 0,
        lowered(trimmed(raw)) == "host"@ ==> hosts_in(lines.push(raw.push(':') + value)) == hosts_in(
            lines,
        ).push(lowered(trimmed(value))),
        lowered(trimmed(raw)) != "host"@ ==> hosts_in(lines.push(raw.push(':') + value)) == hosts_in(
            lines,
        ),
        !other.contains(':') ==> hosts_in(lines.push(other)) == hosts_in(lines),
{
    law_split_once(raw, ':', value);
    let line = raw.push(':') + value;
    assert(lines.push(line).drop_last() =~= lines);
    assert(lines.push(other).drop_last() =~= lines);
    if !other.contains(':') {
        law_split_once(other, ':', value);
    }
}

/// The code is never shown.
pub proof fn law_codes_are_not_shown(code: String, status: u16, of_code: String, of_ignored: String, of_denied: String)
    requires
        call_ensures(CallbackAction::debug_text, (&CallbackAction::Code(code),), of_code),
        call_ensures(CallbackAction::debug_text, (&CallbackAction::Ignore(status),), of_ignored),
        call_ensures(CallbackAction::debug_text, (&CallbackAction::Denied,), of_denied),
    ensures
        of_code@ == "Code(<redacted>)"@,
        of_ignored@ == "Ignore("@ + decimal(status as nat) + ")"@,
        of_denied@ == "Denied"@,
{
}

/// A login that is cancelled says so, at the stage it had come to, and may be tried again.
pub proof fn law_cancelled_logins(stage: &'static str, error: OAuthFlowError)
    requires
        call_ensures(cancelled_error, (stage,), error),
    ensures
        error.code == OAuthErrorCode::AuthCancelled,
        error.retryable,
        error.message@ == "Codex sign-in was cancelled"@,
        error.stage@ == stage@,
        error.upstream_status is None && error.response_kind is None && error.transport_kind is None,
{
}

/// The head of a callback is read piece by piece, up to sixty-four kibibytes; each way in
/// which a blocking login gives up on it has its words.
pub proof fn law_callback_heads_of_blocking_logins(
    reader: &mut HeadReader,
    event: HeadEvent,
    fresh: HeadReader,
    result: Result<(), OAuthFlowError>,
)
    requires
        call_ensures(HeadReader::new, (), fresh),
        call_ensures(HeadReader::read_http_head, (reader, event), result),
    ensures
        fresh.head@.len() == 0,
        event is Expired ==> result is Err && is_protocol_error(
            result->Err_0,
            "The OAuth callback request timed out"@,
        ),
        event is Unconfigurable ==> result is Err && is_protocol_error(
            result->Err_0,
            "The OAuth callback timeout could not be configured"@,
        ),
        event is Failed || event is TimedOut || event is Cancelled ==> result is Err
            && is_protocol_error(result->Err_0, "The OAuth callback request could not be read"@),
        event matches HeadEvent::Read(more) ==> {
            &&& more@.len() == 0 ==> result is Err && is_protocol_error(
                result->Err_0,
                "The OAuth callback request ended early"@,
            )
            &&& more@.len() > 0 && old(reader).head@.len() + more@.len() > 65_536 ==> result is Err
                && is_protocol_error(result->Err_0, "The OAuth callback request is too large"@)
            &&& more@.len() > 0 && old(reader).head@.len() + more@.len() <= 65_536 ==> result is Ok
                && final(reader).head@ == old(reader).head@ + more@
        },
{
}

/// The same for a login that can be cancelled.
pub proof fn law_callback_heads_of_cancellable_logins(
    reader: &mut HeadReader,
    event: HeadEvent,
    result: Result<(), OAuthFlowError>,
)
    requires
        call_ensures(HeadReader::read_callback_chunk, (reader, event), result),
    ensures
        event is Cancelled ==> result is Err && result->Err_0.code == OAuthErrorCode::AuthCancelled
            && result->Err_0.stage@ == "callback_wait"@,
        event is Expired ==> result is Err && is_protocol_error(
            result->Err_0,
            "The OAuth callback timed out"@,
        ) && result->Err_0.stage@ == "callback_wait"@,
        event is TimedOut ==> result is Err && is_protocol_error(
            result->Err_0,
            "The OAuth callback timed out"@,
        ),
        event is Unconfigurable || event is Failed ==> result is Err && is_protocol_error(
            result->Err_0,
            "The OAuth callback could not be read"@,
        ),
        event matches HeadEvent::Read(more) ==> {
            &&& more@.len() == 0 || old(reader).head@.len() + more@.len() > 65_536 ==> result is Err
                && is_protocol_error(result->Err_0, "The OAuth callback is invalid"@)
                && result->Err_0.stage@ == "callback_wait"@
            &&& more@.len() > 0 && old(reader).head@.len() + more@.len() <= 65_536 ==> result is Ok
                && final(reader).head@ == old(reader).head@ + more@
        },
{
}

/// A page shows its message, with the length of the page and the reason of its status.
pub proof fn law_pages(status: u16, message: &str, blocking: String, cancellable: String)
    requires
        call_ensures(write_callback_response, (status, message), blocking),
        call_ensures(write_callback, (status, message), cancellable),
    ensures
        ({
            let reason = if status == 200 {
                "OK"@
            } else if status == 404 {
                "Not Found"@
            } else if status == 500 {
                "Internal Server Error"@
            } else {
                "Bad Request"@
            };
            let head = "HTTP/1.1 "@ + decimal(status as nat) + " "@ + reason
                + "\r\ncontent-type: text/html; charset=utf-8\r\ncontent-length: "@;
            let tail = "\r\nconnection: close\r\ncache-control: no-store\r\n\r\n"@;
            let first =
                "<!doctype html><meta charset=\"utf-8\"><title>CSSwitch Codex sign-in</title><p>"@
                + message@ + "</p>"@;
            let second = "<html><body>"@ + message@ + "</body></html>"@;
            &&& blocking@ == head + decimal(encode_utf8(first).len()) + tail + first
            &&& cancellable@ == head + decimal(encode_utf8(second).len()) + tail + second
        }),
{
}

// ---------------------------------------------------------------------------
// Cancelling
// ---------------------------------------------------------------------------

/// A running login is cancelled when asked, one that stores its credentials is not, and
/// one that is over stays as it is; each is told.
pub proof fn law_cancelling(
    control: &mut LoginControl,
    disposition: CancelDisposition,
    name: &'static str,
)
    requires
        call_ensures(LoginControl::cancel, (control,), disposition),
        call_ensures(CancelDisposition::as_str, (disposition,), name),
    ensures
        old(control).state == ControlState::Running || old(control).state == ControlState::Cancelled
            ==> disposition == CancelDisposition::Accepted && final(control).state
            == ControlState::Cancelled,
        old(control).state == ControlState::Committing ==> disposition
            == CancelDisposition::CommitInProgress && final(control).state
            == ControlState::Committing,
        old(control).state == ControlState::Finished ==> disposition
            == CancelDisposition::AlreadyTerminal && final(control).state == ControlState::Finished,
        disposition == CancelDisposition::Accepted ==> name@ == "accepted"@,
        disposition == CancelDisposition::CommitInProgress ==> name@ == "commit_in_progress"@,
        disposition == CancelDisposition::AlreadyTerminal ==> name@ == "already_terminal"@,
{
}

/// Credentials are stored only by a login that still runs.
pub proof fn law_committing(
    control: &mut LoginControl,
    finished: &mut LoginControl,
    watched: &LoginControl,
    fresh: LoginControl,
    result: Result<(), OAuthFlowError>,
    cancelled: bool,
)
    requires
        call_ensures(LoginControl::begin_commit, (control,), result),
        call_ensures(LoginControl::finish, (finished,), ()),
        call_ensures(LoginControl::is_cancelled, (watched,), cancelled),
        call_ensures(LoginControl::default, (), fresh),
    ensures
        fresh.state == ControlState::Running,
        result is Ok <==> old(control).state == ControlState::Running,
        result is Ok ==> final(control).state == ControlState::Committing,
        result is Err ==> final(control).state == old(control).state && result->Err_0.code
            == OAuthErrorCode::AuthCancelled && result->Err_0.stage@ == "cancelled"@,
        final(finished).state == ControlState::Finished,
        cancelled <==> watched.state == ControlState::Cancelled,
{
}

/// A headless login waits at one of two ports.
pub proof fn law_headless_ports(
    port: u16,
    result: Result<(), OAuthFlowError>,
    options: Result<AsyncLoginOptions, OAuthFlowError>,
    production: AsyncLoginOptions,
)
    requires
        call_ensures(validate_headless_callback_port, (port,), result),
        call_ensures(AsyncLoginOptions::headless, (port,), options),
        call_ensures(AsyncLoginOptions::production, (), production),
    ensures
        result is Ok <==> port == 1455 || port == 1457,
        options is Ok <==> port == 1455 || port == 1457,
        result matches Err(error) ==> is_protocol_error(
            error,
            "The headless callback port must be 1455 or 1457"@,
        ) && error.stage@ == "callback_bind"@,
        options matches Err(error) ==> is_protocol_error(
            error,
            "The headless callback port must be 1455 or 1457"@,
        ) && error.stage@ == "callback_bind"@,
        options matches Ok(options) ==> options.issuer@ == "https://auth.openai.com"@
            && options.client_id@ == "app_EMoamEEZ73f0CkXaXp7hrann"@ && options.callback_ports@
            == seq![port] && options.browser_timeout.millis == 300_000,
        production.issuer@ == "https://auth.openai.com"@,
        production.client_id@ == "app_EMoamEEZ73f0CkXaXp7hrann"@,
        production.callback_ports@ == seq![1455u16, 1457u16],
        production.browser_timeout.millis == 300_000,
{
}

/// Codes are traded below the issuer, whether or not that ends with a slash.
pub proof fn law_token_endpoints(issuer: &str, slashed: &str, endpoint: String, same: String)
    requires
        call_ensures(token_endpoint, (issuer,), endpoint),
        call_ensures(token_endpoint, (slashed,), same),
        slashed@ == issuer@.push('/'),
    ensures
        same@ == endpoint@,
        issuer@.len() == 0 || issuer@.last() != '/' ==> endpoint@ == issuer@ + "/oauth/token"@,
{
    assert(slashed@.drop_last() =~= issuer@);
}

// ---------------------------------------------------------------------------
// Replies
// ---------------------------------------------------------------------------

/// A request that got a reply brings its head; one that was cancelled or timed out is told
/// so at its stage.
pub proof fn law_sent_requests(
    event: SendEvent,
    has_proxy: bool,
    stage: &'static str,
    result: Result<ReplyHead, OAuthFlowError>,
)
    requires
        call_ensures(send_request, (event, has_proxy, stage), result),
    ensures
        event matches SendEvent::Replied(head) ==> result == Ok::<ReplyHead, OAuthFlowError>(head),
        event is Cancelled ==> result is Err && result->Err_0.code == OAuthErrorCode::AuthCancelled
            && result->Err_0.stage@ == stage@,
        event is TimedOut ==> result is Err && result->Err_0.code == OAuthErrorCode::OAuthNetwork
            && result->Err_0.retryable && result->Err_0.message@ == "The OAuth request timed out"@
            && result->Err_0.stage@ == stage@ && (result->Err_0.transport_kind matches Some(kind)
            && kind@ == "timeout"@),
        event is Failed ==> result is Err && result->Err_0.stage@ == stage@,
{
}

/// A reply is read chunk by chunk, in order, up to a mebibyte.
pub proof fn law_replies_are_read(
    reader: ReplyReader,
    event: ReadEvent,
    stage: &'static str,
    result: Result<ReadProgress, OAuthFlowError>,
)
    requires
        reader.body@.len() <= 1_048_576,
        call_ensures(ReplyReader::read_response, (reader, event, stage), result),
    ensures
        event matches ReadEvent::Chunk(chunk) ==> {
            &&& reader.body@.len() + chunk@.len() <= 1_048_576 ==> (result matches Ok(
                ReadProgress::More(next),
            ) && next.body@ == reader.body@ + chunk@ && next.status == reader.status
                && next.declared_kind == reader.declared_kind && next.challenge == reader.challenge)
            &&& reader.body@.len() + chunk@.len() > 1_048_576 ==> result is Err
                && result->Err_0.code == OAuthErrorCode::OAuthProtocol && result->Err_0.message@
                == "The OAuth response is too large"@ && result->Err_0.upstream_status == Some(
                reader.status,
            )
        },
        event is End ==> (result matches Ok(ReadProgress::Done(response)) && response.body@
            == reader.body@ && response.status == reader.status && response.challenge
            == reader.challenge && response.kind@ == (if reader.body@.len() == 0 {
            "empty"@
        } else {
            reader.declared_kind@
        })),
        event is Cancelled ==> result is Err && result->Err_0.code == OAuthErrorCode::AuthCancelled,
        event is Expired || event is TimedOut ==> result is Err && result->Err_0.code
            == OAuthErrorCode::OAuthNetwork && result->Err_0.retryable && result->Err_0.message@
            == "The OAuth response timed out"@ && (result->Err_0.transport_kind matches Some(kind)
            && kind@ == "timeout"@),
        event is Failed ==> result is Err && result->Err_0.code == OAuthErrorCode::OAuthNetwork
            && result->Err_0.retryable && result->Err_0.message@
            == "The OAuth response could not be read"@ && result->Err_0.upstream_status == Some(
            reader.status,
        ) && (result->Err_0.transport_kind matches Some(kind) && kind@ == "http"@),
        result is Err ==> result->Err_0.stage@ == stage@,
{
}

/// A challenge is refused, whatever else the reply is; JSON with a status in the two
/// hundreds is a success, and nothing else is.
pub proof fn law_replies_are_judged(
    response: &ResponseData,
    stage: &'static str,
    challenged: Result<(), OAuthFlowError>,
    success: Result<(), OAuthFlowError>,
)
    requires
        call_ensures(ResponseData::reject_challenge, (response, stage), challenged),
        call_ensures(ResponseData::require_json_success, (response, stage), success),
    ensures
        challenged is Err <==> response.challenge,
        challenged matches Err(error) ==> error.code == OAuthErrorCode::OAuthChallengeResponse
            && error.retryable && error.stage@ == stage@ && error.upstream_status == Some(
            response.status,
        ) && error.challenge_detected == Some(true),
        success is Ok <==> response.kind@ == "json"@ && 200 <= response.status <= 299,
        success matches Err(error) ==> error.stage@ == stage@ && error.upstream_status == Some(
            response.status,
        ) && error.challenge_detected == Some(false) && {
            let foreign = response.kind@ == "html"@ || response.kind@ == "other"@ || response.kind@
                == "unknown"@;
            &&& foreign || 200 <= response.status <= 299 ==> error.code
                == OAuthErrorCode::OAuthUnexpectedContentType && error.retryable
            &&& !foreign && !(200 <= response.status <= 299) ==> error.code
                == OAuthErrorCode::OAuthProtocol && !error.retryable && error.message@
                == "The OAuth request was rejected"@
        },
{
    reveal_strlit("json");
    reveal_strlit("html");
    reveal_strlit("other");
    reveal_strlit("unknown");
    assert("json"@[0] == 'j' && "html"@[0] == 'h');
    assert("other"@.len() == 5 && "unknown"@.len() == 7 && "json"@.len() == 4);
}

// ---------------------------------------------------------------------------
// The account
// ---------------------------------------------------------------------------

/// The state is kept below the home directory, under a name of its own in a build for
/// acceptance tests.
pub proof fn law_state_roots(
    home: &[u8],
    root: Vec<u8>,
    acceptance: Vec<u8>,
    ready: &'static str,
    missing: &'static str,
)
    requires
        call_ensures(state_root_from_home, (home, false), root),
        call_ensures(state_root_from_home, (home, true), acceptance),
        call_ensures(AuthStatusReason::as_str, (AuthStatusReason::Ready,), ready),
        call_ensures(AuthStatusReason::as_str, (AuthStatusReason::StateMissing,), missing),
    ensures
        home@.len() > 0 && home@.last() != 47 ==> root@ == home@ + seq![47u8] + encode_utf8(
            ".csswitch"@,
        ) && acceptance@ == home@ + seq![47u8] + encode_utf8(".csswitch-acceptance"@),
        home@.len() == 0 || home@.last() == 47 ==> root@ == home@ + encode_utf8(".csswitch"@)
            && acceptance@ == home@ + encode_utf8(".csswitch-acceptance"@),
        ready@ == "ready"@ && missing@ == "state_missing"@,
{
    assert(home@ + Seq::<u8>::empty() =~= home@);
}

/// A status is reported as the store gives it, and its failures as failures of the store.
pub proof fn law_statuses_are_reported(
    status: AuthStatus,
    error: StorageError,
    told: Result<AuthStatus, OAuthFlowError>,
    failed: Result<AuthStatus, OAuthFlowError>,
    mapped: OAuthFlowError,
)
    requires
        call_ensures(production_status, (Ok::<AuthStatus, StorageError>(status),), told),
        call_ensures(production_status, (Err::<AuthStatus, StorageError>(error),), failed),
        mapped == crate::codex_auth::oauth::storage_failure(error),
    ensures
        told == Ok::<AuthStatus, OAuthFlowError>(status),
        failed is Err && failed->Err_0@ == mapped@,
{
}

/// A login starts with the transport that was given, at the pinned issuer.
pub proof fn law_production_logins(
    transport: HttpOAuthTransport,
    error: OAuthFlowError,
    started: Result<ProductionLogin, OAuthFlowError>,
    failed: Result<ProductionLogin, OAuthFlowError>,
)
    requires
        call_ensures(
            run_production_login,
            (Ok::<HttpOAuthTransport, OAuthFlowError>(transport),),
            started,
        ),
        call_ensures(
            run_production_login,
            (Err::<HttpOAuthTransport, OAuthFlowError>(error),),
            failed,
        ),
    ensures
        failed == Err::<ProductionLogin, OAuthFlowError>(error),
        started is Ok && started->Ok_0.transport == transport,
        started->Ok_0.run.issuer@ == "https://auth.openai.com"@,
        started->Ok_0.run.client_id@ == "app_EMoamEEZ73f0CkXaXp7hrann"@,
        started->Ok_0.run.ports@ == seq![1455u16, 1457u16],
        started->Ok_0.run.deadline.timeout.millis == 300_000,
{
}

/// A refresh locks the store, looks at what it holds, and sends the token it finds only
/// where that is of the expected generation; what comes back is stored.
pub proof fn law_refreshes(
    generation: u64,
    snapshot: RefreshSnapshot,
    update: RefreshUpdate,
    status: AuthStatus,
    of_transport: RefreshTask,
    of_lock: RefreshTask,
    of_snapshot: RefreshTask,
    of_update: RefreshTask,
    of_status: RefreshTask,
    of_commit: RefreshTask,
)
    requires
        call_ensures(
            refresh_production_for_generation,
            (generation, RefreshEvent::Transport(Ok::<(), OAuthFlowError>(()))),
            of_transport,
        ),
        call_ensures(
            refresh_production_for_generation,
            (generation, RefreshEvent::Locked(Ok::<(), StorageError>(()))),
            of_lock,
        ),
        call_ensures(
            refresh_production_for_generation,
            (generation, RefreshEvent::Snapshot(Ok::<RefreshSnapshot, StorageError>(snapshot))),
            of_snapshot,
        ),
        call_ensures(
            refresh_production_for_generation,
            (generation, RefreshEvent::Refreshed(Ok::<RefreshUpdate, OAuthFlowError>(update))),
            of_update,
        ),
        call_ensures(
            refresh_production_for_generation,
            (generation, RefreshEvent::Status(Ok::<AuthStatus, StorageError>(status))),
            of_status,
        ),
        call_ensures(
            refresh_production_for_generation,
            (generation, RefreshEvent::Committed(Ok::<AuthStatus, StorageError>(status))),
            of_commit,
        ),
    ensures
        of_transport is Lock,
        of_lock is TakeSnapshot,
        snapshot.auth_generation == generation ==> (of_snapshot matches RefreshTask::Refresh {
            refresh_token,
        } && refresh_token@ == snapshot.refresh_token@),
        snapshot.auth_generation != generation ==> of_snapshot is ReadStatus,
        of_update == RefreshTask::Commit(update),
        of_status == RefreshTask::Finish(Ok(status)),
        of_commit == RefreshTask::Finish(Ok(status)),
{
}

/// A refresh that fails ends with why, and nothing is stored.
pub proof fn law_failed_refreshes(
    generation: u64,
    error: OAuthFlowError,
    fault: StorageError,
    of_transport: RefreshTask,
    of_lock: RefreshTask,
    of_snapshot: RefreshTask,
    of_refresh: RefreshTask,
    of_commit: RefreshTask,
)
    requires
        call_ensures(
            refresh_production_for_generation,
            (generation, RefreshEvent::Transport(Err::<(), OAuthFlowError>(error))),
            of_transport,
        ),
        call_ensures(
            refresh_production_for_generation,
            (generation, RefreshEvent::Locked(Err::<(), StorageError>(fault))),
            of_lock,
        ),
        call_ensures(
            refresh_production_for_generation,
            (generation, RefreshEvent::Snapshot(Err::<RefreshSnapshot, StorageError>(fault))),
            of_snapshot,
        ),
        call_ensures(
            refresh_production_for_generation,
            (generation, RefreshEvent::Refreshed(Err::<RefreshUpdate, OAuthFlowError>(error))),
            of_refresh,
        ),
        call_ensures(
            refresh_production_for_generation,
            (generation, RefreshEvent::Committed(Err::<AuthStatus, StorageError>(fault))),
            of_commit,
        ),
    ensures
        of_transport matches RefreshTask::Finish(Err(told)) && told@ == error@,
        of_lock matches RefreshTask::Finish(Err(told)) && told@
            == crate::codex_auth::oauth::storage_failure(fault)@,
        of_snapshot matches RefreshTask::Finish(Err(told)) && told@
            == crate::codex_auth::oauth::storage_failure(fault)@,
        of_refresh matches RefreshTask::Finish(Err(told)) && told@ == error@,
        of_commit matches RefreshTask::Finish(Err(told)) && told@
            == crate::codex_auth::oauth::storage_failure(fault)@,
{
}

/// A logout revokes the token that it finds where it can, and removes the credentials in
/// any case.
pub proof fn law_logouts(
    can_revoke: bool,
    token: RevokeToken,
    found: Result<Option<RevokeToken>, StorageError>,
    revoked: Result<(), OAuthFlowError>,
    status: AuthStatus,
    fault: StorageError,
    of_lock: LogoutTask,
    of_no_lock: LogoutTask,
    of_token: LogoutTask,
    of_found: LogoutTask,
    of_revoked: LogoutTask,
    of_commit: LogoutTask,
    of_local: LogoutTask,
)
    requires
        call_ensures(
            run_production_logout,
            (can_revoke, LogoutEvent::Locked(Ok::<(), StorageError>(()))),
            of_lock,
        ),
        call_ensures(
            run_production_logout,
            (can_revoke, LogoutEvent::Locked(Err::<(), StorageError>(fault))),
            of_no_lock,
        ),
        call_ensures(
            run_production_logout,
            (can_revoke, LogoutEvent::Token(Ok::<Option<RevokeToken>, StorageError>(Some(token)))),
            of_token,
        ),
        call_ensures(run_production_logout, (can_revoke, LogoutEvent::Token(found)), of_found),
        call_ensures(run_production_logout, (can_revoke, LogoutEvent::Revoked(revoked)), of_revoked),
        call_ensures(
            run_production_logout,
            (can_revoke, LogoutEvent::Committed(Ok::<AuthStatus, StorageError>(status))),
            of_commit,
        ),
        call_ensures(
            run_production_logout_local,
            (LogoutEvent::Locked(Ok::<(), StorageError>(())),),
            of_local,
        ),
    ensures
        can_revoke ==> of_lock is FindToken,
        !can_revoke ==> of_lock is Commit,
        of_no_lock matches LogoutTask::Finish(Err(told)) && told@
            == crate::codex_auth::oauth::storage_failure(fault)@,
        of_token == LogoutTask::Revoke(token),
        !(found matches Ok(Some(_))) ==> of_found is Commit,
        of_revoked is Commit,
        of_commit == LogoutTask::Finish(Ok(status)),
        of_local is Commit,
{
}

} // verus!
