//! The command line of the sign-in: what it prints and how it exits.

use vstd::prelude::*;

use crate::codex_auth::login_async::{CancelDisposition, LoginProgress};
use crate::codex_auth::oauth::{FlowError, OAuthErrorCode, OAuthFlowError};
use crate::codex_auth::storage::{AuthStatus, StorageError};
use crate::codex_auth::{state_root_from_home, state_root_of};
use crate::json_text::{
    bool_text, is_one_line, json_string, json_string_of, null_json, object_text, signed_decimal,
    to_signed_decimal, ObjectText,
};
use crate::text::{append_bytes, decimal, is_text, str_eq, view_of, view_of_str};
use vstd::string::*;
use vstd::utf8::*;

verus! {

pub const CLI_SCHEMA_VERSION: u32 = 3;

pub const EXPIRING_WINDOW_SECONDS: i64 = 300;

pub const MAX_NDJSON_LINE_BYTES: usize = 8_192;

pub const MAX_NDJSON_TOTAL_BYTES: usize = 65_536;

/// What a command prints, and its exit code.
#[derive(Debug, PartialEq, Eq)]
pub struct CliRun {
    pub json: String,
    pub exit_code: i32,
}

#[derive(Clone, Copy, Debug, PartialEq, Eq, Structural)]
pub enum Command {
    Status,
    Logout,
}

pub open spec fn arg_views(args: Seq<String>) -> Seq<Seq<char>> {
    Seq::new(args.len(), |i: int| args[i]@)
}

impl Command {
    pub open spec fn of(args: Seq<Seq<char>>) -> Option<Command> {
        if args == seq!["status"@] {
            Some(Command::Status)
        } else if args == seq!["logout"@] {
            Some(Command::Logout)
        } else {
            None
        }
    }

    pub fn parse(args: &[String]) -> (command: Option<Command>)
        ensures
            command == Command::of(arg_views(args@)),
    {
        let ghost views = arg_views(args@);
        proof {
            assert(seq!["status"@].len() == 1);
            assert(seq!["logout"@].len() == 1);
        }
        if args.len() != 1 {
            return None;
        }
        proof {
            assert(views[0] == args@[0]@);
            assert(views =~= seq![views[0]]);
            assert(seq!["status"@][0] == "status"@);
            assert(seq!["logout"@][0] == "logout"@);
        }
        if str_eq(args[0].as_str(), "status") {
            Some(Command::Status)
        } else if str_eq(args[0].as_str(), "logout") {
            Some(Command::Logout)
        } else {
            None
        }
    }

    pub open spec fn name(self) -> Seq<char> {
        match self {
            Command::Status => "status"@,
            Command::Logout => "logout"@,
        }
    }

    pub fn as_str(self) -> (text: &'static str)
        ensures
            text@ == self.name(),
    {
        match self {
            Command::Status => "status",
            Command::Logout => "logout",
        }
    }
}

pub type Member = (Seq<char>, Option<Seq<char>>);

/// A text or `null`.
pub open spec fn nullable(text: Option<Seq<char>>) -> Option<Seq<char>> {
    match text {
        Some(text) => json_string_of(text),
        None => Some("null"@),
    }
}

fn nullable_text(text: Option<&str>) -> (json: Option<String>)
    ensures
        view_of(json) == nullable(view_of_str(text)),
        json matches Some(json) ==> is_one_line(json@),
{
    match text {
        Some(text) => json_string(text),
        None => Some(null_json()),
    }
}

/// When credentials expire, seen from `now`.
pub open spec fn expiry_state_of(now: i64, status: AuthStatus) -> Seq<char> {
    if !status.authenticated {
        "missing"@
    } else {
        match status.expires_at {
            None => "unknown"@,
            Some(at) => if at <= now {
                "expired"@
            } else if at <= now + EXPIRING_WINDOW_SECONDS {
                "expiring"@
            } else {
                "valid"@
            },
        }
    }
}

pub fn expiry_state(now: i64, status: &AuthStatus) -> (state: &'static str)
    ensures
        state@ == expiry_state_of(now, *status),
{
    if !status.authenticated {
        return "missing";
    }
    match status.expires_at {
        None => "unknown",
        Some(at) => {
            if at <= now {
                "expired"
            } else if now > i64::MAX - EXPIRING_WINDOW_SECONDS || at <= now
                + EXPIRING_WINDOW_SECONDS {
                "expiring"
            } else {
                "valid"
            }
        },
    }
}

/// What is printed of the stored credentials.
pub open spec fn status_members(now: i64, status: AuthStatus) -> Seq<Member> {
    seq![
        ("authenticated"@, Some(bool_text(status.authenticated))),
        ("reason"@, json_string_of(status.reason.name())),
        ("account_hash"@, nullable(view_of(status.account_hash))),
        ("expiry_state"@, json_string_of(expiry_state_of(now, status))),
        (
            "expires_at"@,
            Some(
                match status.expires_at {
                    Some(at) => signed_decimal(at as int),
                    None => "null"@,
                },
            ),
        ),
        ("auth_epoch"@, nullable(view_of(status.auth_epoch))),
        ("auth_generation"@, Some(decimal(status.auth_generation as nat))),
    ]
}

pub fn status_view(now: i64, status: &AuthStatus) -> (json: Option<String>)
    ensures
        view_of(json) == object_text(status_members(now, *status)),
        json matches Some(json) ==> is_one_line(json@),
{
    let mut object = ObjectText::new();
    object.put_bool("authenticated", status.authenticated);
    object.put_text("reason", status.reason.as_str());
    object.put("account_hash", nullable_text(crate::text::as_text(&status.account_hash)));
    object.put_text("expiry_state", expiry_state(now, status));
    object.put(
        "expires_at",
        match status.expires_at {
            Some(at) => Some(to_signed_decimal(at)),
            None => Some(null_json()),
        },
    );
    object.put("auth_epoch", nullable_text(crate::text::as_text(&status.auth_epoch)));
    object.put_number("auth_generation", status.auth_generation);
    assert(object@ =~= status_members(now, *status));
    object.text()
}

/// What a command left undone.
#[derive(Clone, Copy, Debug)]
pub struct WarningView {
    pub code: &'static str,
    pub reason: &'static str,
}

/// The member of a text that may be absent.
pub open spec fn optional_text(name: Seq<char>, text: Option<Seq<char>>) -> Seq<Member> {
    match text {
        Some(text) => seq![(name, json_string_of(text))],
        None => Seq::empty(),
    }
}

pub open spec fn optional_number(name: Seq<char>, number: Option<u16>) -> Seq<Member> {
    match number {
        Some(number) => seq![(name, Some(decimal(number as nat)))],
        None => Seq::empty(),
    }
}

pub open spec fn optional_bool(name: Seq<char>, value: Option<bool>) -> Seq<Member> {
    match value {
        Some(value) => seq![(name, Some(bool_text(value)))],
        None => Seq::empty(),
    }
}

fn put_optional_text(object: &mut ObjectText, name: &'static str, text: Option<&str>)
    requires
        old(object).wf(),
    ensures
        final(object)@ == old(object)@ + optional_text(name@, view_of_str(text)),
        final(object).wf(),
{
    if let Some(text) = text {
        object.put_text(name, text);
    }
    assert(object@ =~= old(object)@ + optional_text(name@, view_of_str(text)));
}

/// The members that tell where a request failed.
pub open spec fn reply_members(error: FlowError) -> Seq<Member> {
    optional_number("upstream_status"@, error.upstream_status) + optional_text(
        "response_kind"@,
        error.response_kind,
    ) + optional_bool("challenge_detected"@, error.challenge_detected) + optional_text(
        "transport_kind"@,
        error.transport_kind,
    )
}

fn put_reply_members(object: &mut ObjectText, error: &OAuthFlowError)
    requires
        old(object).wf(),
    ensures
        final(object)@ == old(object)@ + reply_members(error@),
        final(object).wf(),
{
    if let Some(status) = error.upstream_status {
        object.put_number("upstream_status", status as u64);
    }
    let ghost one = object@;
    assert(one =~= old(object)@ + optional_number("upstream_status"@, error.upstream_status));
    put_optional_text(object, "response_kind", error.response_kind);
    let ghost two = object@;
    if let Some(challenge) = error.challenge_detected {
        object.put_bool("challenge_detected", challenge);
    }
    let ghost three = object@;
    assert(three =~= two + optional_bool("challenge_detected"@, error.challenge_detected));
    put_optional_text(object, "transport_kind", error.transport_kind);
    assert(object@ =~= old(object)@ + reply_members(error@));
}

/// A run that could not be written down.
pub open spec fn is_internal_error(run: CliRun) -> bool {
    run.exit_code == 8 && run.json@
        == "{\"schema_version\":3,\"ok\":false,\"command\":null,\"error\":{\"code\":\"internal_error\",\"message\":\"Codex auth output could not be encoded\",\"retryable\":false}}"@
}

/// The run that prints `text` on one line, where there is a text.
pub open spec fn prints(run: CliRun, text: Option<Seq<char>>, exit_code: i32) -> bool {
    match text {
        Some(text) => run.json@ == text && run.exit_code == exit_code && is_one_line(text),
        None => is_internal_error(run),
    }
}

fn print_or_internal(text: Option<String>, exit_code: i32) -> (run: CliRun)
    requires
        text matches Some(text) ==> is_one_line(text@),
    ensures
        prints(run, view_of(text), exit_code),
{
    match text {
        Some(json) => CliRun { json, exit_code },
        None => CliRun {
            json:
                "{\"schema_version\":3,\"ok\":false,\"command\":null,\"error\":{\"code\":\"internal_error\",\"message\":\"Codex auth output could not be encoded\",\"retryable\":false}}".to_owned(),
            exit_code: 8,
        },
    }
}

pub open spec fn warning_members(warning: WarningView) -> Seq<Member> {
    seq![
        ("code"@, json_string_of(warning.code@)),
        ("reason"@, json_string_of(warning.reason@)),
    ]
}

/// What a command prints when it succeeded.
pub open spec fn success_text(
    command: Command,
    now: i64,
    status: AuthStatus,
    warning: Option<WarningView>,
) -> Option<Seq<char>> {
    object_text(
        seq![
            ("schema_version"@, Some(decimal(CLI_SCHEMA_VERSION as nat))),
            ("ok"@, Some(bool_text(true))),
            ("command"@, json_string_of(command.name())),
            ("status"@, object_text(status_members(now, status))),
        ] + (match warning {
            Some(warning) => seq![("warning"@, object_text(warning_members(warning)))],
            None => Seq::empty(),
        }),
    )
}

pub fn success_run(
    command: Command,
    now: i64,
    status: &AuthStatus,
    warning: Option<WarningView>,
) -> (run: CliRun)
    ensures
        prints(run, success_text(command, now, *status, warning), 0),
{
    let mut object = ObjectText::new();
    object.put_number("schema_version", CLI_SCHEMA_VERSION as u64);
    object.put_bool("ok", true);
    object.put_text("command", command.as_str());
    object.put("status", status_view(now, status));
    let ghost base = object@;
    if let Some(warning) = warning {
        let mut inner = ObjectText::new();
        inner.put_text("code", warning.code);
        inner.put_text("reason", warning.reason);
        assert(inner@ =~= warning_members(warning));
        object.put("warning", inner.text());
    }
    assert(base =~= seq![
        ("schema_version"@, Some(decimal(CLI_SCHEMA_VERSION as nat))),
        ("ok"@, Some(bool_text(true))),
        ("command"@, json_string_of(command.name())),
        ("status"@, object_text(status_members(now, *status))),
    ]);
    assert(object@ =~= base + (match warning {
        Some(warning) => seq![("warning"@, object_text(warning_members(warning)))],
        None => Seq::empty(),
    }));
    print_or_internal(object.text(), 0)
}

/// The members of a failure.
pub open spec fn failure_members(
    code: Seq<char>,
    message: Seq<char>,
    retryable: bool,
    rest: Seq<Member>,
) -> Seq<Member> {
    seq![
        ("code"@, json_string_of(code)),
        ("message"@, json_string_of(message)),
        ("retryable"@, Some(bool_text(retryable))),
    ] + rest
}

/// What a command prints when it failed.
pub open spec fn failure_text(command: Option<Seq<char>>, failure: Seq<Member>) -> Option<
    Seq<char>,
> {
    object_text(
        seq![
            ("schema_version"@, Some(decimal(CLI_SCHEMA_VERSION as nat))),
            ("ok"@, Some(bool_text(false))),
            ("command"@, nullable(command)),
            ("error"@, object_text(failure)),
        ],
    )
}

fn failure_json(command: Option<&str>, failure: ObjectText) -> (json: Option<String>)
    requires
        failure.wf(),
    ensures
        view_of(json) == failure_text(view_of_str(command), failure@),
        json matches Some(json) ==> is_one_line(json@),
{
    let mut object = ObjectText::new();
    object.put_number("schema_version", CLI_SCHEMA_VERSION as u64);
    object.put_bool("ok", false);
    object.put("command", nullable_text(command));
    object.put("error", failure.text());
    assert(object@ =~= seq![
        ("schema_version"@, Some(decimal(CLI_SCHEMA_VERSION as nat))),
        ("ok"@, Some(bool_text(false))),
        ("command"@, nullable(view_of_str(command))),
        ("error"@, object_text(failure@)),
    ]);
    object.text()
}

/// What a command prints of a failed sign-in operation.
pub open spec fn oauth_failure_text(command: Command, error: FlowError) -> Option<Seq<char>> {
    failure_text(
        Some(command.name()),
        failure_members(
            error.code.name(),
            error.message,
            error.retryable,
            seq![("stage"@, json_string_of(error.stage))] + reply_members(error),
        ),
    )
}

pub open spec fn exit_code_of(code: OAuthErrorCode) -> i32 {
    match code {
        OAuthErrorCode::NotAuthenticated => 3,
        OAuthErrorCode::BrowserOpenFailed | OAuthErrorCode::OAuthDenied => 4,
        OAuthErrorCode::CallbackTimeout => 5,
        OAuthErrorCode::AuthBusy
        | OAuthErrorCode::AuthChanged
        | OAuthErrorCode::AuthStateInvalid
        | OAuthErrorCode::CallbackUnavailable
        | OAuthErrorCode::Storage
        | OAuthErrorCode::UnsupportedPlatform => 6,
        OAuthErrorCode::OAuthNetwork
        | OAuthErrorCode::OAuthProtocol
        | OAuthErrorCode::OAuthUnexpectedContentType
        | OAuthErrorCode::OAuthChallengeResponse
        | OAuthErrorCode::ProxyConnectFailed
        | OAuthErrorCode::TlsFailed
        | OAuthErrorCode::AuthCancelled => 7,
    }
}

pub fn exit_code(code: OAuthErrorCode) -> (exit: i32)
    ensures
        exit == exit_code_of(code),
{
    match code {
        OAuthErrorCode::NotAuthenticated => 3,
        OAuthErrorCode::BrowserOpenFailed | OAuthErrorCode::OAuthDenied => 4,
        OAuthErrorCode::CallbackTimeout => 5,
        OAuthErrorCode::AuthBusy
        | OAuthErrorCode::AuthChanged
        | OAuthErrorCode::AuthStateInvalid
        | OAuthErrorCode::CallbackUnavailable
        | OAuthErrorCode::Storage
        | OAuthErrorCode::UnsupportedPlatform => 6,
        OAuthErrorCode::OAuthNetwork
        | OAuthErrorCode::OAuthProtocol
        | OAuthErrorCode::OAuthUnexpectedContentType
        | OAuthErrorCode::OAuthChallengeResponse
        | OAuthErrorCode::ProxyConnectFailed
        | OAuthErrorCode::TlsFailed
        | OAuthErrorCode::AuthCancelled => 7,
    }
}

pub fn oauth_error_run(command: Command, error: &OAuthFlowError) -> (run: CliRun)
    ensures
        prints(run, oauth_failure_text(command, error@), exit_code_of(error.code)),
{
    let mut failure = ObjectText::new();
    failure.put_text("code", error.code.as_str());
    failure.put_text("message", error.message);
    failure.put_bool("retryable", error.retryable);
    failure.put_text("stage", error.stage);
    let ghost base = failure@;
    put_reply_members(&mut failure, error);
    assert(base =~= seq![
        ("code"@, json_string_of(error@.code.name())),
        ("message"@, json_string_of(error@.message)),
        ("retryable"@, Some(bool_text(error@.retryable))),
        ("stage"@, json_string_of(error@.stage)),
    ]);
    assert(failure@ =~= failure_members(
        error@.code.name(),
        error@.message,
        error@.retryable,
        seq![("stage"@, json_string_of(error@.stage))] + reply_members(error@),
    ));
    print_or_internal(failure_json(Some(command.as_str()), failure), exit_code(error.code))
}

/// A failure outside the sign-in itself.
pub fn error_run(
    command: Option<&str>,
    code: &str,
    message: &str,
    retryable: bool,
    exit_code: i32,
) -> (run: CliRun)
    ensures
        prints(
            run,
            failure_text(
                view_of_str(command),
                failure_members(code@, message@, retryable, Seq::empty()),
            ),
            exit_code,
        ),
{
    let mut failure = ObjectText::new();
    failure.put_text("code", code);
    failure.put_text("message", message);
    failure.put_bool("retryable", retryable);
    assert(failure@ =~= failure_members(code@, message@, retryable, Seq::empty()));
    print_or_internal(failure_json(command, failure), exit_code)
}

/// Reads the arguments. What is no command is refused without being repeated.
pub fn run_cli(args: &[String]) -> (command: Result<Command, CliRun>)
    ensures
        match command {
            Ok(command) => Command::of(arg_views(args@)) == Some(command),
            Err(run) => Command::of(arg_views(args@)) is None && prints(
                run,
                failure_text(
                    None,
                    failure_members(
                        "invalid_arguments"@,
                        "Usage: csswitch-gateway codex-auth login-browser|status|logout"@,
                        false,
                        Seq::empty(),
                    ),
                ),
                2,
            ),
        },
{
    match Command::parse(args) {
        Some(command) => Ok(command),
        None => Err(
            error_run(
                None,
                "invalid_arguments",
                "Usage: csswitch-gateway codex-auth login-browser|status|logout",
                false,
                2,
            ),
        ),
    }
}

/// Where the state is kept, if the home directory is known and its path is absolute.
pub fn production_state_root_from(home: Option<&[u8]>, acceptance_build: bool) -> (root: Result<
    Vec<u8>,
    StorageError,
>)
    ensures
        match root {
            Ok(root) => home matches Some(home) && home@.len() > 0 && home@[0] == 47 && root@
                == state_root_of(home@, acceptance_build),
            Err(error) => {
                &&& !(home matches Some(home) && home@.len() > 0 && home@[0] == 47)
                &&& error matches StorageError::InvalidState(detail) && detail@
                    == "HOME is unavailable or not absolute"@
            },
        },
{
    match home {
        Some(home) => {
            if home.len() > 0 && home[0] == 47 {
                return Ok(state_root_from_home(home, acceptance_build));
            }
        },
        None => {},
    }
    Err(StorageError::InvalidState("HOME is unavailable or not absolute".to_owned()))
}

/// A logout leaves the revocation out where the caller says that the proxy settings are
/// invalid.
pub open spec fn skips_revocation(command: Command, reason: Option<Seq<char>>) -> bool {
    command is Logout && reason == Some("proxy_config_invalid"@)
}

pub fn logout_local_only(command: Command, reason: Option<&str>) -> (warning: Option<WarningView>)
    ensures
        match warning {
            Some(warning) => {
                &&& skips_revocation(command, view_of_str(reason))
                &&& warning.code@ == "revoke_skipped"@
                &&& warning.reason@ == "proxy_config_invalid"@
            },
            None => !skips_revocation(command, view_of_str(reason)),
        },
{
    match command {
        Command::Logout => {
            if is_text(reason, "proxy_config_invalid") {
                Some(WarningView { code: "revoke_skipped", reason: "proxy_config_invalid" })
            } else {
                None
            }
        },
        Command::Status => None,
    }
}

/// Prints what a command came to.
pub fn run_cli_with(
    command: Command,
    now: i64,
    result: Result<AuthStatus, OAuthFlowError>,
    warning: Option<WarningView>,
) -> (run: CliRun)
    ensures
        match result {
            Ok(status) => prints(run, success_text(command, now, status, warning), 0),
            Err(error) => prints(
                run,
                oauth_failure_text(command, error@),
                exit_code_of(error.code),
            ),
        },
{
    match result {
        Ok(status) => success_run(command, now, &status, warning),
        Err(error) => oauth_error_run(command, &error),
    }
}

/// A line from the caller that asks for a cancellation.
pub struct CancelInput {
    pub schema_version: u32,
    pub operation_id: String,
    pub command: String,
}

/// Whether a line cancels this operation; `parsed` is what its JSON holds, if that has
/// the fields of a cancellation and no other.
pub fn valid_cancel_input(parsed: Option<&CancelInput>, operation_id: &str) -> (valid: bool)
    ensures
        valid == (parsed matches Some(cancel) && cancel.schema_version == CLI_SCHEMA_VERSION
            && cancel.operation_id@ == operation_id@ && cancel.command@ == "cancel"@),
{
    match parsed {
        Some(cancel) => cancel.schema_version == CLI_SCHEMA_VERSION && str_eq(
            cancel.operation_id.as_str(),
            operation_id,
        ) && str_eq(cancel.command.as_str(), "cancel"),
        None => false,
    }
}

/// Whether what was read from the caller is one line of bearable length.
pub fn is_cancel_line(line: &[u8]) -> (yes: bool)
    ensures
        yes == (0 < line@.len() <= MAX_NDJSON_LINE_BYTES && line@.last() == 10u8),
{
    line.len() > 0 && line.len() <= MAX_NDJSON_LINE_BYTES && line[line.len() - 1] == 10
}

/// The output of an operation that reports its progress line by line.
#[derive(Debug)]
pub struct NdjsonWriter {
    pub total: usize,
    pub failed: bool,
}

pub open spec fn breaks_line(byte: u8) -> bool {
    byte == 10 || byte == 13
}

/// A line that may be written at all.
pub open spec fn is_fit_line(line: Seq<u8>) -> bool {
    line.len() <= MAX_NDJSON_LINE_BYTES && forall|i: int|
        0 <= i < line.len() ==> !breaks_line(#[trigger] line[i])
}

fn line_is_fit(line: &[u8]) -> (fit: bool)
    ensures
        fit == is_fit_line(line@),
{
    if line.len() > MAX_NDJSON_LINE_BYTES {
        return false;
    }
    let mut i: usize = 0;
    while i < line.len()
        invariant
            i <= line@.len(),
            forall|k: int| 0 <= k < i ==> !breaks_line(#[trigger] line@[k]),
        decreases line.len() - i,
    {
        if line[i] == 10 || line[i] == 13 {
            assert(breaks_line(line@[i as int]));
            return false;
        }
        i += 1;
    }
    true
}

impl NdjsonWriter {
    /// No more was written than allowed.
    pub open spec fn wf(self) -> bool {
        self.total <= MAX_NDJSON_TOTAL_BYTES
    }

    pub fn new() -> (writer: NdjsonWriter)
        ensures
            writer.total == 0,
            !writer.failed,
            writer.wf(),
    {
        NdjsonWriter { total: 0, failed: false }
    }

    /// There is room for a line and its end.
    pub open spec fn has_room(self, line: Seq<u8>) -> bool {
        !self.failed && self.total + line.len() + 1 <= MAX_NDJSON_TOTAL_BYTES
    }

    /// The bytes to write for a line. A writer without room writes nothing more.
    pub fn emit(&mut self, value: Option<String>) -> (line: Option<Vec<u8>>)
        requires
            old(self).wf(),
        ensures
            final(self).wf(),
            final(self).total == old(self).total,
            ({
                let fit = value matches Some(value) && is_fit_line(encode_utf8(value@));
                let room = value matches Some(value) && old(self).has_room(encode_utf8(value@));
                &&& line is Some <==> fit && room
                &&& line matches Some(line) ==> line@ == encode_utf8(value->0@).push(10u8)
                &&& final(self).failed == (old(self).failed || (fit && !room))
            }),
    {
        let text = match value {
            Some(text) => text,
            None => {
                return None;
            },
        };
        let bytes = text.as_str().as_bytes();
        if !line_is_fit(bytes) {
            return None;
        }
        if self.failed || bytes.len() + 1 > MAX_NDJSON_TOTAL_BYTES - self.total {
            self.failed = true;
            return None;
        }
        let mut line: Vec<u8> = Vec::new();
        append_bytes(&mut line, bytes);
        line.push(10);
        assert(line@ =~= encode_utf8(text@).push(10u8));
        Some(line)
    }

    /// Takes whether the line could be written.
    pub fn wrote(&mut self, count: usize, ok: bool) -> (result: Result<(), ()>)
        requires
            old(self).wf(),
            old(self).total + count <= MAX_NDJSON_TOTAL_BYTES,
        ensures
            final(self).wf(),
            result is Ok <==> ok,
            final(self).total == (if ok {
                old(self).total + count
            } else {
                old(self).total as int
            }),
            final(self).failed == (old(self).failed || !ok),
    {
        if !ok {
            self.failed = true;
            return Err(());
        }
        self.total += count;
        Ok(())
    }
}

pub open spec fn is_hex_byte(byte: u8) -> bool {
    48 <= byte <= 57 || 65 <= byte <= 70 || 97 <= byte <= 102
}

/// An operation is named by 32 hexadecimal digits.
pub open spec fn is_operation_id(text: Seq<char>) -> bool {
    encode_utf8(text).len() == 32 && forall|i: int|
        0 <= i < 32 ==> is_hex_byte(#[trigger] encode_utf8(text)[i])
}

pub fn valid_operation_id(text: &str) -> (valid: bool)
    ensures
        valid == is_operation_id(text@),
{
    let bytes = text.as_bytes();
    if bytes.len() != 32 {
        return false;
    }
    let mut i: usize = 0;
    while i < 32
        invariant
            bytes@ == encode_utf8(text@),
            bytes@.len() == 32,
            i <= 32,
            forall|k: int| 0 <= k < i ==> is_hex_byte(#[trigger] encode_utf8(text@)[k]),
        decreases 32 - i,
    {
        let b = bytes[i];
        let hex = (48 <= b && b <= 57) || (65 <= b && b <= 70) || (97 <= b && b <= 102);
        if !hex {
            assert(!is_hex_byte(encode_utf8(text@)[i as int]));
            return false;
        }
        i += 1;
    }
    true
}

/// What the arguments of an operation that reports its progress mean.
pub enum StreamingStart {
    NotStreaming,
    Exit(i32),
    Login,
}

/// Which command the arguments of a login name. What else the login needs is looked at
/// only afterwards.
#[derive(Clone, Copy, Debug, PartialEq, Eq, Structural)]
pub enum StreamingCommand {
    NotStreaming,
    /// A login that is not offered, or one with arguments that it does not take.
    Rejected,
    Login,
}

pub open spec fn streaming_command_of(args: Seq<Seq<char>>) -> StreamingCommand {
    if args.len() == 1 && args[0] == "login-browser"@ {
        StreamingCommand::Login
    } else if args.len() > 0 && (args[0] == "login-device"@ || args[0] == "login-browser"@) {
        StreamingCommand::Rejected
    } else {
        StreamingCommand::NotStreaming
    }
}

pub fn streaming_command(args: &[String]) -> (command: StreamingCommand)
    ensures
        command == streaming_command_of(arg_views(args@)),
{
    let ghost views = arg_views(args@);
    if args.len() == 0 {
        return StreamingCommand::NotStreaming;
    }
    assert(views[0] == args@[0]@);
    if str_eq(args[0].as_str(), "login-browser") {
        if args.len() == 1 {
            StreamingCommand::Login
        } else {
            StreamingCommand::Rejected
        }
    } else if str_eq(args[0].as_str(), "login-device") {
        StreamingCommand::Rejected
    } else {
        StreamingCommand::NotStreaming
    }
}

/// How a streaming login starts: the arguments come first, then the operation, and then
/// whether this machine is ready.
pub open spec fn streaming_start(
    args: Seq<Seq<char>>,
    operation_id: Option<Seq<char>>,
    ready: bool,
) -> StreamingStart {
    match streaming_command_of(args) {
        StreamingCommand::NotStreaming => StreamingStart::NotStreaming,
        StreamingCommand::Rejected => StreamingStart::Exit(2),
        StreamingCommand::Login => if !(operation_id matches Some(id) && is_operation_id(id)) {
            StreamingStart::Exit(2)
        } else if !ready {
            StreamingStart::Exit(6)
        } else {
            StreamingStart::Login
        },
    }
}

/// Reads the arguments and the name of the operation. `ready` tells whether the platform
/// is supported and its state directory was found.
pub fn run_streaming_cli(args: &[String], operation_id: Option<&str>, ready: bool) -> (start:
    StreamingStart)
    ensures
        start == streaming_start(arg_views(args@), view_of_str(operation_id), ready),
{
    match streaming_command(args) {
        StreamingCommand::NotStreaming => StreamingStart::NotStreaming,
        StreamingCommand::Rejected => StreamingStart::Exit(2),
        StreamingCommand::Login => {
            let named = match operation_id {
                Some(id) => valid_operation_id(id),
                None => false,
            };
            if !named {
                StreamingStart::Exit(2)
            } else if !ready {
                StreamingStart::Exit(6)
            } else {
                StreamingStart::Login
            }
        },
    }
}

/// The members that every event starts with.
pub open spec fn event_members(operation_id: Seq<char>, kind: Seq<char>) -> Seq<Member> {
    seq![
        ("schema_version"@, Some(decimal(CLI_SCHEMA_VERSION as nat))),
        ("operation_id"@, json_string_of(operation_id)),
        ("kind"@, json_string_of(kind)),
    ]
}

fn start_event(operation_id: &str, kind: &'static str) -> (object: ObjectText)
    ensures
        object@ == event_members(operation_id@, kind@),
        object.wf(),
{
    let mut object = ObjectText::new();
    object.put_number("schema_version", CLI_SCHEMA_VERSION as u64);
    object.put_text("operation_id", operation_id);
    object.put_text("kind", kind);
    assert(object@ =~= event_members(operation_id@, kind@));
    object
}

pub open spec fn progress_name(progress: LoginProgress) -> Seq<char> {
    match progress {
        LoginProgress::Waiting => "waiting"@,
        LoginProgress::Exchanging => "exchanging"@,
        LoginProgress::Committing => "committing"@,
    }
}

pub fn progress_event(operation_id: &str, progress: LoginProgress) -> (json: Option<String>)
    ensures
        view_of(json) == object_text(
            event_members(operation_id@, "progress"@).push(
                ("state"@, json_string_of(progress_name(progress))),
            ),
        ),
        json matches Some(json) ==> is_one_line(json@),
{
    let mut object = start_event(operation_id, "progress");
    object.put_text(
        "state",
        match progress {
            LoginProgress::Waiting => "waiting",
            LoginProgress::Exchanging => "exchanging",
            LoginProgress::Committing => "committing",
        },
    );
    object.text()
}

pub fn cancel_ack(operation_id: &str, disposition: CancelDisposition) -> (json: Option<String>)
    ensures
        view_of(json) == object_text(
            event_members(operation_id@, "cancel_ack"@).push(
                ("disposition"@, json_string_of(disposition.name())),
            ),
        ),
        json matches Some(json) ==> is_one_line(json@),
{
    let mut object = start_event(operation_id, "cancel_ack");
    object.put_text("disposition", disposition.as_str());
    object.text()
}

/// What is reported of a failed operation. It leaves the message out.
pub open spec fn streaming_error_members(error: FlowError) -> Seq<Member> {
    seq![
        ("code"@, json_string_of(error.code.name())),
        ("stage"@, json_string_of(error.stage)),
        ("retryable"@, Some(bool_text(error.retryable))),
    ] + reply_members(error)
}

pub fn streaming_error(error: &OAuthFlowError) -> (json: Option<String>)
    ensures
        view_of(json) == object_text(streaming_error_members(error@)),
        json matches Some(json) ==> is_one_line(json@),
{
    let mut object = ObjectText::new();
    object.put_text("code", error.code.as_str());
    object.put_text("stage", error.stage);
    object.put_bool("retryable", error.retryable);
    let ghost base = object@;
    assert(base =~= seq![
        ("code"@, json_string_of(error@.code.name())),
        ("stage"@, json_string_of(error@.stage)),
        ("retryable"@, Some(bool_text(error@.retryable))),
    ]);
    put_reply_members(&mut object, error);
    object.text()
}

/// The last line of an operation.
pub open spec fn terminal_text(
    operation_id: Seq<char>,
    now: i64,
    result: Result<AuthStatus, OAuthFlowError>,
) -> Option<Seq<char>> {
    let start = event_members(operation_id, "terminal"@);
    match result {
        Ok(status) => object_text(
            start.push(("state"@, json_string_of("succeeded"@))).push(
                ("status"@, object_text(status_members(now, status))),
            ),
        ),
        Err(error) => object_text(
            start.push(
                (
                    "state"@,
                    json_string_of(
                        if error.code == OAuthErrorCode::AuthCancelled {
                            "cancelled"@
                        } else {
                            "failed"@
                        },
                    ),
                ),
            ).push(("error"@, object_text(streaming_error_members(error@)))),
        ),
    }
}

/// The last line of an operation, and its exit code.
pub fn terminal_event(
    operation_id: &str,
    now: i64,
    result: &Result<AuthStatus, OAuthFlowError>,
) -> (end: (Option<String>, i32))
    ensures
        view_of(end.0) == terminal_text(operation_id@, now, *result),
        end.0 matches Some(json) ==> is_one_line(json@),
        end.1 == (match *result {
            Ok(_) => 0,
            Err(error) => exit_code_of(error.code),
        }),
{
    let mut object = start_event(operation_id, "terminal");
    let code: i32 = match result {
        Ok(status) => {
            object.put_text("state", "succeeded");
            object.put("status", status_view(now, status));
            0
        },
        Err(error) => {
            if error.code == OAuthErrorCode::AuthCancelled {
                object.put_text("state", "cancelled");
            } else {
                object.put_text("state", "failed");
            }
            object.put("error", streaming_error(error));
            exit_code(error.code)
        },
    };
    (object.text(), code)
}

/// The exit code of an operation whose last line was, or was not, written.
pub fn streaming_exit(written: bool, code: i32) -> (exit: i32)
    ensures
        exit == (if written {
            code
        } else {
            8
        }),
{
    if written {
        code
    } else {
        8
    }
}

} // verus!
