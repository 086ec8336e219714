//! What holds of everything that the command line prints.

use vstd::prelude::*;

use crate::codex_auth::cli::{
    cancel_ack, error_run, exit_code, expiry_state, is_cancel_line, logout_local_only,
    oauth_error_run, production_state_root_from, progress_event, run_cli, run_cli_with,
    run_streaming_cli, status_members, status_view, streaming_command, streaming_error,
    streaming_error_members, streaming_exit, success_run, terminal_event, valid_cancel_input,
    valid_operation_id, CancelInput, CliRun, Command, Member, NdjsonWriter, StreamingCommand,
    StreamingStart, WarningView,
};
use crate::codex_auth::login_async::{CancelDisposition, LoginProgress};
use crate::codex_auth::oauth::{OAuthErrorCode, OAuthFlowError};
use crate::codex_auth::state_root_from_home;
use crate::codex_auth::storage::{AuthStatus, AuthStatusReason, StorageError};
use crate::json_text::{object_text, signed_decimal};
use crate::json_text_laws::{in_quotes, law_objects_are_listings, listing, present};
use crate::text::decimal;
use vstd::utf8::*;

verus! {

/// `true` or `false`.
pub open spec fn truth(value: bool) -> Seq<char> {
    if value {
        "true"@
    } else {
        "false"@
    }
}

/// A text in quotation marks, or `null`.
pub open spec fn text_or_null(text: Option<String>) -> Seq<char> {
    match text {
        Some(text) => in_quotes(text@),
        None => "null"@,
    }
}

/// An object of these members.
pub open spec fn object(pairs: Seq<(Seq<char>, Seq<char>)>) -> Seq<char> {
    "{"@ + listing(pairs) + "}"@
}

/// The one argument of a command is its name; anything else is refused with the usage and
/// without being repeated.
pub proof fn law_commands(args: &[String], command: Result<Command, CliRun>)
    requires
        call_ensures(run_cli, (args,), command),
    ensures
        command == Ok::<Command, CliRun>(Command::Status) <==> args@.len() == 1 && args@[0]@
            == "status"@,
        command == Ok::<Command, CliRun>(Command::Logout) <==> args@.len() == 1 && args@[0]@
            == "logout"@,
        command matches Err(run) ==> run.exit_code == 2 && run.json@ == failure_line(
            "null"@,
            seq![
                ("code"@, in_quotes("invalid_arguments"@)),
                (
                    "message"@,
                    in_quotes("Usage: csswitch-gateway codex-auth login-browser|status|logout"@),
                ),
                ("retryable"@, "false"@),
            ],
        ),
{
    let views = crate::codex_auth::cli::arg_views(args@);
    assert(views.len() == args@.len());
    if args@.len() == 1 {
        assert(views[0] == args@[0]@);
        assert(views =~= seq![args@[0]@]);
    }
    assert(seq!["status"@][0] == "status"@ && seq!["status"@].len() == 1);
    assert(seq!["logout"@][0] == "logout"@ && seq!["logout"@].len() == 1);
    reveal_strlit("status");
    reveal_strlit("logout");
    assert("status"@[0] == 's' && "logout"@[0] == 'l');
    let failure = seq![
        ("code"@, in_quotes("invalid_arguments"@)),
        (
            "message"@,
            in_quotes("Usage: csswitch-gateway codex-auth login-browser|status|logout"@),
        ),
        ("retryable"@, "false"@),
    ];
    lemma_failure_text(None, "null"@, failure);
    assert(present(failure) =~= crate::codex_auth::cli::failure_members(
        "invalid_arguments"@,
        "Usage: csswitch-gateway codex-auth login-browser|status|logout"@,
        false,
        Seq::empty(),
    ));
}

/// What a command prints when it failed.
pub open spec fn failure_line(
    command: Seq<char>,
    failure: Seq<(Seq<char>, Seq<char>)>,
) -> Seq<char> {
    object(
        seq![
            ("schema_version"@, decimal(3)),
            ("ok"@, "false"@),
            ("command"@, command),
            ("error"@, object(failure)),
        ],
    )
}

proof fn lemma_failure_text(
    command: Option<Seq<char>>,
    named: Seq<char>,
    failure: Seq<(Seq<char>, Seq<char>)>,
)
    requires
        crate::codex_auth::cli::nullable(command) == Some(named),
    ensures
        crate::codex_auth::cli::failure_text(command, present(failure)) == Some(
            failure_line(named, failure),
        ),
{
    law_objects_are_listings(failure);
    let outer = seq![
        ("schema_version"@, decimal(3)),
        ("ok"@, "false"@),
        ("command"@, named),
        ("error"@, object(failure)),
    ];
    law_objects_are_listings(outer);
    assert(present(outer) =~= seq![
        ("schema_version"@, Some(decimal(crate::codex_auth::cli::CLI_SCHEMA_VERSION as nat))),
        ("ok"@, Some(crate::json_text::bool_text(false))),
        ("command"@, crate::codex_auth::cli::nullable(command)),
        ("error"@, object_text(present(failure))),
    ]);
}

/// A failure outside the sign-in is printed with its code and message, and exits as told.
pub proof fn law_failures_are_printed(
    command: &str,
    code: &str,
    message: &str,
    retryable: bool,
    exit: i32,
    run: CliRun,
)
    requires
        call_ensures(error_run, (Some(command), code, message, retryable, exit), run),
    ensures
        run.exit_code == exit,
        run.json@ == failure_line(
            in_quotes(command@),
            seq![
                ("code"@, in_quotes(code@)),
                ("message"@, in_quotes(message@)),
                ("retryable"@, truth(retryable)),
            ],
        ),
{
    let failure = seq![
        ("code"@, in_quotes(code@)),
        ("message"@, in_quotes(message@)),
        ("retryable"@, truth(retryable)),
    ];
    lemma_failure_text(Some(command@), in_quotes(command@), failure);
    assert(present(failure) =~= crate::codex_auth::cli::failure_members(
        code@,
        message@,
        retryable,
        Seq::empty(),
    ));
}

/// When credentials expire: they are missing, of unknown term, expired, about to expire
/// within five minutes, or valid.
pub proof fn law_terms_of_credentials(now: i64, status: &AuthStatus, state: &'static str)
    requires
        call_ensures(expiry_state, (now, status), state),
    ensures
        !status.authenticated ==> state@ == "missing"@,
        status.authenticated && status.expires_at is None ==> state@ == "unknown"@,
        status.authenticated ==> (status.expires_at matches Some(at) ==> {
            &&& at <= now ==> state@ == "expired"@
            &&& now < at <= now + 300 ==> state@ == "expiring"@
            &&& at > now + 300 ==> state@ == "valid"@
        }),
{
}

/// What is printed of the stored credentials.
pub open spec fn status_pairs(status: AuthStatus, reason: Seq<char>, term: Seq<char>) -> Seq<
    (Seq<char>, Seq<char>),
> {
    seq![
        ("authenticated"@, truth(status.authenticated)),
        ("reason"@, in_quotes(reason)),
        ("account_hash"@, text_or_null(status.account_hash)),
        ("expiry_state"@, in_quotes(term)),
        (
            "expires_at"@,
            match status.expires_at {
                Some(at) => signed_decimal(at as int),
                None => "null"@,
            },
        ),
        ("auth_epoch"@, text_or_null(status.auth_epoch)),
        ("auth_generation"@, decimal(status.auth_generation as nat)),
    ]
}

proof fn lemma_status_text(now: i64, status: AuthStatus)
    ensures
        object_text(status_members(now, status)) == Some(
            object(
                status_pairs(
                    status,
                    status.reason.name(),
                    crate::codex_auth::cli::expiry_state_of(now, status),
                ),
            ),
        ),
{
    let pairs = status_pairs(
        status,
        status.reason.name(),
        crate::codex_auth::cli::expiry_state_of(now, status),
    );
    law_objects_are_listings(pairs);
    assert(present(pairs) =~= status_members(now, status));
}

/// The stored credentials are printed without any of their secrets: whether there are any
/// and why not, whose, until when, and of which generation.
pub proof fn law_statuses_are_printed(
    now: i64,
    status: &AuthStatus,
    reason: &'static str,
    term: &'static str,
    json: Option<String>,
)
    requires
        call_ensures(AuthStatusReason::as_str, (status.reason,), reason),
        call_ensures(expiry_state, (now, status), term),
        call_ensures(status_view, (now, status), json),
    ensures
        json matches Some(text) && text@ == object(status_pairs(*status, reason@, term@)),
{
    lemma_status_text(now, *status);
}

/// A command that succeeded prints the status, and what it left undone, and exits with
/// nought.
pub proof fn law_successes_are_printed(
    command: Command,
    name: &'static str,
    now: i64,
    status: &AuthStatus,
    reason: &'static str,
    term: &'static str,
    warning: WarningView,
    run: CliRun,
    warned: CliRun,
    with: CliRun,
)
    requires
        call_ensures(Command::as_str, (command,), name),
        call_ensures(AuthStatusReason::as_str, (status.reason,), reason),
        call_ensures(expiry_state, (now, status), term),
        call_ensures(success_run, (command, now, status, None::<WarningView>), run),
        call_ensures(success_run, (command, now, status, Some(warning)), warned),
        call_ensures(
            run_cli_with,
            (command, now, Ok::<AuthStatus, OAuthFlowError>(*status), Some(warning)),
            with,
        ),
    ensures
        command == Command::Status ==> name@ == "status"@,
        command == Command::Logout ==> name@ == "logout"@,
        run.exit_code == 0 && warned.exit_code == 0 && with.exit_code == 0,
        run.json@ == object(
            seq![
                ("schema_version"@, decimal(3)),
                ("ok"@, "true"@),
                ("command"@, in_quotes(name@)),
                ("status"@, object(status_pairs(*status, reason@, term@))),
            ],
        ),
        warned.json@ == object(
            seq![
                ("schema_version"@, decimal(3)),
                ("ok"@, "true"@),
                ("command"@, in_quotes(name@)),
                ("status"@, object(status_pairs(*status, reason@, term@))),
                (
                    "warning"@,
                    object(
                        seq![
                            ("code"@, in_quotes(warning.code@)),
                            ("reason"@, in_quotes(warning.reason@)),
                        ],
                    ),
                ),
            ],
        ),
        with.json@ == warned.json@,
{
    lemma_status_text(now, *status);
    let pairs = seq![
        ("schema_version"@, decimal(3)),
        ("ok"@, "true"@),
        ("command"@, in_quotes(name@)),
        ("status"@, object(status_pairs(*status, reason@, term@))),
    ];
    law_objects_are_listings(pairs);
    let base = seq![
        ("schema_version"@, Some(decimal(3))),
        ("ok"@, Some(crate::json_text::bool_text(true))),
        ("command"@, crate::json_text::json_string_of(command.name())),
        ("status"@, object_text(status_members(now, *status))),
    ];
    assert(present(pairs) =~= base);
    assert(base + Seq::<Member>::empty() =~= base);
    let inner = seq![("code"@, in_quotes(warning.code@)), ("reason"@, in_quotes(warning.reason@))];
    law_objects_are_listings(inner);
    assert(present(inner) =~= crate::codex_auth::cli::warning_members(warning));
    let more = seq![
        ("schema_version"@, decimal(3)),
        ("ok"@, "true"@),
        ("command"@, in_quotes(name@)),
        ("status"@, object(status_pairs(*status, reason@, term@))),
        ("warning"@, object(inner)),
    ];
    law_objects_are_listings(more);
    assert(present(more) =~= base + seq![("warning"@, object_text(present(inner)))]);
}

/// Each failure has its exit code: three for a missing login, four where the user or the
/// browser refused, five for one who did not come back, six for the state of this machine,
/// seven for everything on the way to the issuer.
pub proof fn law_exit_codes(code: OAuthErrorCode, exit: i32)
    requires
        call_ensures(exit_code, (code,), exit),
    ensures
        exit == 3 <==> code == OAuthErrorCode::NotAuthenticated,
        exit == 4 <==> code == OAuthErrorCode::BrowserOpenFailed || code
            == OAuthErrorCode::OAuthDenied,
        exit == 5 <==> code == OAuthErrorCode::CallbackTimeout,
        exit == 6 <==> code == OAuthErrorCode::AuthBusy || code == OAuthErrorCode::AuthChanged
            || code == OAuthErrorCode::AuthStateInvalid || code
            == OAuthErrorCode::CallbackUnavailable || code == OAuthErrorCode::Storage || code
            == OAuthErrorCode::UnsupportedPlatform,
        exit == 7 <==> code == OAuthErrorCode::OAuthNetwork || code == OAuthErrorCode::OAuthProtocol
            || code == OAuthErrorCode::OAuthUnexpectedContentType || code
            == OAuthErrorCode::OAuthChallengeResponse || code == OAuthErrorCode::ProxyConnectFailed
            || code == OAuthErrorCode::TlsFailed || code == OAuthErrorCode::AuthCancelled,
        3 <= exit <= 7,
{
}

/// What is told of the reply to a failed request, as far as there was one.
pub open spec fn reply_pairs(error: OAuthFlowError) -> Seq<(Seq<char>, Seq<char>)> {
    (match error.upstream_status {
        Some(status) => seq![("upstream_status"@, decimal(status as nat))],
        None => Seq::empty(),
    }) + (match error.response_kind {
        Some(kind) => seq![("response_kind"@, in_quotes(kind@))],
        None => Seq::empty(),
    }) + (match error.challenge_detected {
        Some(challenge) => seq![("challenge_detected"@, truth(challenge))],
        None => Seq::empty(),
    }) + (match error.transport_kind {
        Some(kind) => seq![("transport_kind"@, in_quotes(kind@))],
        None => Seq::empty(),
    })
}

proof fn lemma_reply_members(error: OAuthFlowError)
    ensures
        present(reply_pairs(error)) == crate::codex_auth::cli::reply_members(error@),
{
    assert(present(reply_pairs(error)) =~= crate::codex_auth::cli::reply_members(error@));
}

/// A failed operation is printed with its code, message and stage and with what is known
/// of the reply, and exits with the code of its failure.
pub proof fn law_failed_operations_are_printed(
    command: Command,
    name: &'static str,
    now: i64,
    error: OAuthFlowError,
    code: &'static str,
    exit: i32,
    warning: Option<WarningView>,
    run: CliRun,
    with: CliRun,
)
    requires
        call_ensures(Command::as_str, (command,), name),
        call_ensures(OAuthErrorCode::as_str, (error.code,), code),
        call_ensures(exit_code, (error.code,), exit),
        call_ensures(oauth_error_run, (command, &error), run),
        call_ensures(
            run_cli_with,
            (command, now, Err::<AuthStatus, OAuthFlowError>(error), warning),
            with,
        ),
    ensures
        run.exit_code == exit && with.exit_code == exit,
        run.json@ == failure_line(
            in_quotes(name@),
            seq![
                ("code"@, in_quotes(code@)),
                ("message"@, in_quotes(error.message@)),
                ("retryable"@, truth(error.retryable)),
                ("stage"@, in_quotes(error.stage@)),
            ] + reply_pairs(error),
        ),
        with.json@ == run.json@,
{
    let failure = seq![
        ("code"@, in_quotes(code@)),
        ("message"@, in_quotes(error.message@)),
        ("retryable"@, truth(error.retryable)),
        ("stage"@, in_quotes(error.stage@)),
    ] + reply_pairs(error);
    lemma_reply_members(error);
    lemma_failure_text(Some(name@), in_quotes(name@), failure);
    assert(present(failure) =~= crate::codex_auth::cli::failure_members(
        error@.code.name(),
        error@.message,
        error@.retryable,
        seq![("stage"@, crate::json_text::json_string_of(error@.stage))] + present(
            reply_pairs(error),
        ),
    ));
}

/// The state is kept below a home directory whose path is absolute.
pub proof fn law_homes(
    home: &[u8],
    acceptance_build: bool,
    root: Vec<u8>,
    found: Result<Vec<u8>, StorageError>,
    homeless: Result<Vec<u8>, StorageError>,
)
    requires
        call_ensures(state_root_from_home, (home, acceptance_build), root),
        call_ensures(production_state_root_from, (Some(home), acceptance_build), found),
        call_ensures(production_state_root_from, (None::<&[u8]>, acceptance_build), homeless),
    ensures
        found is Ok <==> home@.len() > 0 && home@[0] == 47,
        found matches Ok(path) ==> path@ == root@,
        found matches Err(error) ==> (error matches StorageError::InvalidState(detail) && detail@
            == "HOME is unavailable or not absolute"@),
        homeless is Err,
{
}

/// A logout revokes nothing where the proxy settings are invalid, and says so.
pub proof fn law_local_logouts(command: Command, reason: &str, warning: Option<WarningView>, without: Option<WarningView>)
    requires
        call_ensures(logout_local_only, (command, Some(reason)), warning),
        call_ensures(logout_local_only, (command, None::<&str>), without),
    ensures
        warning is Some <==> command == Command::Logout && reason@ == "proxy_config_invalid"@,
        warning matches Some(told) ==> told.code@ == "revoke_skipped"@ && told.reason@
            == "proxy_config_invalid"@,
        without is None,
{
}

/// A line cancels the operation that it names, in this version of the schema.
pub proof fn law_cancel_lines(
    cancel: &CancelInput,
    operation_id: &str,
    line: &[u8],
    valid: bool,
    unread: bool,
    fit: bool,
)
    requires
        call_ensures(valid_cancel_input, (Some(cancel), operation_id), valid),
        call_ensures(valid_cancel_input, (None::<&CancelInput>, operation_id), unread),
        call_ensures(is_cancel_line, (line,), fit),
    ensures
        valid <==> cancel.schema_version == 3 && cancel.operation_id@ == operation_id@
            && cancel.command@ == "cancel"@,
        !unread,
        fit <==> 1 <= line@.len() <= 8192 && line@[line@.len() - 1] == 10,
{
}

/// A line is written whole with a line feed behind it, where it has none in it, is no
/// longer than eight kibibytes and there is room within sixty-four.
pub proof fn law_lines_are_written(
    writer: &mut NdjsonWriter,
    fresh: NdjsonWriter,
    value: String,
    line: Option<Vec<u8>>,
    i: int,
)
    requires
        call_ensures(NdjsonWriter::new, (), fresh),
        call_ensures(NdjsonWriter::emit, (writer, Some(value)), line),
    ensures
        fresh.total == 0 && !fresh.failed,
        line matches Some(line) ==> {
            &&& line@ == encode_utf8(value@).push(10u8)
            &&& !old(writer).failed
            &&& encode_utf8(value@).len() <= 8192
            &&& old(writer).total + line@.len() <= 65_536
            &&& 0 <= i < encode_utf8(value@).len() ==> encode_utf8(value@)[i] != 10 && encode_utf8(
                value@,
            )[i] != 13
        },
        final(writer).total == old(writer).total,
        old(writer).failed ==> final(writer).failed && line is None,
        line is Some ==> !final(writer).failed,
        !old(writer).failed && encode_utf8(value@).len() <= 8192 && old(writer).total + encode_utf8(
            value@,
        ).len() + 1 <= 65_536 && (forall|k: int|
            0 <= k < encode_utf8(value@).len() ==> #[trigger] encode_utf8(value@)[k] != 10
                && encode_utf8(value@)[k] != 13) ==> line is Some,
{
    let bytes = encode_utf8(value@);
    if line is Some && 0 <= i < bytes.len() {
        assert(!crate::codex_auth::cli::breaks_line(bytes[i]));
    }
    if forall|k: int| 0 <= k < bytes.len() ==> #[trigger] bytes[k] != 10 && bytes[k] != 13 {
        assert forall|k: int| 0 <= k < bytes.len() implies !crate::codex_auth::cli::breaks_line(
            #[trigger] bytes[k],
        ) by {
            assert(bytes[k] != 10 && bytes[k] != 13);
        }
    }
}

/// What was written counts, and a write that failed ends the writing.
pub proof fn law_written_lines_count(
    writer: &mut NdjsonWriter,
    count: usize,
    ok: bool,
    result: Result<(), ()>,
)
    requires
        call_ensures(NdjsonWriter::wrote, (writer, count, ok), result),
    ensures
        result is Ok <==> ok,
        ok ==> final(writer).total == old(writer).total + count && final(writer).failed == old(
            writer).failed,
        !ok ==> final(writer).total == old(writer).total && final(writer).failed,
{
}

/// An operation is named by thirty-two hexadecimal digits, in either case.
pub proof fn law_names_of_operations(text: &str, valid: bool, i: int)
    requires
        call_ensures(valid_operation_id, (text,), valid),
    ensures
        valid ==> encode_utf8(text@).len() == 32,
        valid && 0 <= i < 32 ==> {
            let byte = encode_utf8(text@)[i];
            '0' as u32 <= byte <= '9' as u32 || 'a' as u32 <= byte <= 'f' as u32 || 'A' as u32
                <= byte <= 'F' as u32
        },
        !valid && encode_utf8(text@).len() == 32 ==> exists|k: int|
            0 <= k < 32 && ({
                let byte = #[trigger] encode_utf8(text@)[k];
                !('0' as u32 <= byte <= '9' as u32) && !('a' as u32 <= byte <= 'f' as u32) && !(
                'A' as u32 <= byte <= 'F' as u32)
            }),
{
    let bytes = encode_utf8(text@);
    if valid && 0 <= i < 32 {
        assert(crate::codex_auth::cli::is_hex_byte(bytes[i]));
    }
    if !valid && bytes.len() == 32 {
        let k = choose|k: int| 0 <= k < 32 && !crate::codex_auth::cli::is_hex_byte(
            #[trigger] bytes[k],
        );
        assert(!crate::codex_auth::cli::is_hex_byte(bytes[k]));
    }
}

/// A login in the browser takes no argument; that on a device is not offered. It then needs
/// the name of its operation, and a machine that is ready.
pub proof fn law_streaming_commands(
    args: &[String],
    operation_id: &str,
    valid: bool,
    ready: bool,
    command: StreamingCommand,
    start: StreamingStart,
    unnamed: StreamingStart,
)
    requires
        call_ensures(streaming_command, (args,), command),
        call_ensures(valid_operation_id, (operation_id,), valid),
        call_ensures(run_streaming_cli, (args, Some(operation_id), ready), start),
        call_ensures(run_streaming_cli, (args, None::<&str>, ready), unnamed),
    ensures
        command == StreamingCommand::Login <==> args@.len() == 1 && args@[0]@ == "login-browser"@,
        command == StreamingCommand::Rejected <==> (args@.len() > 1 && args@[0]@
            == "login-browser"@) || (args@.len() > 0 && args@[0]@ == "login-device"@),
        command == StreamingCommand::NotStreaming <==> start is NotStreaming,
        command == StreamingCommand::NotStreaming <==> unnamed is NotStreaming,
        command == StreamingCommand::Rejected ==> start == StreamingStart::Exit(2) && unnamed
            == StreamingStart::Exit(2),
        command == StreamingCommand::Login ==> unnamed == StreamingStart::Exit(2),
        command == StreamingCommand::Login && !valid ==> start == StreamingStart::Exit(2),
        command == StreamingCommand::Login && valid && !ready ==> start == StreamingStart::Exit(6),
        command == StreamingCommand::Login && valid && ready ==> start is Login,
{
    let views = crate::codex_auth::cli::arg_views(args@);
    assert(views.len() == args@.len());
    if args@.len() > 0 {
        assert(views[0] == args@[0]@);
    }
    reveal_strlit("login-browser");
    reveal_strlit("login-device");
    assert("login-browser"@.len() == 13 && "login-device"@.len() == 12);
}

/// Progress and the answer to a cancellation are told by the name of the operation.
pub proof fn law_progress_is_told(
    operation_id: &str,
    progress: LoginProgress,
    disposition: CancelDisposition,
    name: &'static str,
    event: Option<String>,
    ack: Option<String>,
)
    requires
        call_ensures(CancelDisposition::as_str, (disposition,), name),
        call_ensures(progress_event, (operation_id, progress), event),
        call_ensures(cancel_ack, (operation_id, disposition), ack),
    ensures
        event matches Some(text) && text@ == object(
            seq![
                ("schema_version"@, decimal(3)),
                ("operation_id"@, in_quotes(operation_id@)),
                ("kind"@, in_quotes("progress"@)),
                (
                    "state"@,
                    in_quotes(
                        if progress == LoginProgress::Waiting {
                            "waiting"@
                        } else if progress == LoginProgress::Exchanging {
                            "exchanging"@
                        } else {
                            "committing"@
                        },
                    ),
                ),
            ],
        ),
        ack matches Some(text) && text@ == object(
            seq![
                ("schema_version"@, decimal(3)),
                ("operation_id"@, in_quotes(operation_id@)),
                ("kind"@, in_quotes("cancel_ack"@)),
                ("disposition"@, in_quotes(name@)),
            ],
        ),
{
    let word = if progress == LoginProgress::Waiting {
        "waiting"@
    } else if progress == LoginProgress::Exchanging {
        "exchanging"@
    } else {
        "committing"@
    };
    let one = seq![
        ("schema_version"@, decimal(3)),
        ("operation_id"@, in_quotes(operation_id@)),
        ("kind"@, in_quotes("progress"@)),
        ("state"@, in_quotes(word)),
    ];
    law_objects_are_listings(one);
    assert(present(one) =~= crate::codex_auth::cli::event_members(
        operation_id@,
        "progress"@,
    ).push(
        (
            "state"@,
            crate::json_text::json_string_of(crate::codex_auth::cli::progress_name(progress)),
        ),
    ));
    let two = seq![
        ("schema_version"@, decimal(3)),
        ("operation_id"@, in_quotes(operation_id@)),
        ("kind"@, in_quotes("cancel_ack"@)),
        ("disposition"@, in_quotes(name@)),
    ];
    law_objects_are_listings(two);
    assert(present(two) =~= crate::codex_auth::cli::event_members(
        operation_id@,
        "cancel_ack"@,
    ).push(("disposition"@, crate::json_text::json_string_of(disposition.name()))));
}

/// A failure is told line by line without its message.
pub open spec fn told_error(error: OAuthFlowError, code: Seq<char>) -> Seq<char> {
    object(
        seq![
            ("code"@, in_quotes(code)),
            ("stage"@, in_quotes(error.stage@)),
            ("retryable"@, truth(error.retryable)),
        ] + reply_pairs(error),
    )
}

proof fn lemma_told_error(error: OAuthFlowError)
    ensures
        object_text(streaming_error_members(error@)) == Some(told_error(error, error.code.name())),
{
    let pairs = seq![
        ("code"@, in_quotes(error.code.name())),
        ("stage"@, in_quotes(error.stage@)),
        ("retryable"@, truth(error.retryable)),
    ] + reply_pairs(error);
    lemma_reply_members(error);
    law_objects_are_listings(pairs);
    assert(present(pairs) =~= seq![
        ("code"@, crate::json_text::json_string_of(error@.code.name())),
        ("stage"@, crate::json_text::json_string_of(error@.stage)),
        ("retryable"@, Some(crate::json_text::bool_text(error@.retryable))),
    ] + present(reply_pairs(error)));
}

/// The last line of an operation tells the status of one that succeeded, and of another the
/// failure, told apart from a cancellation; the exit code goes with it, and is eight where
/// the line could not be written.
pub proof fn law_operations_end(
    operation_id: &str,
    now: i64,
    status: AuthStatus,
    reason: &'static str,
    term: &'static str,
    error: OAuthFlowError,
    code: &'static str,
    exit: i32,
    succeeded: (Option<String>, i32),
    failed: (Option<String>, i32),
    told: Option<String>,
    written: i32,
    unwritten: i32,
)
    requires
        call_ensures(AuthStatusReason::as_str, (status.reason,), reason),
        call_ensures(expiry_state, (now, &status), term),
        call_ensures(OAuthErrorCode::as_str, (error.code,), code),
        call_ensures(exit_code, (error.code,), exit),
        call_ensures(
            terminal_event,
            (operation_id, now, &Ok::<AuthStatus, OAuthFlowError>(status)),
            succeeded,
        ),
        call_ensures(
            terminal_event,
            (operation_id, now, &Err::<AuthStatus, OAuthFlowError>(error)),
            failed,
        ),
        call_ensures(streaming_error, (&error,), told),
        call_ensures(streaming_exit, (true, exit), written),
        call_ensures(streaming_exit, (false, exit), unwritten),
    ensures
        written == exit,
        unwritten == 8,
        told matches Some(text) && text@ == told_error(error, code@),
        succeeded.1 == 0,
        succeeded.0 matches Some(text) && text@ == object(
            seq![
                ("schema_version"@, decimal(3)),
                ("operation_id"@, in_quotes(operation_id@)),
                ("kind"@, in_quotes("terminal"@)),
                ("state"@, in_quotes("succeeded"@)),
                ("status"@, object(status_pairs(status, reason@, term@))),
            ],
        ),
        failed.1 == exit,
        failed.0 matches Some(text) && text@ == object(
            seq![
                ("schema_version"@, decimal(3)),
                ("operation_id"@, in_quotes(operation_id@)),
                ("kind"@, in_quotes("terminal"@)),
                (
                    "state"@,
                    in_quotes(
                        if error.code == OAuthErrorCode::AuthCancelled {
                            "cancelled"@
                        } else {
                            "failed"@
                        },
                    ),
                ),
                ("error"@, told_error(error, code@)),
            ],
        ),
{
    lemma_status_text(now, status);
    lemma_told_error(error);
    let good = seq![
        ("schema_version"@, decimal(3)),
        ("operation_id"@, in_quotes(operation_id@)),
        ("kind"@, in_quotes("terminal"@)),
        ("state"@, in_quotes("succeeded"@)),
        ("status"@, object(status_pairs(status, reason@, term@))),
    ];
    law_objects_are_listings(good);
    let start = crate::codex_auth::cli::event_members(operation_id@, "terminal"@);
    assert(present(good) =~= start.push(
        ("state"@, crate::json_text::json_string_of("succeeded"@)),
    ).push(("status"@, object_text(status_members(now, status)))));
    let word = if error.code == OAuthErrorCode::AuthCancelled {
        "cancelled"@
    } else {
        "failed"@
    };
    let bad = seq![
        ("schema_version"@, decimal(3)),
        ("operation_id"@, in_quotes(operation_id@)),
        ("kind"@, in_quotes("terminal"@)),
        ("state"@, in_quotes(word)),
        ("error"@, told_error(error, code@)),
    ];
    law_objects_are_listings(bad);
    assert(present(bad) =~= start.push(("state"@, crate::json_text::json_string_of(word))).push(
        ("error"@, object_text(streaming_error_members(error@))),
    ));
}

} // verus!
