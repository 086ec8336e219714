//! The command line of the sign-in.

use csswitch_gateway::codex_auth::cli::{
    cancel_ack, is_cancel_line, logout_local_only, production_state_root_from, progress_event,
    run_cli, run_cli_with, run_streaming_cli, streaming_command, streaming_exit, terminal_event,
    valid_cancel_input, valid_operation_id, CancelInput, Command, NdjsonWriter, StreamingCommand,
    StreamingStart, WarningView,
    MAX_NDJSON_LINE_BYTES, MAX_NDJSON_TOTAL_BYTES,
};
use csswitch_gateway::codex_auth::login_async::{CancelDisposition, LoginProgress};
use csswitch_gateway::codex_auth::oauth::{
    OAuthErrorCode, OAuthFlowError, RefreshTransport, RevokeTransport,
};
use csswitch_gateway::codex_auth::storage::{
    AuthStatus, AuthStatusReason, RefreshSnapshot, RefreshUpdate, RevokeToken, RevokeTokenKind,
    StorageError,
};
use csswitch_gateway::codex_auth::{
    production_status, refresh_production_for_generation, run_production_logout,
    run_production_logout_local, state_root_from_home, LogoutEvent, LogoutTask, RefreshEvent,
    RefreshTask,
};
use serde_json::Value;
use std::cell::Cell;

#[test]
fn production_state_root_requires_absolute_home() {
    assert!(production_state_root_from(None, false).is_err());
    assert!(production_state_root_from(Some(b"relative"), false).is_err());
    assert_eq!(
        production_state_root_from(Some(b"/srv/user"), false).unwrap(),
        b"/srv/user/.csswitch"
    );
}

#[test]
fn auth_state_root_is_compile_time_isolated_by_build_variant() {
    let home = b"/tmp/csswitch-home-contract";
    assert_eq!(
        state_root_from_home(home, true),
        b"/tmp/csswitch-home-contract/.csswitch-acceptance"
    );
    assert_eq!(state_root_from_home(home, false), b"/tmp/csswitch-home-contract/.csswitch");
    assert_eq!(state_root_from_home(b"/", false), b"/.csswitch");
}

#[test]
fn legacy_device_login_command_is_rejected_before_any_auth_work() {
    let start = |args: &[String]| run_streaming_cli(args, None, true);
    assert!(matches!(start(&["login-device".into()]), StreamingStart::Exit(2)));
    assert!(matches!(
        start(&["login-device".into(), "extra".into()]),
        StreamingStart::Exit(2)
    ));
}

#[test]
fn streaming_login_needs_a_name_and_a_ready_platform() {
    let login = ["login-browser".to_string()];
    let id = "0123456789abcdef".repeat(2);
    assert!(valid_operation_id(&id));
    assert!(valid_operation_id(&id.to_uppercase()));
    assert!(!valid_operation_id(&"g".repeat(32)));
    assert!(!valid_operation_id("00"));
    assert!(matches!(run_streaming_cli(&login, Some(&id), true), StreamingStart::Login));
    assert!(matches!(run_streaming_cli(&login, Some(&id), false), StreamingStart::Exit(6)));
    assert!(matches!(run_streaming_cli(&login, Some("no"), true), StreamingStart::Exit(2)));
    assert!(matches!(run_streaming_cli(&login, None, true), StreamingStart::Exit(2)));
    assert!(matches!(
        run_streaming_cli(&["status".to_string()], Some(&id), true),
        StreamingStart::NotStreaming
    ));
    assert!(matches!(run_streaming_cli(&[], None, true), StreamingStart::NotStreaming));
}

/// What a line holds, if it has the fields of a cancellation and no other.
fn cancel_input(line: &str) -> Option<CancelInput> {
    assert!(is_cancel_line(line.as_bytes()));
    let value: Value = serde_json::from_str(line).ok()?;
    let object = value.as_object()?;
    if object.len() != 3 {
        return None;
    }
    Some(CancelInput {
        schema_version: object.get("schema_version")?.as_u64()? as u32,
        operation_id: object.get("operation_id")?.as_str()?.to_string(),
        command: object.get("command")?.as_str()?.to_string(),
    })
}

#[test]
fn cancel_input_requires_schema_v3_exact_operation_and_fields() {
    let operation_id = "ab".repeat(16);
    let valid = |line: &str| valid_cancel_input(cancel_input(line).as_ref(), &operation_id);
    let v3 = format!(
        "{{\"schema_version\":3,\"operation_id\":\"{operation_id}\",\"command\":\"cancel\"}}\n"
    );
    assert!(valid(&v3));
    assert!(!valid(&v3.replacen("\"schema_version\":3", "\"schema_version\":2", 1)));
    assert!(!valid(&v3.replacen(&operation_id, &"cd".repeat(16), 1)));
    assert!(!valid(&v3.replacen("\"command\":\"cancel\"", "\"command\":\"status\"", 1)));
    assert!(!valid(&v3.replacen("\"command\":", "\"extra\":true,\"command\":", 1)));
}

#[test]
fn cancel_lines_are_bounded_and_whole() {
    assert!(!is_cancel_line(b""));
    assert!(!is_cancel_line(b"{}"));
    let mut line = vec![b' '; MAX_NDJSON_LINE_BYTES - 1];
    line.push(b'\n');
    assert!(is_cancel_line(&line));
    line.insert(0, b' ');
    assert!(!is_cancel_line(&line));
}

fn status(authenticated: bool, expires_at: Option<i64>) -> AuthStatus {
    AuthStatus {
        authenticated,
        reason: if authenticated {
            AuthStatusReason::Ready
        } else {
            AuthStatusReason::StateMissing
        },
        account_hash: authenticated.then(|| "account-hash".into()),
        expires_at,
        auth_epoch: Some("00112233445566778899aabbccddeeff".into()),
        auth_generation: 7,
    }
}

#[test]
fn success_is_one_line_versioned_and_secret_free() {
    let run = run_cli_with(Command::Status, 1_000, Ok(status(true, Some(2_000))), None);
    assert_eq!(run.exit_code, 0);
    assert!(!run.json.contains('\n'));
    let value: Value = serde_json::from_str(&run.json).unwrap();
    assert_eq!(value["schema_version"], 3);
    assert_eq!(value["ok"], true);
    assert_eq!(value["command"], "status");
    assert_eq!(value["status"]["reason"], "ready");
    assert_eq!(value["status"]["expiry_state"], "valid");
    assert!(value["status"].get("access_token").is_none());
    assert!(value["status"].get("refresh_token").is_none());
}

#[test]
fn status_is_printed_member_by_member() {
    let mut told = status(true, Some(-5));
    told.account_hash = Some("a\"b".into());
    let run = run_cli_with(Command::Logout, 0, Ok(told), None);
    let value: Value = serde_json::from_str(&run.json).unwrap();
    assert_eq!(value["status"]["account_hash"], "a\"b");
    assert_eq!(value["status"]["expires_at"], -5);
    assert_eq!(value["status"]["auth_generation"], 7);
    assert_eq!(value["status"]["auth_epoch"], "00112233445566778899aabbccddeeff");
    assert!(value.get("warning").is_none());
    let run = run_cli_with(Command::Status, 0, Ok(status(false, None)), None);
    let value: Value = serde_json::from_str(&run.json).unwrap();
    assert!(value["status"]["account_hash"].is_null());
    assert!(value["status"]["expires_at"].is_null());
}

#[test]
fn expiry_states_are_stable() {
    let cases = [
        (false, None, "missing"),
        (true, None, "unknown"),
        (true, Some(999), "expired"),
        (true, Some(1_300), "expiring"),
        (true, Some(1_301), "valid"),
    ];
    for (authenticated, expires_at, expected) in cases {
        let run =
            run_cli_with(Command::Status, 1_000, Ok(status(authenticated, expires_at)), None);
        let value: Value = serde_json::from_str(&run.json).unwrap();
        assert_eq!(value["status"]["expiry_state"], expected);
    }
}

#[test]
fn errors_keep_stable_codes_exit_codes_and_redaction() {
    let private_detail = "private-token-detail";
    let error = OAuthFlowError::from(StorageError::InvalidState(private_detail.into()));
    let run = run_cli_with(Command::Status, 0, Err(error), None);
    assert_eq!(run.exit_code, 6);
    assert!(!run.json.contains(private_detail));
    let value: Value = serde_json::from_str(&run.json).unwrap();
    assert_eq!(value["error"]["code"], "auth_state_invalid");
    assert_eq!(value["command"], "status");
}

#[test]
fn every_error_code_has_its_exit_code() {
    let codes = [
        (OAuthErrorCode::NotAuthenticated, 3),
        (OAuthErrorCode::OAuthDenied, 4),
        (OAuthErrorCode::BrowserOpenFailed, 4),
        (OAuthErrorCode::CallbackTimeout, 5),
        (OAuthErrorCode::AuthBusy, 6),
        (OAuthErrorCode::Storage, 6),
    ];
    for (code, exit) in codes {
        let run = run_cli_with(Command::Status, 0, Err(OAuthFlowError::new(code, true, "m")), None);
        assert_eq!(run.exit_code, exit);
        let value: Value = serde_json::from_str(&run.json).unwrap();
        assert_eq!(value["error"]["code"], code.as_str());
        assert_eq!(value["error"]["retryable"], true);
        assert_eq!(value["error"]["stage"], "token_exchange");
    }
}

#[test]
fn local_logout_warning_is_bounded_and_contains_no_route_details() {
    let run = run_cli_with(
        Command::Logout,
        1_000,
        Ok(status(false, None)),
        Some(WarningView { code: "revoke_skipped", reason: "proxy_config_invalid" }),
    );
    assert_eq!(run.exit_code, 0);
    let value: Value = serde_json::from_str(&run.json).unwrap();
    assert_eq!(value["warning"]["code"], "revoke_skipped");
    assert_eq!(value["warning"]["reason"], "proxy_config_invalid");
    for forbidden in ["proxy_url", "http://", "https://", "socks5://", "socks5h://"] {
        assert!(!run.json.contains(forbidden));
    }
    assert!(logout_local_only(Command::Logout, Some("proxy_config_invalid")).is_some());
    assert!(logout_local_only(Command::Logout, Some("other")).is_none());
    assert!(logout_local_only(Command::Status, Some("proxy_config_invalid")).is_none());
}

#[test]
fn invalid_arguments_are_not_echoed() {
    let secret = "private-unknown-argument";
    let run = run_cli(&[secret.into(), "extra".into()]).unwrap_err();
    assert_eq!(run.exit_code, 2);
    assert!(!run.json.contains(secret));
    let value: Value = serde_json::from_str(&run.json).unwrap();
    assert!(value["command"].is_null());
    assert_eq!(value["error"]["code"], "invalid_arguments");
    assert_eq!(run_cli(&["status".into()]), Ok(Command::Status));
    assert_eq!(run_cli(&["logout".into()]), Ok(Command::Logout));
}

#[test]
fn lines_of_an_operation_are_bounded() {
    let mut writer = NdjsonWriter::new();
    let line = progress_event("id", LoginProgress::Waiting);
    let value: Value = serde_json::from_str(line.as_deref().unwrap()).unwrap();
    assert_eq!(value["kind"], "progress");
    assert_eq!(value["state"], "waiting");
    let bytes = writer.emit(line).unwrap();
    assert_eq!(bytes.last(), Some(&b'\n'));
    assert_eq!(writer.wrote(bytes.len(), true), Ok(()));
    assert_eq!(writer.total, bytes.len());
    assert!(writer.emit(Some("two\nlines".into())).is_none());

    let mut writer = NdjsonWriter::new();
    assert!(writer.emit(Some("x".repeat(MAX_NDJSON_LINE_BYTES + 1))).is_none());
    let mut full = NdjsonWriter { total: MAX_NDJSON_TOTAL_BYTES - 1, failed: false };
    assert!(full.emit(Some("x".into())).is_none());
    let mut broken = NdjsonWriter::new();
    assert_eq!(broken.wrote(3, false), Err(()));
    assert!(broken.emit(Some("x".into())).is_none());
}

#[test]
fn operation_ends_with_one_terminal_line() {
    let (json, code) = terminal_event("id", 0, &Ok(status(true, None)));
    let value: Value = serde_json::from_str(json.as_deref().unwrap()).unwrap();
    assert_eq!((value["state"].as_str(), code), (Some("succeeded"), 0));
    assert_eq!(value["status"]["authenticated"], true);
    let cancelled = OAuthFlowError::new(OAuthErrorCode::AuthCancelled, true, "m");
    let (json, _) = terminal_event("id", 0, &Err(cancelled));
    let value: Value = serde_json::from_str(json.as_deref().unwrap()).unwrap();
    assert_eq!(value["state"], "cancelled");
    assert!(value["error"].get("message").is_none());
    let failed = OAuthFlowError::new(OAuthErrorCode::OAuthDenied, false, "m")
        .with_http(Some(400), Some("json"), Some(false))
        .with_transport("tls");
    let (json, code) = terminal_event("id", 0, &Err(failed));
    let value: Value = serde_json::from_str(json.as_deref().unwrap()).unwrap();
    assert_eq!((value["state"].as_str(), code), (Some("failed"), 4));
    assert_eq!(value["error"]["upstream_status"], 400);
    assert_eq!(value["error"]["transport_kind"], "tls");
    assert_eq!(streaming_exit(true, 4), 4);
    assert_eq!(streaming_exit(false, 4), 8);
    let ack = cancel_ack("id", CancelDisposition::Accepted).unwrap();
    let value: Value = serde_json::from_str(&ack).unwrap();
    assert_eq!(value["disposition"], "accepted");
}

/// A credential store in memory.
struct Store {
    generation: Cell<u64>,
    authenticated: Cell<bool>,
}

impl Store {
    fn signed_in() -> Self {
        Store { generation: Cell::new(1), authenticated: Cell::new(true) }
    }

    fn status(&self) -> AuthStatus {
        let mut told = status(self.authenticated.get(), None);
        told.auth_generation = self.generation.get();
        told
    }

    fn advance(&self, authenticated: bool) -> AuthStatus {
        self.generation.set(self.generation.get() + 1);
        self.authenticated.set(authenticated);
        self.status()
    }
}

fn refresh<R: RefreshTransport>(
    store: &Store,
    transport: &R,
    generation: u64,
) -> Result<AuthStatus, OAuthFlowError> {
    let mut event = RefreshEvent::Transport(Ok(()));
    loop {
        event = match refresh_production_for_generation(generation, event) {
            RefreshTask::Lock => RefreshEvent::Locked(Ok(())),
            RefreshTask::TakeSnapshot => RefreshEvent::Snapshot(Ok(RefreshSnapshot {
                auth_generation: store.generation.get(),
                refresh_token: "refresh-old".into(),
            })),
            RefreshTask::ReadStatus => RefreshEvent::Status(Ok(store.status())),
            RefreshTask::Refresh { refresh_token } => {
                RefreshEvent::Refreshed(transport.refresh(&refresh_token))
            }
            RefreshTask::Commit(_) => RefreshEvent::Committed(Ok(store.advance(true))),
            RefreshTask::Finish(result) => return result,
        };
    }
}

struct CountingRefresh {
    calls: Cell<usize>,
}

impl RefreshTransport for CountingRefresh {
    fn refresh(&self, refresh_token: &str) -> Result<RefreshUpdate, OAuthFlowError> {
        assert_eq!(refresh_token, "refresh-old");
        self.calls.set(self.calls.get() + 1);
        Ok(RefreshUpdate {
            access_token: Some("access-new".into()),
            refresh_token: Some("refresh-new".into()),
            id_token: None,
            account_id: None,
            expires_at: Some(2_100_000_000),
        })
    }
}

#[test]
fn concurrent_refresh_for_same_generation_has_one_network_writer() {
    let store = Store::signed_in();
    let transport = CountingRefresh { calls: Cell::new(0) };
    assert_eq!(refresh(&store, &transport, 1).unwrap().auth_generation, 2);
    assert_eq!(refresh(&store, &transport, 1).unwrap().auth_generation, 2);
    assert_eq!(transport.calls.get(), 1);
    assert_eq!(store.status().auth_generation, 2);
}

struct FailedRefresh;

impl RefreshTransport for FailedRefresh {
    fn refresh(&self, _refresh_token: &str) -> Result<RefreshUpdate, OAuthFlowError> {
        Err(OAuthFlowError::new(OAuthErrorCode::OAuthNetwork, true, "injected refresh failure"))
    }
}

#[test]
fn failed_refresh_keeps_generation_and_credentials_active() {
    let store = Store::signed_in();
    let error = refresh(&store, &FailedRefresh, 1).unwrap_err();
    assert_eq!(error.code, OAuthErrorCode::OAuthNetwork);
    let status = store.status();
    assert!(status.authenticated);
    assert_eq!(status.auth_generation, 1);
}

#[test]
fn refused_store_ends_a_refresh() {
    let locked = refresh_production_for_generation(1, RefreshEvent::Locked(Err(StorageError::Busy)));
    assert!(matches!(locked, RefreshTask::Finish(Err(error))
        if error.code == OAuthErrorCode::AuthBusy));
    let error = production_status(Err(StorageError::NotAuthenticated)).unwrap_err();
    assert_eq!(error.code, OAuthErrorCode::NotAuthenticated);
    assert!(production_status(Ok(status(true, None))).unwrap().authenticated);
}

struct FailedRevoke(Cell<usize>);

impl RevokeTransport for FailedRevoke {
    fn revoke(&self, _token: &RevokeToken) -> Result<(), OAuthFlowError> {
        self.0.set(self.0.get() + 1);
        Err(OAuthFlowError::new(OAuthErrorCode::OAuthNetwork, true, "injected revoke failure"))
    }
}

fn logout(store: &Store, revoker: Option<&FailedRevoke>) -> Result<AuthStatus, OAuthFlowError> {
    let mut event = LogoutEvent::Locked(Ok(()));
    loop {
        let task = match revoker {
            Some(_) => run_production_logout(true, event),
            None => run_production_logout_local(event),
        };
        event = match task {
            LogoutTask::FindToken => LogoutEvent::Token(Ok(Some(RevokeToken {
                kind: RevokeTokenKind::Refresh,
                token: "refresh-old".into(),
            }))),
            LogoutTask::Revoke(token) => LogoutEvent::Revoked(revoker.unwrap().revoke(&token)),
            LogoutTask::Commit => LogoutEvent::Committed(Ok(store.advance(false))),
            LogoutTask::Finish(result) => return result,
        };
    }
}

#[test]
fn revoke_failure_never_prevents_local_logout() {
    let store = Store::signed_in();
    let revoker = FailedRevoke(Cell::new(0));
    let status = logout(&store, Some(&revoker)).unwrap();
    assert!(!status.authenticated);
    assert_eq!(status.auth_generation, 2);
    assert_eq!(revoker.0.get(), 1);
    assert!(!store.status().authenticated);
}

#[test]
fn unavailable_revoke_client_still_performs_local_logout() {
    let store = Store::signed_in();
    let status = logout(&store, None).unwrap();
    assert!(!status.authenticated);
    assert_eq!(status.auth_generation, 2);
    assert!(!store.status().authenticated);
}

#[test]
fn revocation_does_not_show_in_a_logout() {
    let revoker = FailedRevoke(Cell::new(0));
    let (revoking, local) = (Store::signed_in(), Store::signed_in());
    let facts = |status: AuthStatus| (status.authenticated, status.auth_generation);
    assert_eq!(facts(logout(&revoking, Some(&revoker)).unwrap()), (false, 2));
    assert_eq!(facts(logout(&local, None).unwrap()), (false, 2));
    assert_eq!(facts(revoking.status()), facts(local.status()));
    assert_eq!(revoker.0.get(), 1);
}

#[test]
fn streaming_commands_are_told_by_their_arguments() {
    let command = |args: &[&str]| {
        let args: Vec<String> = args.iter().map(|arg| arg.to_string()).collect();
        streaming_command(&args)
    };
    assert_eq!(command(&[]), StreamingCommand::NotStreaming);
    assert_eq!(command(&["status"]), StreamingCommand::NotStreaming);
    assert_eq!(command(&["login-device"]), StreamingCommand::Rejected);
    assert_eq!(command(&["login-browser", "extra"]), StreamingCommand::Rejected);
    assert_eq!(command(&["login-browser"]), StreamingCommand::Login);
}
