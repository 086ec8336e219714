//! The directory through which skills are installed.

use csswitch_gateway::json::JsonValue;
use csswitch_gateway::name_map::NameMap;
use csswitch_gateway::server::bridge::{
    acquire_bridge_host_lock, bridge_final_response_exists, bridge_operation,
    bridge_operation_timeout, bridge_request_failed, bridge_request_id,
    bridge_request_internal_failed, bridge_request_is_readable, bridge_request_is_replay,
    load_bridge_request,
    orphaned_request_id, read_regular_bridge_request, recover_orphaned_bridge_processing, start_skill_install_bridge,
    valid_bridge_id, write_bridge_response_once, write_bridge_status, BridgeAnswer, BridgeEvent,
    BridgePath, BridgePhase, BridgeProgress, BridgeRun, BridgeTask, DirLookup, FileFacts,
    FileLookup, LinkOutcome, StartEvent, StartTask, Validity, MAX_BRIDGE_REQUEST_BYTES,
};
use serde_json::Value;

fn parsed(json: Option<String>) -> Value {
    serde_json::from_str(&json.unwrap()).unwrap()
}

fn private_file() -> FileFacts {
    FileFacts { is_file: true, owned: true, mode: 0o600, length: 2 }
}

#[test]
fn bridge_replay_window_rejects_duplicates_and_prunes_expired_ids() {
    let mut used = NameMap::new();
    assert!(!bridge_request_is_replay(&mut used, "first", 100, 100));
    assert!(bridge_request_is_replay(&mut used, "first", 100, 101));
    assert!(!bridge_request_is_replay(&mut used, "second", 286, 286));
    assert_eq!(used.len(), 1, "expired replay ids must not grow forever");
}

#[test]
fn bridge_status_has_bounded_heartbeat_contract() {
    let id = "1".repeat(32);
    let progress = BridgeProgress::new("download", "downloading", 4);
    let status = parsed(write_bridge_status(1, &id, "install", 100, 1_800, 160, &progress));
    assert_eq!(status["status"], "PROCESSING");
    assert_eq!(status["phase"], "download");
    assert_eq!(status["sequence"], 4);
    assert_eq!(status["deadline_at"], 1_900);
    assert_eq!(status["poll_after_seconds"], 3);
    assert_eq!(status["elapsed_seconds"], 60);
    assert_eq!(status["response_filename"], format!("{id}.response.json"));
    let last = parsed(write_bridge_status(1, &id, "x", u64::MAX, 1, 0, &progress));
    assert_eq!(last["deadline_at"], u64::MAX);
    assert_eq!(last["elapsed_seconds"], 0);
    assert_eq!(bridge_operation_timeout("install", 1_800), 1_800);
    assert_eq!(bridge_operation_timeout("list", 1_800), 60);
}

#[test]
fn progress_is_numbered() {
    let mut progress = BridgeProgress::new("accepted", "one", 0);
    progress.report("download", "two");
    assert_eq!((progress.phase.as_str(), progress.sequence), ("download", 1));
    progress.sequence = u64::MAX;
    progress.report("install", "three");
    assert_eq!(progress.sequence, u64::MAX);
}

#[test]
fn bridge_finalization_cleans_processing_for_success_failure_and_timeout() {
    let written =
        write_bridge_response_once(Ok(false), Some(LinkOutcome::Linked));
    assert_eq!(written, Ok(true));
    let mut used = NameMap::new();
    for (digit, broke_down, expected) in [
        ('2', false, BridgeAnswer::Outcome),
        ('3', false, BridgeAnswer::Outcome),
        ('4', true, BridgeAnswer::InternalFailed),
    ] {
        let name = format!("{}.request.json", digit.to_string().repeat(32));
        let mut run = BridgeRun::new(&name).unwrap();
        assert_eq!(
            run.step(BridgeEvent::Claimed(true), &mut used, 1_800),
            BridgeTask::LookForAnswer
        );
        let looked = BridgeEvent::Looked { found: Ok(false), now: 99 };
        assert_eq!(run.step(looked, &mut used, 1_800), BridgeTask::Load);
        let request = JsonValue::parse(br#"{"operation":"install","issued_at":100}"#).ok();
        let loaded = BridgeEvent::Loaded { request, now: 100 };
        assert_eq!(run.step(loaded, &mut used, 1_800), BridgeTask::Accept);
        let validated = BridgeEvent::Validated { validity: Validity::Valid, now: 101 };
        assert_eq!(run.step(validated, &mut used, 1_800), BridgeTask::Handle);
        assert_eq!((run.issued_at, run.started_at), (Some(100), 100));
        assert_eq!((run.operation.as_str(), run.timeout_seconds), ("install", 1_800));
        assert_eq!(
            run.step(BridgeEvent::Handled { broke_down }, &mut used, 1_800),
            BridgeTask::Answer(expected)
        );
        assert_eq!(run.step(BridgeEvent::Answered(true), &mut used, 1_800), BridgeTask::Cleanup);
        assert_eq!(run.phase, BridgePhase::Done);
    }
}

#[test]
fn requests_are_carried_out_once() {
    let mut used = NameMap::new();
    let name = format!("{}.request.json", "7".repeat(32));
    let load = |used: &mut NameMap<u64>, body: &[u8], validity: Validity| {
        let mut run = BridgeRun::new(&name).unwrap();
        assert_eq!((run.started_at, run.timeout_seconds), (0, 0));
        run.step(BridgeEvent::Claimed(true), used, 60);
        run.step(BridgeEvent::Looked { found: Ok(false), now: 99 }, used, 60);
        let request = load_bridge_request(Some(&private_file()), Some(body.to_vec()));
        run.step(BridgeEvent::Loaded { request, now: 100 }, used, 60);
        run.step(BridgeEvent::Validated { validity, now: 100 }, used, 60)
    };
    let failed = BridgeTask::Answer(BridgeAnswer::Failed);
    let internal = BridgeTask::Answer(BridgeAnswer::InternalFailed);
    let request = br#"{"operation":"list","issued_at":90}"#;
    assert_eq!(load(&mut used, b"no JSON", Validity::Valid), failed);
    assert_eq!(load(&mut used, b"no JSON", Validity::BrokeDown), failed);
    assert_eq!(load(&mut used, request, Validity::Invalid), failed);
    assert_eq!(load(&mut used, request, Validity::BrokeDown), internal);
    assert_eq!(used.len(), 0);
    assert_eq!(load(&mut used, request, Validity::Valid), BridgeTask::Handle);
    assert_eq!(load(&mut used, request, Validity::Valid), failed);
    let mut run = BridgeRun::new(&name).unwrap();
    assert_eq!(run.step(BridgeEvent::Claimed(false), &mut used, 60), BridgeTask::Skip);
    let mut answered = BridgeRun::new(&name).unwrap();
    answered.step(BridgeEvent::Claimed(true), &mut used, 60);
    assert_eq!(
        answered.step(BridgeEvent::Looked { found: Ok(true), now: 5 }, &mut used, 60),
        BridgeTask::Cleanup
    );
    let mut doubtful = BridgeRun::new(&name).unwrap();
    doubtful.step(BridgeEvent::Claimed(true), &mut used, 60);
    let looked = BridgeEvent::Looked { found: Err("unsafe".into()), now: 7 };
    assert_eq!(doubtful.step(looked, &mut used, 1_800), BridgeTask::Leave { sequence: 0 });
    assert_eq!((doubtful.started_at, doubtful.timeout_seconds), (7, 60));
    assert_eq!(bridge_operation(None), "unknown");
    assert_eq!(bridge_operation(JsonValue::parse(br#"{"operation":7}"#).ok().as_ref()), "unknown");
}

#[test]
fn duplicate_bridge_id_never_overwrites_first_final_response() {
    assert_eq!(write_bridge_response_once(Ok(false), Some(LinkOutcome::Linked)), Ok(true));
    assert_eq!(write_bridge_response_once(Ok(true), None), Ok(false));
    assert_eq!(write_bridge_response_once(Ok(false), Some(LinkOutcome::AlreadyThere)), Ok(false));
    assert_eq!(
        write_bridge_response_once(Ok(false), Some(LinkOutcome::Failed("full".into()))),
        Err("full".to_string())
    );
    assert_eq!(write_bridge_response_once(Err("why".into()), None), Err("why".to_string()));
}

#[test]
fn gateway_restart_recovers_orphaned_processing_to_final_response() {
    let id = "6".repeat(32);
    assert_eq!(orphaned_request_id(&format!("{id}.processing")), Some(id.clone()));
    let response = parsed(recover_orphaned_bridge_processing(1, &id));
    assert_eq!(response["status"], "REQUEST_INTERRUPTED");
    assert_eq!(response["retryable"], true);
    assert_eq!(response["request_terminal"], true);
    assert_eq!(response["automatic_retry_allowed"], false);
    assert_eq!(response["attach_state"], "UNKNOWN");
    assert_eq!(response["request_id"], id);
}

#[test]
fn refusals_are_answered() {
    let refused = parsed(bridge_request_failed(1));
    assert_eq!(refused["status"], "REQUEST_FAILED");
    assert_eq!(refused["directory_commit"], false);
    let broken = parsed(bridge_request_internal_failed(1));
    assert!(broken["directory_commit"].is_null());
    assert_eq!(broken["retryable"], true);
    assert_eq!(parsed(BridgeAnswer::Failed.text(1, None)), refused);
    assert_eq!(parsed(BridgeAnswer::InternalFailed.text(1, None)), broken);
    assert_eq!(BridgeAnswer::Outcome.text(1, Some("{}".into())), Some("{}".to_string()));
}

#[test]
fn bridge_host_lock_allows_only_one_recovery_owner() {
    assert!(acquire_bridge_host_lock(&private_file(), true).is_ok());
    assert_eq!(
        acquire_bridge_host_lock(&private_file(), false),
        Err("Skill bridge already has an active host")
    );
    let shared = FileFacts { mode: 0o620, ..private_file() };
    assert_eq!(
        acquire_bridge_host_lock(&shared, true),
        Err("refusing unsafe Skill bridge host lock")
    );
}

fn bridge_path(is_absolute: bool, name: &str) -> StartEvent {
    StartEvent::Asked(Some(BridgePath { is_absolute, name: name.into() }))
}

#[test]
fn bridge_is_started_step_by_step() {
    let next = start_skill_install_bridge;
    let facts = private_file();
    assert!(matches!(next(StartEvent::Asked(None)), StartTask::Idle));
    assert!(matches!(next(bridge_path(true, "CSSwitch-Skill-Bridge-1")), StartTask::LookForLinks));
    assert!(matches!(next(StartEvent::Links(Ok(false))), StartTask::Look));
    assert!(matches!(next(StartEvent::Looked(DirLookup::Directory)), StartTask::Restrict));
    assert!(matches!(next(StartEvent::Looked(DirLookup::Missing)), StartTask::Create));
    assert!(matches!(next(StartEvent::Created(Ok(()))), StartTask::Restrict));
    assert!(matches!(next(StartEvent::Restricted(Ok(()))), StartTask::ReadOwner));
    assert!(matches!(next(StartEvent::Owner(Ok(true))), StartTask::OpenLock));
    assert!(matches!(next(StartEvent::LockOpened(Ok(facts))), StartTask::Lock));
    assert!(matches!(next(StartEvent::Locked { facts, locked: true }), StartTask::Recover));
    assert!(matches!(next(StartEvent::Recovered(Ok(()))), StartTask::Serve));
}

#[test]
fn bridge_is_started_only_in_a_safe_directory() {
    let facts = private_file();
    let shared = FileFacts { mode: 0o620, ..facts };
    let refusals = [
        (bridge_path(false, "CSSwitch-Skill-Bridge-1"), "refusing unsafe Skill install bridge path"),
        (bridge_path(true, "tmp"), "refusing unsafe Skill install bridge path"),
        (StartEvent::Links(Ok(true)), "refusing symlink in Skill install bridge path"),
        (StartEvent::Looked(DirLookup::Other), "refusing non-directory Skill install bridge path"),
        (StartEvent::Owner(Ok(false)), "refusing Skill install bridge owned by another user"),
        (StartEvent::LockOpened(Ok(shared)), "refusing unsafe Skill bridge host lock"),
        (StartEvent::Locked { facts, locked: false }, "Skill bridge already has an active host"),
        (StartEvent::Links(Err("no rights".into())), "no rights"),
        (StartEvent::Looked(DirLookup::Failed("no disk".into())), "no disk"),
        (StartEvent::Created(Err("no space".into())), "no space"),
        (StartEvent::Restricted(Err("no chmod".into())), "no chmod"),
        (StartEvent::Owner(Err("no stat".into())), "no stat"),
        (StartEvent::LockOpened(Err("no lock".into())), "no lock"),
        (StartEvent::Recovered(Err("no answer".into())), "no answer"),
    ];
    for (event, reason) in refusals {
        assert!(matches!(
            start_skill_install_bridge(event),
            StartTask::Refuse(told) if told == reason
        ));
    }
}

#[test]
fn bridge_reader_rejects_symlink_and_fifo_without_blocking() {
    assert_eq!(
        read_regular_bridge_request(Some(&private_file()), Some(b"{}".to_vec())),
        Ok(b"{}".to_vec())
    );
    assert!(read_regular_bridge_request(None, None).is_err());
    let fifo = FileFacts { is_file: false, ..private_file() };
    assert!(read_regular_bridge_request(Some(&fifo), Some(b"{}".to_vec())).is_err());
    let shared = FileFacts { mode: 0o602, ..private_file() };
    assert!(read_regular_bridge_request(Some(&shared), Some(b"{}".to_vec())).is_err());
    let long = vec![b' '; MAX_BRIDGE_REQUEST_BYTES as usize + 1];
    assert!(read_regular_bridge_request(Some(&private_file()), Some(long)).is_err());
}

#[test]
fn names_and_answers_are_recognised() {
    let id = "0123456789abcdef".repeat(2);
    assert!(valid_bridge_id(&id));
    assert!(!valid_bridge_id(&id.to_uppercase()));
    assert_eq!(bridge_request_id(&format!("{id}.request.json")), Some(id));
    assert_eq!(bridge_request_id("x.request.json"), None);
    assert_eq!(bridge_final_response_exists(FileLookup::Missing), Ok(false));
    assert_eq!(bridge_final_response_exists(FileLookup::Found(private_file())), Ok(true));
    let foreign = FileFacts { owned: false, ..private_file() };
    assert!(bridge_final_response_exists(FileLookup::Found(foreign)).is_err());
    assert_eq!(
        bridge_final_response_exists(FileLookup::Failed("why".into())),
        Err("why".to_string())
    );
}

#[test]
fn first_and_last_statuses_have_fixed_words() {
    let accepted = BridgeProgress::accepted();
    assert_eq!(accepted.phase, "accepted");
    assert_eq!(accepted.message, "宿主已接收唯一请求，正在开始处理");
    assert_eq!(accepted.sequence, 0);
    let untouched = BridgeProgress::left(0);
    assert_eq!(untouched.phase, "finalization_failed");
    assert_eq!(
        untouched.message,
        "检测到非法的既有最终响应；请求未执行，.processing 已保留供安全恢复"
    );
    let unwritten = BridgeProgress::left(u64::MAX);
    assert_eq!(unwritten.sequence, u64::MAX);
    assert_eq!(unwritten.message, "最终响应写入失败；.processing 已保留，gateway 重启后会恢复");
}

#[test]
fn request_file_is_looked_at_before_it_is_read() {
    assert!(bridge_request_is_readable(&private_file()));
    assert!(bridge_request_is_readable(&FileFacts { mode: 0o644, ..private_file() }));
    let refused = [
        FileFacts { is_file: false, ..private_file() },
        FileFacts { owned: false, ..private_file() },
        FileFacts { mode: 0o620, ..private_file() },
        FileFacts { length: MAX_BRIDGE_REQUEST_BYTES + 1, ..private_file() },
    ];
    for facts in refused {
        assert!(!bridge_request_is_readable(&facts));
    }
}
