//! What holds of every request that comes through the bridge.

use vstd::prelude::*;

use crate::json::{field_of, parsed_bytes, JsonTree, JsonValue};
use crate::json_text::object_text;
use crate::json_text_laws::{in_quotes, law_objects_are_listings, listing, present};
use crate::name_map::NameMap;
use crate::server::bridge::{
    acquire_bridge_host_lock, admit_bridge_request, bridge_final_response_exists, bridge_operation,
    bridge_operation_timeout, bridge_request_failed, bridge_request_id,
    bridge_request_internal_failed, bridge_request_is_readable, bridge_request_is_replay,
    failed_members, id_in, internal_members, interrupted_members, load_bridge_request,
    orphaned_request_id, read_regular_bridge_request, recover_orphaned_bridge_processing,
    start_skill_install_bridge, status_members, valid_bridge_id, write_bridge_response_once,
    write_bridge_status, BridgeAnswer, BridgeEvent, BridgePath, BridgePhase, BridgeProgress,
    BridgeRun, BridgeTask, DirLookup, FileFacts, FileLookup, LinkOutcome, StartEvent, StartTask,
    Validity, ACCEPTED_MESSAGE, BRIDGE_HEARTBEAT_SECONDS, FAILED_MESSAGE, INTERNAL_MESSAGE,
    INTERRUPTED_MESSAGE, UNTRUSTED_ANSWER_MESSAGE, UNWRITTEN_ANSWER_MESSAGE,
};
use crate::text::{decimal, found_at};

verus! {

/// The first characters of a name; a request is named by thirty-two digits of which each
/// is one of `0` to `9` or `a` to `f`.
pub proof fn law_names_of_requests(id: &str, valid: bool, i: int)
    requires
        call_ensures(valid_bridge_id, (id,), valid),
    ensures
        valid ==> id@.len() == 32,
        valid && 0 <= i < 32 ==> '0' <= id@[i] <= '9' || 'a' <= id@[i] <= 'f',
        id@.len() == 32 && (forall|k: int|
            0 <= k < 32 ==> '0' <= #[trigger] id@[k] <= '9' || 'a' <= id@[k] <= 'f') ==> valid,
{
    if valid && 0 <= i < 32 {
        assert(crate::text::is_hex_digit(id@[i]));
    }
    if id@.len() == 32 && (forall|k: int|
        0 <= k < 32 ==> '0' <= #[trigger] id@[k] <= '9' || 'a' <= id@[k] <= 'f') {
        assert forall|k: int| 0 <= k < 32 implies crate::text::is_hex_digit(#[trigger] id@[k]) by {
            assert('0' <= id@[k] <= '9' || 'a' <= id@[k] <= 'f');
        }
    }
}

/// A file asks for a request by its name and `.request.json`, and was left by one with
/// `.processing`.
pub proof fn law_names_of_files(
    name: &str,
    asked: Option<String>,
    left: Option<String>,
    stem: &str,
    valid: bool,
)
    requires
        call_ensures(bridge_request_id, (name,), asked),
        call_ensures(orphaned_request_id, (name,), left),
        call_ensures(valid_bridge_id, (stem,), valid),
    ensures
        asked matches Some(id) ==> name@ == id@ + ".request.json"@,
        left matches Some(id) ==> name@ == id@ + ".processing"@,
        name@ == stem@ + ".request.json"@ ==> (asked is Some <==> valid) && (asked matches Some(id)
            ==> id@ == stem@),
        name@ == stem@ + ".processing"@ ==> (left is Some <==> valid) && (left matches Some(id)
            ==> id@ == stem@),
{
    if let Some(id) = asked {
        assert(name@ =~= id@ + ".request.json"@);
    }
    if let Some(id) = left {
        assert(name@ =~= id@ + ".processing"@);
    }
    if name@ == stem@ + ".request.json"@ {
        assert(name@.take(name@.len() - ".request.json"@.len()) =~= stem@);
        assert(name@.skip(stem@.len() as int) =~= ".request.json"@);
    }
    if name@ == stem@ + ".processing"@ {
        assert(name@.take(name@.len() - ".processing"@.len()) =~= stem@);
        assert(name@.skip(stem@.len() as int) =~= ".processing"@);
    }
}

/// A lock is taken only on a file of the user's own to which nobody else has any right.
pub proof fn law_locks(facts: &FileFacts, locked: bool, result: Result<(), &'static str>)
    requires
        call_ensures(acquire_bridge_host_lock, (facts, locked), result),
    ensures
        result is Ok <==> facts.is_file && facts.owned && facts.mode % 64 == 0 && locked,
        !facts.is_file || !facts.owned || facts.mode % 64 != 0 ==> result is Err && result->Err_0@
            == "refusing unsafe Skill bridge host lock"@,
        facts.is_file && facts.owned && facts.mode % 64 == 0 && !locked ==> result is Err
            && result->Err_0@ == "Skill bridge already has an active host"@,
{
    let mode = facts.mode;
    assert(mode & 0o077 == mode % 64) by (bit_vector);
}

/// An answer counts where it is a file of the user's own to which nobody else has any
/// right; another in its place is an error, and none is none.
pub proof fn law_answers_that_exist(
    facts: FileFacts,
    reason: String,
    found: Result<bool, String>,
    missing: Result<bool, String>,
    failed: Result<bool, String>,
)
    requires
        call_ensures(bridge_final_response_exists, (FileLookup::Found(facts),), found),
        call_ensures(bridge_final_response_exists, (FileLookup::Missing,), missing),
        call_ensures(bridge_final_response_exists, (FileLookup::Failed(reason),), failed),
    ensures
        facts.is_file && facts.owned && facts.mode % 64 == 0 ==> found == Ok::<bool, String>(true),
        !facts.is_file || !facts.owned || facts.mode % 64 != 0 ==> found is Err && found->Err_0@
            == "invalid existing Skill bridge response"@,
        missing == Ok::<bool, String>(false),
        failed is Err && failed->Err_0@ == reason@,
{
    let mode = facts.mode;
    assert(mode & 0o077 == mode % 64) by (bit_vector);
}

/// A request is read where it is a file of the user's own, of at most a mebibyte, that
/// neither the group nor others can write.
pub proof fn law_requests_that_are_read(
    facts: &FileFacts,
    body: Vec<u8>,
    readable: bool,
    read: Result<Vec<u8>, &'static str>,
    unread: Result<Vec<u8>, &'static str>,
    unknown: Result<Vec<u8>, &'static str>,
    loaded: Option<JsonValue>,
)
    requires
        call_ensures(bridge_request_is_readable, (facts,), readable),
        call_ensures(read_regular_bridge_request, (Some(facts), Some(body)), read),
        call_ensures(read_regular_bridge_request, (Some(facts), None::<Vec<u8>>), unread),
        call_ensures(read_regular_bridge_request, (None::<&FileFacts>, Some(body)), unknown),
        call_ensures(load_bridge_request, (Some(facts), Some(body)), loaded),
    ensures
        readable <==> facts.is_file && facts.owned && facts.length <= 1_048_576 && facts.mode / 16
            % 2 == 0 && facts.mode / 2 % 2 == 0,
        read is Ok <==> readable && body@.len() <= 1_048_576,
        read matches Ok(bytes) ==> bytes@ == body@,
        read matches Err(reason) ==> reason@ == "invalid Skill bridge request"@,
        unread is Err && unknown is Err,
        loaded is Some <==> read is Ok && parsed_bytes(body@) is Ok,
        loaded matches Some(request) ==> parsed_bytes(body@) == Ok::<JsonTree, Seq<char>>(request@),
{
    let mode = facts.mode;
    assert(mode & 0o022 == 0 <==> mode / 16 % 2 == 0 && mode / 2 % 2 == 0) by (bit_vector);
}

/// The bridge is started step by step: the path is one of its own, holds no link, is a
/// directory that belongs to the user and is closed to others, and is locked; what an
/// earlier host left is answered before it serves.
pub proof fn law_start_of_the_bridge(
    path: BridgePath,
    of_nothing: StartTask,
    of_path: StartTask,
    of_no_link: StartTask,
    of_link: StartTask,
    of_directory: StartTask,
    of_missing: StartTask,
    of_other: StartTask,
)
    requires
        call_ensures(
            start_skill_install_bridge,
            (StartEvent::Asked(None::<BridgePath>),),
            of_nothing,
        ),
        call_ensures(start_skill_install_bridge, (StartEvent::Asked(Some(path)),), of_path),
        call_ensures(
            start_skill_install_bridge,
            (StartEvent::Links(Ok::<bool, String>(false)),),
            of_no_link,
        ),
        call_ensures(
            start_skill_install_bridge,
            (StartEvent::Links(Ok::<bool, String>(true)),),
            of_link,
        ),
        call_ensures(
            start_skill_install_bridge,
            (StartEvent::Looked(DirLookup::Directory),),
            of_directory,
        ),
        call_ensures(
            start_skill_install_bridge,
            (StartEvent::Looked(DirLookup::Missing),),
            of_missing,
        ),
        call_ensures(start_skill_install_bridge, (StartEvent::Looked(DirLookup::Other),), of_other),
    ensures
        of_nothing is Idle,
        of_path is LookForLinks <==> path.is_absolute && found_at(
            path.name@,
            "CSSwitch-Skill-Bridge-"@,
            0,
        ),
        !(of_path is LookForLinks) ==> (of_path matches StartTask::Refuse(reason) && reason@
            == "refusing unsafe Skill install bridge path"@),
        of_no_link is Look,
        of_link matches StartTask::Refuse(reason) && reason@
            == "refusing symlink in Skill install bridge path"@,
        of_directory is Restrict,
        of_missing is Create,
        of_other matches StartTask::Refuse(reason) && reason@
            == "refusing non-directory Skill install bridge path"@,
{
}

/// The rest of the start, from the rights of the directory on.
pub proof fn law_start_of_the_host(
    facts: FileFacts,
    locked: bool,
    lockable: Result<(), &'static str>,
    held: Result<(), &'static str>,
    of_created: StartTask,
    of_restricted: StartTask,
    of_owner: StartTask,
    of_stranger: StartTask,
    of_lock: StartTask,
    of_locked: StartTask,
    of_recovered: StartTask,
)
    requires
        call_ensures(acquire_bridge_host_lock, (&facts, true), lockable),
        call_ensures(acquire_bridge_host_lock, (&facts, locked), held),
        call_ensures(
            start_skill_install_bridge,
            (StartEvent::Created(Ok::<(), String>(())),),
            of_created,
        ),
        call_ensures(
            start_skill_install_bridge,
            (StartEvent::Restricted(Ok::<(), String>(())),),
            of_restricted,
        ),
        call_ensures(
            start_skill_install_bridge,
            (StartEvent::Owner(Ok::<bool, String>(true)),),
            of_owner,
        ),
        call_ensures(
            start_skill_install_bridge,
            (StartEvent::Owner(Ok::<bool, String>(false)),),
            of_stranger,
        ),
        call_ensures(
            start_skill_install_bridge,
            (StartEvent::LockOpened(Ok::<FileFacts, String>(facts)),),
            of_lock,
        ),
        call_ensures(start_skill_install_bridge, (StartEvent::Locked { facts, locked },), of_locked),
        call_ensures(
            start_skill_install_bridge,
            (StartEvent::Recovered(Ok::<(), String>(())),),
            of_recovered,
        ),
    ensures
        of_created is Restrict,
        of_restricted is ReadOwner,
        of_owner is OpenLock,
        of_stranger matches StartTask::Refuse(reason) && reason@
            == "refusing Skill install bridge owned by another user"@,
        lockable is Ok ==> of_lock is Lock,
        lockable matches Err(why) ==> (of_lock matches StartTask::Refuse(reason) && reason@ == why@),
        held is Ok ==> of_locked is Recover,
        held matches Err(why) ==> (of_locked matches StartTask::Refuse(reason) && reason@ == why@),
        of_recovered is Serve,
{
}

/// A step of the start that failed ends it with its reason.
pub proof fn law_failed_starts(reason: String, event: StartEvent, task: StartTask)
    requires
        call_ensures(start_skill_install_bridge, (event,), task),
        event == StartEvent::Links(Err(reason)) || event == StartEvent::Looked(
            DirLookup::Failed(reason),
        ) || event == StartEvent::Created(Err(reason)) || event == StartEvent::Restricted(
            Err(reason),
        ) || event == StartEvent::Owner(Err(reason)) || event == StartEvent::LockOpened(Err(reason))
            || event == StartEvent::Recovered(Err(reason)),
    ensures
        task matches StartTask::Refuse(told) && told@ == reason@,
{
}

/// A request that was let in is a replay for a hundred and eighty-five seconds after it was
/// issued, and not later; others are remembered as long.
pub proof fn law_replays(
    used: &mut NameMap<u64>,
    id: &str,
    issued_at: u64,
    now: u64,
    replay: bool,
    other: Seq<char>,
)
    requires
        old(used).wf(),
        call_ensures(bridge_request_is_replay, (used, id, issued_at, now), replay),
    ensures
        replay <==> (old(used).value(id@) matches Some(at) && now <= at + 185),
        final(used).value(id@) == Some(issued_at),
        other != id@ ==> final(used).value(other) == (match old(used).value(other) {
            Some(at) => if now <= at + 185 {
                Some(at)
            } else {
                None
            },
            None => None,
        }),
{
    assert(final(used).value(id@) == Some(issued_at));
    if other != id@ {
        assert(final(used).value(other) == crate::server::bridge::remembered(
            old(used).value(other),
            now,
        ));
    }
}

/// Only a request that could be read, is valid and is no replay is let in, and only a valid
/// one is remembered.
pub proof fn law_admission(
    used: &mut NameMap<u64>,
    id: &str,
    issued_at: Option<u64>,
    valid: bool,
    now: u64,
    admitted: bool,
)
    requires
        old(used).wf(),
        call_ensures(admit_bridge_request, (used, id, issued_at, valid, now), admitted),
    ensures
        admitted <==> issued_at is Some && valid && !(old(used).value(id@) matches Some(at) && now
            <= at + 185),
        issued_at is Some && valid ==> final(used).value(id@) == issued_at,
        issued_at is None || !valid ==> *final(used) == *old(used),
{
    if issued_at is Some && valid {
        assert(final(used).value(id@) == issued_at);
    }
}

/// The statuses of a request: accepted first, each report under the next number, and left
/// with a word on why.
pub proof fn law_progress(
    progress: &mut BridgeProgress,
    phase: &str,
    message: &str,
    sequence: u64,
    made: BridgeProgress,
    accepted: BridgeProgress,
    left: BridgeProgress,
)
    requires
        call_ensures(BridgeProgress::new, (phase, message, sequence), made),
        call_ensures(BridgeProgress::accepted, (), accepted),
        call_ensures(BridgeProgress::left, (sequence,), left),
        call_ensures(BridgeProgress::report, (progress, phase, message), ()),
    ensures
        made.phase@ == phase@ && made.message@ == message@ && made.sequence == sequence,
        accepted.phase@ == "accepted"@ && accepted.message@
            == "宿主已接收唯一请求，正在开始处理"@ && accepted.sequence == 0,
        left.phase@ == "finalization_failed"@ && left.sequence == sequence,
        sequence == 0 ==> left.message@
            == "检测到非法的既有最终响应；请求未执行，.processing 已保留供安全恢复"@,
        sequence > 0 ==> left.message@
            == "最终响应写入失败；.processing 已保留，gateway 重启后会恢复"@,
        final(progress).phase@ == phase@ && final(progress).message@ == message@,
        old(progress).sequence < u64::MAX ==> final(progress).sequence == old(progress).sequence + 1,
        old(progress).sequence == u64::MAX ==> final(progress).sequence == u64::MAX,
{
}

/// An installation takes as long as is allowed for one, any other operation a minute; a
/// host shows that it is alive every two seconds.
pub proof fn law_time_for_operations(operation: &str, install_timeout: u64, seconds: u64)
    requires
        call_ensures(bridge_operation_timeout, (operation, install_timeout), seconds),
    ensures
        operation@ == "install"@ ==> seconds == install_timeout,
        operation@ != "install"@ ==> seconds == 60,
        BRIDGE_HEARTBEAT_SECONDS == 2,
{
}

/// The status of a request tells when it began and is to end, how long it has run, how far
/// it has come, and where its answer will be.
pub proof fn law_statuses(
    schema_version: u64,
    id: &str,
    operation: &str,
    started_at: u64,
    timeout_seconds: u64,
    now: u64,
    progress: &BridgeProgress,
    json: Option<String>,
)
    requires
        call_ensures(
            write_bridge_status,
            (schema_version, id, operation, started_at, timeout_seconds, now, progress),
            json,
        ),
    ensures
        json matches Some(text) && text@ == "{"@ + listing(
            seq![
                (
                    "deadline_at"@,
                    if started_at + timeout_seconds <= u64::MAX {
                        decimal((started_at + timeout_seconds) as nat)
                    } else {
                        decimal(u64::MAX as nat)
                    },
                ),
                (
                    "elapsed_seconds"@,
                    if now >= started_at {
                        decimal((now - started_at) as nat)
                    } else {
                        decimal(0)
                    },
                ),
                ("message"@, in_quotes(progress.message@)),
                ("operation"@, in_quotes(operation@)),
                ("phase"@, in_quotes(progress.phase@)),
                ("poll_after_seconds"@, decimal(3)),
                ("request_id"@, in_quotes(id@)),
                ("response_filename"@, in_quotes(id@ + ".response.json"@)),
                ("schema_version"@, decimal(schema_version as nat)),
                ("sequence"@, decimal(progress.sequence as nat)),
                ("started_at"@, decimal(started_at as nat)),
                ("status"@, in_quotes("PROCESSING"@)),
                ("terminal_grace_seconds"@, decimal(5)),
                ("timeout_seconds"@, decimal(timeout_seconds as nat)),
                ("updated_at"@, decimal(now as nat)),
            ],
        ) + "}"@,
{
    let pairs = seq![
        (
            "deadline_at"@,
            if started_at + timeout_seconds <= u64::MAX {
                decimal((started_at + timeout_seconds) as nat)
            } else {
                decimal(u64::MAX as nat)
            },
        ),
        (
            "elapsed_seconds"@,
            if now >= started_at {
                decimal((now - started_at) as nat)
            } else {
                decimal(0)
            },
        ),
        ("message"@, in_quotes(progress.message@)),
        ("operation"@, in_quotes(operation@)),
        ("phase"@, in_quotes(progress.phase@)),
        ("poll_after_seconds"@, decimal(3)),
        ("request_id"@, in_quotes(id@)),
        ("response_filename"@, in_quotes(id@ + ".response.json"@)),
        ("schema_version"@, decimal(schema_version as nat)),
        ("sequence"@, decimal(progress.sequence as nat)),
        ("started_at"@, decimal(started_at as nat)),
        ("status"@, in_quotes("PROCESSING"@)),
        ("terminal_grace_seconds"@, decimal(5)),
        ("timeout_seconds"@, decimal(timeout_seconds as nat)),
        ("updated_at"@, decimal(now as nat)),
    ];
    law_objects_are_listings(pairs);
    assert(present(pairs) =~= status_members(
        schema_version,
        id@,
        operation@,
        started_at,
        timeout_seconds,
        now,
        *progress,
    ));
}

/// The answer to a request that was interrupted says that it may be asked again.
pub proof fn law_interrupted_requests(schema_version: u64, id: &str, json: Option<String>)
    requires
        call_ensures(recover_orphaned_bridge_processing, (schema_version, id), json),
    ensures
        json matches Some(text) && text@ == "{"@ + listing(
            seq![
                ("attach_state"@, in_quotes("UNKNOWN"@)),
                ("automatic_retry_allowed"@, "false"@),
                ("directory_commit"@, "null"@),
                (
                    "message"@,
                    in_quotes(
                        "CSSwitch 在处理该请求期间中断。宿主已清理遗留 .processing；请重新调用相同工具，让 CSSwitch 验证真实落盘和绑定状态后安全恢复。"@,
                    ),
                ),
                ("request_id"@, in_quotes(id@)),
                ("request_terminal"@, "true"@),
                ("restart_required"@, "false"@),
                ("retryable"@, "true"@),
                ("schema_version"@, decimal(schema_version as nat)),
                ("status"@, in_quotes("REQUEST_INTERRUPTED"@)),
            ],
        ) + "}"@,
{
    let pairs = seq![
        ("attach_state"@, in_quotes("UNKNOWN"@)),
        ("automatic_retry_allowed"@, "false"@),
        ("directory_commit"@, "null"@),
        ("message"@, in_quotes(INTERRUPTED_MESSAGE@)),
        ("request_id"@, in_quotes(id@)),
        ("request_terminal"@, "true"@),
        ("restart_required"@, "false"@),
        ("retryable"@, "true"@),
        ("schema_version"@, decimal(schema_version as nat)),
        ("status"@, in_quotes("REQUEST_INTERRUPTED"@)),
    ];
    law_objects_are_listings(pairs);
    assert(present(pairs) =~= interrupted_members(schema_version, id@));
}

/// The answers to a request that was not carried out: it failed, and where its handling
/// broke down it may be tried again. The answer of one that was carried out is its outcome.
pub proof fn law_failed_requests(
    schema_version: u64,
    outcome: Option<String>,
    failed: Option<String>,
    internal: Option<String>,
    of_outcome: Option<String>,
    of_failed: Option<String>,
    of_internal: Option<String>,
)
    requires
        call_ensures(bridge_request_failed, (schema_version,), failed),
        call_ensures(bridge_request_internal_failed, (schema_version,), internal),
        call_ensures(
            BridgeAnswer::text,
            (BridgeAnswer::Outcome, schema_version, outcome),
            of_outcome,
        ),
        call_ensures(BridgeAnswer::text, (BridgeAnswer::Failed, schema_version, outcome), of_failed),
        call_ensures(
            BridgeAnswer::text,
            (BridgeAnswer::InternalFailed, schema_version, outcome),
            of_internal,
        ),
    ensures
        failed matches Some(text) && text@ == "{"@ + listing(
            seq![
                ("directory_commit"@, "false"@),
                ("message"@, in_quotes("本地 Skill 请求非法或已处理"@)),
                ("restart_required"@, "false"@),
                ("schema_version"@, decimal(schema_version as nat)),
                ("status"@, in_quotes("REQUEST_FAILED"@)),
            ],
        ) + "}"@,
        internal matches Some(text) && text@ == "{"@ + listing(
            seq![
                ("directory_commit"@, "null"@),
                (
                    "message"@,
                    in_quotes("本地 Skill 请求处理异常；宿主已停止该请求，可安全重试相同工具"@),
                ),
                ("restart_required"@, "false"@),
                ("retryable"@, "true"@),
                ("schema_version"@, decimal(schema_version as nat)),
                ("status"@, in_quotes("REQUEST_FAILED"@)),
            ],
        ) + "}"@,
        outcome is None ==> of_outcome is None,
        outcome matches Some(text) ==> of_outcome is Some && of_outcome->Some_0@ == text@,
        of_failed is Some && of_failed->Some_0@ == failed->Some_0@,
        of_internal is Some && of_internal->Some_0@ == internal->Some_0@,
{
    let pairs = seq![
        ("directory_commit"@, "false"@),
        ("message"@, in_quotes(FAILED_MESSAGE@)),
        ("restart_required"@, "false"@),
        ("schema_version"@, decimal(schema_version as nat)),
        ("status"@, in_quotes("REQUEST_FAILED"@)),
    ];
    law_objects_are_listings(pairs);
    assert(present(pairs) =~= failed_members(schema_version));
    let more = seq![
        ("directory_commit"@, "null"@),
        ("message"@, in_quotes(INTERNAL_MESSAGE@)),
        ("restart_required"@, "false"@),
        ("retryable"@, "true"@),
        ("schema_version"@, decimal(schema_version as nat)),
        ("status"@, in_quotes("REQUEST_FAILED"@)),
    ];
    law_objects_are_listings(more);
    assert(present(more) =~= internal_members(schema_version));
}

/// The operation of a request is the text of its field, and unknown where it names none.
pub proof fn law_operations(request: &JsonValue, named: String, unnamed: String)
    requires
        call_ensures(bridge_operation, (Some(request),), named),
        call_ensures(bridge_operation, (None::<&JsonValue>,), unnamed),
    ensures
        field_of(request@, "operation"@) matches Some(JsonTree::Text(text)) ==> named@ == text,
        !(field_of(request@, "operation"@) matches Some(JsonTree::Text(_))) ==> named@
            == "unknown"@,
        unnamed@ == "unknown"@,
{
}

/// A request file is handled from its name on: one that was claimed is looked for an answer
/// first, an answered one is cleared away, and one whose answer cannot be trusted is left.
pub proof fn law_request_files(
    name: &str,
    id: Option<String>,
    started: Option<BridgeRun>,
    run: &mut BridgeRun,
    used: &mut NameMap<u64>,
    install_timeout: u64,
    event: BridgeEvent,
    task: BridgeTask,
)
    requires
        call_ensures(bridge_request_id, (name,), id),
        call_ensures(BridgeRun::new, (name,), started),
        call_ensures(BridgeRun::step, (run, event, used, install_timeout), task),
    ensures
        started is Some <==> id is Some,
        started matches Some(started) ==> started.id@ == id->Some_0@ && started.phase
            == BridgePhase::Claiming,
        event == BridgeEvent::Claimed(false) ==> task == BridgeTask::Skip && final(run).phase
            == BridgePhase::Done,
        event == BridgeEvent::Claimed(true) ==> task == BridgeTask::LookForAnswer && final(
            run).phase == BridgePhase::Looking,
        (event matches BridgeEvent::Looked { found: Ok(true), now }) ==> task == BridgeTask::Cleanup
            && final(run).phase == BridgePhase::Done,
        (event matches BridgeEvent::Looked { found: Ok(false), now }) ==> task == BridgeTask::Load
            && final(run).phase == BridgePhase::Loading,
        (event matches BridgeEvent::Looked { found: Err(_), now }) ==> task == (BridgeTask::Leave {
            sequence: 0,
        }) && final(run).phase == BridgePhase::Done,
        event is Loaded ==> task == BridgeTask::Accept && final(run).phase
            == BridgePhase::Validating,
        event == (BridgeEvent::Handled { broke_down: true }) ==> task == BridgeTask::Answer(
            BridgeAnswer::InternalFailed,
        ) && final(run).phase == BridgePhase::Answering,
        event == (BridgeEvent::Handled { broke_down: false }) ==> task == BridgeTask::Answer(
            BridgeAnswer::Outcome,
        ) && final(run).phase == BridgePhase::Answering,
        event == BridgeEvent::Answered(true) ==> task == BridgeTask::Cleanup && final(run).phase
            == BridgePhase::Done,
        event == BridgeEvent::Answered(false) ==> task == (BridgeTask::Leave {
            sequence: u64::MAX,
        }) && final(run).phase == BridgePhase::Done,
        final(run).id == old(run).id,
{
}

/// A request that was read is noted with its operation, its age and the time it may take.
pub proof fn law_noted_requests(
    run: &mut BridgeRun,
    used: &mut NameMap<u64>,
    install_timeout: u64,
    request: JsonValue,
    now: u64,
    operation: String,
    task: BridgeTask,
)
    requires
        call_ensures(bridge_operation, (Some(&request),), operation),
        call_ensures(
            BridgeRun::step,
            (run, BridgeEvent::Loaded { request: Some(request), now }, used, install_timeout),
            task,
        ),
    ensures
        final(run).operation@ == operation@,
        final(run).started_at == now,
        field_of(request@, "issued_at"@) matches Some(JsonTree::Number(at)) ==> final(run).issued_at
            == Some(at),
        !(field_of(request@, "issued_at"@) matches Some(JsonTree::Number(_))) ==> final(
            run).issued_at == Some(0u64),
        operation@ == "install"@ ==> final(run).timeout_seconds == install_timeout,
        operation@ != "install"@ ==> final(run).timeout_seconds == 60,
        *final(used) == *old(used),
{
}

/// A request is carried out where it is valid, was read and is no replay; else it is told
/// that it failed, and where its check broke down that it may be tried again.
pub proof fn law_validated_requests(
    run: &mut BridgeRun,
    used: &mut NameMap<u64>,
    install_timeout: u64,
    validity: Validity,
    now: u64,
    task: BridgeTask,
)
    requires
        call_ensures(
            BridgeRun::step,
            (run, BridgeEvent::Validated { validity, now }, used, install_timeout),
            task,
        ),
    ensures
        task == BridgeTask::Handle <==> old(run).issued_at is Some && validity == Validity::Valid
            && !(old(used).value(old(run).id@) matches Some(at) && now <= at + 185),
        task != BridgeTask::Handle ==> task == BridgeTask::Answer(
            if old(run).issued_at is Some && validity == Validity::BrokeDown {
                BridgeAnswer::InternalFailed
            } else {
                BridgeAnswer::Failed
            },
        ),
        old(run).issued_at is Some && validity == Validity::Valid ==> final(used).value(
            old(run).id@,
        ) == old(run).issued_at,
{
    if old(run).issued_at is Some && validity == Validity::Valid {
        assert(final(used).value(old(run).id@) == old(run).issued_at);
    }
}

/// The first answer to a request counts, and no later one.
pub proof fn law_first_answers_count(
    link: Option<LinkOutcome>,
    reason: String,
    answered: Result<bool, String>,
    unknown: Result<bool, String>,
    linked: Result<bool, String>,
    late: Result<bool, String>,
    failed: Result<bool, String>,
)
    requires
        call_ensures(write_bridge_response_once, (Ok::<bool, String>(true), link), answered),
        call_ensures(write_bridge_response_once, (Err::<bool, String>(reason), link), unknown),
        call_ensures(
            write_bridge_response_once,
            (Ok::<bool, String>(false), Some(LinkOutcome::Linked)),
            linked,
        ),
        call_ensures(
            write_bridge_response_once,
            (Ok::<bool, String>(false), Some(LinkOutcome::AlreadyThere)),
            late,
        ),
        call_ensures(
            write_bridge_response_once,
            (Ok::<bool, String>(false), Some(LinkOutcome::Failed(reason))),
            failed,
        ),
    ensures
        answered == Ok::<bool, String>(false),
        unknown is Err && unknown->Err_0@ == reason@,
        linked == Ok::<bool, String>(true),
        late == Ok::<bool, String>(false),
        failed is Err && failed->Err_0@ == reason@,
{
}

} // verus!
