//! The directory through which skills are installed: who may use it, and what is written
//! into it.

use vstd::prelude::*;

use crate::codex_auth::oauth::ends_with;
use crate::json::{field_of, parsed_bytes, JsonTree, JsonValue};
use crate::json_text::{json_string_of, object_text, ObjectText};
use crate::name_map::{entry_value, lemma_no_entry, names_are_distinct, NameMap};
use crate::text::{
    begins, chars_begin, chars_of, decimal, is_hex_digit, join, part_of, str_eq, text_of, view_of,
};
use vstd::string::*;

verus! {

pub const BRIDGE_REPLAY_WINDOW_SECONDS: u64 = 185;

pub const BRIDGE_HEARTBEAT_SECONDS: u64 = 2;

pub const MAX_BRIDGE_REQUEST_BYTES: u64 = 1_048_576;

// ---------------------------------------------------------------------------
// Names
// ---------------------------------------------------------------------------

/// A request is named by 32 lower-case hexadecimal digits.
pub open spec fn is_bridge_id(id: Seq<char>) -> bool {
    id.len() == 32 && forall|i: int| 0 <= i < 32 ==> is_hex_digit(#[trigger] id[i])
}

pub fn valid_bridge_id(id: &str) -> (valid: bool)
    ensures
        valid == is_bridge_id(id@),
{
    let chars = chars_of(id);
    if chars.len() != 32 {
        return false;
    }
    let mut i: usize = 0;
    while i < 32
        invariant
            chars@ == id@,
            chars@.len() == 32,
            i <= 32,
            forall|k: int| 0 <= k < i ==> is_hex_digit(#[trigger] id@[k]),
        decreases 32 - i,
    {
        let c = chars[i];
        if !(('0' <= c && c <= '9') || ('a' <= c && c <= 'f')) {
            assert(!is_hex_digit(id@[i as int]));
            return false;
        }
        i += 1;
    }
    true
}

/// The request that a file of this kind belongs to.
pub open spec fn id_in(name: Seq<char>, suffix: Seq<char>) -> Option<Seq<char>> {
    if ends_with(name, suffix) && is_bridge_id(name.take(name.len() - suffix.len())) {
        Some(name.take(name.len() - suffix.len()))
    } else {
        None
    }
}

fn id_before(name: &str, suffix: &str) -> (id: Option<String>)
    ensures
        view_of(id) == id_in(name@, suffix@),
{
    let chars = chars_of(name);
    let tail = chars_of(suffix);
    if tail.len() > chars.len() {
        return None;
    }
    let from = chars.len() - tail.len();
    assert(name@.subrange(from as int, from + suffix@.len()) =~= name@.skip(from as int));
    if !crate::text::chars_found_at(&chars, &tail, from) {
        return None;
    }
    let id = text_of(part_of(&chars, 0, from));
    assert(id@ =~= name@.take(from as int));
    if valid_bridge_id(id.as_str()) {
        Some(id)
    } else {
        None
    }
}

/// The request that a file asks for.
pub fn bridge_request_id(name: &str) -> (id: Option<String>)
    ensures
        view_of(id) == id_in(name@, ".request.json"@),
{
    id_before(name, ".request.json")
}

/// The request that was under way when its host went away.
pub fn orphaned_request_id(name: &str) -> (id: Option<String>)
    ensures
        view_of(id) == id_in(name@, ".processing"@),
{
    id_before(name, ".processing")
}

// ---------------------------------------------------------------------------
// Files
// ---------------------------------------------------------------------------

/// What is known of a file.
#[derive(Clone, Copy, Debug, PartialEq, Eq, Structural)]
pub struct FileFacts {
    pub is_file: bool,
    pub owned: bool,
    pub mode: u32,
    pub length: u64,
}

/// Group and others have no rights at all.
pub open spec fn is_private(mode: u32) -> bool {
    mode & 0o077 == 0
}

/// Why the lock of the bridge cannot be taken; nothing if it can.
pub open spec fn lock_error(facts: FileFacts, locked: bool) -> Option<Seq<char>> {
    if !facts.is_file || !facts.owned || !is_private(facts.mode) {
        Some("refusing unsafe Skill bridge host lock"@)
    } else if !locked {
        Some("Skill bridge already has an active host"@)
    } else {
        None
    }
}

/// A lock file that others could write to is refused before it is locked.
pub fn acquire_bridge_host_lock(facts: &FileFacts, locked: bool) -> (result: Result<(), &'static str>)
    ensures
        match result {
            Ok(_) => lock_error(*facts, locked) is None,
            Err(reason) => lock_error(*facts, locked) == Some(reason@),
        },
{
    if !facts.is_file || !facts.owned || facts.mode & 0o077 != 0 {
        return Err("refusing unsafe Skill bridge host lock");
    }
    if !locked {
        return Err("Skill bridge already has an active host");
    }
    Ok(())
}

/// What looking for a file came to.
pub enum FileLookup {
    Found(FileFacts),
    Missing,
    Failed(String),
}

/// Whether a request was answered already. An answer that somebody else could have
/// written is an error.
pub fn bridge_final_response_exists(lookup: FileLookup) -> (exists: Result<bool, String>)
    ensures
        match lookup {
            FileLookup::Found(facts) => if facts.is_file && facts.owned && is_private(facts.mode) {
                exists == Ok::<bool, String>(true)
            } else {
                exists matches Err(reason) && reason@ == "invalid existing Skill bridge response"@
            },
            FileLookup::Missing => exists == Ok::<bool, String>(false),
            FileLookup::Failed(reason) => exists == Err::<bool, String>(reason),
        },
{
    match lookup {
        FileLookup::Found(facts) => {
            if facts.is_file && facts.owned && facts.mode & 0o077 == 0 {
                Ok(true)
            } else {
                Err("invalid existing Skill bridge response".to_owned())
            }
        },
        FileLookup::Missing => Ok(false),
        FileLookup::Failed(reason) => Err(reason),
    }
}

/// A request file is read only if it is a file of ours that nobody else can write to, and
/// of bearable length.
pub open spec fn is_readable_request(facts: FileFacts) -> bool {
    facts.is_file && facts.length <= MAX_BRIDGE_REQUEST_BYTES && facts.owned && facts.mode & 0o022
        == 0
}

/// Whether a request file may be read at all.
pub fn bridge_request_is_readable(facts: &FileFacts) -> (readable: bool)
    ensures
        readable == is_readable_request(*facts),
{
    facts.is_file && facts.length <= MAX_BRIDGE_REQUEST_BYTES && facts.owned && facts.mode & 0o022
        == 0
}

/// Takes a request file. `body` is what was read of it, up to one byte over the limit.
pub fn read_regular_bridge_request(facts: Option<&FileFacts>, body: Option<Vec<u8>>) -> (result:
    Result<Vec<u8>, &'static str>)
    ensures
        match result {
            Ok(bytes) => {
                &&& facts matches Some(facts) && is_readable_request(*facts)
                &&& body == Some(bytes)
                &&& bytes@.len() <= MAX_BRIDGE_REQUEST_BYTES
            },
            Err(reason) => {
                &&& reason@ == "invalid Skill bridge request"@
                &&& facts is None || !is_readable_request(*facts->0) || body is None
                    || body->0@.len() > MAX_BRIDGE_REQUEST_BYTES
            },
        },
{
    match (facts, body) {
        (Some(facts), Some(bytes)) => {
            if !bridge_request_is_readable(facts) || bytes.len() as u64
                > MAX_BRIDGE_REQUEST_BYTES {
                Err("invalid Skill bridge request")
            } else {
                Ok(bytes)
            }
        },
        _ => Err("invalid Skill bridge request"),
    }
}

/// What a request file holds, where it may be read and is JSON.
pub fn load_bridge_request(facts: Option<&FileFacts>, body: Option<Vec<u8>>) -> (request: Option<
    JsonValue,
>)
    ensures
        match request {
            Some(request) => {
                &&& facts matches Some(facts) && is_readable_request(*facts)
                &&& body matches Some(bytes) && bytes@.len() <= MAX_BRIDGE_REQUEST_BYTES
                    && parsed_bytes(bytes@) == Ok::<JsonTree, Seq<char>>(request@)
            },
            None => facts is None || !is_readable_request(*facts->0) || body is None
                || body->0@.len() > MAX_BRIDGE_REQUEST_BYTES || parsed_bytes(body->0@) is Err,
        },
{
    match read_regular_bridge_request(facts, body) {
        Ok(bytes) => match JsonValue::parse(&bytes) {
            Ok(request) => Some(request),
            Err(_) => None,
        },
        Err(_) => None,
    }
}

// ---------------------------------------------------------------------------
// Starting
// ---------------------------------------------------------------------------

/// Where the bridge is to be.
pub struct BridgePath {
    pub is_absolute: bool,
    /// The last part of the path.
    pub name: String,
}

/// What stands at the path of the bridge.
pub enum DirLookup {
    Directory,
    Other,
    Missing,
    Failed(String),
}

/// What came back while the bridge is started.
pub enum StartEvent {
    /// What is configured; nothing where there is to be no bridge.
    Asked(Option<BridgePath>),
    /// Whether there is a symbolic link on the way.
    Links(Result<bool, String>),
    Looked(DirLookup),
    Created(Result<(), String>),
    Restricted(Result<(), String>),
    /// Whether the directory belongs to the user.
    Owner(Result<bool, String>),
    LockOpened(Result<FileFacts, String>),
    /// The lock file, and whether it could be locked.
    Locked { facts: FileFacts, locked: bool },
    Recovered(Result<(), String>),
}

/// What starting the bridge does next.
pub enum StartTask {
    /// There is nothing to start.
    Idle,
    LookForLinks,
    Look,
    Create,
    /// Takes all rights of others away.
    Restrict,
    ReadOwner,
    OpenLock,
    Lock,
    /// Answers what an earlier host left behind.
    Recover,
    Serve,
    Refuse(String),
}

/// What a [`StartTask`] says.
pub ghost enum Start {
    Idle,
    LookForLinks,
    Look,
    Create,
    Restrict,
    ReadOwner,
    OpenLock,
    Lock,
    Recover,
    Serve,
    Refuse(Seq<char>),
}

impl View for StartTask {
    type V = Start;

    open spec fn view(&self) -> Start {
        match *self {
            StartTask::Idle => Start::Idle,
            StartTask::LookForLinks => Start::LookForLinks,
            StartTask::Look => Start::Look,
            StartTask::Create => Start::Create,
            StartTask::Restrict => Start::Restrict,
            StartTask::ReadOwner => Start::ReadOwner,
            StartTask::OpenLock => Start::OpenLock,
            StartTask::Lock => Start::Lock,
            StartTask::Recover => Start::Recover,
            StartTask::Serve => Start::Serve,
            StartTask::Refuse(reason) => Start::Refuse(reason@),
        }
    }
}

/// The path is one that the bridge may have.
pub open spec fn is_bridge_path(path: BridgePath) -> bool {
    path.is_absolute && begins(path.name@, "CSSwitch-Skill-Bridge-"@)
}

/// What starting the bridge does after an event. A step that failed tells its own reason.
pub open spec fn start_step(event: StartEvent) -> Start {
    match event {
        StartEvent::Asked(None) => Start::Idle,
        StartEvent::Asked(Some(path)) => if is_bridge_path(path) {
            Start::LookForLinks
        } else {
            Start::Refuse("refusing unsafe Skill install bridge path"@)
        },
        StartEvent::Links(Ok(false)) => Start::Look,
        StartEvent::Links(Ok(true)) => Start::Refuse(
            "refusing symlink in Skill install bridge path"@,
        ),
        StartEvent::Looked(DirLookup::Directory) => Start::Restrict,
        StartEvent::Looked(DirLookup::Other) => Start::Refuse(
            "refusing non-directory Skill install bridge path"@,
        ),
        StartEvent::Looked(DirLookup::Missing) => Start::Create,
        StartEvent::Created(Ok(_)) => Start::Restrict,
        StartEvent::Restricted(Ok(_)) => Start::ReadOwner,
        StartEvent::Owner(Ok(true)) => Start::OpenLock,
        StartEvent::Owner(Ok(false)) => Start::Refuse(
            "refusing Skill install bridge owned by another user"@,
        ),
        StartEvent::LockOpened(Ok(facts)) => match lock_error(facts, true) {
            None => Start::Lock,
            Some(reason) => Start::Refuse(reason),
        },
        StartEvent::Locked { facts, locked } => match lock_error(facts, locked) {
            None => Start::Recover,
            Some(reason) => Start::Refuse(reason),
        },
        StartEvent::Recovered(Ok(_)) => Start::Serve,
        StartEvent::Links(Err(reason)) | StartEvent::Looked(DirLookup::Failed(reason))
        | StartEvent::Created(Err(reason)) | StartEvent::Restricted(Err(reason))
        | StartEvent::Owner(Err(reason)) | StartEvent::LockOpened(Err(reason))
        | StartEvent::Recovered(Err(reason)) => Start::Refuse(reason@),
    }
}

/// Says what starting the bridge does after an event.
pub fn start_skill_install_bridge(event: StartEvent) -> (task: StartTask)
    ensures
        task@ == start_step(event),
{
    match event {
        StartEvent::Asked(None) => StartTask::Idle,
        StartEvent::Asked(Some(path)) => {
            if path.is_absolute && chars_begin(
                &chars_of(path.name.as_str()),
                "CSSwitch-Skill-Bridge-",
            ) {
                StartTask::LookForLinks
            } else {
                StartTask::Refuse("refusing unsafe Skill install bridge path".to_owned())
            }
        },
        StartEvent::Links(Ok(false)) => StartTask::Look,
        StartEvent::Links(Ok(true)) => StartTask::Refuse(
            "refusing symlink in Skill install bridge path".to_owned(),
        ),
        StartEvent::Looked(DirLookup::Directory) => StartTask::Restrict,
        StartEvent::Looked(DirLookup::Other) => StartTask::Refuse(
            "refusing non-directory Skill install bridge path".to_owned(),
        ),
        StartEvent::Looked(DirLookup::Missing) => StartTask::Create,
        StartEvent::Created(Ok(_)) => StartTask::Restrict,
        StartEvent::Restricted(Ok(_)) => StartTask::ReadOwner,
        StartEvent::Owner(Ok(true)) => StartTask::OpenLock,
        StartEvent::Owner(Ok(false)) => StartTask::Refuse(
            "refusing Skill install bridge owned by another user".to_owned(),
        ),
        StartEvent::LockOpened(Ok(facts)) => match acquire_bridge_host_lock(&facts, true) {
            Ok(_) => StartTask::Lock,
            Err(reason) => StartTask::Refuse(reason.to_owned()),
        },
        StartEvent::Locked { facts, locked } => match acquire_bridge_host_lock(&facts, locked) {
            Ok(_) => StartTask::Recover,
            Err(reason) => StartTask::Refuse(reason.to_owned()),
        },
        StartEvent::Recovered(Ok(_)) => StartTask::Serve,
        StartEvent::Links(Err(reason)) | StartEvent::Looked(DirLookup::Failed(reason))
        | StartEvent::Created(Err(reason)) | StartEvent::Restricted(Err(reason))
        | StartEvent::Owner(Err(reason)) | StartEvent::LockOpened(Err(reason))
        | StartEvent::Recovered(Err(reason)) => StartTask::Refuse(reason),
    }
}

/// `event` answers `task`.
pub open spec fn answers_start(task: Start, event: StartEvent) -> bool {
    match task {
        Start::LookForLinks => event is Links,
        Start::Look => event is Looked,
        Start::Create => event is Created,
        Start::Restrict => event is Restricted,
        Start::ReadOwner => event is Owner,
        Start::OpenLock => event is LockOpened,
        Start::Lock => event is Locked,
        Start::Recover => event is Recovered,
        Start::Idle | Start::Serve | Start::Refuse(_) => false,
    }
}

/// A start as far as it went: every event answers what was asked before it.
pub open spec fn is_start(events: Seq<StartEvent>) -> bool {
    &&& events.len() > 0
    &&& events[0] is Asked
    &&& forall|i: int|
        0 < i < events.len() ==> answers_start(
            start_step(events[i - 1]),
            #[trigger] events[i],
        )
}

/// What was found on the way to a step, from the step before it.
proof fn lemma_start_came_from(events: Seq<StartEvent>, i: int)
    requires
        is_start(events),
        0 <= i < events.len(),
    ensures
        i == 0 <==> events[i] is Asked,
        i > 0 ==> answers_start(start_step(events[i - 1]), events[i]),
{
    if i > 0 {
        assert(answers_start(start_step(events[i - 1]), events[i]));
    }
}

/// A bridge is served only at a path of its own, on which there is no symbolic link, in a
/// directory of the user, with a lock file that nobody else can write to and that no other
/// host holds, and after what an earlier host left behind was answered. The lock comes
/// before the recovery, and the directory's rights before the lock.
pub proof fn law_served_bridge_is_safe(events: Seq<StartEvent>)
    requires
        is_start(events),
        start_step(events.last()) is Serve,
    ensures
        ({
            let n = events.len();
            &&& n == 8 || n == 9
            &&& events[0] matches StartEvent::Asked(Some(path)) && is_bridge_path(path)
            &&& events[1] == StartEvent::Links(Ok(false))
            &&& events[2] is Looked
            &&& n == 8 ==> events[2] == StartEvent::Looked(DirLookup::Directory)
            &&& n == 9 ==> events[2] == StartEvent::Looked(DirLookup::Missing) && (events[3] matches
                StartEvent::Created(Ok(_)))
            &&& (events[n - 5] matches StartEvent::Restricted(Ok(_)))
            &&& events[n - 4] == StartEvent::Owner(Ok(true))
            &&& events[n - 3] matches StartEvent::LockOpened(Ok(facts)) && lock_error(
                facts,
                true,
            ) is None
            &&& events[n - 2] matches StartEvent::Locked { facts, locked } && lock_error(
                facts,
                locked,
            ) is None
            &&& (events[n - 1] matches StartEvent::Recovered(Ok(_)))
        }),
{
    let n = events.len() as int;
    lemma_start_came_from(events, n - 1);
    lemma_start_came_from(events, n - 2);
    lemma_start_came_from(events, n - 3);
    lemma_start_came_from(events, n - 4);
    lemma_start_came_from(events, n - 5);
    lemma_start_came_from(events, n - 6);
    lemma_start_came_from(events, n - 7);
    lemma_start_came_from(events, n - 8);
    if n > 8 {
        lemma_start_came_from(events, n - 9);
    }
}

// ---------------------------------------------------------------------------
// Replays
// ---------------------------------------------------------------------------

/// A request that was used is remembered for so long after it was issued.
pub open spec fn is_remembered(issued_at: u64, now: u64) -> bool {
    now - issued_at <= BRIDGE_REPLAY_WINDOW_SECONDS
}

/// What is still remembered of a name.
pub open spec fn remembered(value: Option<u64>, now: u64) -> Option<u64> {
    match value {
        Some(issued_at) if is_remembered(issued_at, now) => Some(issued_at),
        _ => None,
    }
}

/// The entries that are still remembered.
pub open spec fn kept(entries: Seq<(String, u64)>, now: u64) -> Seq<(String, u64)>
    decreases entries.len(),
{
    if entries.len() == 0 {
        Seq::empty()
    } else if is_remembered(entries.last().1, now) {
        kept(entries.drop_last(), now).push(entries.last())
    } else {
        kept(entries.drop_last(), now)
    }
}

proof fn lemma_kept(entries: Seq<(String, u64)>, now: u64)
    requires
        names_are_distinct(entries),
    ensures
        names_are_distinct(kept(entries, now)),
        kept(entries, now).len() <= entries.len(),
        forall|k: int|
            0 <= k < kept(entries, now).len() ==> exists|i: int|
                0 <= i < entries.len() && entries[i] == #[trigger] kept(entries, now)[k],
        forall|name: Seq<char>| #[trigger]
            entry_value(kept(entries, now), name) == remembered(entry_value(entries, name), now),
    decreases entries.len(),
{
    if entries.len() > 0 {
        let rest = entries.drop_last();
        let last = entries.last();
        assert forall|i: int, j: int| 0 <= i < j < rest.len() implies (#[trigger] rest[i]).0@ != (
        #[trigger] rest[j]).0@ by {
            assert(rest[i] == entries[i] && rest[j] == entries[j]);
        }
        lemma_kept(rest, now);
        let before = kept(rest, now);
        assert forall|k: int| 0 <= k < before.len() implies (#[trigger] before[k]).0@
            != last.0@ by {
            let i = choose|i: int| 0 <= i < rest.len() && rest[i] == before[k];
            assert(entries[i] == rest[i]);
            assert(entries[i].0@ != entries[entries.len() - 1].0@);
        }
        assert forall|k: int| 0 <= k < rest.len() implies (#[trigger] rest[k]).0@ != last.0@ by {
            assert(entries[k] == rest[k]);
            assert(entries[k].0@ != entries[entries.len() - 1].0@);
        }
        let after = kept(entries, now);
        if is_remembered(last.1, now) {
            assert(after.drop_last() =~= before);
            assert forall|k: int| 0 <= k < after.len() implies exists|i: int|
                0 <= i < entries.len() && entries[i] == #[trigger] after[k] by {
                if k < before.len() {
                    assert(after[k] == before[k]);
                    let i = choose|i: int| 0 <= i < rest.len() && rest[i] == before[k];
                    assert(entries[i] == after[k]);
                } else {
                    assert(entries[entries.len() - 1] == after[k]);
                }
            }
        } else {
            lemma_no_entry(before, last.0@);
            assert forall|k: int| 0 <= k < after.len() implies exists|i: int|
                0 <= i < entries.len() && entries[i] == #[trigger] after[k] by {
                let i = choose|i: int| 0 <= i < rest.len() && rest[i] == before[k];
                assert(entries[i] == after[k]);
            }
        }
        assert forall|name: Seq<char>| #[trigger]
            entry_value(after, name) == remembered(entry_value(entries, name), now) by {
            assert(entry_value(before, name) == remembered(entry_value(rest, name), now));
        }
    }
}

/// Forgets what is no longer remembered.
fn forget(used: &mut NameMap<u64>, now: u64)
    requires
        old(used).wf(),
    ensures
        final(used).wf(),
        final(used).entries@.len() <= old(used).entries@.len(),
        final(used).entries@ == kept(old(used).entries@, now),
        forall|name: Seq<char>| #[trigger]
            final(used).value(name) == remembered(old(used).value(name), now),
{
    let ghost all = used.entries@;
    let mut next: Vec<(String, u64)> = Vec::new();
    let mut i: usize = 0;
    assert(all.take(0) =~= Seq::empty());
    while i < used.entries.len()
        invariant
            i <= all.len(),
            used.entries@ == all,
            next@ == kept(all.take(i as int), now),
        decreases used.entries.len() - i,
    {
        proof {
            assert(all.take(i + 1).drop_last() =~= all.take(i as int));
            assert(all.take(i + 1).last() == all[i as int]);
        }
        let issued_at = used.entries[i].1;
        if now < issued_at || now - issued_at <= BRIDGE_REPLAY_WINDOW_SECONDS {
            next.push((used.entries[i].0.clone(), issued_at));
        }
        i += 1;
    }
    proof {
        assert(all.take(i as int) =~= all);
        lemma_kept(all, now);
    }
    used.entries = next;
}

/// Whether a request was seen before. What is no longer remembered is forgotten, and the
/// request is remembered from now on.
pub fn bridge_request_is_replay(used: &mut NameMap<u64>, id: &str, issued_at: u64, now: u64) -> (
replay: bool)
    requires
        old(used).wf(),
    ensures
        final(used).wf(),
        replay == (remembered(old(used).value(id@), now) is Some),
        forall|name: Seq<char>| #[trigger]
            final(used).value(name) == (if name == id@ {
                Some(issued_at)
            } else {
                remembered(old(used).value(name), now)
            }),
        final(used).entries@.len() == kept(old(used).entries@, now).len() + (if replay {
            0int
        } else {
            1int
        }),
{
    forget(used, now);
    used.insert(id.to_owned(), issued_at)
}

/// A request that was let in is refused when it comes again, for as long as its window
/// lasts, whatever other requests came in between.
pub proof fn law_replays_are_refused(
    before: NameMap<u64>,
    after: NameMap<u64>,
    id: Seq<char>,
    issued_at: u64,
    now: u64,
    later: u64,
)
    requires
        now <= later,
        is_remembered(issued_at, later),
        forall|name: Seq<char>| #[trigger]
            after.value(name) == (if name == id {
                Some(issued_at)
            } else {
                remembered(before.value(name), now)
            }),
    ensures
        remembered(after.value(id), later) is Some,
        forall|name: Seq<char>|
            name != id && #[trigger] remembered(before.value(name), later) is Some ==> remembered(
                after.value(name),
                later,
            ) is Some,
{
    assert(after.value(id) == Some(issued_at));
    assert forall|name: Seq<char>| name != id && #[trigger] remembered(before.value(name), later)
        is Some implies remembered(after.value(name), later) is Some by {
        assert(after.value(name) == remembered(before.value(name), now));
    }
}

// ---------------------------------------------------------------------------
// What is written
// ---------------------------------------------------------------------------

pub const ACCEPTED_MESSAGE: &'static str = "宿主已接收唯一请求，正在开始处理";

pub const UNTRUSTED_ANSWER_MESSAGE: &'static str =
    "检测到非法的既有最终响应；请求未执行，.processing 已保留供安全恢复";

pub const UNWRITTEN_ANSWER_MESSAGE: &'static str =
    "最终响应写入失败；.processing 已保留，gateway 重启后会恢复";

/// How far a request has come.
pub struct BridgeProgress {
    pub phase: String,
    pub message: String,
    pub sequence: u64,
}

impl BridgeProgress {
    pub fn new(phase: &str, message: &str, sequence: u64) -> (progress: BridgeProgress)
        ensures
            progress.phase@ == phase@,
            progress.message@ == message@,
            progress.sequence == sequence,
    {
        BridgeProgress { phase: phase.to_owned(), message: message.to_owned(), sequence }
    }

    /// The first status of a request.
    pub fn accepted() -> (progress: BridgeProgress)
        ensures
            progress.phase@ == "accepted"@,
            progress.message@ == ACCEPTED_MESSAGE@,
            progress.sequence == 0,
    {
        BridgeProgress::new("accepted", ACCEPTED_MESSAGE, 0)
    }

    /// The last status of a request that is left for the next host, under the number that
    /// [`BridgeTask::Leave`] gives: 0 where nothing was done because the answer that is there
    /// cannot be trusted.
    pub fn left(sequence: u64) -> (progress: BridgeProgress)
        ensures
            progress.phase@ == "finalization_failed"@,
            progress.message@ == (if sequence == 0 {
                UNTRUSTED_ANSWER_MESSAGE@
            } else {
                UNWRITTEN_ANSWER_MESSAGE@
            }),
            progress.sequence == sequence,
    {
        let message = if sequence == 0 {
            UNTRUSTED_ANSWER_MESSAGE
        } else {
            UNWRITTEN_ANSWER_MESSAGE
        };
        BridgeProgress::new("finalization_failed", message, sequence)
    }

    /// The next step of a request.
    pub fn report(&mut self, phase: &str, message: &str)
        ensures
            final(self).phase@ == phase@,
            final(self).message@ == message@,
            final(self).sequence == (if old(self).sequence == u64::MAX {
                u64::MAX
            } else {
                (old(self).sequence + 1) as u64
            }),
    {
        self.phase = phase.to_owned();
        self.message = message.to_owned();
        if self.sequence < u64::MAX {
            self.sequence += 1;
        }
    }
}

/// How long an operation may take.
pub open spec fn operation_timeout(operation: Seq<char>, install_timeout: u64) -> u64 {
    if operation == "install"@ {
        install_timeout
    } else {
        60
    }
}

pub fn bridge_operation_timeout(operation: &str, install_timeout: u64) -> (seconds: u64)
    ensures
        seconds == operation_timeout(operation@, install_timeout),
{
    if str_eq(operation, "install") {
        install_timeout
    } else {
        60
    }
}

pub open spec fn saturating_sum(a: u64, b: u64) -> nat {
    if a + b > u64::MAX {
        u64::MAX as nat
    } else {
        (a + b) as nat
    }
}

pub open spec fn saturating_difference(a: u64, b: u64) -> nat {
    if a < b {
        0
    } else {
        (a - b) as nat
    }
}

/// What stands in the status file of a request, with the fields in the order of their
/// names.
pub open spec fn status_members(
    schema_version: u64,
    id: Seq<char>,
    operation: Seq<char>,
    started_at: u64,
    timeout_seconds: u64,
    now: u64,
    progress: BridgeProgress,
) -> Seq<(Seq<char>, Option<Seq<char>>)> {
    seq![
        ("deadline_at"@, Some(decimal(saturating_sum(started_at, timeout_seconds)))),
        ("elapsed_seconds"@, Some(decimal(saturating_difference(now, started_at)))),
        ("message"@, json_string_of(progress.message@)),
        ("operation"@, json_string_of(operation)),
        ("phase"@, json_string_of(progress.phase@)),
        ("poll_after_seconds"@, Some(decimal(3))),
        ("request_id"@, json_string_of(id)),
        ("response_filename"@, json_string_of(id + ".response.json"@)),
        ("schema_version"@, Some(decimal(schema_version as nat))),
        ("sequence"@, Some(decimal(progress.sequence as nat))),
        ("started_at"@, Some(decimal(started_at as nat))),
        ("status"@, json_string_of("PROCESSING"@)),
        ("terminal_grace_seconds"@, Some(decimal(5))),
        ("timeout_seconds"@, Some(decimal(timeout_seconds as nat))),
        ("updated_at"@, Some(decimal(now as nat))),
    ]
}

pub fn write_bridge_status(
    schema_version: u64,
    id: &str,
    operation: &str,
    started_at: u64,
    timeout_seconds: u64,
    now: u64,
    progress: &BridgeProgress,
) -> (json: Option<String>)
    ensures
        view_of(json) == object_text(
            status_members(
                schema_version,
                id@,
                operation@,
                started_at,
                timeout_seconds,
                now,
                *progress,
            ),
        ),
{
    let deadline_at: u64 = if timeout_seconds > u64::MAX - started_at {
        u64::MAX
    } else {
        started_at + timeout_seconds
    };
    let elapsed_seconds: u64 = if now < started_at {
        0
    } else {
        now - started_at
    };
    let mut object = ObjectText::new();
    object.put_number("deadline_at", deadline_at);
    object.put_number("elapsed_seconds", elapsed_seconds);
    object.put_text("message", progress.message.as_str());
    object.put_text("operation", operation);
    object.put_text("phase", progress.phase.as_str());
    object.put_number("poll_after_seconds", 3);
    object.put_text("request_id", id);
    object.put_text("response_filename", join(id, ".response.json").as_str());
    object.put_number("schema_version", schema_version);
    object.put_number("sequence", progress.sequence);
    object.put_number("started_at", started_at);
    object.put_text("status", "PROCESSING");
    object.put_number("terminal_grace_seconds", 5);
    object.put_number("timeout_seconds", timeout_seconds);
    object.put_number("updated_at", now);
    assert(object@ =~= status_members(
        schema_version,
        id@,
        operation@,
        started_at,
        timeout_seconds,
        now,
        *progress,
    ));
    object.text()
}

pub const INTERRUPTED_MESSAGE: &'static str =
    "CSSwitch 在处理该请求期间中断。宿主已清理遗留 .processing；请重新调用相同工具，让 CSSwitch 验证真实落盘和绑定状态后安全恢复。";

pub const FAILED_MESSAGE: &'static str = "本地 Skill 请求非法或已处理";

pub const INTERNAL_MESSAGE: &'static str =
    "本地 Skill 请求处理异常；宿主已停止该请求，可安全重试相同工具";

pub open spec fn interrupted_members(schema_version: u64, id: Seq<char>) -> Seq<
    (Seq<char>, Option<Seq<char>>),
> {
    seq![
        ("attach_state"@, json_string_of("UNKNOWN"@)),
        ("automatic_retry_allowed"@, Some("false"@)),
        ("directory_commit"@, Some("null"@)),
        ("message"@, json_string_of(INTERRUPTED_MESSAGE@)),
        ("request_id"@, json_string_of(id)),
        ("request_terminal"@, Some("true"@)),
        ("restart_required"@, Some("false"@)),
        ("retryable"@, Some("true"@)),
        ("schema_version"@, Some(decimal(schema_version as nat))),
        ("status"@, json_string_of("REQUEST_INTERRUPTED"@)),
    ]
}

/// The answer to a request whose host went away.
pub fn recover_orphaned_bridge_processing(schema_version: u64, id: &str) -> (json: Option<String>)
    ensures
        view_of(json) == object_text(interrupted_members(schema_version, id@)),
{
    let mut object = ObjectText::new();
    object.put_text("attach_state", "UNKNOWN");
    object.put_bool("automatic_retry_allowed", false);
    object.put("directory_commit", Some(crate::json_text::null_json()));
    object.put_text("message", INTERRUPTED_MESSAGE);
    object.put_text("request_id", id);
    object.put_bool("request_terminal", true);
    object.put_bool("restart_required", false);
    object.put_bool("retryable", true);
    object.put_number("schema_version", schema_version);
    object.put_text("status", "REQUEST_INTERRUPTED");
    assert(object@ =~= interrupted_members(schema_version, id@));
    object.text()
}

pub open spec fn failed_members(schema_version: u64) -> Seq<(Seq<char>, Option<Seq<char>>)> {
    seq![
        ("directory_commit"@, Some("false"@)),
        ("message"@, json_string_of(FAILED_MESSAGE@)),
        ("restart_required"@, Some("false"@)),
        ("schema_version"@, Some(decimal(schema_version as nat))),
        ("status"@, json_string_of("REQUEST_FAILED"@)),
    ]
}

/// The answer to a request that is not valid or was seen before.
pub fn bridge_request_failed(schema_version: u64) -> (json: Option<String>)
    ensures
        view_of(json) == object_text(failed_members(schema_version)),
{
    let mut object = ObjectText::new();
    object.put_bool("directory_commit", false);
    object.put_text("message", FAILED_MESSAGE);
    object.put_bool("restart_required", false);
    object.put_number("schema_version", schema_version);
    object.put_text("status", "REQUEST_FAILED");
    assert(object@ =~= failed_members(schema_version));
    object.text()
}

pub open spec fn internal_members(schema_version: u64) -> Seq<(Seq<char>, Option<Seq<char>>)> {
    seq![
        ("directory_commit"@, Some("null"@)),
        ("message"@, json_string_of(INTERNAL_MESSAGE@)),
        ("restart_required"@, Some("false"@)),
        ("retryable"@, Some("true"@)),
        ("schema_version"@, Some(decimal(schema_version as nat))),
        ("status"@, json_string_of("REQUEST_FAILED"@)),
    ]
}

/// The answer to a request whose handling broke down.
pub fn bridge_request_internal_failed(schema_version: u64) -> (json: Option<String>)
    ensures
        view_of(json) == object_text(internal_members(schema_version)),
{
    let mut object = ObjectText::new();
    object.put("directory_commit", Some(crate::json_text::null_json()));
    object.put_text("message", INTERNAL_MESSAGE);
    object.put_bool("restart_required", false);
    object.put_bool("retryable", true);
    object.put_number("schema_version", schema_version);
    object.put_text("status", "REQUEST_FAILED");
    assert(object@ =~= internal_members(schema_version));
    object.text()
}

// ---------------------------------------------------------------------------
// One request
// ---------------------------------------------------------------------------

/// What a request asks for.
pub open spec fn operation_in(request: Option<JsonTree>) -> Seq<char> {
    match request {
        Some(request) => match field_of(request, "operation"@) {
            Some(JsonTree::Text(operation)) => operation,
            _ => "unknown"@,
        },
        None => "unknown"@,
    }
}

pub fn bridge_operation(request: Option<&JsonValue>) -> (operation: String)
    ensures
        operation@ == operation_in(
            match request {
                Some(request) => Some(request@),
                None => None,
            },
        ),
{
    match request {
        Some(request) => match request.get("operation") {
            Some(operation) => match operation.as_text() {
                Some(operation) => operation.to_owned(),
                None => "unknown".to_owned(),
            },
            None => "unknown".to_owned(),
        },
        None => "unknown".to_owned(),
    }
}

/// When a request was issued; the beginning of time where it does not say.
pub open spec fn issued_in(request: JsonTree) -> u64 {
    match field_of(request, "issued_at"@) {
        Some(JsonTree::Number(at)) => at,
        _ => 0,
    }
}

/// When the request that was read was issued, if one was read.
fn issue_of(request: &Option<JsonValue>) -> (issued_at: Option<u64>)
    ensures
        issued_at == issue_in(tree_of(*request)),
{
    match request {
        Some(request) => match request.get("issued_at") {
            Some(JsonValue::Number(at)) => Some(*at),
            _ => Some(0),
        },
        None => None,
    }
}

/// Whether a request is handled. Only one that is valid and new is; only a valid one is
/// remembered. `issued_at` is absent where no request could be read.
pub fn admit_bridge_request(
    used: &mut NameMap<u64>,
    id: &str,
    issued_at: Option<u64>,
    valid: bool,
    now: u64,
) -> (admitted: bool)
    requires
        old(used).wf(),
    ensures
        final(used).wf(),
        ({
            let is_valid = issued_at is Some && valid;
            let replay = remembered(old(used).value(id@), now) is Some;
            &&& admitted == (is_valid && !replay)
            &&& !is_valid ==> *final(used) == *old(used)
            &&& is_valid ==> forall|name: Seq<char>| #[trigger]
                final(used).value(name) == (if name == id@ {
                    issued_at
                } else {
                    remembered(old(used).value(name), now)
                })
        }),
{
    match issued_at {
        Some(issued_at) => {
            if !valid {
                return false;
            }
            !bridge_request_is_replay(used, id, issued_at, now)
        },
        None => false,
    }
}

/// What checking a request came to.
#[derive(Clone, Copy, Debug, PartialEq, Eq, Structural)]
pub enum Validity {
    Valid,
    Invalid,
    /// The check itself broke down.
    BrokeDown,
}

/// What came back while a request file is handled.
pub enum BridgeEvent {
    /// The file was, or was not, claimed by renaming it.
    Claimed(bool),
    /// Whether an answer stands there already.
    Looked { found: Result<bool, String>, now: u64 },
    /// The request that the file holds, if it holds one.
    Loaded { request: Option<JsonValue>, now: u64 },
    /// What checking the request came to.
    Validated { validity: Validity, now: u64 },
    /// The request was carried out, or its handling broke down.
    Handled { broke_down: bool },
    /// The answer was, or was not, written.
    Answered(bool),
}

#[derive(Clone, Copy, Debug, PartialEq, Eq, Structural)]
pub enum BridgePhase {
    Claiming,
    Looking,
    Loading,
    Validating,
    Handling,
    Answering,
    Done,
}

/// Which answer a request gets.
#[derive(Clone, Copy, Debug, PartialEq, Eq, Structural)]
pub enum BridgeAnswer {
    /// What carrying it out came to.
    Outcome,
    Failed,
    InternalFailed,
}

impl BridgeAnswer {
    /// The JSON of an answer, where `outcome` is what carrying the request out came to.
    pub open spec fn written(self, schema_version: u64, outcome: Option<Seq<char>>) -> Option<
        Seq<char>,
    > {
        match self {
            BridgeAnswer::Outcome => outcome,
            BridgeAnswer::Failed => object_text(failed_members(schema_version)),
            BridgeAnswer::InternalFailed => object_text(internal_members(schema_version)),
        }
    }

    pub fn text(self, schema_version: u64, outcome: Option<String>) -> (json: Option<String>)
        ensures
            view_of(json) == self.written(schema_version, view_of(outcome)),
    {
        match self {
            BridgeAnswer::Outcome => outcome,
            BridgeAnswer::Failed => bridge_request_failed(schema_version),
            BridgeAnswer::InternalFailed => bridge_request_internal_failed(schema_version),
        }
    }
}

/// What to do next about a request file.
#[derive(Clone, Copy, Debug, PartialEq, Eq, Structural)]
pub enum BridgeTask {
    Skip,
    LookForAnswer,
    Load,
    /// Write the first status, and check the request.
    Accept,
    /// Carry the request out.
    Handle,
    Answer(BridgeAnswer),
    Cleanup,
    /// Leave the request for the next host, with a last status of this number.
    Leave { sequence: u64 },
}

/// A request file that is being handled.
pub struct BridgeRun {
    pub id: String,
    pub phase: BridgePhase,
    pub operation: String,
    /// When the request was issued, once one was read.
    pub issued_at: Option<u64>,
    pub started_at: u64,
    pub timeout_seconds: u64,
}

pub open spec fn tree_of(request: Option<JsonValue>) -> Option<JsonTree> {
    match request {
        Some(request) => Some(request@),
        None => None,
    }
}

pub open spec fn issue_in(request: Option<JsonTree>) -> Option<u64> {
    match request {
        Some(request) => Some(issued_in(request)),
        None => None,
    }
}

/// A request that is carried out: it could be read, is valid, and was not seen before.
pub open spec fn is_admitted(
    used: NameMap<u64>,
    id: Seq<char>,
    issued_at: Option<u64>,
    validity: Validity,
    now: u64,
) -> bool {
    issued_at is Some && validity is Valid && remembered(used.value(id), now) is None
}

/// The answer to a request that is not carried out. Only a check that broke down is told
/// apart.
pub open spec fn refusal_of(issued_at: Option<u64>, validity: Validity) -> BridgeAnswer {
    if issued_at is Some && validity is BrokeDown {
        BridgeAnswer::InternalFailed
    } else {
        BridgeAnswer::Failed
    }
}

fn refusal(issued_at: Option<u64>, validity: Validity) -> (answer: BridgeAnswer)
    ensures
        answer == refusal_of(issued_at, validity),
{
    match (issued_at, validity) {
        (Some(_), Validity::BrokeDown) => BridgeAnswer::InternalFailed,
        _ => BridgeAnswer::Failed,
    }
}

impl BridgeRun {
    pub open spec fn fits(self, event: BridgeEvent) -> bool {
        match self.phase {
            BridgePhase::Claiming => event is Claimed,
            BridgePhase::Looking => event is Looked,
            BridgePhase::Loading => event is Loaded,
            BridgePhase::Validating => event is Validated,
            BridgePhase::Handling => event is Handled,
            BridgePhase::Answering => event is Answered,
            BridgePhase::Done => false,
        }
    }

    pub open spec fn next(self, event: BridgeEvent, used: NameMap<u64>) -> (
        BridgePhase,
        BridgeTask,
    ) {
        match event {
            BridgeEvent::Claimed(false) => (BridgePhase::Done, BridgeTask::Skip),
            BridgeEvent::Claimed(true) => (BridgePhase::Looking, BridgeTask::LookForAnswer),
            BridgeEvent::Looked { found: Ok(true), .. } => (BridgePhase::Done, BridgeTask::Cleanup),
            BridgeEvent::Looked { found: Ok(false), .. } => (
                BridgePhase::Loading,
                BridgeTask::Load,
            ),
            BridgeEvent::Looked { found: Err(_), .. } => (
                BridgePhase::Done,
                BridgeTask::Leave { sequence: 0 },
            ),
            BridgeEvent::Loaded { .. } => (BridgePhase::Validating, BridgeTask::Accept),
            BridgeEvent::Validated { validity, now } => if is_admitted(
                used,
                self.id@,
                self.issued_at,
                validity,
                now,
            ) {
                (BridgePhase::Handling, BridgeTask::Handle)
            } else {
                (
                    BridgePhase::Answering,
                    BridgeTask::Answer(refusal_of(self.issued_at, validity)),
                )
            },
            BridgeEvent::Handled { broke_down } => (
                BridgePhase::Answering,
                BridgeTask::Answer(
                    if broke_down {
                        BridgeAnswer::InternalFailed
                    } else {
                        BridgeAnswer::Outcome
                    },
                ),
            ),
            BridgeEvent::Answered(true) => (BridgePhase::Done, BridgeTask::Cleanup),
            BridgeEvent::Answered(false) => (
                BridgePhase::Done,
                BridgeTask::Leave { sequence: u64::MAX },
            ),
        }
    }

    /// A request file of this name, which is to be claimed first.
    pub fn new(name: &str) -> (run: Option<BridgeRun>)
        ensures
            match run {
                Some(run) => {
                    &&& id_in(name@, ".request.json"@) == Some(run.id@)
                    &&& run.phase is Claiming
                    &&& run.operation@ == "unknown"@
                    &&& run.issued_at is None
                    &&& run.started_at == 0
                    &&& run.timeout_seconds == 0
                },
                None => id_in(name@, ".request.json"@) is None,
            },
    {
        match bridge_request_id(name) {
            Some(id) => Some(
                BridgeRun {
                    id,
                    phase: BridgePhase::Claiming,
                    operation: "unknown".to_owned(),
                    issued_at: None,
                    started_at: 0,
                    timeout_seconds: 0,
                },
            ),
            None => None,
        }
    }

    /// Takes what came back, and says what to do next. An answered request is not carried
    /// out again; one whose answer cannot be trusted or written is left for the next host.
    pub fn step(&mut self, event: BridgeEvent, used: &mut NameMap<u64>, install_timeout: u64) -> (
    task: BridgeTask)
        requires
            old(self).fits(event),
            old(used).wf(),
        ensures
            final(used).wf(),
            final(self).id == old(self).id,
            (final(self).phase, task) == old(self).next(event, *old(used)),
            match event {
                BridgeEvent::Looked { now, .. } => {
                    &&& final(self).operation == old(self).operation
                    &&& final(self).issued_at == old(self).issued_at
                    &&& final(self).started_at == now
                },
                BridgeEvent::Loaded { request, now } => {
                    &&& final(self).operation@ == operation_in(tree_of(request))
                    &&& final(self).issued_at == issue_in(tree_of(request))
                    &&& final(self).started_at == now
                },
                _ => {
                    &&& final(self).operation == old(self).operation
                    &&& final(self).issued_at == old(self).issued_at
                    &&& final(self).started_at == old(self).started_at
                },
            },
            final(self).timeout_seconds == (if event is Looked || event is Loaded {
                operation_timeout(final(self).operation@, install_timeout)
            } else {
                old(self).timeout_seconds
            }),
            match event {
                BridgeEvent::Validated { validity: Validity::Valid, now } if old(self).issued_at
                    is Some => forall|name: Seq<char>| #[trigger]
                    final(used).value(name) == (if name == old(self).id@ {
                        old(self).issued_at
                    } else {
                        remembered(old(used).value(name), now)
                    }),
                _ => *final(used) == *old(used),
            },
    {
        match event {
            BridgeEvent::Claimed(false) => {
                self.phase = BridgePhase::Done;
                BridgeTask::Skip
            },
            BridgeEvent::Claimed(true) => {
                self.phase = BridgePhase::Looking;
                BridgeTask::LookForAnswer
            },
            BridgeEvent::Looked { found, now } => {
                self.started_at = now;
                self.timeout_seconds =
                bridge_operation_timeout(self.operation.as_str(), install_timeout);
                match found {
                    Ok(true) => {
                        self.phase = BridgePhase::Done;
                        BridgeTask::Cleanup
                    },
                    Ok(false) => {
                        self.phase = BridgePhase::Loading;
                        BridgeTask::Load
                    },
                    Err(_) => {
                        self.phase = BridgePhase::Done;
                        BridgeTask::Leave { sequence: 0 }
                    },
                }
            },
            BridgeEvent::Loaded { request, now } => {
                let found = match &request {
                    Some(request) => Some(request),
                    None => None,
                };
                self.operation = bridge_operation(found);
                self.issued_at = issue_of(&request);
                self.started_at = now;
                self.timeout_seconds =
                bridge_operation_timeout(self.operation.as_str(), install_timeout);
                self.phase = BridgePhase::Validating;
                BridgeTask::Accept
            },
            BridgeEvent::Validated { validity, now } => {
                let valid = validity == Validity::Valid;
                if admit_bridge_request(used, self.id.as_str(), self.issued_at, valid, now) {
                    self.phase = BridgePhase::Handling;
                    BridgeTask::Handle
                } else {
                    self.phase = BridgePhase::Answering;
                    BridgeTask::Answer(refusal(self.issued_at, validity))
                }
            },
            BridgeEvent::Handled { broke_down } => {
                self.phase = BridgePhase::Answering;
                if broke_down {
                    BridgeTask::Answer(BridgeAnswer::InternalFailed)
                } else {
                    BridgeTask::Answer(BridgeAnswer::Outcome)
                }
            },
            BridgeEvent::Answered(true) => {
                self.phase = BridgePhase::Done;
                BridgeTask::Cleanup
            },
            BridgeEvent::Answered(false) => {
                self.phase = BridgePhase::Done;
                BridgeTask::Leave { sequence: u64::MAX }
            },
        }
    }
}

/// A request is carried out only where no answer to it was found, it is valid, and it was
/// not seen within its window.
pub proof fn law_only_new_requests_are_handled(
    run: BridgeRun,
    event: BridgeEvent,
    used: NameMap<u64>,
)
    requires
        run.fits(event),
        run.next(event, used).1 is Handle,
    ensures
        run.phase is Validating,
        event matches BridgeEvent::Validated { validity, now } && is_admitted(
            used,
            run.id@,
            run.issued_at,
            validity,
            now,
        ),
{
}

/// A request that was read and is not carried out is told that it failed; only where its
/// check broke down is it told that it may be tried again.
pub proof fn law_refusals_are_told_apart(
    run: BridgeRun,
    used: NameMap<u64>,
    validity: Validity,
    now: u64,
)
    requires
        run.phase is Validating,
        run.issued_at is Some,
        !is_admitted(used, run.id@, run.issued_at, validity, now),
    ensures
        run.next(BridgeEvent::Validated { validity, now }, used) == (
            BridgePhase::Answering,
            BridgeTask::Answer(
                if validity is BrokeDown {
                    BridgeAnswer::InternalFailed
                } else {
                    BridgeAnswer::Failed
                },
            ),
        ),
{
}

/// A file whose request was answered before is cleared away, and nothing else.
pub proof fn law_answered_requests_are_cleared(run: BridgeRun, used: NameMap<u64>, now: u64)
    ensures
        run.next(BridgeEvent::Looked { found: Ok(true), now }, used) == (
            BridgePhase::Done,
            BridgeTask::Cleanup,
        ),
{
}

/// What writing an answer came to.
pub enum LinkOutcome {
    Linked,
    AlreadyThere,
    Failed(String),
}

/// Whether this answer is the one that counts. The first answer to a request is never
/// overwritten.
pub fn write_bridge_response_once(existing: Result<bool, String>, link: Option<LinkOutcome>) -> (
result: Result<bool, String>)
    requires
        existing == Ok::<bool, String>(false) ==> link is Some,
    ensures
        match existing {
            Err(reason) => result == Err::<bool, String>(reason),
            Ok(true) => result == Ok::<bool, String>(false),
            Ok(false) => match link->0 {
                LinkOutcome::Linked => result == Ok::<bool, String>(true),
                LinkOutcome::AlreadyThere => result == Ok::<bool, String>(false),
                LinkOutcome::Failed(reason) => result == Err::<bool, String>(reason),
            },
        },
{
    match existing {
        Err(reason) => Err(reason),
        Ok(true) => Ok(false),
        Ok(false) => match link {
            Some(LinkOutcome::Linked) => Ok(true),
            Some(LinkOutcome::AlreadyThere) => Ok(false),
            Some(LinkOutcome::Failed(reason)) => Err(reason),
            None => Ok(false),
        },
    }
}

} // verus!
