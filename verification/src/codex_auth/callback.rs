//! The local page that the browser is sent back to.

use vstd::prelude::*;

use crate::codex_auth::oauth::{FlowError, OAuthErrorCode, OAuthFlowError, CALLBACK_PATH};
use crate::crypto::{sha256, sha256_of};
use crate::http::{head_is_complete, is_complete};
use crate::text::{
    append_bytes, begins, bytes_eq, chars_are, chars_begin, chars_contain, chars_of, chars_split_by,
    chars_split_once, chars_words, contains, decimal, join, lower_chars, lowered, split_by,
    split_once, str_eq, text_of, to_decimal, trim_chars, trimmed, utf8_text, views, words_of,
};
use crate::web::{form_fields, pair_views, parse_form};
use vstd::string::*;
use vstd::utf8::*;

verus! {

pub const MAX_CALLBACK_HEAD: usize = 65_536;

pub const MAX_CALLBACK_REQUESTS: usize = 64;

/// What a request to the callback page means for the login.
pub enum CallbackAction {
    Ignore(u16),
    Denied,
    Code(String),
}

/// What a [`CallbackAction`] says.
pub ghost enum Callback {
    Ignore(u16),
    Denied,
    Code(Seq<char>),
}

impl View for CallbackAction {
    type V = Callback;

    open spec fn view(&self) -> Callback {
        match *self {
            CallbackAction::Ignore(status) => Callback::Ignore(status),
            CallbackAction::Denied => Callback::Denied,
            CallbackAction::Code(code) => Callback::Code(code@),
        }
    }
}

impl CallbackAction {
    /// The action without the authorization code.
    pub fn debug_text(&self) -> (text: String)
        ensures
            text@ == (match self@ {
                Callback::Ignore(status) => "Ignore("@ + decimal(status as nat) + ")"@,
                Callback::Denied => "Denied"@,
                Callback::Code(_) => "Code(<redacted>)"@,
            }),
    {
        match self {
            CallbackAction::Ignore(status) => join(
                join("Ignore(", to_decimal(*status as u64).as_str()).as_str(),
                ")",
            ),
            CallbackAction::Denied => "Denied".to_owned(),
            CallbackAction::Code(_) => "Code(<redacted>)".to_owned(),
        }
    }
}

/// The target of a request line, if it is a `GET` of the first major version.
pub open spec fn request_target(line: Seq<char>) -> Option<Seq<char>> {
    let words = words_of(line);
    if words.len() == 3 && words[0] == "GET"@ && begins(words[2], "HTTP/1."@) {
        Some(words[1])
    } else {
        None
    }
}

/// The value of a header line that names the host.
pub open spec fn host_in(line: Seq<char>) -> Option<Seq<char>> {
    match split_once(line, ':') {
        Some((name, value)) => if lowered(trimmed(name)) == "host"@ {
            Some(lowered(trimmed(value)))
        } else {
            None
        },
        None => None,
    }
}

/// Every line that is not empty has a name and a value.
pub open spec fn are_headers(lines: Seq<Seq<char>>) -> bool {
    forall|i: int|
        0 <= i < lines.len() ==> #[trigger] lines[i].len() == 0 || split_once(lines[i], ':') is Some
}

/// The values of the header lines that name the host.
pub open spec fn hosts_in(lines: Seq<Seq<char>>) -> Seq<Seq<char>>
    decreases lines.len(),
{
    if lines.len() == 0 {
        Seq::empty()
    } else {
        let rest = hosts_in(lines.drop_last());
        match host_in(lines.last()) {
            Some(host) => rest.push(host),
            None => rest,
        }
    }
}

/// The host is this machine, at the port of the callback.
pub open spec fn is_own_host(host: Seq<char>, port: u16) -> bool {
    host == "localhost:"@ + decimal(port as nat) || host == "127.0.0.1:"@ + decimal(port as nat)
}

pub open spec fn is_local_target(target: Seq<char>) -> bool {
    begins(target, "/"@) && !begins(target, "//"@) && !contains(target, "#"@)
}

/// The path and the query of a target.
pub open spec fn path_and_query(target: Seq<char>) -> (Seq<char>, Seq<char>) {
    match split_once(target, '?') {
        Some((path, query)) => (path, query),
        None => (target, Seq::empty()),
    }
}

/// What tells field names apart.
pub open spec fn name_digest(name: Seq<char>) -> Seq<u8> {
    sha256_of(encode_utf8(name))
}

/// No two fields have the same name.
pub open spec fn names_differ(fields: Seq<(Seq<char>, Seq<char>)>) -> bool {
    forall|i: int, j: int|
        0 <= i < j < fields.len() ==> name_digest(#[trigger] fields[i].0) != name_digest(
            #[trigger] fields[j].0,
        )
}

/// The value of the last field of this name.
pub open spec fn field_value(fields: Seq<(Seq<char>, Seq<char>)>, name: Seq<char>) -> Option<
    Seq<char>,
>
    decreases fields.len(),
{
    if fields.len() == 0 {
        None
    } else if fields.last().0 == name {
        Some(fields.last().1)
    } else {
        field_value(fields.drop_last(), name)
    }
}

/// The last field of a name decides.
pub(crate) proof fn lemma_field_at(fields: Seq<(Seq<char>, Seq<char>)>, k: int)
    requires
        0 <= k < fields.len(),
        forall|j: int| k < j < fields.len() ==> #[trigger] fields[j].0 != fields[k].0,
    ensures
        field_value(fields, fields[k].0) == Some(fields[k].1),
    decreases fields.len(),
{
    if k < fields.len() - 1 {
        lemma_field_at(fields.drop_last(), k);
    }
}

pub(crate) proof fn lemma_no_field(fields: Seq<(Seq<char>, Seq<char>)>, name: Seq<char>)
    requires
        forall|j: int| 0 <= j < fields.len() ==> #[trigger] fields[j].0 != name,
    ensures
        field_value(fields, name) is None,
    decreases fields.len(),
{
    if fields.len() > 0 {
        lemma_no_field(fields.drop_last(), name);
    }
}

/// What the fields of a callback mean.
pub open spec fn fields_outcome(
    fields: Seq<(Seq<char>, Seq<char>)>,
    expected_state: Seq<char>,
) -> Result<Callback, FlowError> {
    if !names_differ(fields) {
        Err(FlowError::protocol("The OAuth callback contains duplicate fields"@))
    } else if field_value(fields, "state"@) != Some(expected_state) {
        Err(FlowError::protocol("The OAuth callback state is invalid"@))
    } else if field_value(fields, "error"@) matches Some(error) && error.len() > 0 {
        Ok(Callback::Denied)
    } else {
        match field_value(fields, "code"@) {
            Some(code) if code.len() > 0 => Ok(Callback::Code(code)),
            _ => Err(FlowError::protocol("The OAuth callback code is missing"@)),
        }
    }
}

/// What the head of a request to the callback page means. `invalid` is what a request
/// that cannot be read is told.
pub open spec fn callback_outcome(
    head: Seq<u8>,
    port: u16,
    expected_state: Seq<char>,
    invalid: Seq<char>,
) -> Result<Callback, FlowError> {
    let lines = split_by(decode_utf8(head), "\r\n"@);
    let hosts = hosts_in(lines.skip(1));
    if !valid_utf8(head) {
        Err(FlowError::protocol(invalid))
    } else {
        match request_target(lines[0]) {
            None => Err(FlowError::protocol(invalid)),
            Some(target) => if !are_headers(lines.skip(1)) || hosts.len() > 1 {
                Err(FlowError::protocol(invalid))
            } else if hosts.len() == 0 || !is_own_host(hosts[0], port) {
                Err(FlowError::protocol("The OAuth callback host is invalid"@))
            } else if !is_local_target(target) {
                Err(FlowError::protocol("The OAuth callback URL is invalid"@))
            } else {
                let (path, query) = path_and_query(target);
                if path != CALLBACK_PATH@ {
                    Ok(Callback::Ignore(404))
                } else {
                    fields_outcome(form_fields(encode_utf8(query)), expected_state)
                }
            },
        }
    }
}

fn read_request_line(line: &Vec<char>) -> (target: Option<Vec<char>>)
    ensures
        match target {
            Some(target) => request_target(line@) == Some(target@),
            None => request_target(line@) is None,
        },
{
    let mut words = chars_words(line);
    assert(views(words@).len() == words@.len());
    assert(forall|i: int| 0 <= i < words@.len() ==> #[trigger] views(words@)[i] == words@[i]@);
    if words.len() == 3 && chars_are(&words[0], "GET") && chars_begin(&words[2], "HTTP/1.") {
        Some(words.swap_remove(1))
    } else {
        None
    }
}

/// Takes the host out of the header lines from the second line on.
fn read_host(lines: &Vec<Vec<char>>) -> (host: Result<Option<Vec<char>>, ()>)
    requires
        lines@.len() > 0,
    ensures
        ({
            let headers = views(lines@).skip(1);
            match host {
                Ok(Some(host)) => are_headers(headers) && hosts_in(headers) == seq![host@],
                Ok(None) => are_headers(headers) && hosts_in(headers).len() == 0,
                Err(_) => !are_headers(headers) || hosts_in(headers).len() > 1,
            }
        }),
{
    let ghost headers = views(lines@).skip(1);
    let mut host: Option<Vec<char>> = None;
    let mut i: usize = 1;
    assert(headers.take(0) =~= Seq::empty());
    while i < lines.len()
        invariant
            1 <= i <= lines@.len(),
            headers == views(lines@).skip(1),
            are_headers(headers.take(i - 1)),
            match host {
                Some(host) => hosts_in(headers.take(i - 1)) == seq![host@],
                None => hosts_in(headers.take(i - 1)).len() == 0,
            },
        decreases lines.len() - i,
    {
        let ghost before = headers.take(i - 1);
        let ghost after = headers.take(i as int);
        let ghost line = lines@[i as int]@;
        proof {
            assert(headers[i - 1] == line);
            assert(after.drop_last() =~= before);
            assert(after.last() == line);
            assert forall|k: int| 0 <= k < before.len() implies after[k] == before[k] by {}
        }
        if lines[i].len() > 0 {
            match chars_split_once(&lines[i], ':') {
                None => {
                    assert(split_once(headers[i - 1], ':') is None);
                    return Err(());
                },
                Some((name, value)) => {
                    if chars_are(&lower_chars(&trim_chars(&name)), "host") {
                        if host.is_some() {
                            proof {
                                lemma_hosts_grow(headers, i as int);
                            }
                            return Err(());
                        }
                        host = Some(lower_chars(&trim_chars(&value)));
                    }
                },
            }
        } else {
            proof {
                crate::text::lemma_find_char(line, ':', 0);
            }
            assert(split_once(line, ':') is None);
        }
        i += 1;
        assert(are_headers(after)) by {
            assert forall|k: int| 0 <= k < after.len() implies #[trigger] after[k].len() == 0
                || split_once(after[k], ':') is Some by {
                if k < before.len() {
                    assert(after[k] == before[k]);
                }
            }
        }
    }
    assert(headers.take(i - 1) =~= headers);
    Ok(host)
}

/// More header lines name no fewer hosts.
proof fn lemma_hosts_grow(lines: Seq<Seq<char>>, n: int)
    requires
        0 <= n <= lines.len(),
    ensures
        hosts_in(lines.take(n)).len() <= hosts_in(lines).len(),
    decreases lines.len(),
{
    if n < lines.len() {
        lemma_hosts_grow(lines.drop_last(), n);
        assert(lines.drop_last().take(n) =~= lines.take(n));
    } else {
        assert(lines.take(n) =~= lines);
    }
}

/// A name among the first fields.
fn is_seen(seen: &Vec<Vec<u8>>, digest: &Vec<u8>) -> (yes: bool)
    ensures
        yes == exists|i: int| 0 <= i < seen@.len() && (#[trigger] seen@[i])@ == digest@,
{
    let mut i: usize = 0;
    while i < seen.len()
        invariant
            i <= seen@.len(),
            forall|k: int| 0 <= k < i ==> (#[trigger] seen@[k])@ != digest@,
        decreases seen.len() - i,
    {
        if bytes_eq(seen[i].as_slice(), digest.as_slice()) {
            return true;
        }
        i += 1;
    }
    false
}

/// What the fields of a callback mean, read one by one.
pub fn read_fields(fields: Vec<(String, String)>, expected_state: &str) -> (result: Result<
    CallbackAction,
    OAuthFlowError,
>)
    ensures
        match result {
            Ok(action) => fields_outcome(pair_views(fields@), expected_state@) == Ok::<
                Callback,
                FlowError,
            >(action@),
            Err(error) => fields_outcome(pair_views(fields@), expected_state@) == Err::<
                Callback,
                FlowError,
            >(error@),
        },
{
    let ghost all = pair_views(fields@);
    let mut seen: Vec<Vec<u8>> = Vec::new();
    let mut state: Option<String> = None;
    let mut code: Option<String> = None;
    let mut denied = false;
    let mut i: usize = 0;
    assert(all.take(0) =~= Seq::empty());
    while i < fields.len()
        invariant
            i <= fields@.len(),
            all == pair_views(fields@),
            seen@.len() == i,
            forall|k: int| 0 <= k < i ==> (#[trigger] seen@[k])@ == name_digest(all[k].0),
            names_differ(all.take(i as int)),
            crate::text::view_of(state) == field_value(all.take(i as int), "state"@),
            crate::text::view_of(code) == field_value(all.take(i as int), "code"@),
            denied == (field_value(all.take(i as int), "error"@) matches Some(error) && error.len()
                > 0),
        decreases fields.len() - i,
    {
        let ghost before = all.take(i as int);
        let ghost after = all.take(i + 1);
        proof {
            assert(after.drop_last() =~= before);
            assert(after.last() == all[i as int]);
            assert(all[i as int] == (fields@[i as int].0@, fields@[i as int].1@));
            reveal_strlit("state");
            reveal_strlit("code");
            reveal_strlit("error");
            assert("state"@.len() == 5 && "code"@.len() == 4 && "error"@.len() == 5);
            assert("state"@[0] == 's' && "error"@[0] == 'e');
        }
        let name = fields[i].0.as_str();
        let digest = sha256(name.as_bytes());
        if is_seen(&seen, &digest) {
            proof {
                let k = choose|k: int| 0 <= k < seen@.len() && (#[trigger] seen@[k])@ == digest@;
                assert(name_digest(all[k].0) == name_digest(all[i as int].0));
                assert(!names_differ(all));
            }
            return Err(OAuthFlowError::protocol("The OAuth callback contains duplicate fields"));
        }
        if str_eq(name, "state") {
            state = Some(fields[i].1.clone());
        } else if str_eq(name, "code") {
            code = Some(fields[i].1.clone());
        } else if str_eq(name, "error") {
            denied = fields[i].1.as_str().unicode_len() > 0;
        }
        let ghost earlier = seen@;
        seen.push(digest);
        assert(names_differ(after)) by {
            assert forall|a: int, b: int| 0 <= a < b < after.len() implies name_digest(
                #[trigger] after[a].0,
            ) != name_digest(#[trigger] after[b].0) by {
                assert(after[a] == all[a] && after[b] == all[b]);
                if b < i {
                    assert(before[a] == all[a] && before[b] == all[b]);
                } else {
                    assert(earlier[a]@ == name_digest(all[a].0));
                }
            }
        }
        i += 1;
    }
    assert(all.take(i as int) =~= all);
    let state_matches = match &state {
        Some(state) => str_eq(state.as_str(), expected_state),
        None => false,
    };
    if !state_matches {
        return Err(OAuthFlowError::protocol("The OAuth callback state is invalid"));
    }
    if denied {
        return Ok(CallbackAction::Denied);
    }
    match code {
        Some(code) => {
            if code.as_str().unicode_len() > 0 {
                Ok(CallbackAction::Code(code))
            } else {
                Err(OAuthFlowError::protocol("The OAuth callback code is missing"))
            }
        },
        None => Err(OAuthFlowError::protocol("The OAuth callback code is missing")),
    }
}


fn own_host(host: &Vec<char>, port: u16) -> (yes: bool)
    ensures
        yes == is_own_host(host@, port),
{
    let number = to_decimal(port as u64);
    chars_are(host, join("localhost:", number.as_str()).as_str()) || chars_are(
        host,
        join("127.0.0.1:", number.as_str()).as_str(),
    )
}

/// What the head of a request to the callback page means.
fn read_callback(
    head: &[u8],
    port: u16,
    expected_state: &str,
    invalid: &'static str,
) -> (result: Result<CallbackAction, OAuthFlowError>)
    ensures
        match result {
            Ok(action) => callback_outcome(head@, port, expected_state@, invalid@) == Ok::<
                Callback,
                FlowError,
            >(action@),
            Err(error) => callback_outcome(head@, port, expected_state@, invalid@) == Err::<
                Callback,
                FlowError,
            >(error@),
        },
{
    let text = match utf8_text(head) {
        Some(text) => text,
        None => {
            return Err(OAuthFlowError::protocol(invalid));
        },
    };
    proof {
        reveal_strlit("\r\n");
    }
    let lines = chars_split_by(&chars_of(text), &chars_of("\r\n"));
    assert(views(lines@)[0] == lines@[0]@);
    let target = match read_request_line(&lines[0]) {
        Some(target) => target,
        None => {
            return Err(OAuthFlowError::protocol(invalid));
        },
    };
    match read_host(&lines) {
        Err(_) => {
            return Err(OAuthFlowError::protocol(invalid));
        },
        Ok(host) => {
            let trusted = match &host {
                Some(host) => own_host(host, port),
                None => false,
            };
            if !trusted {
                return Err(OAuthFlowError::protocol("The OAuth callback host is invalid"));
            }
        },
    }
    if !chars_begin(&target, "/") || chars_begin(&target, "//") || chars_contain(
        &target,
        &chars_of("#"),
    ) {
        return Err(OAuthFlowError::protocol("The OAuth callback URL is invalid"));
    }
    let (path, query) = match chars_split_once(&target, '?') {
        Some(parts) => parts,
        None => (target, Vec::new()),
    };
    if !chars_are(&path, CALLBACK_PATH) {
        return Ok(CallbackAction::Ignore(404));
    }
    let query = text_of(query);
    assert(query@ == path_and_query(target@).1);
    read_fields(parse_form(query.as_str().as_bytes()), expected_state)
}

/// What the head of a request means for a blocking login.
pub fn parse_callback(head: &[u8], port: u16, expected_state: &str) -> (result: Result<
    CallbackAction,
    OAuthFlowError,
>)
    ensures
        ({
            let outcome = callback_outcome(
                head@,
                port,
                expected_state@,
                "The OAuth callback request is invalid"@,
            );
            match result {
                Ok(action) => outcome == Ok::<Callback, FlowError>(action@),
                Err(error) => outcome == Err::<Callback, FlowError>(error@),
            }
        }),
{
    read_callback(head, port, expected_state, "The OAuth callback request is invalid")
}

/// What the head of a request means for a login that can be cancelled.
pub fn parse_callback_head(head: &[u8], port: u16, expected_state: &str) -> (result: Result<
    CallbackAction,
    OAuthFlowError,
>)
    ensures
        ({
            let outcome = callback_outcome(
                head@,
                port,
                expected_state@,
                "The OAuth callback is invalid"@,
            );
            match result {
                Ok(action) => outcome == Ok::<Callback, FlowError>(action@),
                Err(error) => outcome == Err::<Callback, FlowError>(error@),
            }
        }),
{
    read_callback(head, port, expected_state, "The OAuth callback is invalid")
}

/// A callback is acted upon only where its state field is the expected one.
pub proof fn law_state_is_checked(
    head: Seq<u8>,
    port: u16,
    expected_state: Seq<char>,
    invalid: Seq<char>,
)
    ensures
        callback_outcome(head, port, expected_state, invalid) matches Ok(action)
            && !(action is Ignore) ==> {
            let lines = split_by(decode_utf8(head), "\r\n"@);
            &&& request_target(lines[0]) is Some
            &&& ({
                let query = path_and_query(request_target(lines[0])->0).1;
                field_value(form_fields(encode_utf8(query)), "state"@) == Some(expected_state)
            })
            &&& hosts_in(lines.skip(1)).len() == 1
            &&& is_own_host(hosts_in(lines.skip(1))[0], port)
        },
{
}

/// Fields of which two have the same name are refused.
pub proof fn law_repeated_names_are_refused(
    fields: Seq<(Seq<char>, Seq<char>)>,
    i: int,
    j: int,
    expected_state: Seq<char>,
)
    requires
        0 <= i < j < fields.len(),
        fields[i].0 == fields[j].0,
    ensures
        fields_outcome(fields, expected_state) == Err::<Callback, FlowError>(
            FlowError::protocol("The OAuth callback contains duplicate fields"@),
        ),
{
    assert(name_digest(fields[i].0) == name_digest(fields[j].0));
}

/// What reading from the browser came to.
pub enum HeadEvent {
    Expired,
    TimedOut,
    Unconfigurable,
    Failed,
    Cancelled,
    Read(Vec<u8>),
}

/// The head of a request, as far as it was read.
pub struct HeadReader {
    pub head: Vec<u8>,
}

pub open spec fn callback_wait_error(message: Seq<char>) -> FlowError {
    FlowError::protocol(message).at_stage("callback_wait"@)
}

pub open spec fn cancelled(stage: Seq<char>) -> FlowError {
    FlowError::new(OAuthErrorCode::AuthCancelled, true, "Codex sign-in was cancelled"@).at_stage(
        stage,
    )
}

pub fn cancelled_error(stage: &'static str) -> (error: OAuthFlowError)
    ensures
        error@ == cancelled(stage@),
{
    OAuthFlowError::new(OAuthErrorCode::AuthCancelled, true, "Codex sign-in was cancelled").at_stage(
        stage,
    )
}

impl HeadReader {
    /// What was read is within the limit.
    pub open spec fn wf(self) -> bool {
        self.head@.len() <= MAX_CALLBACK_HEAD
    }

    pub fn new() -> (reader: HeadReader)
        ensures
            reader.head@.len() == 0,
            reader.wf(),
    {
        HeadReader { head: Vec::new() }
    }

    pub fn complete(&self) -> (yes: bool)
        ensures
            yes == is_complete(self.head@),
    {
        head_is_complete(&self.head)
    }

    /// Why a blocking login gives up on a request; nothing if it reads on.
    pub open spec fn blocking_error(head: Seq<u8>, event: HeadEvent) -> Option<FlowError> {
        match event {
            HeadEvent::Expired => Some(
                FlowError::protocol("The OAuth callback request timed out"@),
            ),
            HeadEvent::Unconfigurable => Some(
                FlowError::protocol("The OAuth callback timeout could not be configured"@),
            ),
            HeadEvent::Failed | HeadEvent::TimedOut | HeadEvent::Cancelled => Some(
                FlowError::protocol("The OAuth callback request could not be read"@),
            ),
            HeadEvent::Read(more) => if more@.len() == 0 {
                Some(FlowError::protocol("The OAuth callback request ended early"@))
            } else if head.len() + more@.len() > MAX_CALLBACK_HEAD {
                Some(FlowError::protocol("The OAuth callback request is too large"@))
            } else {
                None
            },
        }
    }

    /// One read of a blocking login.
    pub fn read_http_head(&mut self, event: HeadEvent) -> (result: Result<(), OAuthFlowError>)
        requires
            old(self).wf(),
        ensures
            final(self).wf(),
            match result {
                Ok(_) => Self::blocking_error(old(self).head@, event) is None && final(self).head@
                    == old(self).head@ + event->Read_0@,
                Err(error) => Self::blocking_error(old(self).head@, event) == Some(error@)
                    && final(self).head@ == old(self).head@,
            },
    {
        match event {
            HeadEvent::Expired => Err(
                OAuthFlowError::protocol("The OAuth callback request timed out"),
            ),
            HeadEvent::Unconfigurable => Err(
                OAuthFlowError::protocol("The OAuth callback timeout could not be configured"),
            ),
            HeadEvent::Failed | HeadEvent::TimedOut | HeadEvent::Cancelled => Err(
                OAuthFlowError::protocol("The OAuth callback request could not be read"),
            ),
            HeadEvent::Read(more) => {
                if more.len() == 0 {
                    Err(OAuthFlowError::protocol("The OAuth callback request ended early"))
                } else if more.len() > MAX_CALLBACK_HEAD - self.head.len() {
                    Err(OAuthFlowError::protocol("The OAuth callback request is too large"))
                } else {
                    append_bytes(&mut self.head, more.as_slice());
                    Ok(())
                }
            },
        }
    }

    /// Why a login that can be cancelled gives up on a request; nothing if it reads on.
    pub open spec fn cancellable_error(head: Seq<u8>, event: HeadEvent) -> Option<FlowError> {
        match event {
            HeadEvent::Cancelled => Some(cancelled("callback_wait"@)),
            HeadEvent::Expired => Some(callback_wait_error("The OAuth callback timed out"@)),
            HeadEvent::TimedOut => Some(FlowError::protocol("The OAuth callback timed out"@)),
            HeadEvent::Unconfigurable | HeadEvent::Failed => Some(
                FlowError::protocol("The OAuth callback could not be read"@),
            ),
            HeadEvent::Read(more) => if more@.len() == 0 || head.len() + more@.len()
                > MAX_CALLBACK_HEAD {
                Some(callback_wait_error("The OAuth callback is invalid"@))
            } else {
                None
            },
        }
    }

    /// One read of a login that can be cancelled.
    pub fn read_callback_chunk(&mut self, event: HeadEvent) -> (result: Result<(), OAuthFlowError>)
        requires
            old(self).wf(),
        ensures
            final(self).wf(),
            match result {
                Ok(_) => Self::cancellable_error(old(self).head@, event) is None
                    && final(self).head@ == old(self).head@ + event->Read_0@,
                Err(error) => Self::cancellable_error(old(self).head@, event) == Some(error@)
                    && final(self).head@ == old(self).head@,
            },
    {
        match event {
            HeadEvent::Cancelled => Err(cancelled_error("callback_wait")),
            HeadEvent::Expired => Err(
                OAuthFlowError::protocol("The OAuth callback timed out").at_stage("callback_wait"),
            ),
            HeadEvent::TimedOut => Err(OAuthFlowError::protocol("The OAuth callback timed out")),
            HeadEvent::Unconfigurable | HeadEvent::Failed => Err(
                OAuthFlowError::protocol("The OAuth callback could not be read"),
            ),
            HeadEvent::Read(more) => {
                if more.len() == 0 || more.len() > MAX_CALLBACK_HEAD - self.head.len() {
                    Err(
                        OAuthFlowError::protocol("The OAuth callback is invalid").at_stage(
                            "callback_wait",
                        ),
                    )
                } else {
                    append_bytes(&mut self.head, more.as_slice());
                    Ok(())
                }
            },
        }
    }
}

/// The reason phrase of a page.
pub open spec fn page_reason(status: u16) -> Seq<char> {
    if status == 200 {
        "OK"@
    } else if status == 404 {
        "Not Found"@
    } else if status == 500 {
        "Internal Server Error"@
    } else {
        "Bad Request"@
    }
}

fn reason_of(status: u16) -> (reason: &'static str)
    ensures
        reason@ == page_reason(status),
{
    if status == 200 {
        "OK"
    } else if status == 404 {
        "Not Found"
    } else if status == 500 {
        "Internal Server Error"
    } else {
        "Bad Request"
    }
}

/// The reply that shows `body` in the browser.
pub open spec fn page(status: u16, body: Seq<char>) -> Seq<char> {
    "HTTP/1.1 "@ + decimal(status as nat) + " "@ + page_reason(status)
        + "\r\ncontent-type: text/html; charset=utf-8\r\ncontent-length: "@ + decimal(
        encode_utf8(body).len(),
    ) + "\r\nconnection: close\r\ncache-control: no-store\r\n\r\n"@ + body
}

fn page_text(status: u16, body: &str) -> (text: String)
    ensures
        text@ == page(status, body@),
{
    let mut text = "HTTP/1.1 ".to_owned();
    text.append(to_decimal(status as u64).as_str());
    text.append(" ");
    text.append(reason_of(status));
    text.append("\r\ncontent-type: text/html; charset=utf-8\r\ncontent-length: ");
    text.append(to_decimal(body.as_bytes().len() as u64).as_str());
    text.append("\r\nconnection: close\r\ncache-control: no-store\r\n\r\n");
    text.append(body);
    text
}

/// The page of a blocking login.
pub fn write_callback_response(status: u16, message: &str) -> (text: String)
    ensures
        text@ == page(
            status,
            "<!doctype html><meta charset=\"utf-8\"><title>CSSwitch Codex sign-in</title><p>"@
                + message@ + "</p>"@,
        ),
{
    let mut body =
        "<!doctype html><meta charset=\"utf-8\"><title>CSSwitch Codex sign-in</title><p>".to_owned();
    body.append(message);
    body.append("</p>");
    page_text(status, body.as_str())
}

/// The page of a login that can be cancelled.
pub fn write_callback(status: u16, message: &str) -> (text: String)
    ensures
        text@ == page(status, "<html><body>"@ + message@ + "</body></html>"@),
{
    let mut body = "<html><body>".to_owned();
    body.append(message);
    body.append("</body></html>");
    page_text(status, body.as_str())
}

} // verus!
