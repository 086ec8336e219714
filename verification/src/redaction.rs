//! Taking secrets out of text that others wrote.

use vstd::prelude::*;

use crate::json::{
    close_value, names_ascend, open_value, parse_value, parsed_json, render_value, rendered_json,
    value_entries, value_tree, value_trees, JsonTree, OpenedJson,
};
use crate::lists::reversed;
use crate::text::{
    append_chars, chars_contain, chars_find, chars_of, contains, decode_lossy, find_from, found_at,
    join, lemma_find_from, lemma_find_in_suffix, lossy_text, lowered, text_of, to_lower,
};

verus! {

/// Longest error body that is shown.
pub const MAX_ERROR_BODY_BYTES: usize = 16384;

/// What stands in the place of a secret.
pub open spec fn mark() -> Seq<char> {
    "[REDACTED]"@
}

// ---------------------------------------------------------------------------
// Text
// ---------------------------------------------------------------------------

/// `text` with every occurrence of `secret`, from the left, replaced by the mark.
pub open spec fn without_secret(text: Seq<char>, secret: Seq<char>) -> Seq<char>
    decreases text.len(),
{
    if secret.len() == 0 {
        text
    } else {
        match find_from(text, secret, 0) {
            None => text,
            Some(i) => {
                proof {
                    lemma_find_from(text, secret, 0);
                }
                text.take(i) + mark() + without_secret(text.skip(i + secret.len()), secret)
            },
        }
    }
}

/// A character that ends a token: white space, a quote, or what separates values.
pub open spec fn ends_token(c: char) -> bool {
    ||| c == ' ' || c == '\t' || c == '\n' || c == '\u{0c}' || c == '\r'
    ||| c == '"' || c == '\'' || c == ',' || c == '}' || c == ']' || c == ';'
}

/// How many characters the token at the start of `text` has.
pub open spec fn token_len(text: Seq<char>) -> nat
    decreases text.len(),
{
    if text.len() == 0 || ends_token(text[0]) {
        0
    } else {
        1 + token_len(text.skip(1))
    }
}

/// `text` with every token that follows `marker`, in whatever case, replaced by the
/// mark.
pub open spec fn without_tokens(text: Seq<char>, marker: Seq<char>) -> Seq<char>
    decreases text.len(),
{
    if marker.len() == 0 {
        text
    } else {
        match find_from(lowered(text), marker, 0) {
            None => text,
            Some(i) => {
                proof {
                    lemma_find_from(lowered(text), marker, 0);
                }
                let head = text.take(i + marker.len());
                let tail = text.skip(i + marker.len());
                let n = token_len(tail);
                proof {
                    lemma_token_len(tail);
                }
                if n == 0 {
                    head + without_tokens(tail, marker)
                } else {
                    head + mark() + without_tokens(tail.skip(n as int), marker)
                }
            },
        }
    }
}

/// `text` without the key and without what looks like a credential.
pub open spec fn redacted_text(text: Seq<char>, api_key: Seq<char>) -> Seq<char> {
    without_tokens(without_tokens(without_secret(text, api_key), "bearer "@), "sk-"@)
}

pub proof fn lemma_token_len(text: Seq<char>)
    ensures
        token_len(text) <= text.len(),
    decreases text.len(),
{
    if text.len() > 0 && !ends_token(text[0]) {
        lemma_token_len(text.skip(1));
    }
}

fn char_ends_token(c: char) -> (yes: bool)
    ensures
        yes == ends_token(c),
{
    c == ' ' || c == '\t' || c == '\n' || c == '\u{0c}' || c == '\r' || c == '"' || c == '\'' || c
        == ',' || c == '}' || c == ']' || c == ';'
}

/// Replaces every occurrence of `secret`.
pub fn replace_secret(text: &str, secret: &str) -> (safe: String)
    ensures
        safe@ == without_secret(text@, secret@),
{
    let chars = chars_of(text);
    let needle = chars_of(secret);
    if needle.len() == 0 {
        return text_of(chars);
    }
    let mark_chars = chars_of("[REDACTED]");
    let mut out: Vec<char> = Vec::new();
    let mut from: usize = 0;
    assert(chars@.skip(0) =~= chars@);
    assert(out@ + without_secret(chars@.skip(0), needle@) =~= without_secret(chars@, needle@));
    loop
        invariant
            chars@ == text@,
            needle@ == secret@,
            needle@.len() > 0,
            mark_chars@ == mark(),
            from <= chars@.len(),
            out@ + without_secret(chars@.skip(from as int), needle@) == without_secret(
                text@,
                secret@,
            ),
        decreases chars.len() - from,
    {
        let ghost rest = chars@.skip(from as int);
        proof {
            lemma_find_in_suffix(chars@, needle@, from as int, 0);
            lemma_find_from(rest, needle@, 0);
        }
        let place = chars_find(&chars, &needle, from);
        match place {
            None => {
                let end = chars.len();
                append_chars(&mut out, &chars, from, end);
                assert(chars@.subrange(from as int, end as int) =~= rest);
                return text_of(out);
            },
            Some(i) => {
                let ghost before = out@;
                append_chars(&mut out, &chars, from, i);
                let n = mark_chars.len();
                append_chars(&mut out, &mark_chars, 0, n);
                let ghost k = i - from;
                assert(mark_chars@.subrange(0, n as int) =~= mark());
                assert(rest.take(k) =~= chars@.subrange(from as int, i as int));
                assert(rest.skip(k + needle@.len()) =~= chars@.skip(i + needle@.len()));
                assert(out@ =~= before + rest.take(k) + mark());
                from = i + needle.len();
                assert(out@ + without_secret(chars@.skip(from as int), needle@) =~= before
                    + without_secret(rest, needle@));
            },
        }
    }
}

/// Replaces every token that follows `marker`. The marker is in lower case.
pub fn redact_ascii_token(text: &str, marker: &str) -> (safe: String)
    requires
        marker@.len() > 0,
    ensures
        safe@ == without_tokens(text@, marker@),
{
    let chars = chars_of(text);
    let low = to_lower(text);
    let needle = chars_of(marker);
    let mark_chars = chars_of("[REDACTED]");
    let mut out: Vec<char> = Vec::new();
    let mut from: usize = 0;
    assert(chars@.skip(0) =~= chars@);
    assert(out@ + without_tokens(chars@.skip(0), needle@) =~= without_tokens(chars@, needle@));
    loop
        invariant
            chars@ == text@,
            low@ == lowered(chars@),
            needle@ == marker@,
            needle@.len() > 0,
            mark_chars@ == mark(),
            from <= chars@.len(),
            out@ + without_tokens(chars@.skip(from as int), needle@) == without_tokens(
                text@,
                marker@,
            ),
        decreases chars.len() - from,
    {
        let ghost rest = chars@.skip(from as int);
        proof {
            assert(lowered(rest) =~= low@.skip(from as int));
            lemma_find_in_suffix(low@, needle@, from as int, 0);
            lemma_find_from(lowered(rest), needle@, 0);
        }
        let place = chars_find(&low, &needle, from);
        match place {
            None => {
                let end = chars.len();
                append_chars(&mut out, &chars, from, end);
                assert(chars@.subrange(from as int, end as int) =~= rest);
                return text_of(out);
            },
            Some(i) => {
                let ghost before = out@;
                let start = i + needle.len();
                append_chars(&mut out, &chars, from, start);
                let ghost k = i - from;
                let ghost head = rest.take(k + needle@.len());
                let ghost tail = rest.skip(k + needle@.len());
                assert(head =~= chars@.subrange(from as int, start as int));
                assert(tail =~= chars@.skip(start as int));
                let mut end: usize = start;
                while end < chars.len() && !char_ends_token(chars[end])
                    invariant
                        start <= end <= chars@.len(),
                        tail == chars@.skip(start as int),
                        token_len(tail) == (end - start) + token_len(chars@.skip(end as int)),
                    decreases chars.len() - end,
                {
                    assert(chars@.skip(end as int).skip(1) =~= chars@.skip(end + 1));
                    end += 1;
                }
                assert(token_len(tail) == end - start);
                if end == start {
                    assert(out@ + without_tokens(tail, needle@) =~= before + (head
                        + without_tokens(tail, needle@)));
                } else {
                    let n = mark_chars.len();
                    append_chars(&mut out, &mark_chars, 0, n);
                    assert(mark_chars@.subrange(0, n as int) =~= mark());
                    assert(tail.skip(end - start) =~= chars@.skip(end as int));
                    assert(out@ + without_tokens(chars@.skip(end as int), needle@) =~= before + (
                    head + mark() + without_tokens(tail.skip(end - start), needle@)));
                }
                from = end;
            },
        }
    }
}

/// Takes the key and what looks like a credential out of a text.
pub fn redact_text(text: &str, api_key: &str) -> (safe: String)
    ensures
        safe@ == redacted_text(text@, api_key@),
{
    proof {
        reveal_strlit("bearer ");
        reveal_strlit("sk-");
    }
    let first = replace_secret(text, api_key);
    let second = redact_ascii_token(first.as_str(), "bearer ");
    redact_ascii_token(second.as_str(), "sk-")
}

// ---------------------------------------------------------------------------
// JSON
// ---------------------------------------------------------------------------

/// The name of a field whose value is a secret.
pub open spec fn is_sensitive(name: Seq<char>) -> bool {
    let low = lowered(name);
    ||| contains(low, "authorization"@)
    ||| contains(low, "api_key"@)
    ||| contains(low, "apikey"@)
    ||| contains(low, "access_token"@)
    ||| contains(low, "refresh_token"@)
    ||| contains(low, "credential"@)
    ||| contains(low, "cookie"@)
    ||| contains(low, "secret"@)
    ||| contains(low, "path_secret"@)
}

fn contains_text(text: &Vec<char>, needle: &str) -> (yes: bool)
    ensures
        yes == contains(text@, needle@),
{
    chars_contain(text, &chars_of(needle))
}

pub fn sensitive_error_key(key: &str) -> (sensitive: bool)
    ensures
        sensitive == is_sensitive(key@),
{
    let low = to_lower(key);
    contains_text(&low, "authorization") || contains_text(&low, "api_key") || contains_text(
        &low,
        "apikey",
    ) || contains_text(&low, "access_token") || contains_text(&low, "refresh_token")
        || contains_text(&low, "credential") || contains_text(&low, "cookie") || contains_text(
        &low,
        "secret",
    ) || contains_text(&low, "path_secret")
}

/// A value without secrets: fields of sensitive names and texts are cleaned, all else
/// stays.
pub open spec fn redacted_tree(tree: JsonTree, api_key: Seq<char>) -> JsonTree
    decreases tree,
{
    match tree {
        JsonTree::Text(text) => JsonTree::Text(redacted_text(text, api_key)),
        JsonTree::List(values) => JsonTree::List(redacted_trees(values, api_key)),
        JsonTree::Object(fields) => JsonTree::Object(redacted_fields(fields, api_key)),
        other => other,
    }
}

pub open spec fn redacted_trees(values: Seq<JsonTree>, api_key: Seq<char>) -> Seq<JsonTree>
    decreases values,
{
    if values.len() == 0 {
        Seq::empty()
    } else {
        redacted_trees(values.drop_last(), api_key).push(redacted_tree(values.last(), api_key))
    }
}

pub open spec fn redacted_fields(fields: Seq<(Seq<char>, JsonTree)>, api_key: Seq<char>) -> Seq<
    (Seq<char>, JsonTree),
>
    decreases fields,
{
    if fields.len() == 0 {
        Seq::empty()
    } else {
        let (name, value) = fields.last();
        redacted_fields(fields.drop_last(), api_key).push(
            (
                name,
                if is_sensitive(name) {
                    JsonTree::Text(mark())
                } else {
                    redacted_tree(value, api_key)
                },
            ),
        )
    }
}

proof fn lemma_redacted_names(fields: Seq<(Seq<char>, JsonTree)>, api_key: Seq<char>)
    ensures
        redacted_fields(fields, api_key).len() == fields.len(),
        forall|i: int|
            0 <= i < fields.len() ==> (#[trigger] redacted_fields(fields, api_key)[i]).0
                == fields[i].0,
    decreases fields.len(),
{
    if fields.len() > 0 {
        lemma_redacted_names(fields.drop_last(), api_key);
    }
}

/// Takes secrets out of a JSON value.
pub fn redact_json(value: serde_json::Value, api_key: &str) -> (safe: serde_json::Value)
    ensures
        value_tree(safe) == redacted_tree(value_tree(value), api_key@),
    decreases value_tree(value),
{
    match open_value(value) {
        OpenedJson::Text(text) => close_value(
            OpenedJson::Text(redact_text(text.as_str(), api_key)),
        ),
        OpenedJson::List(values) => {
            let ghost all = value_trees(values@);
            let mut rest = reversed(values);
            let mut safe: Vec<serde_json::Value> = Vec::new();
            assert(value_trees(values@).len() == values@.len());
            while rest.len() > 0
                invariant
                    value_tree(value) == JsonTree::List(all),
                    rest@.len() <= all.len(),
                    forall|i: int|
                        0 <= i < rest@.len() ==> value_tree(#[trigger] rest@[i]) == all[all.len() - 1
                            - i],
                    value_trees(safe@) == redacted_trees(
                        all.take(all.len() - rest@.len()),
                        api_key@,
                    ),
                decreases rest@.len(),
            {
                let ghost before = safe@;
                let ghost done: int = all.len() - rest@.len();
                if let Some(first) = rest.pop() {
                    proof {
                        assert(value_tree(first) == all[done]);
                        assert(decreases_to!(value_tree(value) => value_tree(value)->List_0));
                        assert(decreases_to!(all => all[done]));
                    }
                    safe.push(redact_json(first, api_key));
                    proof {
                        assert(all.take(done + 1).drop_last() =~= all.take(done));
                        assert(value_trees(safe@) =~= value_trees(before).push(
                            redacted_tree(all[done], api_key@),
                        ));
                    }
                }
            }
            assert(all.take(all.len() as int) =~= all);
            close_value(OpenedJson::List(safe))
        },
        OpenedJson::Object(fields) => {
            let ghost all = value_entries(fields@);
            let mut rest = reversed(fields);
            let mut safe: Vec<(String, serde_json::Value)> = Vec::new();
            assert(value_entries(fields@).len() == fields@.len());
            while rest.len() > 0
                invariant
                    value_tree(value) == JsonTree::Object(all),
                    rest@.len() <= all.len(),
                    forall|i: int|
                        0 <= i < rest@.len() ==> ((#[trigger] rest@[i]).0@, value_tree(rest@[i].1))
                            == all[all.len() - 1 - i],
                    value_entries(safe@) == redacted_fields(
                        all.take(all.len() - rest@.len()),
                        api_key@,
                    ),
                decreases rest@.len(),
            {
                let ghost before = safe@;
                let ghost done: int = all.len() - rest@.len();
                if let Some((name, field)) = rest.pop() {
                    proof {
                        assert((name@, value_tree(field)) == all[done]);
                        assert(decreases_to!(value_tree(value) => value_tree(value)->Object_0));
                        assert(decreases_to!(all => all[done]));
                        assert(decreases_to!(all[done] => all[done].1));
                    }
                    let clean = if sensitive_error_key(name.as_str()) {
                        close_value(OpenedJson::Text("[REDACTED]".to_owned()))
                    } else {
                        redact_json(field, api_key)
                    };
                    safe.push((name, clean));
                    proof {
                        assert(all.take(done + 1).drop_last() =~= all.take(done));
                        assert(value_entries(safe@) =~= value_entries(before).push(
                            (name@, value_tree(clean)),
                        ));
                    }
                }
            }
            assert(all.take(all.len() as int) =~= all);
            proof {
                lemma_redacted_names(all, api_key@);
                assert(names_ascend(value_entries(safe@)));
            }
            close_value(OpenedJson::Object(safe))
        },
        OpenedJson::Other(other) => other,
    }
}

// ---------------------------------------------------------------------------
// Error bodies
// ---------------------------------------------------------------------------

/// The first part of a body, as much of it as is shown.
pub open spec fn shown_part(bytes: Seq<u8>) -> Seq<u8> {
    if bytes.len() > MAX_ERROR_BODY_BYTES {
        bytes.take(MAX_ERROR_BODY_BYTES as int)
    } else {
        bytes
    }
}

/// What is shown of a text that `json` is the JSON value of, if it is JSON.
pub open spec fn shown_text(
    raw: Seq<char>,
    json: Option<JsonTree>,
    api_key: Seq<char>,
) -> Seq<char> {
    match json {
        Some(tree) => match rendered_json(redacted_tree(tree, api_key)) {
            Some(text) => text,
            None => "upstream error"@,
        },
        None => redacted_text(raw, api_key),
    }
}

/// What is shown of an error body.
pub open spec fn shown_error_body(bytes: Seq<u8>, api_key: Seq<char>) -> Seq<char> {
    let raw = lossy_text(shown_part(bytes));
    let safe = shown_text(raw, parsed_json(raw), api_key);
    if bytes.len() > MAX_ERROR_BODY_BYTES {
        safe + "…[truncated]"@
    } else {
        safe
    }
}

/// Takes secrets out of a text that may be JSON.
pub fn redact_parsed(raw: &str, json: Option<serde_json::Value>, api_key: &str) -> (safe: String)
    ensures
        safe@ == shown_text(
            raw@,
            match json {
                Some(value) => Some(value_tree(value)),
                None => None,
            },
            api_key@,
        ),
{
    match json {
        Some(value) => {
            let clean = redact_json(value, api_key);
            match render_value(&clean) {
                Some(text) => text,
                None => "upstream error".to_owned(),
            }
        },
        None => redact_text(raw, api_key),
    }
}

/// Makes an error body fit to be shown: short, and without secrets.
pub fn redact_error_body(bytes: &[u8], api_key: &str) -> (safe: String)
    ensures
        safe@ == shown_error_body(bytes@, api_key@),
{
    let truncated = bytes.len() > MAX_ERROR_BODY_BYTES;
    let end = if truncated {
        MAX_ERROR_BODY_BYTES
    } else {
        bytes.len()
    };
    let part = vstd::slice::slice_subrange(bytes, 0, end);
    assert(part@ =~= shown_part(bytes@));
    let raw = decode_lossy(part);
    let json = parse_value(raw.as_str());
    let safe = redact_parsed(raw.as_str(), json, api_key);
    if truncated {
        join(safe.as_str(), "…[truncated]")
    } else {
        safe
    }
}

// ---------------------------------------------------------------------------
// Laws
// ---------------------------------------------------------------------------

/// A key that cannot be mistaken for a part of the mark.
pub open spec fn is_apart_from_mark(key: Seq<char>) -> bool {
    &&& key.len() > 0
    &&& !key.contains('[')
    &&& !key.contains(']')
    &&& !contains(mark(), key)
}

/// Two texts without the needle have none together, where one of the characters that
/// meet is not in the needle.
proof fn lemma_none_across(a: Seq<char>, b: Seq<char>, needle: Seq<char>)
    requires
        needle.len() > 0,
        !contains(a, needle),
        !contains(b, needle),
        a.len() == 0 || b.len() == 0 || !needle.contains(a.last()) || !needle.contains(b[0]),
    ensures
        !contains(a + b, needle),
{
    let whole = a + b;
    assert forall|i: int| !found_at(whole, needle, i) by {
        if found_at(whole, needle, i) {
            let part = whole.subrange(i, i + needle.len());
            if i + needle.len() <= a.len() {
                assert(a.subrange(i, i + needle.len()) =~= part);
                assert(found_at(a, needle, i));
            } else if i >= a.len() {
                assert(b.subrange(i - a.len(), i - a.len() + needle.len()) =~= part);
                assert(found_at(b, needle, i - a.len()));
            } else {
                assert(part[a.len() - 1 - i] == a.last());
                assert(part[a.len() - i] == b[0]);
                assert(needle.contains(a.last()));
                assert(needle.contains(b[0]));
            }
        }
    }
}

proof fn lemma_none_in_part(text: Seq<char>, needle: Seq<char>, from: int, to: int)
    requires
        !contains(text, needle),
        0 <= from <= to <= text.len(),
    ensures
        !contains(text.subrange(from, to), needle),
{
    let part = text.subrange(from, to);
    assert forall|i: int| !found_at(part, needle, i) by {
        if found_at(part, needle, i) {
            assert(text.subrange(from + i, from + i + needle.len()) =~= part.subrange(
                i,
                i + needle.len(),
            ));
            assert(found_at(text, needle, from + i));
        }
    }
}

/// A mark between two texts without the needle adds none.
proof fn lemma_none_around_mark(a: Seq<char>, b: Seq<char>, needle: Seq<char>)
    requires
        is_apart_from_mark(needle),
        !contains(a, needle),
        !contains(b, needle),
    ensures
        !contains(a + mark() + b, needle),
{
    reveal_strlit("[REDACTED]");
    assert(mark()[0] == '[');
    assert(mark().last() == ']');
    lemma_none_across(a, mark(), needle);
    assert((a + mark()).last() == ']');
    lemma_none_across(a + mark(), b, needle);
}

/// A text from which a key was taken out does not hold the key.
pub proof fn law_key_is_taken_out(text: Seq<char>, key: Seq<char>)
    requires
        is_apart_from_mark(key),
    ensures
        !contains(without_secret(text, key), key),
    decreases text.len(),
{
    lemma_find_from(text, key, 0);
    match find_from(text, key, 0) {
        None => {
            assert forall|i: int| !found_at(text, key, i) by {}
        },
        Some(i) => {
            let head = text.take(i);
            assert forall|k: int| !found_at(head, key, k) by {
                if found_at(head, key, k) {
                    assert(text.subrange(k, k + key.len()) =~= head.subrange(k, k + key.len()));
                    assert(found_at(text, key, k));
                }
            }
            law_key_is_taken_out(text.skip(i + key.len()), key);
            lemma_none_around_mark(
                head,
                without_secret(text.skip(i + key.len()), key),
                key,
            );
        },
    }
}

/// What is put in the place of tokens begins as the text did, up to the first mark.
proof fn lemma_same_up_to_mark(text: Seq<char>, marker: Seq<char>, k: int)
    requires
        marker.len() > 0,
        0 <= k <= without_tokens(text, marker).len(),
    ensures
        ({
            let begin = without_tokens(text, marker).take(k);
            (k <= text.len() && begin == text.take(k)) || begin.contains('[')
        }),
    decreases text.len(),
{
    reveal_strlit("[REDACTED]");
    lemma_find_from(lowered(text), marker, 0);
    let safe = without_tokens(text, marker);
    match find_from(lowered(text), marker, 0) {
        None => {},
        Some(i) => {
            let m = i + marker.len();
            let head = text.take(m);
            let tail = text.skip(m);
            let n = token_len(tail);
            lemma_token_len(tail);
            if k <= m {
                assert(safe.take(k) =~= text.take(k));
            } else if n == 0 {
                let rest = without_tokens(tail, marker);
                lemma_same_up_to_mark(tail, marker, k - m);
                assert(safe.take(k) =~= head + rest.take(k - m));
                if rest.take(k - m).contains('[') {
                    let begin = rest.take(k - m);
                    let p = choose|p: int| 0 <= p < begin.len() && begin[p] == '[';
                    assert(safe.take(k)[m + p] == '[');
                } else {
                    assert(text.take(k) =~= head + tail.take(k - m));
                }
            } else {
                assert(safe.take(k)[m] == mark()[0]);
            }
        },
    }
}

/// Taking tokens out does not bring a key back.
proof fn lemma_tokens_hide_key(text: Seq<char>, marker: Seq<char>, key: Seq<char>)
    requires
        marker.len() > 0,
        is_apart_from_mark(key),
        !contains(text, key),
    ensures
        !contains(without_tokens(text, marker), key),
    decreases text.len(),
{
    lemma_find_from(lowered(text), marker, 0);
    match find_from(lowered(text), marker, 0) {
        None => {},
        Some(i) => {
            let m = i + marker.len();
            let head = text.take(m);
            let tail = text.skip(m);
            let n = token_len(tail);
            lemma_token_len(tail);
            lemma_none_in_part(text, key, 0, m);
            assert(text.subrange(0, m) =~= head);
            lemma_none_in_part(text, key, m, text.len() as int);
            assert(text.subrange(m, text.len() as int) =~= tail);
            if n == 0 {
                lemma_tokens_hide_key(tail, marker, key);
                let rest = without_tokens(tail, marker);
                let whole = head + rest;
                assert forall|p: int| !found_at(whole, key, p) by {
                    if found_at(whole, key, p) {
                        let part = whole.subrange(p, p + key.len());
                        if p + key.len() <= m {
                            assert(head.subrange(p, p + key.len()) =~= part);
                            assert(found_at(head, key, p));
                        } else if p >= m {
                            assert(rest.subrange(p - m, p - m + key.len()) =~= part);
                            assert(found_at(rest, key, p - m));
                        } else {
                            let k = p + key.len() - m;
                            lemma_same_up_to_mark(tail, marker, k);
                            if rest.take(k).contains('[') {
                                let begin = rest.take(k);
                                let q = choose|q: int| 0 <= q < begin.len() && begin[q] == '[';
                                assert(part[m + q - p] == '[');
                                assert(key.contains('['));
                            } else {
                                assert forall|q: int| p <= q < p + key.len() implies whole[q]
                                    == text[q] by {
                                    if q >= m {
                                        assert(rest.take(k)[q - m] == tail.take(k)[q - m]);
                                    }
                                }
                                assert(text.subrange(p, p + key.len()) =~= part);
                                assert(found_at(text, key, p));
                            }
                        }
                    }
                }
            } else {
                let after = tail.skip(n as int);
                lemma_none_in_part(tail, key, n as int, tail.len() as int);
                assert(tail.subrange(n as int, tail.len() as int) =~= after);
                lemma_tokens_hide_key(after, marker, key);
                lemma_none_around_mark(head, without_tokens(after, marker), key);
            }
        },
    }
}

/// A redacted text does not hold the key.
pub proof fn law_redacted_text_hides_key(text: Seq<char>, key: Seq<char>)
    requires
        is_apart_from_mark(key),
    ensures
        !contains(redacted_text(text, key), key),
{
    reveal_strlit("bearer ");
    reveal_strlit("sk-");
    let first = without_secret(text, key);
    law_key_is_taken_out(text, key);
    lemma_tokens_hide_key(first, "bearer "@, key);
    lemma_tokens_hide_key(without_tokens(first, "bearer "@), "sk-"@, key);
}

/// A marker whose first character stands nowhere else in it, nor in the mark.
pub open spec fn is_clear_marker(marker: Seq<char>) -> bool {
    &&& marker.len() > 0
    &&& forall|i: int| 0 < i < marker.len() ==> #[trigger] marker[i] != marker[0]
    &&& !lowered(mark()).contains(marker[0])
    &&& !marker.contains('[')
}

/// What follows a marker is hidden: a mark stands there, or no token at all.
pub open spec fn token_is_hidden(text: Seq<char>, at: int) -> bool {
    token_len(text.skip(at)) == 0 || found_at(text, mark(), at)
}

/// In a text from which tokens were taken out, no marker is followed by a token but
/// the mark.
pub proof fn law_no_token_is_left(text: Seq<char>, marker: Seq<char>, at: int)
    requires
        is_clear_marker(marker),
        found_at(lowered(without_tokens(text, marker)), marker, at),
    ensures
        token_is_hidden(without_tokens(text, marker), at + marker.len()),
    decreases text.len(),
{
    reveal_strlit("[REDACTED]");
    let low = lowered(text);
    let safe = without_tokens(text, marker);
    let len = marker.len() as int;
    lemma_find_from(low, marker, 0);
    assert(lowered(safe).subrange(at, at + len)[0] == marker[0]);
    match find_from(low, marker, 0) {
        None => {
            assert(safe == text);
            assert(found_at(low, marker, at));
        },
        Some(i) => {
            let m = i + len;
            let head = text.take(m);
            let tail = text.skip(m);
            let n = token_len(tail);
            lemma_token_len(tail);
            assert(low.subrange(i, m) == marker);
            let rest = if n == 0 {
                without_tokens(tail, marker)
            } else {
                without_tokens(tail.skip(n as int), marker)
            };
            let shift = if n == 0 {
                m
            } else {
                m + mark().len()
            };
            if at < i {
                // The marker would have been found before.
                assert(at + len <= m ==> found_at(low, marker, at)) by {
                    if at + len <= m {
                        assert(low.subrange(at, at + len) =~= lowered(safe).subrange(at, at + len));
                    }
                }
                assert(at + len > m);
                assert(false);
            } else if at == i {
                if n > 0 {
                    assert(safe.subrange(m, m + mark().len()) =~= mark());
                } else {
                    // The tail starts with the end of a token, and so does what replaces it.
                    if rest.len() > 0 {
                        lemma_same_up_to_mark(tail, marker, 1);
                        lemma_first_is_kept(tail, marker);
                    }
                    assert(safe.skip(m) =~= rest);
                }
            } else if at < m {
                assert(lowered(safe)[at] == low[at]);
                assert(low.subrange(i, m)[at - i] == marker[at - i]);
                assert(false);
            } else if at < shift {
                assert(lowered(safe)[at] == lowered(mark())[at - m]);
                assert(false);
            } else {
                let k = at - shift;
                assert(lowered(rest).subrange(k, k + len) =~= lowered(safe).subrange(
                    at,
                    at + len,
                ));
                law_no_token_is_left(
                    if n == 0 {
                        tail
                    } else {
                        tail.skip(n as int)
                    },
                    marker,
                    k,
                );
                assert(safe.skip(at + len) =~= rest.skip(k + len));
                if found_at(rest, mark(), k + len) {
                    assert(safe.subrange(at + len, at + len + mark().len()) =~= rest.subrange(
                        k + len,
                        k + len + mark().len(),
                    ));
                }
            }
        },
    }
}

/// The first character of a text is never replaced.
proof fn lemma_first_is_kept(text: Seq<char>, marker: Seq<char>)
    requires
        marker.len() > 0,
        without_tokens(text, marker).len() > 0,
    ensures
        text.len() > 0,
        without_tokens(text, marker)[0] == text[0],
{
    lemma_find_from(lowered(text), marker, 0);
}

/// The two markers of credentials are clear ones.
pub proof fn law_markers_are_clear()
    ensures
        is_clear_marker("bearer "@),
        is_clear_marker("sk-"@),
{
    reveal_strlit("[REDACTED]");
    reveal_strlit("bearer ");
    reveal_strlit("sk-");
    let low = lowered(mark());
    assert forall|i: int| 0 <= i < low.len() implies low[i] != 'b' && low[i] != 's' by {}
}

/// The value of a field with a sensitive name is the mark, whatever it was.
pub proof fn law_sensitive_fields_are_masked(
    fields: Seq<(Seq<char>, JsonTree)>,
    key: Seq<char>,
    i: int,
)
    requires
        0 <= i < fields.len(),
        is_sensitive(fields[i].0),
    ensures
        redacted_fields(fields, key).len() == fields.len(),
        redacted_fields(fields, key)[i] == (fields[i].0, JsonTree::Text(mark())),
    decreases fields.len(),
{
    lemma_redacted_names(fields, key);
    lemma_redacted_names(fields.drop_last(), key);
    if i < fields.len() - 1 {
        law_sensitive_fields_are_masked(fields.drop_last(), key, i);
    }
}

} // verus!
