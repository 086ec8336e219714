//! What holds of every redacted text.

use vstd::prelude::*;

use crate::json::{parsed_json, rendered_json, value_tree, JsonTree};
use crate::redaction::{
    ends_token, is_clear_marker, is_sensitive, law_markers_are_clear, mark,
    redact_ascii_token, redact_error_body, redact_json, redact_parsed, redact_text,
    redacted_fields, redacted_tree, redacted_trees, replace_secret, sensitive_error_key, token_len,
    without_secret, without_tokens,
};
use crate::text::{contains, find_from, found_at, lemma_find_from, lossy_text, lowered};

verus! {

/// Where a marker ends, what it marks is hidden: the text is over there, or white
/// space, a quote, a comma, a semicolon, a closing brace or bracket stands there, or
/// the mark does and is itself followed by the end or by one of these.
pub open spec fn is_hidden_from(text: Seq<char>, at: int) -> bool {
    ||| text.len() <= at
    ||| text[at] == ' ' || text[at] == '\t' || text[at] == '\n' || text[at] == '\u{0c}' || text[at]
        == '\r' || text[at] == '"' || text[at] == '\'' || text[at] == ',' || text[at] == '}'
        || text[at] == ']' || text[at] == ';'
    ||| found_at(text, "[REDACTED]"@, at) && (text.len() == at + 10 || {
        let next = text[at + 10];
        next == ' ' || next == '\t' || next == '\n' || next == '\u{0c}' || next == '\r' || next
            == '"' || next == '\'' || next == ',' || next == '}' || next == ']' || next == ';'
    })
}

/// A token is ended by white space, a quote, a comma, a semicolon, a closing brace or
/// bracket, and by nothing else: no letter, digit, dash, underscore, dot, slash, plus
/// or equals sign ends one.
pub proof fn law_what_ends_a_token(c: char)
    ensures
        c == ' ' || c == '\t' || c == '\n' || c == '\r' || c == '\u{0c}' || c == '"' || c == '\''
            || c == ',' || c == ';' || c == '}' || c == ']' <==> ends_token(c),
        'a' <= c <= 'z' || 'A' <= c <= 'Z' || '0' <= c <= '9' || c == '-' || c == '_' || c == '.'
            || c == '/' || c == '+' || c == '=' || c == '~' || c == ':' ==> !ends_token(c),
{
}

proof fn lemma_token_end(text: Seq<char>)
    ensures
        ({
            let n = token_len(text) as int;
            &&& n <= text.len()
            &&& n == text.len() || ends_token(text[n])
            &&& forall|k: int| 0 <= k < n ==> !ends_token(#[trigger] text[k])
        }),
    decreases text.len(),
{
    if text.len() > 0 && !ends_token(text[0]) {
        let rest = text.skip(1);
        lemma_token_end(rest);
        assert forall|k: int| 0 <= k < token_len(text) implies !ends_token(#[trigger] text[k]) by {
            if k > 0 {
                assert(rest[k - 1] == text[k]);
            }
        }
    }
}

proof fn lemma_start_is_kept(text: Seq<char>, marker: Seq<char>)
    requires
        marker.len() > 0,
    ensures
        without_tokens(text, marker).len() == 0 <==> text.len() == 0,
        text.len() > 0 ==> without_tokens(text, marker)[0] == text[0],
{
    lemma_find_from(lowered(text), marker, 0);
}

proof fn lemma_hidden_behind_markers(text: Seq<char>, marker: Seq<char>, at: int)
    requires
        is_clear_marker(marker),
        found_at(lowered(without_tokens(text, marker)), marker, at),
    ensures
        is_hidden_from(without_tokens(text, marker), at + marker.len()),
    decreases text.len(),
{
    reveal_strlit("[REDACTED]");
    let low = lowered(text);
    let safe = without_tokens(text, marker);
    let len = marker.len() as int;
    lemma_find_from(low, marker, 0);
    assert(lowered(safe).subrange(at, at + len)[0] == marker[0]);
    match find_from(low, marker, 0) {
        None => {
            assert(safe == text);
            assert(found_at(low, marker, at));
        },
        Some(i) => {
            let m = i + len;
            let tail = text.skip(m);
            let n = token_len(tail) as int;
            lemma_token_end(tail);
            assert(low.subrange(i, m) == marker);
            let left = if n == 0 {
                tail
            } else {
                tail.skip(n)
            };
            let rest = without_tokens(left, marker);
            lemma_start_is_kept(left, marker);
            let shift = if n == 0 {
                m
            } else {
                m + 10
            };
            assert(safe.skip(shift) =~= rest);
            if at < i {
                assert(at + len <= m ==> found_at(low, marker, at)) by {
                    if at + len <= m {
                        assert(low.subrange(at, at + len) =~= lowered(safe).subrange(at, at + len));
                    }
                }
                assert(at + len > m);
                assert(false);
            } else if at == i {
                if n > 0 {
                    assert(safe.subrange(m, m + 10) =~= mark());
                    if rest.len() > 0 {
                        assert(safe[m + 10] == left[0]);
                        assert(left[0] == tail[n]);
                    }
                } else if rest.len() > 0 {
                    assert(safe[m] == tail[0]);
                }
            } else if at < m {
                assert(lowered(safe)[at] == low[at]);
                assert(low.subrange(i, m)[at - i] == marker[at - i]);
                assert(false);
            } else if at < shift {
                assert(lowered(safe)[at] == lowered(mark())[at - m]);
                assert(false);
            } else {
                let k = at - shift;
                assert(lowered(rest).subrange(k, k + len) =~= lowered(safe).subrange(
                    at,
                    at + len,
                ));
                lemma_hidden_behind_markers(left, marker, k);
                let e = k + len;
                if e < rest.len() {
                    assert(safe[shift + e] == rest[e]);
                    if found_at(rest, mark(), e) {
                        assert(safe.subrange(shift + e, shift + e + 10) =~= rest.subrange(
                            e,
                            e + 10,
                        ));
                        if rest.len() > e + 10 {
                            assert(safe[shift + e + 10] == rest[e + 10]);
                        }
                    }
                }
            }
        },
    }
}

/// Wherever a marker stands in a text from which tokens were taken out, in whatever
/// case, what it marks is hidden to its end.
pub proof fn law_tokens_are_hidden_to_their_end(text: &str, marker: &str, safe: String, at: int)
    requires
        call_ensures(redact_ascii_token, (text, marker), safe),
        is_clear_marker(marker@),
        found_at(lowered(safe@), marker@, at),
    ensures
        is_hidden_from(safe@, at + marker@.len()),
{
    lemma_hidden_behind_markers(text@, marker@, at);
}

/// In a redacted text, every `sk-` is followed by the end of the text, by one of the
/// characters that end a token, or by the mark and then one of these.
pub proof fn law_redacted_keys_are_hidden_to_their_end(
    text: &str,
    api_key: &str,
    safe: String,
    at: int,
)
    requires
        call_ensures(redact_text, (text, api_key), safe),
        found_at(lowered(safe@), "sk-"@, at),
    ensures
        is_hidden_from(safe@, at + 3),
{
    law_markers_are_clear();
    reveal_strlit("sk-");
    lemma_hidden_behind_markers(
        without_tokens(without_secret(text@, api_key@), "bearer "@),
        "sk-"@,
        at,
    );
}

/// A token is hidden whole and nothing else is: what stands before its marker, the
/// marker, and what follows from the first white space, quote, comma, semicolon,
/// closing brace or bracket on are kept, the rest being cleaned in its turn.
pub proof fn law_a_token_is_replaced_whole(
    text: &str,
    marker: &str,
    safe: String,
    head: Seq<char>,
    token: Seq<char>,
    rest: &str,
    safe_rest: String,
)
    requires
        call_ensures(redact_ascii_token, (text, marker), safe),
        call_ensures(redact_ascii_token, (rest, marker), safe_rest),
        marker@.len() > 0,
        marker@.len() <= head.len(),
        text@ == head + token + rest@,
        // The first marker is at the end of the head.
        found_at(lowered(head), marker@, head.len() - marker@.len()),
        forall|k: int|
            0 <= k < head.len() - marker@.len() ==> !found_at(lowered(text@), marker@, k),
        token.len() > 0,
        forall|k: int|
            0 <= k < token.len() ==> {
                let c = #[trigger] token[k];
                !(c == ' ' || c == '\t' || c == '\n' || c == '\u{0c}' || c == '\r' || c == '"' || c
                    == '\'' || c == ',' || c == '}' || c == ']' || c == ';')
            },
        rest@.len() == 0 || {
            let c = rest@[0];
            c == ' ' || c == '\t' || c == '\n' || c == '\u{0c}' || c == '\r' || c == '"' || c
                == '\'' || c == ',' || c == '}' || c == ']' || c == ';'
        },
    ensures
        safe@ == head + "[REDACTED]"@ + safe_rest@,
{
    let low = lowered(text@);
    let i = head.len() - marker@.len();
    lemma_find_from(low, marker@, 0);
    assert(low.subrange(i, i + marker@.len()) =~= lowered(head).subrange(i, i + marker@.len()));
    assert(found_at(low, marker@, i));
    let tail = text@.skip(head.len() as int);
    assert(tail =~= token + rest@);
    lemma_token_end(tail);
    let n = token_len(tail) as int;
    if n < token.len() {
        assert(tail[n] == token[n]);
    }
    if n > token.len() {
        assert(tail[token.len() as int] == rest@[0]);
    }
    assert(tail.skip(n) =~= rest@);
    assert(text@.take(i + marker@.len()) =~= head);
}

/// Where no token follows a marker, the marker and what follows stay.
pub proof fn law_a_bare_marker_is_kept(
    text: &str,
    marker: &str,
    safe: String,
    head: Seq<char>,
    rest: &str,
    safe_rest: String,
)
    requires
        call_ensures(redact_ascii_token, (text, marker), safe),
        call_ensures(redact_ascii_token, (rest, marker), safe_rest),
        marker@.len() > 0,
        marker@.len() <= head.len(),
        text@ == head + rest@,
        found_at(lowered(head), marker@, head.len() - marker@.len()),
        forall|k: int|
            0 <= k < head.len() - marker@.len() ==> !found_at(lowered(text@), marker@, k),
        rest@.len() == 0 || {
            let c = rest@[0];
            c == ' ' || c == '\t' || c == '\n' || c == '\u{0c}' || c == '\r' || c == '"' || c
                == '\'' || c == ',' || c == '}' || c == ']' || c == ';'
        },
    ensures
        safe@ == head + safe_rest@,
{
    let low = lowered(text@);
    let i = head.len() - marker@.len();
    lemma_find_from(low, marker@, 0);
    assert(low.subrange(i, i + marker@.len()) =~= lowered(head).subrange(i, i + marker@.len()));
    assert(found_at(low, marker@, i));
    assert(text@.skip(head.len() as int) =~= rest@);
    assert(text@.take(i + marker@.len()) =~= head);
}

/// A text without the marker, in whatever case, is kept.
pub proof fn law_unmarked_text_is_kept(text: &str, marker: &str, safe: String)
    requires
        call_ensures(redact_ascii_token, (text, marker), safe),
        !contains(lowered(text@), marker@),
    ensures
        safe@ == text@,
{
    lemma_find_from(lowered(text@), marker@, 0);
}

/// The mark stands in the place of the key, and what is around it is kept.
pub proof fn law_the_key_is_replaced(
    text: &str,
    secret: &str,
    safe: String,
    head: Seq<char>,
    rest: &str,
    safe_rest: String,
)
    requires
        call_ensures(replace_secret, (text, secret), safe),
        call_ensures(replace_secret, (rest, secret), safe_rest),
        secret@.len() > 0,
        text@ == head + secret@ + rest@,
        forall|k: int| 0 <= k < head.len() ==> !found_at(text@, secret@, k),
    ensures
        safe@ == head + "[REDACTED]"@ + safe_rest@,
{
    lemma_find_from(text@, secret@, 0);
    let i = head.len() as int;
    assert(text@.subrange(i, i + secret@.len()) =~= secret@);
    assert(found_at(text@, secret@, i));
    assert(text@.take(i) =~= head);
    assert(text@.skip(i + secret@.len()) =~= rest@);
}

/// A text that does not hold the key is kept, and so is every text where there is no
/// key.
pub proof fn law_text_without_the_key_is_kept(text: &str, secret: &str, safe: String)
    requires
        call_ensures(replace_secret, (text, secret), safe),
        secret@.len() == 0 || !contains(text@, secret@),
    ensures
        safe@ == text@,
{
    lemma_find_from(text@, secret@, 0);
}

/// A text is redacted by taking out the key, then what follows `bearer `, then what
/// follows `sk-`.
pub proof fn law_text_is_redacted_in_three_steps(
    text: &str,
    api_key: &str,
    first: &str,
    second: &str,
    safe: String,
    keyless: String,
    unborne: String,
    unmarked: String,
)
    requires
        call_ensures(redact_text, (text, api_key), safe),
        call_ensures(replace_secret, (text, api_key), keyless),
        first@ == keyless@,
        call_ensures(redact_ascii_token, (first, "bearer "), unborne),
        second@ == unborne@,
        call_ensures(redact_ascii_token, (second, "sk-"), unmarked),
    ensures
        safe@ == unmarked@,
{
}

/// Only these words, in whatever case and wherever they stand in a name, make a field
/// a secret one.
pub proof fn law_names_of_secrets(key: &str, sensitive: bool, at: int, word: Seq<char>)
    requires
        call_ensures(sensitive_error_key, (key,), sensitive),
    ensures
        found_at(lowered(key@), word, at) && (word == "authorization"@ || word == "api_key"@ || word
            == "apikey"@ || word == "access_token"@ || word == "refresh_token"@ || word
            == "credential"@ || word == "cookie"@ || word == "secret"@) ==> sensitive,
        sensitive ==> exists|i: int, part: Seq<char>| #[trigger]
            found_at(lowered(key@), part, i) && (part == "authorization"@ || part == "api_key"@
                || part == "apikey"@ || part == "access_token"@ || part == "refresh_token"@ || part
                == "credential"@ || part == "cookie"@ || part == "secret"@),
{
    let low = lowered(key@);
    if sensitive && contains(low, "path_secret"@) {
        let i = choose|i: int| found_at(low, "path_secret"@, i);
        reveal_strlit("path_secret");
        reveal_strlit("secret");
        assert(low.subrange(i + 5, i + 11) =~= low.subrange(i, i + 11).subrange(5, 11));
        assert("path_secret"@.subrange(5, 11) =~= "secret"@);
        assert(found_at(low, "secret"@, i + 5));
    }
}

/// A redacted value has the shape of the value: a text is a redacted text, a list holds
/// the redacted values one for one, an object keeps its names, with the mark under those
/// of secrets and the redacted value under the others. All else stays.
pub proof fn law_redacted_values_keep_their_shape(
    value: serde_json::Value,
    api_key: &str,
    safe: serde_json::Value,
    part: serde_json::Value,
    safe_part: serde_json::Value,
    text: &str,
    safe_text: String,
    name: &str,
    sensitive: bool,
    i: int,
)
    requires
        call_ensures(redact_json, (value, api_key), safe),
        call_ensures(redact_json, (part, api_key), safe_part),
        call_ensures(redact_text, (text, api_key), safe_text),
        call_ensures(sensitive_error_key, (name,), sensitive),
    ensures
        value_tree(value) == JsonTree::Text(text@) ==> value_tree(safe) == JsonTree::Text(
            safe_text@,
        ),
        value_tree(value) matches JsonTree::List(values) ==> (match value_tree(safe) {
            JsonTree::List(cleaned) => cleaned.len() == values.len() && (0 <= i < values.len()
                && values[i] == value_tree(part) ==> cleaned[i] == value_tree(safe_part)),
            _ => false,
        }),
        value_tree(value) matches JsonTree::Object(fields) ==> (match value_tree(safe) {
            JsonTree::Object(cleaned) => cleaned.len() == fields.len() && (0 <= i < fields.len()
                && fields[i] == (name@, value_tree(part)) ==> cleaned[i].0 == name@ && cleaned[i].1
                == (if sensitive {
                JsonTree::Text("[REDACTED]"@)
            } else {
                value_tree(safe_part)
            })),
            _ => false,
        }),
        !(value_tree(value) is Text) && !(value_tree(value) is List) && !(value_tree(
            value,
        ) is Object) ==> value_tree(safe) == value_tree(value),
{
    match value_tree(value) {
        JsonTree::List(values) => {
            lemma_redacted_list(values, api_key@, i);
        },
        JsonTree::Object(fields) => {
            lemma_redacted_object(fields, api_key@, i);
        },
        _ => {},
    }
}

proof fn lemma_redacted_list(values: Seq<JsonTree>, key: Seq<char>, i: int)
    ensures
        redacted_trees(values, key).len() == values.len(),
        0 <= i < values.len() ==> redacted_trees(values, key)[i] == redacted_tree(values[i], key),
    decreases values.len(),
{
    if values.len() > 0 {
        lemma_redacted_list(values.drop_last(), key, i);
    }
}

proof fn lemma_redacted_object(fields: Seq<(Seq<char>, JsonTree)>, key: Seq<char>, i: int)
    ensures
        redacted_fields(fields, key).len() == fields.len(),
        0 <= i < fields.len() ==> redacted_fields(fields, key)[i].0 == fields[i].0,
        0 <= i < fields.len() ==> redacted_fields(fields, key)[i].1 == (if is_sensitive(
            fields[i].0,
        ) {
            JsonTree::Text(mark())
        } else {
            redacted_tree(fields[i].1, key)
        }),
    decreases fields.len(),
{
    if fields.len() > 0 {
        lemma_redacted_object(fields.drop_last(), key, i);
    }
}

/// What is shown of a text: JSON is shown as the redacted value reads, or as
/// `upstream error` where that cannot be written; another text is shown redacted.
pub proof fn law_shown_text_is_redacted(
    raw: &str,
    value: serde_json::Value,
    api_key: &str,
    of_json: String,
    of_text: String,
    clean: serde_json::Value,
    safe: String,
)
    requires
        call_ensures(redact_parsed, (raw, Some(value), api_key), of_json),
        call_ensures(redact_parsed, (raw, None::<serde_json::Value>, api_key), of_text),
        call_ensures(redact_json, (value, api_key), clean),
        call_ensures(redact_text, (raw, api_key), safe),
    ensures
        of_text@ == safe@,
        match rendered_json(value_tree(clean)) {
            Some(text) => of_json@ == text,
            None => of_json@ == "upstream error"@,
        },
{
}

/// An error body of up to sixteen kibibytes is shown whole; of a longer one the first
/// sixteen kibibytes are shown and what is left out is told.
pub proof fn law_error_bodies_are_cut(
    bytes: &[u8],
    api_key: &str,
    shown: String,
    raw: &str,
    safe: String,
)
    requires
        call_ensures(redact_error_body, (bytes, api_key), shown),
        raw@ == lossy_text(
            if bytes@.len() <= 16384 {
                bytes@
            } else {
                bytes@.take(16384)
            },
        ),
        parsed_json(raw@) is None,
        call_ensures(redact_text, (raw, api_key), safe),
    ensures
        bytes@.len() <= 16384 ==> shown@ == safe@,
        bytes@.len() > 16384 ==> shown@ == safe@ + "…[truncated]"@,
{
}

} // verus!
