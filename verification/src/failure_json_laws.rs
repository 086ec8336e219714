//! What every error body says.

use vstd::prelude::*;

use crate::codex_transport::{reduce_failure_body, FailureBodyFacts};
use crate::failure_json::{
    array_at, body_tokens, called, denotes, digits_end, error_tokens, escape_len, has_name,
    hex_digit, hex_quad, members_at, object_at, root_tokens, space_end, string_at, string_close,
    text_units, token_of, tokens_in, unit_at, units_from, value_end, word_under, word_value,
    ErrorTokens, FailureBodyToken, FailureJsonScanner, Member,
};
use crate::provider_failure::{ErrorCode, ErrorParam, RateKind};
use vstd::utf8::*;

verus! {

/// Bytes that stand for themselves in a JSON string: ASCII, and no control byte, quote or
/// backslash.
pub open spec fn is_plain(word: Seq<u8>) -> bool {
    forall|k: int|
        0 <= k < word.len() ==> 0x20 <= #[trigger] word[k] < 0x80 && word[k] != 0x22 && word[k]
            != 0x5c
}

/// The bytes are the letters of the text.
pub open spec fn spells(word: Seq<u8>, text: Seq<char>) -> bool {
    &&& word.len() == text.len()
    &&& forall|k: int| 0 <= k < word.len() ==> #[trigger] word[k] as u32 == text[k] as u32
}

/// The word stands at this place, in quotes.
pub open spec fn in_quotes_at(s: Seq<u8>, i: int, word: Seq<u8>) -> bool {
    &&& 0 <= i
    &&& i + word.len() + 2 <= s.len()
    &&& s[i] == 0x22
    &&& forall|k: int| 0 <= k < word.len() ==> s[i + 1 + k] == #[trigger] word[k]
    &&& s[i + 1 + word.len()] == 0x22
}

proof fn lemma_plain_close(s: Seq<u8>, i: int, end: int, strict: bool)
    requires
        0 <= i <= end < s.len(),
        s[end] == 0x22,
        forall|k: int| i <= k < end ==> 0x20 <= #[trigger] s[k] && s[k] != 0x22 && s[k] != 0x5c,
    ensures
        string_close(s, i, strict) == Some(end),
    decreases end - i,
{
    if i < end {
        assert(0x20 <= s[i] && s[i] != 0x22 && s[i] != 0x5c);
        lemma_plain_close(s, i + 1, end, strict);
    }
}

proof fn lemma_plain_is_utf8(word: Seq<u8>)
    requires
        is_plain(word),
    ensures
        valid_utf8(word),
{
    let chars = Seq::new(word.len(), |k: int| word[k] as char);
    assert(is_ascii_chars(chars)) by {
        assert forall|k: int| 0 <= k < chars.len() implies '\0' <= #[trigger] chars[k]
            <= '\u{7f}' by {
            assert(0x20 <= word[k] < 0x80);
        }
    }
    is_ascii_chars_encode_utf8(chars);
    assert(encode_utf8(chars) =~= word) by {
        assert forall|k: int| 0 <= k < word.len() implies encode_utf8(chars)[k] == word[k] by {
            assert(0x20 <= word[k] < 0x80);
            assert(chars[k] as u8 == encode_utf8(chars)[k]);
        }
    }
    encode_utf8_valid_utf8(chars);
}

proof fn lemma_in_quotes(s: Seq<u8>, i: int, word: Seq<u8>, strict: bool)
    requires
        is_plain(word),
        in_quotes_at(s, i, word),
    ensures
        string_at(s, i, strict) == Some(i + 1 + word.len()),
        s.subrange(i + 1, i + 1 + word.len()) == word,
{
    let end = i + 1 + word.len();
    assert forall|k: int| i + 1 <= k < end implies 0x20 <= #[trigger] s[k] && s[k] != 0x22 && s[k]
        != 0x5c by {
        assert(s[i + 1 + (k - i - 1)] == word[k - i - 1]);
    }
    lemma_plain_close(s, i + 1, end, strict);
    assert(s.subrange(i + 1, end) =~= word);
    lemma_plain_is_utf8(word);
}

proof fn lemma_plain_units(word: Seq<u8>, i: int)
    requires
        is_plain(word),
        0 <= i <= word.len(),
    ensures
        units_from(word, i) == Some(Seq::new((word.len() - i) as nat, |k: int| word[i + k] as u32)),
    decreases word.len() - i,
{
    let units = Seq::new((word.len() - i) as nat, |k: int| word[i + k] as u32);
    if i < word.len() {
        assert(0x20 <= word[i] < 0x80 && word[i] != 0x5c);
        lemma_plain_units(word, i + 1);
        let rest = Seq::new((word.len() - i - 1) as nat, |k: int| word[i + 1 + k] as u32);
        assert(seq![word[i] as u32] + rest =~= units);
    } else {
        assert(units =~= Seq::empty());
    }
}

proof fn lemma_plain_denotes(word: Seq<u8>, text: Seq<char>)
    requires
        is_plain(word),
    ensures
        denotes(word, text) == spells(word, text),
{
    lemma_plain_units(word, 0);
    let units = Seq::new(word.len(), |k: int| word[0 + k] as u32);
    if denotes(word, text) {
        assert(units == text_units(text));
        assert forall|k: int| 0 <= k < word.len() implies #[trigger] word[k] as u32
            == text[k] as u32 by {
            assert(units[k] == text_units(text)[k]);
        }
    }
    if spells(word, text) {
        assert forall|k: int| 0 <= k < units.len() implies units[k] == text_units(text)[k] by {
            assert(word[k] as u32 == text[k] as u32);
        }
        assert(units =~= text_units(text));
    }
}

/// The five words that count, each spelled in full; every other word is another one.
pub open spec fn is_told_as(word: Seq<u8>, token: FailureBodyToken) -> bool {
    match token {
        FailureBodyToken::InsufficientQuota => spells(word, "insufficient_quota"@),
        FailureBodyToken::RateLimitError => spells(word, "rate_limit_error"@),
        FailureBodyToken::RateLimitExceeded => spells(word, "rate_limit_exceeded"@),
        FailureBodyToken::UnsupportedValue => spells(word, "unsupported_value"@),
        FailureBodyToken::ToolChoice => spells(word, "tool_choice"@),
        FailureBodyToken::Other => {
            &&& !spells(word, "insufficient_quota"@)
            &&& !spells(word, "rate_limit_error"@)
            &&& !spells(word, "rate_limit_exceeded"@)
            &&& !spells(word, "unsupported_value"@)
            &&& !spells(word, "tool_choice"@)
        },
    }
}

proof fn lemma_told_as(word: Seq<u8>, token: FailureBodyToken)
    requires
        is_plain(word),
    ensures
        is_told_as(word, token) == (token_of(word) == token),
{
    lemma_plain_denotes(word, "insufficient_quota"@);
    lemma_plain_denotes(word, "rate_limit_error"@);
    lemma_plain_denotes(word, "rate_limit_exceeded"@);
    lemma_plain_denotes(word, "unsupported_value"@);
    lemma_plain_denotes(word, "tool_choice"@);
    reveal_strlit("insufficient_quota");
    reveal_strlit("rate_limit_error");
    reveal_strlit("rate_limit_exceeded");
    reveal_strlit("unsupported_value");
    reveal_strlit("tool_choice");
    assert("insufficient_quota"@.len() == 18);
    assert("rate_limit_error"@.len() == 16);
    assert("rate_limit_exceeded"@.len() == 19);
    assert("unsupported_value"@.len() == 17);
    assert("tool_choice"@.len() == 11);
}

/// The letters of `error`, `type`, `code` and `param`.
pub open spec fn error_name() -> Seq<u8> {
    seq![0x65u8, 0x72, 0x72, 0x6f, 0x72]
}

pub open spec fn kind_name() -> Seq<u8> {
    seq![0x74u8, 0x79, 0x70, 0x65]
}

pub open spec fn code_name() -> Seq<u8> {
    seq![0x63u8, 0x6f, 0x64, 0x65]
}

pub open spec fn param_name() -> Seq<u8> {
    seq![0x70u8, 0x61, 0x72, 0x61, 0x6d]
}

proof fn lemma_names()
    ensures
        is_plain(error_name()) && is_plain(kind_name()) && is_plain(code_name()) && is_plain(
            param_name(),
        ),
        denotes(error_name(), "error"@),
        denotes(kind_name(), "type"@),
        !denotes(kind_name(), "code"@),
        !denotes(kind_name(), "param"@),
        denotes(code_name(), "code"@),
        !denotes(code_name(), "type"@),
        !denotes(code_name(), "param"@),
        denotes(param_name(), "param"@),
        !denotes(param_name(), "type"@),
        !denotes(param_name(), "code"@),
{
    reveal_strlit("error");
    reveal_strlit("type");
    reveal_strlit("code");
    reveal_strlit("param");
    lemma_plain_denotes(error_name(), "error"@);
    lemma_plain_denotes(kind_name(), "type"@);
    lemma_plain_denotes(kind_name(), "code"@);
    lemma_plain_denotes(kind_name(), "param"@);
    lemma_plain_denotes(code_name(), "code"@);
    lemma_plain_denotes(code_name(), "type"@);
    lemma_plain_denotes(code_name(), "param"@);
    lemma_plain_denotes(param_name(), "param"@);
    lemma_plain_denotes(param_name(), "type"@);
    lemma_plain_denotes(param_name(), "code"@);
    assert("type"@[0] == 't');
    assert("code"@[0] == 'c');
    assert(kind_name()[0] == 0x74);
    assert(code_name()[0] == 0x63);
    assert("type"@.len() == 4);
    assert("code"@.len() == 4);
    assert("param"@.len() == 5);
}

/// The bytes are an object with one member, `error`, whose own members are a type, a
/// code and a param with these words, and nothing else.
pub open spec fn is_error_body(s: Seq<u8>, kind: Seq<u8>, code: Seq<u8>, param: Seq<u8>) -> bool {
    let a = kind.len();
    let b = kind.len() + code.len();
    let c = kind.len() + code.len() + param.len();
    &&& s.len() == 42 + c
    &&& s[0] == 0x7b
    &&& in_quotes_at(s, 1, error_name())
    &&& s[8] == 0x3a
    &&& s[9] == 0x7b
    &&& in_quotes_at(s, 10, kind_name())
    &&& s[16] == 0x3a
    &&& in_quotes_at(s, 17, kind)
    &&& s[19 + a as int] == 0x2c
    &&& in_quotes_at(s, 20 + a as int, code_name())
    &&& s[26 + a as int] == 0x3a
    &&& in_quotes_at(s, 27 + a as int, code)
    &&& s[29 + b as int] == 0x2c
    &&& in_quotes_at(s, 30 + b as int, param_name())
    &&& s[37 + b as int] == 0x3a
    &&& in_quotes_at(s, 38 + b as int, param)
    &&& s[40 + c as int] == 0x7d
    &&& s[41 + c as int] == 0x7d
}

proof fn lemma_stays(s: Seq<u8>, i: int)
    requires
        0 <= i < s.len(),
        s[i] != 0x20 && s[i] != 0x0a && s[i] != 0x0d && s[i] != 0x09,
    ensures
        space_end(s, i) == i,
{
}

proof fn lemma_called_of_three(
    s: Seq<u8>,
    a: Member,
    b: Member,
    c: Member,
    name: Seq<char>,
)
    ensures
        has_name(s, a, name) && !has_name(s, b, name) && !has_name(s, c, name) ==> called(
            s,
            seq![a, b, c],
            name,
        ) == seq![a],
        !has_name(s, a, name) && has_name(s, b, name) && !has_name(s, c, name) ==> called(
            s,
            seq![a, b, c],
            name,
        ) == seq![b],
        !has_name(s, a, name) && !has_name(s, b, name) && has_name(s, c, name) ==> called(
            s,
            seq![a, b, c],
            name,
        ) == seq![c],
{
    reveal(Seq::filter);
    let p = |member: Member| has_name(s, member, name);
    let three = seq![a, b, c];
    let two = seq![a, b];
    let one = seq![a];
    assert(three.drop_last() =~= two);
    assert(two.drop_last() =~= one);
    assert(one.drop_last() =~= Seq::<Member>::empty());
    assert(Seq::<Member>::empty().filter(p) == Seq::<Member>::empty());
    assert(one.filter(p) == if p(a) {
        Seq::<Member>::empty().push(a)
    } else {
        Seq::empty()
    });
    assert(two.filter(p) == if p(b) {
        one.filter(p).push(b)
    } else {
        one.filter(p)
    });
    assert(three.filter(p) == if p(c) {
        two.filter(p).push(c)
    } else {
        two.filter(p)
    });
    assert(Seq::<Member>::empty().push(a) =~= seq![a]);
    assert(Seq::<Member>::empty().push(b) =~= seq![b]);
    assert(Seq::<Member>::empty().push(c) =~= seq![c]);
    assert(called(s, three, name) == three.filter(p));
}

proof fn lemma_called_of_one(s: Seq<u8>, a: Member, name: Seq<char>)
    ensures
        has_name(s, a, name) ==> called(s, seq![a], name) == seq![a],
        !has_name(s, a, name) ==> called(s, seq![a], name).len() == 0,
{
    reveal(Seq::filter);
    let p = |member: Member| has_name(s, member, name);
    let one = seq![a];
    assert(one.drop_last() =~= Seq::<Member>::empty());
    assert(Seq::<Member>::empty().filter(p) == Seq::<Member>::empty());
    assert(Seq::<Member>::empty().push(a) =~= seq![a]);
    assert(called(s, one, name) == one.filter(p));
}

/// A member stands at this place: a name and a word, in quotes, with a colon between them.
pub open spec fn member_stands_at(s: Seq<u8>, i: int, name: Seq<u8>, word: Seq<u8>) -> bool {
    &&& in_quotes_at(s, i, name)
    &&& i + name.len() + 2 < s.len()
    &&& s[i + name.len() + 2] == 0x3a
    &&& in_quotes_at(s, i + name.len() + 3, word)
}

proof fn lemma_member(
    s: Seq<u8>,
    i: int,
    name: Seq<u8>,
    word: Seq<u8>,
    depth: nat,
    fields: nat,
    strict: bool,
)
    requires
        is_plain(name) && is_plain(word),
        member_stands_at(s, i, name, word),
        fields < 128,
        i + name.len() + word.len() + 5 < s.len(),
        s[i + name.len() + word.len() + 5] == 0x7d || s[i + name.len() + word.len() + 5] == 0x2c,
    ensures
        ({
            let member = Member {
                key: i,
                key_close: i + 1 + name.len(),
                value: i + name.len() + 3,
                fields: fields + 1,
            };
            let end = i + name.len() + word.len() + 5;
            &&& s[end] == 0x7d ==> members_at(s, i, depth, fields, strict) == Some(
                (seq![member], end + 1, fields + 1),
            )
            &&& s[end] == 0x2c && end + 1 < s.len() && s[end + 1] == 0x22 && members_at(
                s,
                end + 1,
                depth,
                fields + 1,
                strict,
            ) is Some ==> {
                let rest = members_at(s, end + 1, depth, fields + 1, strict)->0;
                members_at(s, i, depth, fields, strict) == Some(
                    (seq![member] + rest.0, rest.1, rest.2),
                )
            }
            &&& s.subrange(member.key + 1, member.key_close) == name
            &&& word_value(s, member.value, strict) == Some(Some(token_of(word)))
        }),
{
    let colon = i + name.len() + 2;
    let value = i + name.len() + 3;
    let end = i + name.len() + word.len() + 5;
    lemma_in_quotes(s, i, name, strict);
    lemma_in_quotes(s, value, word, strict);
    lemma_stays(s, colon);
    lemma_stays(s, value);
    lemma_stays(s, end);
    assert(value_end(s, value, depth, fields + 1, strict) == Some((end, fields + 1)));
    if s[end] == 0x2c && end + 1 < s.len() && s[end + 1] == 0x22 {
        lemma_stays(s, end + 1);
    }
}

proof fn lemma_third_member(
    s: Seq<u8>,
    kind: Seq<u8>,
    code: Seq<u8>,
    param: Seq<u8>,
    strict: bool,
) -> (third: Member)
    requires
        is_plain(kind) && is_plain(code) && is_plain(param),
        is_error_body(s, kind, code, param),
    ensures
        members_at(s, (30 + kind.len() + code.len()) as int, 3, 3, strict) == Some(
            (seq![third], (41 + kind.len() + code.len() + param.len()) as int, 4nat),
        ),
        s.subrange(third.key + 1, third.key_close) == param_name(),
        word_value(s, third.value, strict) == Some(Some(token_of(param))),
{
    let b = (kind.len() + code.len()) as int;
    lemma_names();
    assert(param_name().len() == 5);
    assert(member_stands_at(s, 30 + b, param_name(), param));
    lemma_member(s, 30 + b, param_name(), param, 3, 3, strict);
    Member { key: 30 + b, key_close: 36 + b, value: 38 + b, fields: 4 }
}

proof fn lemma_second_member(
    s: Seq<u8>,
    kind: Seq<u8>,
    code: Seq<u8>,
    param: Seq<u8>,
    rest: (Seq<Member>, int, nat),
    strict: bool,
) -> (second: Member)
    requires
        is_plain(kind) && is_plain(code) && is_plain(param),
        is_error_body(s, kind, code, param),
        members_at(s, (30 + kind.len() + code.len()) as int, 3, 3, strict) == Some(rest),
    ensures
        members_at(s, (20 + kind.len()) as int, 3, 2, strict) == Some(
            (seq![second] + rest.0, rest.1, rest.2),
        ),
        s.subrange(second.key + 1, second.key_close) == code_name(),
        word_value(s, second.value, strict) == Some(Some(token_of(code))),
{
    let a = kind.len() as int;
    lemma_names();
    assert(code_name().len() == 4);
    assert(member_stands_at(s, 20 + a, code_name(), code));
    lemma_member(s, 20 + a, code_name(), code, 3, 2, strict);
    Member { key: 20 + a, key_close: 25 + a, value: 27 + a, fields: 3 }
}

proof fn lemma_first_member(
    s: Seq<u8>,
    kind: Seq<u8>,
    code: Seq<u8>,
    param: Seq<u8>,
    rest: (Seq<Member>, int, nat),
    strict: bool,
) -> (first: Member)
    requires
        is_plain(kind) && is_plain(code) && is_plain(param),
        is_error_body(s, kind, code, param),
        members_at(s, (20 + kind.len()) as int, 3, 2, strict) == Some(rest),
    ensures
        members_at(s, 10, 3, 1, strict) == Some((seq![first] + rest.0, rest.1, rest.2)),
        s.subrange(first.key + 1, first.key_close) == kind_name(),
        word_value(s, first.value, strict) == Some(Some(token_of(kind))),
{
    lemma_names();
    assert(kind_name().len() == 4);
    assert(member_stands_at(s, 10, kind_name(), kind));
    lemma_member(s, 10, kind_name(), kind, 3, 1, strict);
    Member { key: 10, key_close: 15, value: 17, fields: 2 }
}

proof fn lemma_words_of_three(
    s: Seq<u8>,
    first: Member,
    second: Member,
    third: Member,
    words: (FailureBodyToken, FailureBodyToken, FailureBodyToken),
    strict: bool,
)
    requires
        s.subrange(first.key + 1, first.key_close) == kind_name(),
        s.subrange(second.key + 1, second.key_close) == code_name(),
        s.subrange(third.key + 1, third.key_close) == param_name(),
        word_value(s, first.value, strict) == Some(Some(words.0)),
        word_value(s, second.value, strict) == Some(Some(words.1)),
        word_value(s, third.value, strict) == Some(Some(words.2)),
    ensures
        word_under(s, seq![first, second, third], "type"@, strict) == Some(Some(words.0)),
        word_under(s, seq![first, second, third], "code"@, strict) == Some(Some(words.1)),
        word_under(s, seq![first, second, third], "param"@, strict) == Some(Some(words.2)),
{
    lemma_names();
    lemma_called_of_three(s, first, second, third, "type"@);
    lemma_called_of_three(s, first, second, third, "code"@);
    lemma_called_of_three(s, first, second, third, "param"@);
    assert(called(s, seq![first, second, third], "type"@) == seq![first]);
    assert(called(s, seq![first, second, third], "code"@) == seq![second]);
    assert(called(s, seq![first, second, third], "param"@) == seq![third]);
}

#[verifier::rlimit(80)]
#[verifier::spinoff_prover]
proof fn lemma_inner_tokens(
    s: Seq<u8>,
    kind: Seq<u8>,
    code: Seq<u8>,
    param: Seq<u8>,
    strict: bool,
) -> (inner: Seq<Member>)
    requires
        is_plain(kind) && is_plain(code) && is_plain(param),
        is_error_body(s, kind, code, param),
    ensures
        members_at(s, 10, 3, 1, strict) == Some(
            (inner, (41 + kind.len() + code.len() + param.len()) as int, 4nat),
        ),
        word_under(s, inner, "type"@, strict) == Some(Some(token_of(kind))),
        word_under(s, inner, "code"@, strict) == Some(Some(token_of(code))),
        word_under(s, inner, "param"@, strict) == Some(Some(token_of(param))),
{
    let end = (41 + kind.len() + code.len() + param.len()) as int;
    let third = lemma_third_member(s, kind, code, param, strict);
    let second = lemma_second_member(s, kind, code, param, (seq![third], end, 4nat), strict);
    let first = lemma_first_member(
        s,
        kind,
        code,
        param,
        (seq![second] + seq![third], end, 4nat),
        strict,
    );
    assert(seq![first] + (seq![second] + seq![third]) =~= seq![first, second, third]);
    lemma_words_of_three(
        s,
        first,
        second,
        third,
        (token_of(kind), token_of(code), token_of(param)),
        strict,
    );
    seq![first, second, third]
}

/// An object with the one member `error`, whose value starts at 9.
pub open spec fn wraps_an_error(s: Seq<u8>, end: int) -> bool {
    &&& s.len() == end + 1
    &&& end > 9
    &&& s[0] == 0x7b
    &&& in_quotes_at(s, 1, error_name())
    &&& s[8] == 0x3a
    &&& s[9] == 0x7b
    &&& s[10] == 0x22
    &&& s[end] == 0x7d
}

proof fn lemma_wrapped_members(s: Seq<u8>, end: int, inner: Seq<Member>, count: nat, strict: bool)
    requires
        wraps_an_error(s, end),
        members_at(s, 10, 3, 1, strict) == Some((inner, end, count)),
    ensures
        members_at(s, 1, 2, 0, strict) == Some(
            (seq![Member { key: 1, key_close: 7, value: 9, fields: 1 }], end + 1, count),
        ),
        object_at(s, 9, 2, 1, strict) == Some((inner, end, count)),
        s.subrange(2, 7) == error_name(),
{
    lemma_names();
    assert(error_name().len() == 5);
    lemma_in_quotes(s, 1, error_name(), strict);
    lemma_stays(s, 8);
    lemma_stays(s, 9);
    lemma_stays(s, 10);
    lemma_stays(s, end);
    assert(object_at(s, 9, 2, 1, strict) == Some((inner, end, count)));
    assert(value_end(s, 9, 2, 1, strict) == Some((end, count)));
}

proof fn lemma_wrapped_error(s: Seq<u8>, end: int, inner: Seq<Member>, count: nat, strict: bool)
    requires
        wraps_an_error(s, end),
        members_at(s, 10, 3, 1, strict) == Some((inner, end, count)),
    ensures
        body_tokens(s, strict) == tokens_in(s, inner, strict),
{
    let outer = Member { key: 1, key_close: 7, value: 9, fields: 1 };
    lemma_wrapped_members(s, end, inner, count, strict);
    lemma_names();
    lemma_stays(s, 0);
    lemma_stays(s, 1);
    assert(object_at(s, 0, 1, 0, strict) == Some((seq![outer], end + 1, count)));
    assert(space_end(s, end + 1) == end + 1);
    lemma_called_of_one(s, outer, "error"@);
    assert(root_tokens(s, seq![outer], strict) == error_tokens(s, 9, 1, strict));
}

#[verifier::rlimit(80)]
#[verifier::spinoff_prover]
proof fn lemma_error_body(
    s: Seq<u8>,
    kind: Seq<u8>,
    code: Seq<u8>,
    param: Seq<u8>,
    strict: bool,
)
    requires
        is_plain(kind) && is_plain(code) && is_plain(param),
        is_error_body(s, kind, code, param),
    ensures
        body_tokens(s, strict) == Some(
            ErrorTokens {
                kind: Some(token_of(kind)),
                code: Some(token_of(code)),
                param: if strict {
                    Some(token_of(param))
                } else {
                    None
                },
            },
        ),
{
    let end = (41 + kind.len() + code.len() + param.len()) as int;
    let inner = lemma_inner_tokens(s, kind, code, param, strict);
    assert(wraps_an_error(s, end));
    lemma_wrapped_error(s, end, inner, 4, strict);
}

/// An error object is told by its type, its code and, to a strict reader, its param, each
/// under its own name and in its own words.
pub proof fn law_error_objects_are_told_by_their_words(
    input: &[u8],
    strict: bool,
    tokens: Option<ErrorTokens>,
    kind: Seq<u8>,
    code: Seq<u8>,
    param: Seq<u8>,
)
    requires
        input@.len() + 16 <= usize::MAX,
        call_ensures(FailureJsonScanner::project, (input, strict), tokens),
        is_plain(kind) && is_plain(code) && is_plain(param),
        is_error_body(input@, kind, code, param),
    ensures
        tokens matches Some(found) && {
            &&& found.kind matches Some(token) && is_told_as(kind, token)
            &&& found.code matches Some(token) && is_told_as(code, token)
            &&& strict ==> (found.param matches Some(token) && is_told_as(param, token))
            &&& !strict ==> found.param is None
        },
{
    lemma_error_body(input@, kind, code, param, strict);
    lemma_told_as(kind, token_of(kind));
    lemma_told_as(code, token_of(code));
    lemma_told_as(param, token_of(param));
}

/// What an error body comes to, from its bytes: a quota word in the type or the code
/// makes it a quota; failing that, the type `rate_limit_error` or the code
/// `rate_limit_exceeded` makes it a rate limit; the code `unsupported_value` and the param
/// `tool_choice` are told.
pub proof fn law_bytes_of_an_error_body(
    body: &[u8],
    facts: FailureBodyFacts,
    kind: Seq<u8>,
    code: Seq<u8>,
    param: Seq<u8>,
)
    requires
        call_ensures(reduce_failure_body, (body,), facts),
        body@.len() <= 16_384,
        is_plain(kind) && is_plain(code) && is_plain(param),
        is_error_body(body@, kind, code, param),
    ensures
        ({
            let quota = spells(kind, "insufficient_quota"@) || spells(code, "insufficient_quota"@);
            let rate = spells(kind, "rate_limit_error"@) || spells(code, "rate_limit_exceeded"@);
            &&& facts.rate_kind == Some(RateKind::Quota) <==> quota
            &&& facts.rate_kind == Some(RateKind::RateLimit) <==> rate && !quota
            &&& facts.error_code == ErrorCode::UnsupportedValue <==> spells(
                code,
                "unsupported_value"@,
            )
            &&& facts.error_code == ErrorCode::RateLimitExceeded <==> spells(
                code,
                "rate_limit_exceeded"@,
            )
            &&& facts.error_param == ErrorParam::ToolChoice <==> spells(param, "tool_choice"@)
        }),
{
    lemma_error_body(body@, kind, code, param, true);
    lemma_told_as(kind, FailureBodyToken::InsufficientQuota);
    lemma_told_as(code, FailureBodyToken::InsufficientQuota);
    lemma_told_as(kind, FailureBodyToken::RateLimitError);
    lemma_told_as(code, FailureBodyToken::RateLimitExceeded);
    lemma_told_as(code, FailureBodyToken::UnsupportedValue);
    lemma_told_as(param, FailureBodyToken::ToolChoice);
}

/// The byte is the hexadecimal digit of this number, in either case.
pub open spec fn is_hex_of(byte: u8, digit: int) -> bool {
    0 <= digit < 16 && if digit < 10 {
        byte == 48 + digit
    } else {
        byte == 87 + digit || byte == 55 + digit
    }
}

/// The four bytes at this place are the hexadecimal digits of this number.
pub open spec fn is_quad_of(s: Seq<u8>, i: int, a: int, b: int, c: int, d: int) -> bool {
    &&& 0 <= i
    &&& i + 4 <= s.len()
    &&& is_hex_of(s[i], a)
    &&& is_hex_of(s[i + 1], b)
    &&& is_hex_of(s[i + 2], c)
    &&& is_hex_of(s[i + 3], d)
}

proof fn lemma_quad(s: Seq<u8>, i: int, a: int, b: int, c: int, d: int)
    requires
        is_quad_of(s, i, a, b, c, d),
    ensures
        hex_quad(s, i) == Some((4096 * a + 256 * b + 16 * c + d) as u16),
        0 <= 4096 * a + 256 * b + 16 * c + d <= 0xffff,
{
    assert(hex_digit(s[i]) == Some(a as u16));
    assert(hex_digit(s[i + 1]) == Some(b as u16));
    assert(hex_digit(s[i + 2]) == Some(c as u16));
    assert(hex_digit(s[i + 3]) == Some(d as u16));
}

/// The short escapes stand for these letters.
pub proof fn law_short_escapes(raw: Seq<u8>, i: int)
    requires
        0 <= i,
        i + 1 < raw.len(),
        raw[i] == 0x5c,
    ensures
        raw[i + 1] == 0x22 ==> unit_at(raw, i) == Some((34u32, 2int)),
        raw[i + 1] == 0x5c ==> unit_at(raw, i) == Some((92u32, 2int)),
        raw[i + 1] == 0x2f ==> unit_at(raw, i) == Some((47u32, 2int)),
        raw[i + 1] == 0x62 ==> unit_at(raw, i) == Some((8u32, 2int)),
        raw[i + 1] == 0x66 ==> unit_at(raw, i) == Some((12u32, 2int)),
        raw[i + 1] == 0x6e ==> unit_at(raw, i) == Some((10u32, 2int)),
        raw[i + 1] == 0x72 ==> unit_at(raw, i) == Some((13u32, 2int)),
        raw[i + 1] == 0x74 ==> unit_at(raw, i) == Some((9u32, 2int)),
{
}

/// An escape of four hexadecimal digits stands for the letter with that number, and two
/// escapes for the halves of a pair stand for the one letter beyond the first plane.
pub proof fn law_numbered_escapes(
    raw: Seq<u8>,
    i: int,
    a: int,
    b: int,
    c: int,
    d: int,
    e: int,
    f: int,
    g: int,
    h: int,
)
    requires
        0 <= i,
        i + 6 <= raw.len(),
        raw[i] == 0x5c,
        raw[i + 1] == 0x75,
        is_quad_of(raw, i + 2, a, b, c, d),
    ensures
        ({
            let number = 4096 * a + 256 * b + 16 * c + d;
            let low = 4096 * e + 256 * f + 16 * g + h;
            let paired = i + 12 <= raw.len() && raw[i + 6] == 0x5c && raw[i + 7] == 0x75
                && is_quad_of(raw, i + 8, e, f, g, h);
            &&& !(0xd800 <= number <= 0xdbff) ==> unit_at(raw, i) == Some((number as u32, 6int))
            &&& 0xd800 <= number <= 0xdbff && paired && 0xdc00 <= low <= 0xdfff ==> unit_at(raw, i)
                == Some(((0x10000 + 1024 * (number - 0xd800) + (low - 0xdc00)) as u32, 12int))
            &&& 0xd800 <= number <= 0xdbff && i + 6 == raw.len() ==> unit_at(raw, i) is None
        }),
{
    lemma_quad(raw, i + 2, a, b, c, d);
    if i + 12 <= raw.len() && is_quad_of(raw, i + 8, e, f, g, h) {
        lemma_quad(raw, i + 8, e, f, g, h);
    }
}

/// How long an escape is, to a strict reader: two bytes, six, or twelve for a pair; half
/// a pair is none. To a lenient one a numbered escape is six bytes, whatever they are.
pub proof fn law_lengths_of_escapes(
    s: Seq<u8>,
    i: int,
    a: int,
    b: int,
    c: int,
    d: int,
    strict: bool,
)
    requires
        0 <= i,
        i + 1 < s.len(),
    ensures
        ({
            let short = s[i + 1] == 0x22 || s[i + 1] == 0x5c || s[i + 1] == 0x2f || s[i + 1] == 0x62
                || s[i + 1] == 0x66 || s[i + 1] == 0x6e || s[i + 1] == 0x72 || s[i + 1] == 0x74;
            let number = 4096 * a + 256 * b + 16 * c + d;
            &&& short ==> escape_len(s, i, strict) == Some(2int)
            &&& !short && s[i + 1] != 0x75 ==> escape_len(s, i, strict) is None
            &&& s[i + 1] == 0x75 && i + 6 > s.len() ==> escape_len(s, i, strict) is None
            &&& s[i + 1] == 0x75 && i + 6 <= s.len() && !strict ==> escape_len(s, i, strict)
                == Some(6int)
            &&& s[i + 1] == 0x75 && strict && is_quad_of(s, i + 2, a, b, c, d) ==> {
                &&& !(0xd800 <= number <= 0xdfff) ==> escape_len(s, i, strict) == Some(6int)
                &&& 0xdc00 <= number <= 0xdfff ==> escape_len(s, i, strict) is None
                &&& 0xd800 <= number <= 0xdbff ==> escape_len(s, i, strict) is None || escape_len(
                    s,
                    i,
                    strict,
                ) == Some(12int)
            }
        }),
{
    if s[i + 1] == 0x75 && is_quad_of(s, i + 2, a, b, c, d) {
        lemma_quad(s, i + 2, a, b, c, d);
    }
}

/// A string ends at its first quote that is not escaped; no control byte stands in it.
pub proof fn law_ends_of_strings(s: Seq<u8>, i: int, strict: bool)
    ensures
        i >= s.len() ==> string_close(s, i, strict) is None,
        0 <= i < s.len() && s[i] == 34 ==> string_close(s, i, strict) == Some(i),
        0 <= i < s.len() && s[i] <= 31 ==> string_close(s, i, strict) is None,
        0 <= i < s.len() && s[i] >= 32 && s[i] != 34 && s[i] != 92 ==> string_close(s, i, strict)
            == string_close(s, i + 1, strict),
        0 <= i < s.len() && s[i] == 92 && escape_len(s, i, strict) is Some ==> string_close(
            s,
            i,
            strict,
        ) == string_close(s, i + escape_len(s, i, strict)->0, strict),
        0 <= i < s.len() && s[i] == 92 && escape_len(s, i, strict) is None ==> string_close(
            s,
            i,
            strict,
        ) is None,
{
}

/// Between the parts of a body, the four kinds of white space are passed over, and
/// nothing else.
pub proof fn law_white_space_in_a_body(s: Seq<u8>, i: int)
    requires
        0 <= i < s.len(),
    ensures
        s[i] == 32 || s[i] == 9 || s[i] == 10 || s[i] == 13 ==> space_end(s, i) == space_end(
            s,
            i + 1,
        ),
        s[i] != 32 && s[i] != 9 && s[i] != 10 && s[i] != 13 ==> space_end(s, i) == i,
{
}

/// From `i` up to `j` stand digits, and behind them none.
pub open spec fn is_run(s: Seq<u8>, i: int, j: int) -> bool {
    &&& 0 <= i <= j <= s.len()
    &&& forall|k: int| i <= k < j ==> 48 <= #[trigger] s[k] <= 57
    &&& j < s.len() ==> !(48 <= s[j] <= 57)
}

proof fn lemma_run(s: Seq<u8>, i: int, j: int)
    requires
        is_run(s, i, j),
    ensures
        digits_end(s, i) == j,
    decreases j - i,
{
    if i < j {
        assert(48 <= s[i] <= 57);
        lemma_run(s, i + 1, j);
    }
}

/// A number is an optional minus and digits; a strict reader takes no digit behind a
/// leading zero.
pub proof fn law_whole_numbers(
    s: Seq<u8>,
    i: int,
    first: int,
    j: int,
    depth: nat,
    fields: nat,
    strict: bool,
)
    requires
        0 <= i <= first < s.len(),
        first == i || (s[i] == 0x2d && first == i + 1),
        48 <= s[first] <= 57,
        is_run(s, first, j),
        j < s.len() ==> s[j] != 0x2e && s[j] != 0x65 && s[j] != 0x45,
    ensures
        s[first] != 48 ==> value_end(s, i, depth, fields, strict) == Some((j, fields)),
        s[first] == 48 && j == first + 1 ==> value_end(s, i, depth, fields, strict) == Some(
            (j, fields),
        ),
        s[first] == 48 && j > first + 1 && strict ==> value_end(s, i, depth, fields, strict) is None,
{
    lemma_run(s, first, j);
    assert(is_run(s, first + 1, j));
    lemma_run(s, first + 1, j);
    if j > first + 1 {
        assert(48 <= s[first + 1] <= 57);
    }
}

/// A fraction is a dot and at least one digit behind a number.
pub proof fn law_fractions(
    s: Seq<u8>,
    i: int,
    j: int,
    k: int,
    depth: nat,
    fields: nat,
    strict: bool,
)
    requires
        0 <= i < s.len(),
        49 <= s[i] <= 57,
        is_run(s, i, j),
        j < s.len(),
        s[j] == 0x2e,
        is_run(s, j + 1, k),
        k < s.len() ==> s[k] != 0x65 && s[k] != 0x45,
    ensures
        k > j + 1 ==> value_end(s, i, depth, fields, strict) == Some((k, fields)),
        k == j + 1 ==> value_end(s, i, depth, fields, strict) is None,
{
    assert(is_run(s, i + 1, j));
    lemma_run(s, i + 1, j);
    lemma_run(s, j + 1, k);
}

/// An exponent is an `e` in either case, an optional sign and at least one digit behind a
/// number.
pub proof fn law_exponents(
    s: Seq<u8>,
    i: int,
    j: int,
    start: int,
    k: int,
    depth: nat,
    fields: nat,
    strict: bool,
)
    requires
        0 <= i < s.len(),
        49 <= s[i] <= 57,
        is_run(s, i, j),
        j < s.len(),
        s[j] == 0x65 || s[j] == 0x45,
        (start == j + 1 && !(j + 1 < s.len() && (s[j + 1] == 0x2b || s[j + 1] == 0x2d))) || (start
            == j + 2 && j + 1 < s.len() && (s[j + 1] == 0x2b || s[j + 1] == 0x2d)),
        is_run(s, start, k),
    ensures
        k > start ==> value_end(s, i, depth, fields, strict) == Some((k, fields)),
        k == start ==> value_end(s, i, depth, fields, strict) is None,
{
    assert(is_run(s, i + 1, j));
    lemma_run(s, i + 1, j);
    lemma_run(s, start, k);
}

/// The three bare words of JSON, and nothing that only begins like one of them; what
/// begins with any other letter is no value.
pub proof fn law_bare_words(s: Seq<u8>, i: int, depth: nat, fields: nat, strict: bool)
    requires
        0 <= i < s.len(),
    ensures
        s[i] == 0x74 ==> value_end(s, i, depth, fields, strict) == (if i + 4 <= s.len() && s[i + 1]
            == 0x72 && s[i + 2] == 0x75 && s[i + 3] == 0x65 {
            Some((i + 4, fields))
        } else {
            None
        }),
        s[i] == 0x66 ==> value_end(s, i, depth, fields, strict) == (if i + 5 <= s.len() && s[i + 1]
            == 0x61 && s[i + 2] == 0x6c && s[i + 3] == 0x73 && s[i + 4] == 0x65 {
            Some((i + 5, fields))
        } else {
            None
        }),
        s[i] == 0x6e ==> value_end(s, i, depth, fields, strict) == (if i + 4 <= s.len() && s[i + 1]
            == 0x75 && s[i + 2] == 0x6c && s[i + 3] == 0x6c {
            Some((i + 4, fields))
        } else {
            None
        }),
        s[i] != 0x74 && s[i] != 0x66 && s[i] != 0x6e && s[i] != 0x22 && s[i] != 0x7b && s[i] != 0x5b
            && s[i] != 0x2d && !(48 <= s[i] <= 57) ==> value_end(
            s,
            i,
            depth,
            fields,
            strict,
        ) is None,
{
    let t = seq![0x74u8, 0x72, 0x75, 0x65];
    let f = seq![0x66u8, 0x61, 0x6c, 0x73, 0x65];
    let n = seq![0x6eu8, 0x75, 0x6c, 0x6c];
    if i + 4 <= s.len() {
        let part = s.subrange(i, i + 4);
        if s[i] == 0x74 && s[i + 1] == 0x72 && s[i + 2] == 0x75 && s[i + 3] == 0x65 {
            assert(part =~= t);
        }
        if part == t {
            assert(part[1] == 0x72 && part[2] == 0x75 && part[3] == 0x65);
        }
        if s[i] == 0x6e && s[i + 1] == 0x75 && s[i + 2] == 0x6c && s[i + 3] == 0x6c {
            assert(part =~= n);
        }
        if part == n {
            assert(part[1] == 0x75 && part[2] == 0x6c && part[3] == 0x6c);
        }
    }
    if i + 5 <= s.len() {
        let part = s.subrange(i, i + 5);
        if s[i] == 0x66 && s[i + 1] == 0x61 && s[i + 2] == 0x6c && s[i + 3] == 0x73 && s[i + 4]
            == 0x65 {
            assert(part =~= f);
        }
        if part == f {
            assert(part[1] == 0x61 && part[2] == 0x6c && part[3] == 0x73 && part[4] == 0x65);
        }
    }
}

/// Objects and lists nest sixteen deep at most, and a body has 128 members at most.
pub proof fn law_limits_of_a_body(s: Seq<u8>, i: int, depth: nat, fields: nat, strict: bool)
    requires
        0 <= i < s.len(),
    ensures
        depth > 16 ==> object_at(s, i, depth, fields, strict) is None && array_at(
            s,
            i,
            depth,
            fields,
            strict,
        ) is None,
        depth > 16 && (s[i] == 0x7b || s[i] == 0x5b) ==> value_end(
            s,
            i,
            depth,
            fields,
            strict,
        ) is None,
        fields >= 128 ==> members_at(s, i, depth, fields, strict) is None,
        depth <= 16 && i + 1 < s.len() && s[i] == 0x7b && s[i + 1] == 0x7d ==> value_end(
            s,
            i,
            depth,
            fields,
            strict,
        ) == Some((i + 2, fields)),
        depth <= 16 && i + 1 < s.len() && s[i] == 0x5b && s[i + 1] == 0x5d ==> value_end(
            s,
            i,
            depth,
            fields,
            strict,
        ) == Some((i + 2, fields)),
{
    if i + 1 < s.len() && (s[i + 1] == 0x7d || s[i + 1] == 0x5d) {
        lemma_stays(s, i + 1);
    }
}

/// A body without an `error` says nothing; one with two says nothing that can be read.
pub proof fn law_missing_and_double_errors(s: Seq<u8>, members: Seq<Member>, strict: bool)
    ensures
        called(s, members, "error"@).len() == 0 ==> root_tokens(s, members, strict) == Some(
            ErrorTokens { kind: None, code: None, param: None },
        ),
        called(s, members, "error"@).len() >= 2 ==> root_tokens(s, members, strict) is None,
{
}

/// An `error` that is no object says nothing.
pub proof fn law_errors_that_are_no_objects(s: Seq<u8>, i: int, fields: nat, strict: bool)
    requires
        0 <= i < s.len(),
        s[i] != 0x7b,
    ensures
        error_tokens(s, i, fields, strict) == Some(
            ErrorTokens { kind: None, code: None, param: None },
        ),
{
}

/// A word may be missing, but may not stand there twice.
pub proof fn law_missing_and_double_words(
    s: Seq<u8>,
    members: Seq<Member>,
    name: Seq<char>,
    strict: bool,
)
    ensures
        called(s, members, name).len() == 0 ==> word_under(s, members, name, strict) == Some(
            None::<FailureBodyToken>,
        ),
        called(s, members, name).len() >= 2 ==> word_under(s, members, name, strict) is None,
{
}

/// An error with a type or a code that cannot be read cannot be read; neither, to a
/// strict reader, can one with such a param.
pub proof fn law_words_that_cannot_be_read(s: Seq<u8>, members: Seq<Member>, strict: bool)
    ensures
        word_under(s, members, "type"@, strict) is None ==> tokens_in(s, members, strict) is None,
        word_under(s, members, "code"@, strict) is None ==> tokens_in(s, members, strict) is None,
        strict && word_under(s, members, "param"@, strict) is None ==> tokens_in(
            s,
            members,
            strict,
        ) is None,
{
}

/// `null` counts as a missing word; nothing but a string or `null` is a word.
pub proof fn law_null_is_no_word(s: Seq<u8>, i: int, strict: bool)
    requires
        0 <= i < s.len(),
    ensures
        i + 4 <= s.len() && s[i] == 0x6e && s[i + 1] == 0x75 && s[i + 2] == 0x6c && s[i + 3] == 0x6c
            ==> word_value(s, i, strict) == Some(None::<FailureBodyToken>),
        s[i] != 0x22 && s[i] != 0x6e ==> word_value(s, i, strict) is None,
{
    if i + 4 <= s.len() {
        let part = s.subrange(i, i + 4);
        let null = seq![0x6eu8, 0x75, 0x6c, 0x6c];
        if s[i] == 0x6e && s[i + 1] == 0x75 && s[i + 2] == 0x6c && s[i + 3] == 0x6c {
            assert(part =~= null);
        }
        if part == null {
            assert(part[0] == 0x6e);
        }
    }
}

/// A body is one object: what begins with anything else, or has anything but white space
/// behind the object, cannot be read.
pub proof fn law_a_body_is_one_object(s: Seq<u8>, strict: bool)
    ensures
        s.len() == 0 ==> body_tokens(s, strict) is None,
        s.len() > 0 && s[0] != 32 && s[0] != 9 && s[0] != 10 && s[0] != 13 && s[0] != 0x7b
            ==> body_tokens(s, strict) is None,
        body_tokens(s, strict) is Some ==> (object_at(s, space_end(s, 0), 1, 0, strict) matches Some(
            (_, end, _),
        ) && space_end(s, end) == s.len()),
{
}

/// Nothing is said by no words.
pub proof fn law_no_words(tokens: ErrorTokens)
    requires
        call_ensures(ErrorTokens::none, (), tokens),
    ensures
        tokens.kind is None,
        tokens.code is None,
        tokens.param is None,
{
}

} // verus!
