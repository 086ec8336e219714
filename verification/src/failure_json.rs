//! A bounded reader of provider error bodies.
//!
//! The reader walks a JSON text in place and keeps nothing of it but which of a
//! few fixed words stand under `error.type`, `error.code` and `error.param`. Texts
//! that are too deep, too wide or malformed yield nothing.

use vstd::prelude::*;
use vstd::utf8::*;

use crate::text::bytes_are_utf8;

verus! {

/// Deepest nesting of objects and arrays that is read.
pub const MAX_DEPTH: usize = 16;

/// Most object members that one text may hold.
pub const MAX_FIELDS: usize = 128;

/// The words that matter in an error body.
#[derive(Clone, Copy, Debug, PartialEq, Eq, Structural)]
pub enum FailureBodyToken {
    InsufficientQuota,
    RateLimitError,
    RateLimitExceeded,
    UnsupportedValue,
    ToolChoice,
    Other,
}

/// What stands under `type`, `code` and `param` of the `error` object.
#[derive(Clone, Copy, Debug, PartialEq, Eq, Structural)]
pub struct ErrorTokens {
    pub kind: Option<FailureBodyToken>,
    pub code: Option<FailureBodyToken>,
    pub param: Option<FailureBodyToken>,
}

impl ErrorTokens {
    /// Nothing stands there.
    #[verifier::allow_in_spec]
    pub fn none() -> ErrorTokens
        returns
            (ErrorTokens { kind: None, code: None, param: None }),
    {
        ErrorTokens { kind: None, code: None, param: None }
    }
}

// ---------------------------------------------------------------------------
// The grammar
// ---------------------------------------------------------------------------

pub open spec fn is_space(byte: u8) -> bool {
    byte == 0x20 || byte == 0x0a || byte == 0x0d || byte == 0x09
}

pub open spec fn is_digit(byte: u8) -> bool {
    0x30 <= byte <= 0x39
}

/// The byte at `i` is `byte`.
pub open spec fn at(s: Seq<u8>, i: int, byte: u8) -> bool {
    0 <= i < s.len() && s[i] == byte
}

/// The first position from `i` on that holds no white space.
pub open spec fn space_end(s: Seq<u8>, i: int) -> int
    decreases s.len() - i,
{
    if 0 <= i < s.len() && is_space(s[i]) {
        space_end(s, i + 1)
    } else {
        i
    }
}

/// The first position from `i` on that holds no digit.
pub open spec fn digits_end(s: Seq<u8>, i: int) -> int
    decreases s.len() - i,
{
    if 0 <= i < s.len() && is_digit(s[i]) {
        digits_end(s, i + 1)
    } else {
        i
    }
}

pub open spec fn hex_digit(byte: u8) -> Option<u16> {
    if 0x30 <= byte <= 0x39 {
        Some((byte - 0x30) as u16)
    } else if 0x61 <= byte <= 0x66 {
        Some((byte - 0x61 + 10) as u16)
    } else if 0x41 <= byte <= 0x46 {
        Some((byte - 0x41 + 10) as u16)
    } else {
        None
    }
}

/// The number that the four hexadecimal digits from `i` on stand for.
pub open spec fn hex_quad(s: Seq<u8>, i: int) -> Option<u16> {
    if 0 <= i && i + 4 <= s.len() && hex_digit(s[i]) is Some && hex_digit(s[i + 1]) is Some
        && hex_digit(s[i + 2]) is Some && hex_digit(s[i + 3]) is Some {
        Some(
            (hex_digit(s[i])->0 * 4096 + hex_digit(s[i + 1])->0 * 256 + hex_digit(s[i + 2])->0 * 16
                + hex_digit(s[i + 3])->0) as u16,
        )
    } else {
        None
    }
}

pub open spec fn is_high_surrogate(unit: u16) -> bool {
    0xd800 <= unit <= 0xdbff
}

pub open spec fn is_low_surrogate(unit: u16) -> bool {
    0xdc00 <= unit <= 0xdfff
}

pub open spec fn is_short_escape(byte: u8) -> bool {
    byte == 0x22 || byte == 0x5c || byte == 0x2f || byte == 0x62 || byte == 0x66 || byte == 0x6e
        || byte == 0x72 || byte == 0x74
}

/// How many bytes the escape at `i` takes. A strict reader wants `\u` escapes to
/// name Unicode scalar values; a lenient one only wants four bytes behind `\u`.
pub open spec fn escape_len(s: Seq<u8>, i: int, strict: bool) -> Option<int> {
    if !(0 <= i && i + 1 < s.len()) {
        None
    } else if is_short_escape(s[i + 1]) {
        Some(2)
    } else if s[i + 1] != 0x75 {
        None
    } else if !strict {
        if i + 6 <= s.len() {
            Some(6)
        } else {
            None
        }
    } else {
        match hex_quad(s, i + 2) {
            None => None,
            Some(unit) => if is_high_surrogate(unit) {
                if at(s, i + 6, 0x5c) && at(s, i + 7, 0x75) && (hex_quad(s, i + 8) matches Some(low)
                    && is_low_surrogate(low)) {
                    Some(12)
                } else {
                    None
                }
            } else if is_low_surrogate(unit) {
                None
            } else {
                Some(6)
            },
        }
    }
}

/// Where the string whose content starts at `i` is closed.
pub open spec fn string_close(s: Seq<u8>, i: int, strict: bool) -> Option<int>
    decreases s.len() - i,
{
    if !(0 <= i < s.len()) {
        None
    } else if s[i] == 0x22 {
        Some(i)
    } else if s[i] < 0x20 {
        None
    } else if s[i] == 0x5c {
        match escape_len(s, i, strict) {
            None => None,
            Some(n) => string_close(s, i + n, strict),
        }
    } else {
        string_close(s, i + 1, strict)
    }
}

/// Where the string that opens at `i` is closed. A strict reader wants UTF-8.
pub open spec fn string_at(s: Seq<u8>, i: int, strict: bool) -> Option<int> {
    if at(s, i, 0x22) {
        match string_close(s, i + 1, strict) {
            None => None,
            Some(close) => if strict && !valid_utf8(s.subrange(i + 1, close)) {
                None
            } else {
                Some(close)
            },
        }
    } else {
        None
    }
}

/// Where the integer part of a number ends. A strict reader wants nothing but a
/// fraction or an exponent behind a leading zero.
pub open spec fn integer_end(s: Seq<u8>, i: int, strict: bool) -> Option<int> {
    if !(0 <= i < s.len()) {
        None
    } else if s[i] == 0x30 {
        if strict && i + 1 < s.len() && is_digit(s[i + 1]) {
            None
        } else {
            Some(i + 1)
        }
    } else if is_digit(s[i]) {
        Some(digits_end(s, i + 1))
    } else {
        None
    }
}

/// Where a run of at least one digit ends.
pub open spec fn some_digits_end(s: Seq<u8>, i: int) -> Option<int> {
    if digits_end(s, i) == i {
        None
    } else {
        Some(digits_end(s, i))
    }
}

pub open spec fn fraction_end(s: Seq<u8>, i: int) -> Option<int> {
    if at(s, i, 0x2e) {
        some_digits_end(s, i + 1)
    } else {
        Some(i)
    }
}

pub open spec fn exponent_end(s: Seq<u8>, i: int) -> Option<int> {
    if at(s, i, 0x65) || at(s, i, 0x45) {
        if at(s, i + 1, 0x2b) || at(s, i + 1, 0x2d) {
            some_digits_end(s, i + 2)
        } else {
            some_digits_end(s, i + 1)
        }
    } else {
        Some(i)
    }
}

/// Where the number at `i` ends.
pub open spec fn number_end(s: Seq<u8>, i: int, strict: bool) -> Option<int> {
    let first = if at(s, i, 0x2d) {
        i + 1
    } else {
        i
    };
    match integer_end(s, first, strict) {
        None => None,
        Some(a) => match fraction_end(s, a) {
            None => None,
            Some(b) => exponent_end(s, b),
        },
    }
}

/// The bytes of `word` stand at `i`.
pub open spec fn word_at(s: Seq<u8>, i: int, word: Seq<u8>) -> bool {
    0 <= i && i + word.len() <= s.len() && s.subrange(i, i + word.len()) == word
}

pub open spec fn word_end(s: Seq<u8>, i: int, word: Seq<u8>) -> Option<int> {
    if word_at(s, i, word) {
        Some(i + word.len())
    } else {
        None
    }
}

pub open spec fn word_null() -> Seq<u8> {
    seq![0x6eu8, 0x75, 0x6c, 0x6c]
}

pub open spec fn word_true() -> Seq<u8> {
    seq![0x74u8, 0x72, 0x75, 0x65]
}

pub open spec fn word_false() -> Seq<u8> {
    seq![0x66u8, 0x61, 0x6c, 0x73, 0x65]
}

/// One member of an object: where its key opens and closes, where its value
/// starts, and how many members had been counted when the value was reached.
pub struct Member {
    pub key: int,
    pub key_close: int,
    pub value: int,
    pub fields: nat,
}

/// What the object at `i` holds, where it ends and the count of members after it.
pub open spec fn object_at(
    s: Seq<u8>,
    i: int,
    depth: nat,
    fields: nat,
    strict: bool,
) -> Option<(Seq<Member>, int, nat)>
    decreases s.len() - i, 2nat,
{
    if depth > MAX_DEPTH || !at(s, i, 0x7b) {
        None
    } else {
        proof {
            lemma_space_end(s, i + 1);
        }
        let j = space_end(s, i + 1);
        if at(s, j, 0x7d) {
            Some((Seq::empty(), j + 1, fields))
        } else {
            members_at(s, j, depth + 1, fields, strict)
        }
    }
}

/// The members from the key at `i` on, up to the end of their object. Their
/// values are at nesting `depth`.
pub open spec fn members_at(
    s: Seq<u8>,
    i: int,
    depth: nat,
    fields: nat,
    strict: bool,
) -> Option<(Seq<Member>, int, nat)>
    decreases s.len() - i, 1nat,
{
    if fields >= MAX_FIELDS {
        None
    } else {
        match string_at(s, i, strict) {
            None => None,
            Some(close) => {
                proof {
                    lemma_string_close(s, i + 1, strict);
                    lemma_space_end(s, close + 1);
                }
                let colon = space_end(s, close + 1);
                if !at(s, colon, 0x3a) {
                    None
                } else {
                    proof {
                        lemma_space_end(s, colon + 1);
                    }
                    let value = space_end(s, colon + 1);
                    let member = Member { key: i, key_close: close, value, fields: fields + 1 };
                    match value_end(s, value, depth, fields + 1, strict) {
                        None => None,
                        Some((end, count)) => {
                            proof {
                                lemma_space_end(s, end);
                            }
                            let next = space_end(s, end);
                            if end <= value {
                                None
                            } else if at(s, next, 0x7d) {
                                Some((seq![member], next + 1, count))
                            } else if at(s, next, 0x2c) {
                                proof {
                                    lemma_space_end(s, next + 1);
                                }
                                match members_at(
                                    s,
                                    space_end(s, next + 1),
                                    depth,
                                    count,
                                    strict,
                                ) {
                                    None => None,
                                    Some((rest, finish, total)) => Some(
                                        (seq![member] + rest, finish, total),
                                    ),
                                }
                            } else {
                                None
                            }
                        },
                    }
                }
            },
        }
    }
}

/// Where the array at `i` ends and the count of members after it.
pub open spec fn array_at(
    s: Seq<u8>,
    i: int,
    depth: nat,
    fields: nat,
    strict: bool,
) -> Option<(int, nat)>
    decreases s.len() - i, 2nat,
{
    if depth > MAX_DEPTH || !at(s, i, 0x5b) {
        None
    } else {
        proof {
            lemma_space_end(s, i + 1);
        }
        let j = space_end(s, i + 1);
        if at(s, j, 0x5d) {
            Some((j + 1, fields))
        } else {
            elements_at(s, j, depth + 1, fields, strict)
        }
    }
}

/// Where the array whose next element starts at `i` ends.
pub open spec fn elements_at(
    s: Seq<u8>,
    i: int,
    depth: nat,
    fields: nat,
    strict: bool,
) -> Option<(int, nat)>
    decreases s.len() - i, 4nat,
{
    match value_end(s, i, depth, fields, strict) {
        None => None,
        Some((end, count)) => {
            proof {
                lemma_space_end(s, end);
            }
            let next = space_end(s, end);
            if end <= i {
                None
            } else if at(s, next, 0x5d) {
                Some((next + 1, count))
            } else if at(s, next, 0x2c) {
                proof {
                    lemma_space_end(s, next + 1);
                }
                elements_at(s, space_end(s, next + 1), depth, count, strict)
            } else {
                None
            }
        },
    }
}

/// Where the value at `i` ends and the count of members after it.
pub open spec fn value_end(
    s: Seq<u8>,
    i: int,
    depth: nat,
    fields: nat,
    strict: bool,
) -> Option<(int, nat)>
    decreases s.len() - i, 3nat,
{
    if !(0 <= i < s.len()) {
        None
    } else if s[i] == 0x7b {
        match object_at(s, i, depth, fields, strict) {
            None => None,
            Some((_, end, count)) => Some((end, count)),
        }
    } else if s[i] == 0x5b {
        array_at(s, i, depth, fields, strict)
    } else {
        let end = if s[i] == 0x22 {
            match string_at(s, i, strict) {
                None => None,
                Some(close) => Some(close + 1),
            }
        } else if s[i] == 0x74 {
            word_end(s, i, word_true())
        } else if s[i] == 0x66 {
            word_end(s, i, word_false())
        } else if s[i] == 0x6e {
            word_end(s, i, word_null())
        } else if s[i] == 0x2d || is_digit(s[i]) {
            number_end(s, i, strict)
        } else {
            None
        };
        match end {
            None => None,
            Some(end) => Some((end, fields)),
        }
    }
}

pub proof fn lemma_space_end(s: Seq<u8>, i: int)
    ensures
        space_end(s, i) >= i,
        0 <= i <= s.len() ==> space_end(s, i) <= s.len(),
    decreases s.len() - i,
{
    if 0 <= i < s.len() && is_space(s[i]) {
        lemma_space_end(s, i + 1);
    }
}

pub proof fn lemma_string_close(s: Seq<u8>, i: int, strict: bool)
    ensures
        string_close(s, i, strict) matches Some(close) ==> i <= close < s.len() && s[close] == 0x22,
    decreases s.len() - i,
{
    if 0 <= i < s.len() && s[i] != 0x22 && s[i] >= 0x20 {
        if s[i] == 0x5c {
            if let Some(n) = escape_len(s, i, strict) {
                lemma_string_close(s, i + n, strict);
            }
        } else {
            lemma_string_close(s, i + 1, strict);
        }
    }
}

// ---------------------------------------------------------------------------
// What the strings say
// ---------------------------------------------------------------------------

/// The first unit that the string content `raw` denotes from `i` on, and how many
/// bytes it takes. A byte outside escapes stands for itself.
pub open spec fn unit_at(raw: Seq<u8>, i: int) -> Option<(u32, int)> {
    if raw[i] != 0x5c {
        Some((raw[i] as u32, 1))
    } else if i + 1 >= raw.len() {
        None
    } else if raw[i + 1] == 0x22 || raw[i + 1] == 0x5c || raw[i + 1] == 0x2f {
        Some((raw[i + 1] as u32, 2))
    } else if raw[i + 1] == 0x62 {
        Some((0x08, 2))
    } else if raw[i + 1] == 0x66 {
        Some((0x0c, 2))
    } else if raw[i + 1] == 0x6e {
        Some((0x0a, 2))
    } else if raw[i + 1] == 0x72 {
        Some((0x0d, 2))
    } else if raw[i + 1] == 0x74 {
        Some((0x09, 2))
    } else if raw[i + 1] == 0x75 {
        match hex_quad(raw, i + 2) {
            None => None,
            Some(unit) => if !is_high_surrogate(unit) {
                Some((unit as u32, 6))
            } else if at(raw, i + 6, 0x5c) && at(raw, i + 7, 0x75) && (hex_quad(raw, i + 8) matches Some(
                low,
            ) && is_low_surrogate(low)) {
                let low = hex_quad(raw, i + 8)->0;
                Some(((0x1_0000 + (unit - 0xd800) * 0x400 + (low - 0xdc00)) as u32, 12))
            } else {
                None
            },
        }
    } else {
        None
    }
}

/// The units that the string content `raw` denotes from `i` on.
pub open spec fn units_from(raw: Seq<u8>, i: int) -> Option<Seq<u32>>
    decreases raw.len() - i,
{
    if !(0 <= i < raw.len()) {
        Some(Seq::empty())
    } else {
        match unit_at(raw, i) {
            None => None,
            Some((unit, n)) => match units_from(raw, i + n) {
                None => None,
                Some(rest) => Some(seq![unit] + rest),
            },
        }
    }
}

pub open spec fn text_units(text: Seq<char>) -> Seq<u32> {
    Seq::new(text.len(), |k: int| text[k] as u32)
}

/// The string content `raw` denotes `text`.
pub open spec fn denotes(raw: Seq<u8>, text: Seq<char>) -> bool {
    units_from(raw, 0) == Some(text_units(text))
}

pub open spec fn token_of(raw: Seq<u8>) -> FailureBodyToken {
    if denotes(raw, "insufficient_quota"@) {
        FailureBodyToken::InsufficientQuota
    } else if denotes(raw, "rate_limit_error"@) {
        FailureBodyToken::RateLimitError
    } else if denotes(raw, "rate_limit_exceeded"@) {
        FailureBodyToken::RateLimitExceeded
    } else if denotes(raw, "unsupported_value"@) {
        FailureBodyToken::UnsupportedValue
    } else if denotes(raw, "tool_choice"@) {
        FailureBodyToken::ToolChoice
    } else {
        FailureBodyToken::Other
    }
}

pub open spec fn has_name(s: Seq<u8>, member: Member, name: Seq<char>) -> bool {
    denotes(s.subrange(member.key + 1, member.key_close), name)
}

/// The members that are called `name`.
pub open spec fn called(s: Seq<u8>, members: Seq<Member>, name: Seq<char>) -> Seq<Member> {
    members.filter(|member: Member| has_name(s, member, name))
}

/// The word at `i`, or none for `null`. Nothing but a string or `null` is a word.
pub open spec fn word_value(s: Seq<u8>, i: int, strict: bool) -> Option<Option<FailureBodyToken>> {
    match string_at(s, i, strict) {
        Some(close) => Some(Some(token_of(s.subrange(i + 1, close)))),
        None => if !at(s, i, 0x22) && word_at(s, i, word_null()) {
            Some(None)
        } else {
            None
        },
    }
}

/// The word under `name`, which may be missing but may not stand there twice.
pub open spec fn word_under(
    s: Seq<u8>,
    members: Seq<Member>,
    name: Seq<char>,
    strict: bool,
) -> Option<Option<FailureBodyToken>> {
    let hits = called(s, members, name);
    if hits.len() == 0 {
        Some(None)
    } else if hits.len() == 1 {
        word_value(s, hits[0].value, strict)
    } else {
        None
    }
}

/// The three words of an error object. Only a strict reader looks at `param`.
pub open spec fn tokens_in(s: Seq<u8>, members: Seq<Member>, strict: bool) -> Option<ErrorTokens> {
    let kind = word_under(s, members, "type"@, strict);
    let code = word_under(s, members, "code"@, strict);
    let param = if strict {
        word_under(s, members, "param"@, strict)
    } else {
        Some(None)
    };
    if kind is Some && code is Some && param is Some {
        Some(ErrorTokens { kind: kind->0, code: code->0, param: param->0 })
    } else {
        None
    }
}

/// The words of the `error` value at `i`; a value that is no object has none.
pub open spec fn error_tokens(s: Seq<u8>, i: int, fields: nat, strict: bool) -> Option<ErrorTokens> {
    if !at(s, i, 0x7b) {
        Some(ErrorTokens::none())
    } else {
        match object_at(s, i, 2, fields, strict) {
            None => None,
            Some((members, _, _)) => tokens_in(s, members, strict),
        }
    }
}

/// The words of the root object with these members.
pub open spec fn root_tokens(s: Seq<u8>, members: Seq<Member>, strict: bool) -> Option<ErrorTokens> {
    let hits = called(s, members, "error"@);
    if hits.len() == 0 {
        Some(ErrorTokens::none())
    } else if hits.len() == 1 {
        error_tokens(s, hits[0].value, hits[0].fields, strict)
    } else {
        None
    }
}

/// The words of a whole text: one object, with nothing but white space around it.
pub open spec fn body_tokens(s: Seq<u8>, strict: bool) -> Option<ErrorTokens> {
    match object_at(s, space_end(s, 0), 1, 0, strict) {
        None => None,
        Some((members, end, _)) => if space_end(s, end) == s.len() {
            root_tokens(s, members, strict)
        } else {
            None
        },
    }
}

// ---------------------------------------------------------------------------
// Reading
// ---------------------------------------------------------------------------

spec fn prepend_units(head: Seq<u32>, tail: Option<Seq<u32>>) -> Option<Seq<u32>> {
    match tail {
        None => None,
        Some(tail) => Some(head + tail),
    }
}

fn hex_value(byte: u8) -> (value: Option<u16>)
    ensures
        value == hex_digit(byte),
        value matches Some(v) ==> v < 16,
{
    if 0x30 <= byte && byte <= 0x39 {
        Some((byte - 0x30) as u16)
    } else if 0x61 <= byte && byte <= 0x66 {
        Some((byte - 0x61 + 10) as u16)
    } else if 0x41 <= byte && byte <= 0x46 {
        Some((byte - 0x41 + 10) as u16)
    } else {
        None
    }
}

fn parse_hex_quad(input: &[u8], start: usize) -> (value: Option<u16>)
    requires
        start + 4 <= usize::MAX,
    ensures
        value == hex_quad(input@, start as int),
{
    if start + 4 > input.len() {
        return None;
    }
    let a = hex_value(input[start])?;
    let b = hex_value(input[start + 1])?;
    let c = hex_value(input[start + 2])?;
    let d = hex_value(input[start + 3])?;
    Some(a * 4096 + b * 256 + c * 16 + d)
}

/// The first unit that `raw` denotes from `i` on.
fn decode_unit(raw: &[u8], i: usize) -> (unit: Option<(u32, usize)>)
    requires
        i < raw@.len(),
        raw@.len() + 16 <= usize::MAX,
    ensures
        match unit {
            None => unit_at(raw@, i as int) is None,
            Some((u, n)) => unit_at(raw@, i as int) == Some((u, n as int)) && 1 <= n <= 12,
        },
{
    if raw[i] != 0x5c {
        return Some((raw[i] as u32, 1));
    }
    if i + 1 >= raw.len() {
        return None;
    }
    let escaped = raw[i + 1];
    if escaped == 0x22 || escaped == 0x5c || escaped == 0x2f {
        Some((escaped as u32, 2))
    } else if escaped == 0x62 {
        Some((0x08, 2))
    } else if escaped == 0x66 {
        Some((0x0c, 2))
    } else if escaped == 0x6e {
        Some((0x0a, 2))
    } else if escaped == 0x72 {
        Some((0x0d, 2))
    } else if escaped == 0x74 {
        Some((0x09, 2))
    } else if escaped == 0x75 {
        let high = parse_hex_quad(raw, i + 2)?;
        if !(0xd800 <= high && high <= 0xdbff) {
            return Some((high as u32, 6));
        }
        if i + 7 >= raw.len() || raw[i + 6] != 0x5c || raw[i + 7] != 0x75 {
            return None;
        }
        let low = parse_hex_quad(raw, i + 8)?;
        if !(0xdc00 <= low && low <= 0xdfff) {
            return None;
        }
        let scalar: u32 = 0x1_0000 + (high as u32 - 0xd800) * 0x400 + (low as u32 - 0xdc00);
        Some((scalar, 12))
    } else {
        None
    }
}

/// Whether the string content `raw` denotes the given ASCII text.
fn equals_ascii(raw: &[u8], expected: &str) -> (same: bool)
    requires
        is_ascii_chars(expected@),
        raw@.len() + 16 <= usize::MAX,
    ensures
        same == denotes(raw@, expected@),
{
    let bytes = expected.as_bytes();
    let ghost wanted = text_units(expected@);
    proof {
        is_ascii_chars_encode_utf8(expected@);
        assert forall|k: int| 0 <= k < bytes@.len() implies #[trigger] bytes@[k] as u32
            == wanted[k] by {
            let c = expected@[k];
            assert('\0' <= c <= '\u{7f}');
        }
    }
    let mut offset: usize = 0;
    let mut matched: usize = 0;
    assert(wanted.take(0) =~= Seq::empty());
    assert(units_from(raw@, 0) == prepend_units(wanted.take(0), units_from(raw@, 0))) by {
        if let Some(units) = units_from(raw@, 0) {
            assert(Seq::<u32>::empty() + units =~= units);
        }
    }
    while offset < raw.len()
        invariant
            raw@.len() + 16 <= usize::MAX,
            wanted == text_units(expected@),
            matched <= bytes@.len(),
            bytes@.len() == wanted.len(),
            forall|k: int| 0 <= k < bytes@.len() ==> #[trigger] bytes@[k] as u32 == wanted[k],
            offset <= raw.len() + 12,
            units_from(raw@, 0) == prepend_units(
                wanted.take(matched as int),
                units_from(raw@, offset as int),
            ),
        decreases raw.len() + 12 - offset,
    {
        let (unit, n) = match decode_unit(raw, offset) {
            None => {
                return false;
            },
            Some(decoded) => decoded,
        };
        let ghost rest = units_from(raw@, offset + n);
        if matched >= bytes.len() || bytes[matched] as u32 != unit {
            proof {
                if let Some(units) = rest {
                    let whole = wanted.take(matched as int) + (seq![unit] + units);
                    assert(units_from(raw@, 0) == Some(whole));
                    assert(whole[matched as int] == unit);
                    assert(whole != wanted);
                }
            }
            return false;
        }
        proof {
            if let Some(units) = rest {
                assert(wanted.take(matched as int) + (seq![unit] + units) =~= wanted.take(
                    matched + 1,
                ) + units);
            }
        }
        offset += n;
        matched += 1;
    }
    assert(units_from(raw@, offset as int) == Some(Seq::<u32>::empty()));
    assert(wanted.take(matched as int) + Seq::<u32>::empty() =~= wanted.take(matched as int));
    if matched == bytes.len() {
        assert(wanted.take(matched as int) =~= wanted);
    }
    matched == bytes.len()
}

proof fn lemma_words()
    ensures
        is_ascii_chars("insufficient_quota"@),
        is_ascii_chars("rate_limit_error"@),
        is_ascii_chars("rate_limit_exceeded"@),
        is_ascii_chars("unsupported_value"@),
        is_ascii_chars("tool_choice"@),
        is_ascii_chars("error"@),
        is_ascii_chars("type"@),
        is_ascii_chars("code"@),
        is_ascii_chars("param"@),
        text_units("type"@) != text_units("code"@),
        text_units("type"@) != text_units("param"@),
        text_units("code"@) != text_units("param"@),
{
    reveal_strlit("insufficient_quota");
    reveal_strlit("rate_limit_error");
    reveal_strlit("rate_limit_exceeded");
    reveal_strlit("unsupported_value");
    reveal_strlit("tool_choice");
    reveal_strlit("error");
    reveal_strlit("type");
    reveal_strlit("code");
    reveal_strlit("param");
    assert(text_units("type"@)[0] == 't' as u32);
    assert(text_units("code"@)[0] == 'c' as u32);
    assert(text_units("param"@).len() == 5);
}

impl FailureBodyToken {
    fn from_json_string(raw: &[u8]) -> (token: FailureBodyToken)
        requires
            raw@.len() + 16 <= usize::MAX,
        ensures
            token == token_of(raw@),
    {
        proof {
            lemma_words();
        }
        if equals_ascii(raw, "insufficient_quota") {
            FailureBodyToken::InsufficientQuota
        } else if equals_ascii(raw, "rate_limit_error") {
            FailureBodyToken::RateLimitError
        } else if equals_ascii(raw, "rate_limit_exceeded") {
            FailureBodyToken::RateLimitExceeded
        } else if equals_ascii(raw, "unsupported_value") {
            FailureBodyToken::UnsupportedValue
        } else if equals_ascii(raw, "tool_choice") {
            FailureBodyToken::ToolChoice
        } else {
            FailureBodyToken::Other
        }
    }
}

spec fn prepend(
    head: Seq<Member>,
    tail: Option<(Seq<Member>, int, nat)>,
) -> Option<(Seq<Member>, int, nat)> {
    match tail {
        None => None,
        Some((members, end, fields)) => Some((head + members, end, fields)),
    }
}

spec fn ends(object: Option<(Seq<Member>, int, nat)>) -> Option<(int, nat)> {
    match object {
        None => None,
        Some((_, end, fields)) => Some((end, fields)),
    }
}

proof fn lemma_prepend_nothing(tail: Option<(Seq<Member>, int, nat)>)
    ensures
        prepend(Seq::empty(), tail) == tail,
{
    if let Some((members, _, _)) = tail {
        assert(Seq::<Member>::empty() + members =~= members);
    }
}

proof fn lemma_prepend_one(
    head: Seq<Member>,
    member: Member,
    tail: Option<(Seq<Member>, int, nat)>,
)
    ensures
        prepend(head, prepend(seq![member], tail)) == prepend(head.push(member), tail),
{
    if let Some((members, _, _)) = tail {
        assert(head + (seq![member] + members) =~= head.push(member) + members);
    }
}

proof fn lemma_called_push(s: Seq<u8>, head: Seq<Member>, member: Member, name: Seq<char>)
    ensures
        called(s, head.push(member), name) == if has_name(s, member, name) {
            called(s, head, name).push(member)
        } else {
            called(s, head, name)
        },
{
    reveal(Seq::filter);
    assert(head.push(member).drop_last() =~= head);
}

proof fn lemma_called_add(s: Seq<u8>, head: Seq<Member>, tail: Seq<Member>, name: Seq<char>)
    ensures
        called(s, head + tail, name) == called(s, head, name) + called(s, tail, name),
{
    Seq::filter_distributes_over_add(head, tail, |member: Member| has_name(s, member, name));
}

/// The words of an error object that have been met so far.
struct WordsSeen {
    tokens: ErrorTokens,
    saw_kind: bool,
    saw_code: bool,
    saw_param: bool,
}

/// What has been met once the member with key `raw` and its value at `i` are read.
spec fn note_member(words: WordsSeen, s: Seq<u8>, i: int, raw: Seq<u8>, strict: bool) -> Option<
    WordsSeen,
> {
    let value = word_value(s, i, strict);
    if denotes(raw, "type"@) {
        if words.saw_kind || value is None {
            None
        } else {
            Some(
                WordsSeen {
                    tokens: ErrorTokens { kind: value->0, ..words.tokens },
                    saw_kind: true,
                    ..words
                },
            )
        }
    } else if denotes(raw, "code"@) {
        if words.saw_code || value is None {
            None
        } else {
            Some(
                WordsSeen {
                    tokens: ErrorTokens { code: value->0, ..words.tokens },
                    saw_code: true,
                    ..words
                },
            )
        }
    } else if strict && denotes(raw, "param"@) {
        if words.saw_param || value is None {
            None
        } else {
            Some(
                WordsSeen {
                    tokens: ErrorTokens { param: value->0, ..words.tokens },
                    saw_param: true,
                    ..words
                },
            )
        }
    } else {
        Some(words)
    }
}

/// `word` is what the members say under `name`, and `saw` whether they say anything.
#[verifier::opaque]
spec fn word_noted(
    s: Seq<u8>,
    members: Seq<Member>,
    name: Seq<char>,
    saw: bool,
    word: Option<FailureBodyToken>,
    strict: bool,
) -> bool {
    &&& called(s, members, name).len() == if saw {
        1nat
    } else {
        0
    }
    &&& word_under(s, members, name, strict) == Some(word)
}

/// `words` is what the members say.
spec fn noted(s: Seq<u8>, members: Seq<Member>, words: WordsSeen, strict: bool) -> bool {
    &&& word_noted(s, members, "type"@, words.saw_kind, words.tokens.kind, strict)
    &&& word_noted(s, members, "code"@, words.saw_code, words.tokens.code, strict)
    &&& if strict {
        word_noted(s, members, "param"@, words.saw_param, words.tokens.param, strict)
    } else {
        words.tokens.param is None
    }
}

proof fn lemma_nothing_noted(s: Seq<u8>, words: WordsSeen, strict: bool)
    requires
        words == (WordsSeen {
            tokens: ErrorTokens::none(),
            saw_kind: false,
            saw_code: false,
            saw_param: false,
        }),
    ensures
        noted(s, Seq::empty(), words, strict),
        tokens_in(s, Seq::empty(), strict) == Some(ErrorTokens::none()),
{
    reveal(Seq::filter);
    reveal(word_noted);
    assert(called(s, Seq::empty(), "type"@).len() == 0);
    assert(called(s, Seq::empty(), "code"@).len() == 0);
    assert(called(s, Seq::empty(), "param"@).len() == 0);
}

proof fn lemma_tokens_noted(s: Seq<u8>, members: Seq<Member>, words: WordsSeen, strict: bool)
    requires
        noted(s, members, words, strict),
    ensures
        tokens_in(s, members, strict) == Some(words.tokens),
{
    reveal(word_noted);
}

/// A member of another name changes nothing.
proof fn lemma_word_unchanged(
    s: Seq<u8>,
    members: Seq<Member>,
    member: Member,
    name: Seq<char>,
    saw: bool,
    word: Option<FailureBodyToken>,
    strict: bool,
)
    requires
        word_noted(s, members, name, saw, word, strict),
        !has_name(s, member, name),
    ensures
        word_noted(s, members.push(member), name, saw, word, strict),
{
    reveal(word_noted);
    lemma_called_push(s, members, member, name);
}

/// A member of this name is the word, unless there was one before or it is none.
proof fn lemma_word_met(
    s: Seq<u8>,
    members: Seq<Member>,
    member: Member,
    name: Seq<char>,
    saw: bool,
    word: Option<FailureBodyToken>,
    strict: bool,
)
    requires
        word_noted(s, members, name, saw, word, strict),
        has_name(s, member, name),
    ensures
        ({
            let value = word_value(s, member.value, strict);
            if saw || value is None {
                forall|rest: Seq<Member>|
                    word_under(s, #[trigger] (members.push(member) + rest), name, strict) is None
            } else {
                word_noted(s, members.push(member), name, true, value->0, strict)
            }
        }),
{
    reveal(word_noted);
    lemma_called_push(s, members, member, name);
    let value = word_value(s, member.value, strict);
    assert forall|rest: Seq<Member>| saw || value is None implies word_under(
        s,
        #[trigger] (members.push(member) + rest),
        name,
        strict,
    ) is None by {
        lemma_called_add(s, members.push(member), rest, name);
        let hits = called(s, members.push(member) + rest, name);
        if !saw {
            assert(hits[0] == member);
        }
    }
}

proof fn lemma_note_member(
    s: Seq<u8>,
    members: Seq<Member>,
    member: Member,
    words: WordsSeen,
    strict: bool,
)
    requires
        noted(s, members, words, strict),
    ensures
        match note_member(
            words,
            s,
            member.value,
            s.subrange(member.key + 1, member.key_close),
            strict,
        ) {
            Some(next) => noted(s, members.push(member), next, strict),
            None => forall|rest: Seq<Member>|
                tokens_in(s, #[trigger] (members.push(member) + rest), strict) is None,
        },
{
    lemma_words();
    let k = words.tokens;
    if has_name(s, member, "type"@) {
        lemma_word_met(s, members, member, "type"@, words.saw_kind, k.kind, strict);
    } else {
        lemma_word_unchanged(s, members, member, "type"@, words.saw_kind, k.kind, strict);
    }
    if has_name(s, member, "code"@) {
        lemma_word_met(s, members, member, "code"@, words.saw_code, k.code, strict);
    } else {
        lemma_word_unchanged(s, members, member, "code"@, words.saw_code, k.code, strict);
    }
    if strict {
        if has_name(s, member, "param"@) {
            lemma_word_met(s, members, member, "param"@, words.saw_param, k.param, strict);
        } else {
            lemma_word_unchanged(s, members, member, "param"@, words.saw_param, k.param, strict);
        }
    }
}

/// Walks a text from front to back.
pub struct FailureJsonScanner<'a> {
    input: &'a [u8],
    cursor: usize,
    fields: usize,
    strict: bool,
}

impl<'a> FailureJsonScanner<'a> {
    pub closed spec fn wf(self) -> bool {
        &&& self.cursor <= self.input@.len()
        &&& self.fields <= MAX_FIELDS
        &&& self.input@.len() + 16 <= usize::MAX
    }

    /// Only the position may have moved.
    closed spec fn same_text(self, other: Self) -> bool {
        self.input@ == other.input@ && self.strict == other.strict
    }

    fn peek(&self) -> (byte: Option<u8>)
        requires
            self.wf(),
        ensures
            match byte {
                None => self.cursor == self.input@.len(),
                Some(b) => self.cursor < self.input@.len() && self.input@[self.cursor as int] == b,
            },
    {
        if self.cursor < self.input.len() {
            Some(self.input[self.cursor])
        } else {
            None
        }
    }

    fn consume(&mut self, expected: u8) -> (found: bool)
        requires
            old(self).wf(),
        ensures
            final(self).wf(),
            final(self).same_text(*old(self)),
            final(self).fields == old(self).fields,
            found == at(old(self).input@, old(self).cursor as int, expected),
            final(self).cursor == if found {
                old(self).cursor + 1
            } else {
                old(self).cursor as int
            },
    {
        if self.cursor < self.input.len() && self.input[self.cursor] == expected {
            self.cursor += 1;
            true
        } else {
            false
        }
    }

    fn skip_whitespace(&mut self)
        requires
            old(self).wf(),
        ensures
            final(self).wf(),
            final(self).same_text(*old(self)),
            final(self).fields == old(self).fields,
            final(self).cursor == space_end(old(self).input@, old(self).cursor as int),
            final(self).cursor >= old(self).cursor,
    {
        while self.cursor < self.input.len() && (self.input[self.cursor] == 0x20
            || self.input[self.cursor] == 0x0a || self.input[self.cursor] == 0x0d
            || self.input[self.cursor] == 0x09)
            invariant
                self.wf(),
                self.same_text(*old(self)),
                self.fields == old(self).fields,
                self.cursor >= old(self).cursor,
                space_end(self.input@, self.cursor as int) == space_end(
                    old(self).input@,
                    old(self).cursor as int,
                ),
            decreases self.input.len() - self.cursor,
        {
            self.cursor += 1;
        }
    }

    fn skip_digits(&mut self)
        requires
            old(self).wf(),
        ensures
            final(self).wf(),
            final(self).same_text(*old(self)),
            final(self).fields == old(self).fields,
            final(self).cursor == digits_end(old(self).input@, old(self).cursor as int),
            final(self).cursor >= old(self).cursor,
    {
        while self.cursor < self.input.len() && 0x30 <= self.input[self.cursor]
            && self.input[self.cursor] <= 0x39
            invariant
                self.wf(),
                self.same_text(*old(self)),
                self.fields == old(self).fields,
                self.cursor >= old(self).cursor,
                digits_end(self.input@, self.cursor as int) == digits_end(
                    old(self).input@,
                    old(self).cursor as int,
                ),
            decreases self.input.len() - self.cursor,
        {
            self.cursor += 1;
        }
    }

    fn consume_literal(&mut self, word: &[u8]) -> (found: bool)
        requires
            old(self).wf(),
            word@.len() <= 16,
        ensures
            final(self).wf(),
            final(self).same_text(*old(self)),
            final(self).fields == old(self).fields,
            found == word_at(old(self).input@, old(self).cursor as int, word@),
            final(self).cursor == if found {
                old(self).cursor + word@.len()
            } else {
                old(self).cursor as int
            },
    {
        if self.cursor + word.len() > self.input.len() {
            return false;
        }
        let mut i: usize = 0;
        while i < word.len()
            invariant
                self.wf(),
                *self == *old(self),
                i <= word@.len(),
                self.cursor + word@.len() <= self.input@.len(),
                forall|k: int| 0 <= k < i ==> self.input@[self.cursor + k] == word@[k],
            decreases word.len() - i,
        {
            if self.input[self.cursor + i] != word[i] {
                proof {
                    let there = self.input@.subrange(
                        self.cursor as int,
                        self.cursor + word@.len(),
                    );
                    assert(there[i as int] != word@[i as int]);
                }
                return false;
            }
            i += 1;
        }
        assert(self.input@.subrange(self.cursor as int, self.cursor + word@.len()) =~= word@);
        self.cursor += word.len();
        true
    }

    fn skip_number(&mut self) -> (done: Option<()>)
        requires
            old(self).wf(),
        ensures
            final(self).same_text(*old(self)),
            match number_end(old(self).input@, old(self).cursor as int, old(self).strict) {
                None => done is None,
                Some(end) => {
                    &&& done is Some
                    &&& final(self).wf()
                    &&& final(self).cursor == end
                    &&& final(self).cursor > old(self).cursor
                    &&& final(self).fields == old(self).fields
                },
            },
    {
        self.consume(0x2d);
        let first = self.peek()?;
        if first == 0x30 {
            self.cursor += 1;
            if self.strict && self.cursor < self.input.len() && 0x30 <= self.input[self.cursor]
                && self.input[self.cursor] <= 0x39 {
                return None;
            }
        } else if 0x31 <= first && first <= 0x39 {
            self.cursor += 1;
            self.skip_digits();
        } else {
            return None;
        }
        if self.consume(0x2e) {
            let start = self.cursor;
            self.skip_digits();
            if self.cursor == start {
                return None;
            }
        }
        if self.consume(0x65) || self.consume(0x45) {
            if !self.consume(0x2b) {
                self.consume(0x2d);
            }
            let start = self.cursor;
            self.skip_digits();
            if self.cursor == start {
                return None;
            }
        }
        Some(())
    }

    /// Reads the escape at the cursor.
    fn skip_escape(&mut self) -> (done: Option<()>)
        requires
            old(self).wf(),
            at(old(self).input@, old(self).cursor as int, 0x5c),
        ensures
            final(self).same_text(*old(self)),
            match escape_len(old(self).input@, old(self).cursor as int, old(self).strict) {
                None => done is None,
                Some(n) => {
                    &&& done is Some
                    &&& final(self).wf()
                    &&& final(self).cursor == old(self).cursor + n
                    &&& final(self).fields == old(self).fields
                },
            },
    {
        let start = self.cursor;
        if start + 1 >= self.input.len() {
            return None;
        }
        let escaped = self.input[start + 1];
        if escaped == 0x22 || escaped == 0x5c || escaped == 0x2f || escaped == 0x62 || escaped
            == 0x66 || escaped == 0x6e || escaped == 0x72 || escaped == 0x74 {
            self.cursor = start + 2;
            return Some(());
        }
        if escaped != 0x75 {
            return None;
        }
        if !self.strict {
            if start + 6 > self.input.len() {
                return None;
            }
            self.cursor = start + 6;
            return Some(());
        }
        let unit = parse_hex_quad(self.input, start + 2)?;
        if 0xd800 <= unit && unit <= 0xdbff {
            if start + 7 >= self.input.len() || self.input[start + 6] != 0x5c || self.input[start
                + 7] != 0x75 {
                return None;
            }
            let low = parse_hex_quad(self.input, start + 8)?;
            if !(0xdc00 <= low && low <= 0xdfff) {
                return None;
            }
            self.cursor = start + 12;
            Some(())
        } else if 0xdc00 <= unit && unit <= 0xdfff {
            None
        } else {
            self.cursor = start + 6;
            Some(())
        }
    }

    fn parse_string(&mut self) -> (content: Option<&'a [u8]>)
        requires
            old(self).wf(),
        ensures
            final(self).same_text(*old(self)),
            match string_at(old(self).input@, old(self).cursor as int, old(self).strict) {
                None => content is None,
                Some(close) => {
                    &&& content matches Some(raw) && raw@ == old(self).input@.subrange(
                        old(self).cursor + 1,
                        close,
                    ) && raw@.len() <= old(self).input@.len()
                    &&& final(self).wf()
                    &&& final(self).cursor == close + 1
                    &&& final(self).cursor > old(self).cursor
                    &&& final(self).fields == old(self).fields
                },
            },
    {
        if !self.consume(0x22) {
            return None;
        }
        let start = self.cursor;
        while self.cursor < self.input.len()
            invariant
                self.wf(),
                self.same_text(*old(self)),
                self.fields == old(self).fields,
                start == old(self).cursor + 1,
                self.cursor >= start,
                at(old(self).input@, old(self).cursor as int, 0x22),
                string_close(self.input@, self.cursor as int, self.strict) == string_close(
                    self.input@,
                    start as int,
                    self.strict,
                ),
            decreases self.input.len() - self.cursor,
        {
            let byte = self.input[self.cursor];
            if byte == 0x22 {
                let raw = vstd::slice::slice_subrange(self.input, start, self.cursor);
                if self.strict && !bytes_are_utf8(raw) {
                    return None;
                }
                self.cursor += 1;
                return Some(raw);
            }
            if byte < 0x20 {
                return None;
            }
            if byte == 0x5c {
                self.skip_escape()?;
            } else {
                self.cursor += 1;
            }
        }
        None
    }

    fn record_field(&mut self) -> (done: Option<()>)
        requires
            old(self).wf(),
        ensures
            final(self).same_text(*old(self)),
            final(self).wf(),
            final(self).cursor == old(self).cursor,
            done is Some <==> old(self).fields < MAX_FIELDS,
            done is Some ==> final(self).fields == old(self).fields + 1,
    {
        if self.fields >= MAX_FIELDS {
            return None;
        }
        self.fields += 1;
        Some(())
    }

    fn skip_value(&mut self, depth: usize) -> (done: Option<()>)
        requires
            old(self).wf(),
            1 <= depth <= MAX_DEPTH + 1,
        ensures
            final(self).same_text(*old(self)),
            match value_end(
                old(self).input@,
                old(self).cursor as int,
                depth as nat,
                old(self).fields as nat,
                old(self).strict,
            ) {
                None => done is None,
                Some((end, count)) => {
                    &&& done is Some
                    &&& final(self).wf()
                    &&& final(self).cursor == end
                    &&& final(self).cursor > old(self).cursor
                    &&& final(self).fields == count
                },
            },
        decreases MAX_DEPTH + 1 - depth, 1nat,
    {
        let first = self.peek()?;
        if first == 0x7b {
            self.skip_object(depth)
        } else if first == 0x5b {
            self.skip_array(depth)
        } else if first == 0x22 {
            self.parse_string()?;
            Some(())
        } else if first == 0x74 {
            let word: [u8; 4] = [0x74, 0x72, 0x75, 0x65];
            assert(word@ =~= word_true());
            if self.consume_literal(word.as_slice()) {
                Some(())
            } else {
                None
            }
        } else if first == 0x66 {
            let word: [u8; 5] = [0x66, 0x61, 0x6c, 0x73, 0x65];
            assert(word@ =~= word_false());
            if self.consume_literal(word.as_slice()) {
                Some(())
            } else {
                None
            }
        } else if first == 0x6e {
            let word: [u8; 4] = [0x6e, 0x75, 0x6c, 0x6c];
            assert(word@ =~= word_null());
            if self.consume_literal(word.as_slice()) {
                Some(())
            } else {
                None
            }
        } else if first == 0x2d || (0x30 <= first && first <= 0x39) {
            self.skip_number()
        } else {
            None
        }
    }

    /// Reads a member's key and the colon behind it.
    fn parse_key(&mut self) -> (key: Option<&'a [u8]>)
        requires
            old(self).wf(),
        ensures
            final(self).same_text(*old(self)),
            ({
                let s = old(self).input@;
                let i = old(self).cursor as int;
                let close = string_at(s, i, old(self).strict);
                let colon = space_end(s, close->0 + 1);
                if old(self).fields < MAX_FIELDS && close is Some && at(s, colon, 0x3a) {
                    &&& key matches Some(raw) && raw@ == s.subrange(i + 1, close->0) && raw@.len()
                        <= s.len()
                    &&& final(self).wf()
                    &&& final(self).cursor == space_end(s, colon + 1)
                    &&& final(self).cursor > old(self).cursor
                    &&& final(self).fields == old(self).fields + 1
                } else {
                    key is None
                }
            }),
    {
        self.record_field()?;
        let key = self.parse_string()?;
        self.skip_whitespace();
        if !self.consume(0x3a) {
            return None;
        }
        self.skip_whitespace();
        Some(key)
    }

    /// Reads what stands between a value and the next: `Some(true)` where the
    /// closing bracket was read, `Some(false)` where a comma was.
    fn parse_separator(&mut self, close: u8) -> (closed: Option<bool>)
        requires
            old(self).wf(),
        ensures
            final(self).same_text(*old(self)),
            ({
                let s = old(self).input@;
                let next = space_end(s, old(self).cursor as int);
                match closed {
                    Some(true) => {
                        &&& at(s, next, close)
                        &&& final(self).cursor == next + 1
                    },
                    Some(false) => {
                        &&& !at(s, next, close)
                        &&& at(s, next, 0x2c)
                        &&& final(self).cursor == space_end(s, next + 1)
                    },
                    None => !at(s, next, close) && !at(s, next, 0x2c),
                }
            }),
            closed is Some ==> final(self).wf() && final(self).fields == old(self).fields
                && final(self).cursor > old(self).cursor,
    {
        self.skip_whitespace();
        if self.consume(close) {
            return Some(true);
        }
        if !self.consume(0x2c) {
            return None;
        }
        self.skip_whitespace();
        Some(false)
    }

    fn skip_object(&mut self, depth: usize) -> (done: Option<()>)
        requires
            old(self).wf(),
            1 <= depth <= MAX_DEPTH + 1,
            at(old(self).input@, old(self).cursor as int, 0x7b),
        ensures
            final(self).same_text(*old(self)),
            match object_at(
                old(self).input@,
                old(self).cursor as int,
                depth as nat,
                old(self).fields as nat,
                old(self).strict,
            ) {
                None => done is None,
                Some((_, end, count)) => {
                    &&& done is Some
                    &&& final(self).wf()
                    &&& final(self).cursor == end
                    &&& final(self).cursor > old(self).cursor
                    &&& final(self).fields == count
                },
            },
        decreases MAX_DEPTH + 1 - depth, 0nat,
    {
        if depth > MAX_DEPTH {
            return None;
        }
        self.consume(0x7b);
        self.skip_whitespace();
        if self.consume(0x7d) {
            return Some(());
        }
        let ghost whole = members_at(
            self.input@,
            self.cursor as int,
            (depth + 1) as nat,
            self.fields as nat,
            self.strict,
        );
        loop
            invariant
                self.wf(),
                self.same_text(*old(self)),
                self.cursor > old(self).cursor,
                1 <= depth <= MAX_DEPTH,
                ends(whole) == ends(
                    object_at(
                        old(self).input@,
                        old(self).cursor as int,
                        depth as nat,
                        old(self).fields as nat,
                        old(self).strict,
                    ),
                ),
                ends(whole) == ends(
                    members_at(
                        self.input@,
                        self.cursor as int,
                        (depth + 1) as nat,
                        self.fields as nat,
                        self.strict,
                    ),
                ),
            decreases self.input.len() - self.cursor,
        {
            self.parse_key()?;
            self.skip_value(depth + 1)?;
            if self.parse_separator(0x7d)? {
                return Some(());
            }
        }
    }

    fn skip_array(&mut self, depth: usize) -> (done: Option<()>)
        requires
            old(self).wf(),
            1 <= depth <= MAX_DEPTH + 1,
            at(old(self).input@, old(self).cursor as int, 0x5b),
        ensures
            final(self).same_text(*old(self)),
            match array_at(
                old(self).input@,
                old(self).cursor as int,
                depth as nat,
                old(self).fields as nat,
                old(self).strict,
            ) {
                None => done is None,
                Some((end, count)) => {
                    &&& done is Some
                    &&& final(self).wf()
                    &&& final(self).cursor == end
                    &&& final(self).cursor > old(self).cursor
                    &&& final(self).fields == count
                },
            },
        decreases MAX_DEPTH + 1 - depth, 0nat,
    {
        if depth > MAX_DEPTH {
            return None;
        }
        self.consume(0x5b);
        self.skip_whitespace();
        if self.consume(0x5d) {
            return Some(());
        }
        loop
            invariant
                self.wf(),
                self.same_text(*old(self)),
                self.cursor > old(self).cursor,
                1 <= depth <= MAX_DEPTH,
                array_at(
                    old(self).input@,
                    old(self).cursor as int,
                    depth as nat,
                    old(self).fields as nat,
                    old(self).strict,
                ) == elements_at(
                    self.input@,
                    self.cursor as int,
                    (depth + 1) as nat,
                    self.fields as nat,
                    self.strict,
                ),
            decreases self.input.len() - self.cursor,
        {
            self.skip_value(depth + 1)?;
            if self.parse_separator(0x5d)? {
                return Some(());
            }
        }
    }

    fn parse_optional_token(&mut self) -> (token: Option<Option<FailureBodyToken>>)
        requires
            old(self).wf(),
        ensures
            final(self).same_text(*old(self)),
            token == word_value(old(self).input@, old(self).cursor as int, old(self).strict),
            token is Some ==> {
                &&& final(self).wf()
                &&& final(self).fields == old(self).fields
                &&& final(self).cursor > old(self).cursor
                &&& forall|depth: nat|
                    #[trigger] value_end(
                        old(self).input@,
                        old(self).cursor as int,
                        depth,
                        old(self).fields as nat,
                        old(self).strict,
                    ) == Some((final(self).cursor as int, final(self).fields as nat))
            },
    {
        let first = self.peek();
        if let Some(byte) = first {
            if byte == 0x22 {
                let raw = self.parse_string()?;
                return Some(Some(FailureBodyToken::from_json_string(raw)));
            }
        }
        let word: [u8; 4] = [0x6e, 0x75, 0x6c, 0x6c];
        assert(word@ =~= word_null());
        let ghost start = self.cursor as int;
        if self.consume_literal(word.as_slice()) {
            assert(self.input@[start] == self.input@.subrange(start, start + 4)[0]);
            Some(None)
        } else {
            None
        }
    }

    /// Reads one member value of the error object, whose key is `raw`.
    fn parse_error_member(&mut self, raw: &[u8], words: &mut WordsSeen) -> (done: Option<()>)
        requires
            old(self).wf(),
            raw@.len() + 16 <= usize::MAX,
        ensures
            final(self).same_text(*old(self)),
            ({
                let s = old(self).input@;
                let i = old(self).cursor as int;
                let value = value_end(s, i, 3, old(self).fields as nat, old(self).strict);
                let noted = note_member(*old(words), s, i, raw@, old(self).strict);
                if value is Some && noted is Some {
                    &&& done is Some
                    &&& *final(words) == noted->0
                    &&& final(self).wf()
                    &&& final(self).cursor == (value->0).0
                    &&& final(self).cursor > old(self).cursor
                    &&& final(self).fields == (value->0).1
                } else {
                    done is None
                }
            }),
    {
        proof {
            lemma_words();
        }
        if equals_ascii(raw, "type") {
            if words.saw_kind {
                return None;
            }
            words.saw_kind = true;
            words.tokens.kind = self.parse_optional_token()?;
        } else if equals_ascii(raw, "code") {
            if words.saw_code {
                return None;
            }
            words.saw_code = true;
            words.tokens.code = self.parse_optional_token()?;
        } else if self.strict && equals_ascii(raw, "param") {
            if words.saw_param {
                return None;
            }
            words.saw_param = true;
            words.tokens.param = self.parse_optional_token()?;
        } else {
            self.skip_value(3)?;
        }
        Some(())
    }

    /// Reads the value of the `error` member.
    fn parse_error_value(&mut self) -> (tokens: Option<ErrorTokens>)
        requires
            old(self).wf(),
        ensures
            final(self).same_text(*old(self)),
            ({
                let s = old(self).input@;
                let i = old(self).cursor as int;
                let fields = old(self).fields as nat;
                let value = value_end(s, i, 2, fields, old(self).strict);
                let words = error_tokens(s, i, fields, old(self).strict);
                if value is Some && words is Some {
                    &&& tokens == words
                    &&& final(self).wf()
                    &&& final(self).cursor == (value->0).0
                    &&& final(self).cursor > old(self).cursor
                    &&& final(self).fields == (value->0).1
                } else {
                    tokens is None
                }
            }),
    {
        let first = self.peek();
        let is_object = match first {
            Some(byte) => byte == 0x7b,
            None => false,
        };
        if !is_object {
            self.skip_value(2)?;
            return Some(ErrorTokens::none());
        }
        let ghost s = self.input@;
        let ghost strict = self.strict;
        let ghost object = object_at(s, self.cursor as int, 2, self.fields as nat, strict);
        self.consume(0x7b);
        self.skip_whitespace();
        let mut words = WordsSeen {
            tokens: ErrorTokens::none(),
            saw_kind: false,
            saw_code: false,
            saw_param: false,
        };
        let ghost mut seen: Seq<Member> = Seq::empty();
        proof {
            lemma_nothing_noted(s, words, strict);
        }
        if self.consume(0x7d) {
            return Some(words.tokens);
        }
        proof {
            lemma_prepend_nothing(
                members_at(s, self.cursor as int, 3, self.fields as nat, strict),
            );
        }
        loop
            invariant
                self.wf(),
                self.same_text(*old(self)),
                self.cursor > old(self).cursor,
                s == self.input@,
                strict == self.strict,
                at(s, old(self).cursor as int, 0x7b),
                object == object_at(s, old(self).cursor as int, 2, old(self).fields as nat, strict),
                object == prepend(
                    seen,
                    members_at(s, self.cursor as int, 3, self.fields as nat, strict),
                ),
                noted(s, seen, words, strict),
            decreases self.input.len() - self.cursor,
        {
            let ghost start = self.cursor as int;
            let ghost counted = self.fields as nat;
            let raw = self.parse_key()?;
            let ghost member = Member {
                key: start,
                key_close: string_at(s, start, strict)->0,
                value: self.cursor as int,
                fields: self.fields as nat,
            };
            proof {
                lemma_note_member(s, seen, member, words, strict);
                lemma_head(s, start, 3, counted, strict);
                if let Some((list, _, _)) = members_at(s, start, 3, counted, strict) {
                    assert(seen + list =~= seen.push(member) + list.skip(1));
                }
            }
            self.parse_error_member(raw, &mut words)?;
            if self.parse_separator(0x7d)? {
                assert(seen + seq![member] =~= seen.push(member));
                proof {
                    lemma_tokens_noted(s, seen.push(member), words, strict);
                }
                return Some(words.tokens);
            }
            proof {
                lemma_prepend_one(
                    seen,
                    member,
                    members_at(s, self.cursor as int, 3, self.fields as nat, strict),
                );
                seen = seen.push(member);
            }
        }
    }

    fn parse_root_object(&mut self) -> (tokens: Option<ErrorTokens>)
        requires
            old(self).wf(),
        ensures
            final(self).same_text(*old(self)),
            ({
                let s = old(self).input@;
                let object = object_at(
                    s,
                    old(self).cursor as int,
                    1,
                    old(self).fields as nat,
                    old(self).strict,
                );
                let words = root_tokens(s, (object->0).0, old(self).strict);
                if object is Some && words is Some {
                    &&& tokens == words
                    &&& final(self).wf()
                    &&& final(self).cursor == (object->0).1
                } else {
                    tokens is None
                }
            }),
    {
        let ghost s = self.input@;
        let ghost strict = self.strict;
        let ghost object = object_at(s, self.cursor as int, 1, self.fields as nat, strict);
        if !self.consume(0x7b) {
            return None;
        }
        self.skip_whitespace();
        if self.consume(0x7d) {
            proof {
                reveal(Seq::filter);
                assert(called(s, Seq::empty(), "error"@).len() == 0);
            }
            return Some(ErrorTokens::none());
        }
        let mut tokens = ErrorTokens::none();
        let mut saw_error = false;
        let ghost mut seen: Seq<Member> = Seq::empty();
        proof {
            lemma_words();
            lemma_prepend_nothing(
                members_at(s, self.cursor as int, 2, self.fields as nat, strict),
            );
            reveal(Seq::filter);
        }
        loop
            invariant
                self.wf(),
                self.same_text(*old(self)),
                s == self.input@,
                strict == self.strict,
                object == object_at(s, old(self).cursor as int, 1, old(self).fields as nat, strict),
                object == prepend(
                    seen,
                    members_at(s, self.cursor as int, 2, self.fields as nat, strict),
                ),
                is_ascii_chars("error"@),
                called(s, seen, "error"@).len() == if saw_error {
                    1nat
                } else {
                    0
                },
                root_tokens(s, seen, strict) == Some(tokens),
            decreases self.input.len() - self.cursor,
        {
            let ghost start = self.cursor as int;
            let ghost counted = self.fields as nat;
            let raw = self.parse_key()?;
            let ghost member = Member {
                key: start,
                key_close: string_at(s, start, strict)->0,
                value: self.cursor as int,
                fields: self.fields as nat,
            };
            proof {
                lemma_called_push(s, seen, member, "error"@);
                assert(object matches Some((all, _, _)) ==> exists|rest: Seq<Member>|
                    all == #[trigger] (seen.push(member) + rest)) by {
                    lemma_head(s, start, 2, counted, strict);
                    if let Some((list, _, _)) = members_at(s, start, 2, counted, strict) {
                        let rest = list.skip(1);
                        assert(list[0] == member);
                        assert(seen + list =~= seen.push(member) + rest);
                    }
                }
            }
            if equals_ascii(raw, "error") {
                proof {
                    if let Some((all, _, _)) = object {
                        let rest = choose|rest: Seq<Member>|
                            all == #[trigger] (seen.push(member) + rest);
                        lemma_called_add(s, seen.push(member), rest, "error"@);
                    }
                }
                if saw_error {
                    return None;
                }
                saw_error = true;
                tokens = self.parse_error_value()?;
            } else {
                self.skip_value(2)?;
            }
            let closed = self.parse_separator(0x7d)?;
            if closed {
                assert(seen + seq![member] =~= seen.push(member));
                return Some(tokens);
            }
            proof {
                lemma_prepend_one(
                    seen,
                    member,
                    members_at(s, self.cursor as int, 2, self.fields as nat, strict),
                );
                seen = seen.push(member);
            }
        }
    }

    /// The words of a whole text.
    pub fn project(input: &'a [u8], strict: bool) -> (tokens: Option<ErrorTokens>)
        requires
            input@.len() + 16 <= usize::MAX,
        ensures
            tokens == body_tokens(input@, strict),
    {
        let mut scanner = FailureJsonScanner { input, cursor: 0, fields: 0, strict };
        scanner.skip_whitespace();
        let tokens = scanner.parse_root_object()?;
        scanner.skip_whitespace();
        if scanner.cursor == input.len() {
            Some(tokens)
        } else {
            None
        }
    }
}

/// The first of the members from `i` on is the one whose key stands at `i`.
proof fn lemma_head(s: Seq<u8>, i: int, depth: nat, fields: nat, strict: bool)
    ensures
        members_at(s, i, depth, fields, strict) matches Some((list, _, _)) ==> {
            &&& list.len() > 0
            &&& list[0] == (Member {
                key: i,
                key_close: string_at(s, i, strict)->0,
                value: space_end(s, space_end(s, string_at(s, i, strict)->0 + 1) + 1),
                fields: fields + 1,
            })
        },
{
}

// ---------------------------------------------------------------------------
// Spaces behind a text
// ---------------------------------------------------------------------------

pub open spec fn spaces(n: nat) -> Seq<u8> {
    Seq::new(n, |i: int| 0x20u8)
}

/// `padded` is `s` with nothing but spaces behind it.
spec fn pads(s: Seq<u8>, padded: Seq<u8>) -> bool {
    &&& s.len() <= padded.len()
    &&& forall|i: int| 0 <= i < s.len() ==> padded[i] == s[i]
    &&& forall|i: int| s.len() <= i < padded.len() ==> padded[i] == 0x20
}

proof fn lemma_padded_space_end(s: Seq<u8>, padded: Seq<u8>, i: int)
    requires
        pads(s, padded),
        0 <= i <= padded.len(),
    ensures
        space_end(padded, i) == (if i > s.len() || space_end(s, i) == s.len() {
            padded.len() as int
        } else {
            space_end(s, i)
        }),
    decreases padded.len() - i,
{
    lemma_space_end(s, i);
    if i < padded.len() && is_space(padded[i]) {
        lemma_padded_space_end(s, padded, i + 1);
    }
}

proof fn lemma_padded_digits_end(s: Seq<u8>, padded: Seq<u8>, i: int)
    requires
        pads(s, padded),
        0 <= i,
    ensures
        digits_end(padded, i) == digits_end(s, i),
        i <= digits_end(s, i),
        i <= s.len() ==> digits_end(s, i) <= s.len(),
    decreases padded.len() - i,
{
    if i < padded.len() && is_digit(padded[i]) {
        lemma_padded_digits_end(s, padded, i + 1);
    }
}

proof fn lemma_unclosed_in_spaces(s: Seq<u8>, padded: Seq<u8>, i: int, strict: bool)
    requires
        pads(s, padded),
        s.len() <= i,
    ensures
        string_close(padded, i, strict) is None,
    decreases padded.len() - i,
{
    if i < padded.len() {
        lemma_unclosed_in_spaces(s, padded, i + 1, strict);
    }
}

proof fn lemma_padded_quad(s: Seq<u8>, padded: Seq<u8>, i: int)
    requires
        pads(s, padded),
        0 <= i,
    ensures
        hex_quad(padded, i) == hex_quad(s, i),
{
    if i + 4 <= padded.len() && i + 4 > s.len() {
        let k = if i > s.len() {
            i
        } else {
            s.len() as int
        };
        assert(padded[k] == 0x20);
        assert(hex_digit(padded[k]) is None);
        assert(k == i || k == i + 1 || k == i + 2 || k == i + 3);
    }
}

proof fn lemma_padded_string_close(s: Seq<u8>, padded: Seq<u8>, i: int, strict: bool)
    requires
        pads(s, padded),
        0 <= i,
    ensures
        string_close(padded, i, strict) == string_close(s, i, strict),
    decreases padded.len() - i,
{
    if i >= s.len() {
        lemma_unclosed_in_spaces(s, padded, i, strict);
    } else if s[i] == 0x5c {
        lemma_padded_quad(s, padded, i + 2);
        lemma_padded_quad(s, padded, i + 8);
        match escape_len(padded, i, strict) {
            None => {
                assert(escape_len(s, i, strict) is None);
            },
            Some(n) => {
                if i + n <= s.len() {
                    assert(escape_len(s, i, strict) == Some(n));
                    lemma_padded_string_close(s, padded, i + n, strict);
                } else {
                    assert(escape_len(s, i, strict) is None);
                    lemma_unclosed_in_spaces(s, padded, i + n, strict);
                }
            },
        }
    } else if s[i] != 0x22 && s[i] >= 0x20 {
        lemma_padded_string_close(s, padded, i + 1, strict);
    }
}

proof fn lemma_padded_string_at(s: Seq<u8>, padded: Seq<u8>, i: int, strict: bool)
    requires
        pads(s, padded),
        0 <= i,
    ensures
        string_at(padded, i, strict) == string_at(s, i, strict),
        string_at(s, i, strict) matches Some(close) ==> i < close < s.len() && padded.subrange(
            i + 1,
            close,
        ) == s.subrange(i + 1, close),
{
    lemma_padded_string_close(s, padded, i + 1, strict);
    lemma_string_close(s, i + 1, strict);
    if let Some(close) = string_close(s, i + 1, strict) {
        assert(padded.subrange(i + 1, close) =~= s.subrange(i + 1, close));
    }
}

proof fn lemma_padded_number_end(s: Seq<u8>, padded: Seq<u8>, i: int, strict: bool)
    requires
        pads(s, padded),
        0 <= i,
    ensures
        number_end(padded, i, strict) == number_end(s, i, strict),
        number_end(s, i, strict) matches Some(end) ==> end <= s.len(),
{
    let first = if at(s, i, 0x2d) {
        i + 1
    } else {
        i
    };
    lemma_padded_digits_end(s, padded, first + 1);
    if let Some(a) = integer_end(s, first, strict) {
        lemma_padded_digits_end(s, padded, a + 1);
        if let Some(b) = fraction_end(s, a) {
            lemma_padded_digits_end(s, padded, b + 1);
            lemma_padded_digits_end(s, padded, b + 2);
        }
    }
}

proof fn lemma_padded_word(s: Seq<u8>, padded: Seq<u8>, i: int, word: Seq<u8>)
    requires
        pads(s, padded),
        0 <= i,
        word.len() > 0,
        forall|k: int| 0 <= k < word.len() ==> word[k] != 0x20,
    ensures
        word_at(padded, i, word) == word_at(s, i, word),
{
    if i + word.len() <= s.len() {
        assert(padded.subrange(i, i + word.len()) =~= s.subrange(i, i + word.len()));
    } else if i + word.len() <= padded.len() {
        let k = if i > s.len() {
            i
        } else {
            s.len() as int
        };
        assert(padded.subrange(i, i + word.len())[k - i] == padded[k]);
        assert(padded[k] == 0x20);
        assert(word[k - i] != 0x20);
    }
}

/// The keys of members stand in the text.
spec fn keys_within(s: Seq<u8>, members: Seq<Member>) -> bool {
    forall|k: int|
        0 <= k < members.len() ==> 0 <= (#[trigger] members[k]).key < members[k].key_close
            < s.len() && 0 <= members[k].value
}

proof fn lemma_padded_object(
    s: Seq<u8>,
    padded: Seq<u8>,
    i: int,
    depth: nat,
    fields: nat,
    strict: bool,
)
    requires
        pads(s, padded),
        0 <= i,
    ensures
        object_at(padded, i, depth, fields, strict) == object_at(s, i, depth, fields, strict),
        object_at(s, i, depth, fields, strict) matches Some((members, end, _)) ==> end <= s.len()
            && 0 <= end && keys_within(s, members),
    decreases s.len() - i, 2nat,
{
    if at(s, i, 0x7b) {
        lemma_space_end(s, i + 1);
        lemma_padded_space_end(s, padded, i + 1);
        let j = space_end(s, i + 1);
        if j < s.len() {
            lemma_padded_members(s, padded, j, depth + 1, fields, strict);
        } else {
            assert(string_at(s, j, strict) is None);
            assert(string_at(padded, padded.len() as int, strict) is None);
        }
    }
}

proof fn lemma_padded_members(
    s: Seq<u8>,
    padded: Seq<u8>,
    i: int,
    depth: nat,
    fields: nat,
    strict: bool,
)
    requires
        pads(s, padded),
        0 <= i,
    ensures
        members_at(padded, i, depth, fields, strict) == members_at(s, i, depth, fields, strict),
        members_at(s, i, depth, fields, strict) matches Some((members, end, _)) ==> 0 <= end
            <= s.len() && keys_within(s, members),
    decreases s.len() - i, 1nat,
{
    lemma_padded_string_at(s, padded, i, strict);
    if fields < MAX_FIELDS {
        if let Some(close) = string_at(s, i, strict) {
            lemma_space_end(s, close + 1);
            lemma_padded_space_end(s, padded, close + 1);
            let colon = space_end(s, close + 1);
            if at(s, colon, 0x3a) {
                lemma_space_end(s, colon + 1);
                lemma_padded_space_end(s, padded, colon + 1);
                let value = space_end(s, colon + 1);
                let member = Member { key: i, key_close: close, value, fields: fields + 1 };
                if value < s.len() {
                    lemma_padded_value(s, padded, value, depth, fields + 1, strict);
                    if let Some((end, count)) = value_end(s, value, depth, fields + 1, strict) {
                        lemma_space_end(s, end);
                        if end > value {
                            lemma_padded_space_end(s, padded, end);
                            let next = space_end(s, end);
                            if at(s, next, 0x2c) {
                                lemma_space_end(s, next + 1);
                                lemma_padded_space_end(s, padded, next + 1);
                                let rest = space_end(s, next + 1);
                                if rest < s.len() {
                                    lemma_padded_members(s, padded, rest, depth, count, strict);
                                } else {
                                    let tail = padded.len() as int;
                                    assert(string_at(s, rest, strict) is None);
                                    assert(string_at(padded, tail, strict) is None);
                                    assert(members_at(s, rest, depth, count, strict) is None);
                                    assert(members_at(padded, tail, depth, count, strict) is None);
                                }
                            }
                        }
                    }
                } else {
                    assert(value_end(s, value, depth, fields + 1, strict) is None);
                    assert(value_end(padded, padded.len() as int, depth, fields + 1, strict)
                        is None);
                }
            }
        }
    }
}

proof fn lemma_padded_array(
    s: Seq<u8>,
    padded: Seq<u8>,
    i: int,
    depth: nat,
    fields: nat,
    strict: bool,
)
    requires
        pads(s, padded),
        0 <= i,
    ensures
        array_at(padded, i, depth, fields, strict) == array_at(s, i, depth, fields, strict),
        array_at(s, i, depth, fields, strict) matches Some((end, _)) ==> 0 <= end <= s.len(),
    decreases s.len() - i, 2nat,
{
    if at(s, i, 0x5b) {
        lemma_space_end(s, i + 1);
        lemma_padded_space_end(s, padded, i + 1);
        let j = space_end(s, i + 1);
        if j < s.len() {
            lemma_padded_elements(s, padded, j, depth + 1, fields, strict);
        } else {
            assert(value_end(s, j, depth + 1, fields, strict) is None);
            assert(value_end(padded, padded.len() as int, depth + 1, fields, strict) is None);
        }
    }
}

proof fn lemma_padded_elements(
    s: Seq<u8>,
    padded: Seq<u8>,
    i: int,
    depth: nat,
    fields: nat,
    strict: bool,
)
    requires
        pads(s, padded),
        0 <= i,
    ensures
        elements_at(padded, i, depth, fields, strict) == elements_at(s, i, depth, fields, strict),
        elements_at(s, i, depth, fields, strict) matches Some((end, _)) ==> 0 <= end <= s.len(),
    decreases s.len() - i, 4nat,
{
    lemma_padded_value(s, padded, i, depth, fields, strict);
    if let Some((end, count)) = value_end(s, i, depth, fields, strict) {
        lemma_space_end(s, end);
        if end > i {
            lemma_padded_space_end(s, padded, end);
            let next = space_end(s, end);
            if at(s, next, 0x2c) {
                lemma_space_end(s, next + 1);
                lemma_padded_space_end(s, padded, next + 1);
                let rest = space_end(s, next + 1);
                if rest < s.len() {
                    lemma_padded_elements(s, padded, rest, depth, count, strict);
                } else {
                    let tail = padded.len() as int;
                    assert(value_end(s, rest, depth, count, strict) is None);
                    assert(value_end(padded, tail, depth, count, strict) is None);
                    assert(elements_at(s, rest, depth, count, strict) is None);
                    assert(elements_at(padded, tail, depth, count, strict) is None);
                }
            }
        }
    }
}

proof fn lemma_padded_value(
    s: Seq<u8>,
    padded: Seq<u8>,
    i: int,
    depth: nat,
    fields: nat,
    strict: bool,
)
    requires
        pads(s, padded),
        0 <= i,
    ensures
        value_end(padded, i, depth, fields, strict) == value_end(s, i, depth, fields, strict),
        value_end(s, i, depth, fields, strict) matches Some((end, _)) ==> end <= s.len(),
    decreases s.len() - i, 3nat,
{
    if i < s.len() {
        if s[i] == 0x7b {
            lemma_padded_object(s, padded, i, depth, fields, strict);
        } else if s[i] == 0x5b {
            lemma_padded_array(s, padded, i, depth, fields, strict);
        } else {
            lemma_padded_string_at(s, padded, i, strict);
            lemma_padded_number_end(s, padded, i, strict);
            lemma_padded_word(s, padded, i, word_true());
            lemma_padded_word(s, padded, i, word_false());
            lemma_padded_word(s, padded, i, word_null());
        }
    }
}

proof fn lemma_padded_called(
    s: Seq<u8>,
    padded: Seq<u8>,
    members: Seq<Member>,
    name: Seq<char>,
)
    requires
        pads(s, padded),
        keys_within(s, members),
    ensures
        called(padded, members, name) == called(s, members, name),
        forall|k: int|
            0 <= k < called(s, members, name).len() ==> 0 <= (#[trigger] called(
                s,
                members,
                name,
            )[k]).value,
    decreases members.len(),
{
    reveal(Seq::filter);
    if members.len() > 0 {
        let last = members[members.len() - 1];
        assert(members.last() == last);
        assert(keys_within(s, members.drop_last())) by {
            assert forall|k: int| 0 <= k < members.drop_last().len() implies 0 <= (
            #[trigger] members.drop_last()[k]).key < members.drop_last()[k].key_close < s.len()
                && 0 <= members.drop_last()[k].value by {
                assert(members.drop_last()[k] == members[k]);
            }
        }
        lemma_padded_called(s, padded, members.drop_last(), name);
        assert(padded.subrange(last.key + 1, last.key_close) =~= s.subrange(
            last.key + 1,
            last.key_close,
        ));
        assert(has_name(padded, last, name) == has_name(s, last, name));
    }
}

#[verifier::rlimit(60)]
proof fn lemma_padded_word_under(
    s: Seq<u8>,
    padded: Seq<u8>,
    members: Seq<Member>,
    name: Seq<char>,
    strict: bool,
)
    requires
        pads(s, padded),
        keys_within(s, members),
    ensures
        word_under(padded, members, name, strict) == word_under(s, members, name, strict),
{
    lemma_padded_called(s, padded, members, name);
    let hits = called(s, members, name);
    if hits.len() == 1 {
        lemma_padded_string_at(s, padded, hits[0].value, strict);
        lemma_padded_word(s, padded, hits[0].value, word_null());
    }
}

/// Spaces behind an error body change nothing of what it says.
pub proof fn law_spaces_behind_a_body(s: Seq<u8>, n: nat, strict: bool)
    ensures
        body_tokens(s + spaces(n), strict) == body_tokens(s, strict),
{
    let padded = s + spaces(n);
    assert(pads(s, padded));
    lemma_space_end(s, 0);
    lemma_padded_space_end(s, padded, 0);
    let start = space_end(s, 0);
    if start < s.len() {
        lemma_padded_object(s, padded, start, 1, 0, strict);
        if let Some((members, end, _)) = object_at(s, start, 1, 0, strict) {
            lemma_space_end(s, end);
            lemma_padded_space_end(s, padded, end);
            lemma_padded_called(s, padded, members, "error"@);
            let hits = called(s, members, "error"@);
            if hits.len() == 1 {
                lemma_padded_object(s, padded, hits[0].value, 2, hits[0].fields, strict);
                if let Some((inner, _, _)) = object_at(
                    s,
                    hits[0].value,
                    2,
                    hits[0].fields,
                    strict,
                ) {
                    lemma_padded_word_under(s, padded, inner, "type"@, strict);
                    lemma_padded_word_under(s, padded, inner, "code"@, strict);
                    lemma_padded_word_under(s, padded, inner, "param"@, strict);
                }
            }
        }
    }
}

} // verus!
