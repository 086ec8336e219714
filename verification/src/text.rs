//! Comparison, inspection and construction of text and bytes.

use vstd::prelude::*;
use vstd::string::*;
use vstd::utf8::*;

verus! {

// ---------------------------------------------------------------------------
// Bytes
// ---------------------------------------------------------------------------

/// Whether two byte strings are the same.
pub fn bytes_eq(a: &[u8], b: &[u8]) -> (same: bool)
    ensures
        same == (a@ == b@),
{
    a.len() == b.len() && starts_with_bytes(a, b)
}

pub open spec fn has_prefix(s: Seq<u8>, prefix: Seq<u8>) -> bool {
    prefix.len() <= s.len() && s.subrange(0, prefix.len() as int) == prefix
}

pub fn starts_with_bytes(a: &[u8], prefix: &[u8]) -> (yes: bool)
    ensures
        yes == has_prefix(a@, prefix@),
        a@.len() == prefix@.len() ==> yes == (a@ == prefix@),
{
    if a.len() < prefix.len() {
        return false;
    }
    let mut i: usize = 0;
    while i < prefix.len()
        invariant
            i <= prefix@.len() <= a@.len(),
            forall|k: int| 0 <= k < i ==> a@[k] == prefix@[k],
        decreases prefix.len() - i,
    {
        if a[i] != prefix[i] {
            assert(a@.subrange(0, prefix@.len() as int)[i as int] != prefix@[i as int]);
            return false;
        }
        i += 1;
    }
    assert(a@.subrange(0, prefix@.len() as int) =~= prefix@);
    proof {
        if a@.len() == prefix@.len() {
            assert(a@ =~= prefix@);
        }
    }
    true
}

/// Appends `more` to `bytes`.
pub fn append_bytes(bytes: &mut Vec<u8>, more: &[u8])
    ensures
        final(bytes)@ == old(bytes)@ + more@,
{
    bytes.extend_from_slice(more);
    assert(bytes@ =~= old(bytes)@ + more@);
}

/// Calls `std::str::from_utf8`. It accepts exactly the well-formed byte strings and
/// gives the text that they encode.
#[verifier::external_body]
pub(crate) fn utf8_text(bytes: &[u8]) -> (text: Option<&str>)
    ensures
        text is Some <==> valid_utf8(bytes@),
        text matches Some(text) ==> text@ == decode_utf8(bytes@),
{
    std::str::from_utf8(bytes).ok()
}

pub fn bytes_are_utf8(bytes: &[u8]) -> (valid: bool)
    ensures
        valid == valid_utf8(bytes@),
{
    utf8_text(bytes).is_some()
}

/// `[0-9A-Za-z]`.
pub open spec fn is_alphanumeric_byte(byte: u8) -> bool {
    0x30 <= byte <= 0x39 || 0x41 <= byte <= 0x5a || 0x61 <= byte <= 0x7a
}

pub fn byte_is_alphanumeric(byte: u8) -> (yes: bool)
    ensures
        yes == is_alphanumeric_byte(byte),
{
    (0x30 <= byte && byte <= 0x39) || (0x41 <= byte && byte <= 0x5a) || (0x61 <= byte && byte
        <= 0x7a)
}

// ---------------------------------------------------------------------------
// Characters
// ---------------------------------------------------------------------------

/// The Unicode property White_Space.
pub open spec fn is_white(c: char) -> bool {
    let n = c as u32;
    ||| 0x09 <= n <= 0x0d
    ||| n == 0x20
    ||| n == 0x85
    ||| n == 0xa0
    ||| n == 0x1680
    ||| 0x2000 <= n <= 0x200a
    ||| n == 0x2028
    ||| n == 0x2029
    ||| n == 0x202f
    ||| n == 0x205f
    ||| n == 0x3000
}

pub fn char_is_white(c: char) -> (yes: bool)
    ensures
        yes == is_white(c),
{
    let n = c as u32;
    (0x09 <= n && n <= 0x0d) || n == 0x20 || n == 0x85 || n == 0xa0 || n == 0x1680 || (0x2000 <= n
        && n <= 0x200a) || n == 0x2028 || n == 0x2029 || n == 0x202f || n == 0x205f || n == 0x3000
}

/// The ASCII lower case of a character; others stay.
pub open spec fn lower(c: char) -> char {
    if 'A' <= c <= 'Z' {
        ((c as u32 + 32) as u32) as char
    } else {
        c
    }
}

pub open spec fn lowered(text: Seq<char>) -> Seq<char> {
    Seq::new(text.len(), |i: int| lower(text[i]))
}

pub fn char_to_lower(c: char) -> (low: char)
    ensures
        low == lower(c),
{
    match c {
        'A' => 'a',
        'B' => 'b',
        'C' => 'c',
        'D' => 'd',
        'E' => 'e',
        'F' => 'f',
        'G' => 'g',
        'H' => 'h',
        'I' => 'i',
        'J' => 'j',
        'K' => 'k',
        'L' => 'l',
        'M' => 'm',
        'N' => 'n',
        'O' => 'o',
        'P' => 'p',
        'Q' => 'q',
        'R' => 'r',
        'S' => 's',
        'T' => 't',
        'U' => 'u',
        'V' => 'v',
        'W' => 'w',
        'X' => 'x',
        'Y' => 'y',
        'Z' => 'z',
        other => other,
    }
}

/// The characters of a text.
pub fn chars_of(text: &str) -> (chars: Vec<char>)
    ensures
        chars@ == text@,
{
    let mut chars: Vec<char> = Vec::new();
    for c in iter: text.chars()
        invariant
            iter.seq() == text@,
            chars@ == text@.take(iter.index()),
    {
        assert(text@.take(iter.index() + 1) =~= text@.take(iter.index()).push(c));
        chars.push(c);
    }
    assert(text@.take(text@.len() as int) =~= text@);
    chars
}

/// Makes a text of characters with `String::from_iter`.
#[verifier::external_body]
pub(crate) fn text_of(chars: Vec<char>) -> (text: String)
    ensures
        text@ == chars@,
{
    String::from_iter(chars)
}

// ---------------------------------------------------------------------------
// Text
// ---------------------------------------------------------------------------

/// Two texts with the same encoding are the same text.
pub proof fn lemma_encoding_is_injective(a: Seq<char>, b: Seq<char>)
    requires
        encode_utf8(a) == encode_utf8(b),
    ensures
        a == b,
{
    encode_utf8_decode_utf8(a);
    encode_utf8_decode_utf8(b);
}

/// Whether two texts are the same.
pub fn str_eq(a: &str, b: &str) -> (same: bool)
    ensures
        same == (a@ == b@),
{
    let same = bytes_eq(a.as_bytes(), b.as_bytes());
    proof {
        if same {
            lemma_encoding_is_injective(a@, b@);
        }
    }
    same
}

pub open spec fn view_of(text: Option<String>) -> Option<Seq<char>> {
    match text {
        Some(text) => Some(text@),
        None => None,
    }
}

pub open spec fn view_of_str(text: Option<&str>) -> Option<Seq<char>> {
    match text {
        Some(text) => Some(text@),
        None => None,
    }
}

pub fn as_text(text: &Option<String>) -> (borrowed: Option<&str>)
    ensures
        view_of_str(borrowed) == view_of(*text),
{
    match text {
        Some(text) => Some(text.as_str()),
        None => None,
    }
}

/// Whether an optional text is there and is `b`.
pub fn is_text(a: Option<&str>, b: &str) -> (same: bool)
    ensures
        same == (a matches Some(text) && text@ == b@),
{
    match a {
        Some(text) => str_eq(text, b),
        None => false,
    }
}

pub fn chars_eq(a: &[char], b: &[char]) -> (same: bool)
    ensures
        same == (a@ == b@),
{
    if a.len() != b.len() {
        return false;
    }
    let mut i: usize = 0;
    while i < a.len()
        invariant
            i <= a@.len(),
            a@.len() == b@.len(),
            forall|k: int| 0 <= k < i ==> a@[k] == b@[k],
        decreases a.len() - i,
    {
        if a[i] != b[i] {
            return false;
        }
        i += 1;
    }
    assert(a@ =~= b@);
    true
}

pub fn to_lower(text: &str) -> (low: Vec<char>)
    ensures
        low@ == lowered(text@),
{
    lower_chars(&chars_of(text))
}

/// Whether two texts are the same up to the case of ASCII letters.
pub fn eq_ignoring_case(a: &str, b: &str) -> (same: bool)
    ensures
        same == (lowered(a@) == lowered(b@)),
{
    chars_eq(to_lower(a).as_slice(), to_lower(b).as_slice())
}

/// `needle` stands in `text` from `i` on.
pub open spec fn found_at(text: Seq<char>, needle: Seq<char>, i: int) -> bool {
    0 <= i && i + needle.len() <= text.len() && text.subrange(i, i + needle.len()) == needle
}

pub open spec fn contains(text: Seq<char>, needle: Seq<char>) -> bool {
    exists|i: int| found_at(text, needle, i)
}

/// Whether `needle` stands in `text` from `i` on.
pub fn chars_found_at(text: &Vec<char>, needle: &Vec<char>, i: usize) -> (yes: bool)
    ensures
        yes == found_at(text@, needle@, i as int),
{
    if i > text.len() || needle.len() > text.len() - i {
        return false;
    }
    let mut k: usize = 0;
    while k < needle.len()
        invariant
            k <= needle@.len(),
            i + needle@.len() <= text@.len() <= usize::MAX,
            forall|m: int| 0 <= m < k ==> text@[i + m] == needle@[m],
        decreases needle.len() - k,
    {
        if text[i + k] != needle[k] {
            assert(text@.subrange(i as int, i + needle@.len())[k as int] != needle@[k as int]);
            return false;
        }
        k += 1;
    }
    assert(text@.subrange(i as int, i + needle@.len()) =~= needle@);
    true
}

/// The first place from `from` on where `needle` stands in `text`.
pub open spec fn find_from(text: Seq<char>, needle: Seq<char>, from: int) -> Option<int>
    decreases text.len() + 1 - from,
{
    if from < 0 || from > text.len() {
        None
    } else if found_at(text, needle, from) {
        Some(from)
    } else {
        find_from(text, needle, from + 1)
    }
}

pub proof fn lemma_find_from(text: Seq<char>, needle: Seq<char>, from: int)
    requires
        0 <= from,
    ensures
        match find_from(text, needle, from) {
            Some(i) => from <= i && found_at(text, needle, i) && forall|k: int|
                from <= k < i ==> !found_at(text, needle, k),
            None => forall|k: int| from <= k ==> !found_at(text, needle, k),
        },
    decreases text.len() + 1 - from,
{
    if from <= text.len() && !found_at(text, needle, from) {
        lemma_find_from(text, needle, from + 1);
    }
}

pub fn chars_find(text: &Vec<char>, needle: &Vec<char>, from: usize) -> (place: Option<usize>)
    requires
        from <= text@.len(),
    ensures
        match place {
            Some(i) => find_from(text@, needle@, from as int) == Some(i as int) && from <= i
                <= text@.len(),
            None => find_from(text@, needle@, from as int) is None,
        },
{
    let mut i: usize = from;
    while i < text.len()
        invariant
            from <= i <= text@.len(),
            find_from(text@, needle@, from as int) == find_from(text@, needle@, i as int),
        decreases text.len() - i,
    {
        if chars_found_at(text, needle, i) {
            return Some(i);
        }
        i += 1;
    }
    if chars_found_at(text, needle, i) {
        Some(i)
    } else {
        assert(find_from(text@, needle@, i + 1) is None);
        None
    }
}

pub fn chars_contain(text: &Vec<char>, needle: &Vec<char>) -> (yes: bool)
    ensures
        yes == contains(text@, needle@),
{
    let mut i: usize = 0;
    while i < text.len()
        invariant
            i <= text@.len(),
            forall|k: int| 0 <= k < i ==> !found_at(text@, needle@, k),
        decreases text.len() - i,
    {
        if chars_found_at(text, needle, i) {
            return true;
        }
        i += 1;
    }
    let last = chars_found_at(text, needle, i);
    assert forall|k: int| found_at(text@, needle@, k) implies 0 <= k <= i by {}
    last
}

/// A text of nothing but white space.
pub open spec fn is_blank(text: Seq<char>) -> bool {
    forall|i: int| 0 <= i < text.len() ==> is_white(#[trigger] text[i])
}

pub fn text_is_blank(text: &str) -> (blank: bool)
    ensures
        blank == is_blank(text@),
{
    let chars = chars_of(text);
    let mut i: usize = 0;
    while i < chars.len()
        invariant
            i <= chars@.len(),
            chars@ == text@,
            forall|k: int| 0 <= k < i ==> is_white(#[trigger] chars@[k]),
        decreases chars.len() - i,
    {
        if !char_is_white(chars[i]) {
            return false;
        }
        i += 1;
    }
    true
}

/// The text without white space at its start.
pub open spec fn trim_start(text: Seq<char>) -> Seq<char>
    decreases text.len(),
{
    if text.len() > 0 && is_white(text[0]) {
        trim_start(text.skip(1))
    } else {
        text
    }
}

/// The text without white space at its end.
pub open spec fn trim_end(text: Seq<char>) -> Seq<char>
    decreases text.len(),
{
    if text.len() > 0 && is_white(text.last()) {
        trim_end(text.drop_last())
    } else {
        text
    }
}

pub open spec fn trimmed(text: Seq<char>) -> Seq<char> {
    trim_end(trim_start(text))
}

proof fn lemma_trim_start(text: Seq<char>, n: int)
    requires
        0 <= n <= text.len(),
        forall|k: int| 0 <= k < n ==> is_white(#[trigger] text[k]),
        n == text.len() || !is_white(text[n]),
    ensures
        trim_start(text) == text.skip(n),
    decreases n,
{
    if n == 0 {
        assert(text.skip(0) =~= text);
    } else {
        lemma_trim_start(text.skip(1), n - 1);
        assert(text.skip(1).skip(n - 1) =~= text.skip(n));
    }
}

proof fn lemma_trim_end(text: Seq<char>, n: int)
    requires
        0 <= n <= text.len(),
        forall|k: int| n <= k < text.len() ==> is_white(#[trigger] text[k]),
        n == 0 || !is_white(text[n - 1]),
    ensures
        trim_end(text) == text.take(n),
    decreases text.len(),
{
    if n == text.len() {
        assert(text.take(n) =~= text);
    } else {
        lemma_trim_end(text.drop_last(), n);
        assert(text.drop_last().take(n) =~= text.take(n));
    }
}

pub fn trim(text: &str) -> (inner: String)
    ensures
        inner@ == trimmed(text@),
{
    text_of(trim_chars(&chars_of(text)))
}

/// The text up to the first `mark`, or the whole text.
pub open spec fn before(text: Seq<char>, mark: char) -> Seq<char>
    decreases text.len(),
{
    if text.len() == 0 || text[0] == mark {
        Seq::empty()
    } else {
        seq![text[0]] + before(text.skip(1), mark)
    }
}

proof fn lemma_before(text: Seq<char>, mark: char, n: int)
    requires
        0 <= n <= text.len(),
        forall|k: int| 0 <= k < n ==> text[k] != mark,
        n == text.len() || text[n] == mark,
    ensures
        before(text, mark) == text.take(n),
    decreases text.len(),
{
    if n == 0 {
        assert(text.take(0) =~= Seq::empty());
    } else {
        lemma_before(text.skip(1), mark, n - 1);
        assert(seq![text[0]] + text.skip(1).take(n - 1) =~= text.take(n));
    }
}

pub fn text_before<'a>(text: &'a str, mark: char) -> (head: &'a str)
    ensures
        head@ == before(text@, mark),
{
    let chars = chars_of(text);
    let mut n: usize = 0;
    while n < chars.len() && chars[n] != mark
        invariant
            chars@ == text@,
            n <= chars@.len(),
            forall|k: int| 0 <= k < n ==> text@[k] != mark,
        decreases chars.len() - n,
    {
        n += 1;
    }
    proof {
        lemma_before(text@, mark, n as int);
        assert(text@.subrange(0, n as int) =~= text@.take(n as int));
    }
    text.substring_char(0, n)
}

/// The first place of `mark` in `text` from `from` on.
pub open spec fn find_char(text: Seq<char>, mark: char, from: int) -> Option<int>
    decreases text.len() - from,
{
    if from < 0 || from >= text.len() {
        None
    } else if text[from] == mark {
        Some(from)
    } else {
        find_char(text, mark, from + 1)
    }
}

pub proof fn lemma_find_char(text: Seq<char>, mark: char, from: int)
    requires
        0 <= from,
    ensures
        match find_char(text, mark, from) {
            Some(i) => from <= i < text.len() && text[i] == mark && forall|k: int|
                from <= k < i ==> text[k] != mark,
            None => forall|k: int| from <= k < text.len() ==> text[k] != mark,
        },
    decreases text.len() - from,
{
    if from < text.len() && text[from] != mark {
        lemma_find_char(text, mark, from + 1);
    }
}

pub fn char_index(text: &Vec<char>, mark: char) -> (place: Option<usize>)
    ensures
        match place {
            Some(i) => find_char(text@, mark, 0) == Some(i as int) && i < text@.len(),
            None => find_char(text@, mark, 0) is None,
        },
{
    let mut i: usize = 0;
    while i < text.len()
        invariant
            i <= text@.len(),
            find_char(text@, mark, 0) == find_char(text@, mark, i as int),
        decreases text.len() - i,
    {
        if text[i] == mark {
            return Some(i);
        }
        i += 1;
    }
    None
}

/// What stands before and behind the first `mark`, if there is one.
pub open spec fn split_once(text: Seq<char>, mark: char) -> Option<(Seq<char>, Seq<char>)> {
    match find_char(text, mark, 0) {
        Some(i) => Some((text.take(i), text.skip(i + 1))),
        None => None,
    }
}

/// A part of a list of characters.
pub fn part_of(text: &Vec<char>, from: usize, to: usize) -> (part: Vec<char>)
    requires
        from <= to <= text@.len(),
    ensures
        part@ == text@.subrange(from as int, to as int),
{
    let mut part: Vec<char> = Vec::new();
    append_chars(&mut part, text, from, to);
    assert(part@ =~= text@.subrange(from as int, to as int));
    part
}

pub fn chars_split_once(text: &Vec<char>, mark: char) -> (parts: Option<(Vec<char>, Vec<char>)>)
    ensures
        match parts {
            Some((head, tail)) => split_once(text@, mark) == Some((head@, tail@)),
            None => split_once(text@, mark) is None,
        },
{
    proof {
        lemma_find_char(text@, mark, 0);
    }
    match char_index(text, mark) {
        Some(i) => {
            let head = part_of(text, 0, i);
            let count: usize = text.len();
            let tail = part_of(text, i + 1, count);
            assert(head@ =~= text@.take(i as int));
            assert(tail@ =~= text@.skip(i + 1));
            Some((head, tail))
        },
        None => None,
    }
}

pub open spec fn views(list: Seq<Vec<char>>) -> Seq<Seq<char>> {
    Seq::new(list.len(), |i: int| list[i]@)
}

/// The parts of `text` between occurrences of `separator`, from the left.
pub open spec fn split_by(text: Seq<char>, separator: Seq<char>) -> Seq<Seq<char>>
    decreases text.len(),
{
    if separator.len() == 0 {
        seq![text]
    } else {
        match find_from(text, separator, 0) {
            None => seq![text],
            Some(i) => {
                proof {
                    lemma_find_from(text, separator, 0);
                }
                seq![text.take(i)] + split_by(text.skip(i + separator.len()), separator)
            },
        }
    }
}

/// `find_from` on a suffix is `find_from` with a start.
pub proof fn lemma_find_in_suffix(text: Seq<char>, needle: Seq<char>, from: int, k: int)
    requires
        0 <= from <= text.len(),
        0 <= k <= text.len() - from,
    ensures
        match find_from(text.skip(from), needle, k) {
            Some(i) => find_from(text, needle, from + k) == Some(from + i),
            None => find_from(text, needle, from + k) is None,
        },
    decreases text.len() - from - k,
{
    let rest = text.skip(from);
    if k + needle.len() <= rest.len() {
        assert(rest.subrange(k, k + needle.len()) =~= text.subrange(
            from + k,
            from + k + needle.len(),
        ));
    }
    if !found_at(rest, needle, k) {
        if k < rest.len() {
            lemma_find_in_suffix(text, needle, from, k + 1);
        } else {
            assert(find_from(rest, needle, k + 1) is None);
            assert(find_from(text, needle, from + k + 1) is None);
        }
    }
}

pub fn chars_split_by(text: &Vec<char>, separator: &Vec<char>) -> (parts: Vec<Vec<char>>)
    requires
        separator@.len() > 0,
    ensures
        views(parts@) == split_by(text@, separator@),
        parts@.len() > 0,
{
    let mut parts: Vec<Vec<char>> = Vec::new();
    let mut from: usize = 0;
    assert(text@.skip(0) =~= text@);
    assert(views(parts@) + split_by(text@.skip(0), separator@) =~= split_by(text@, separator@));
    loop
        invariant
            separator@.len() > 0,
            from <= text@.len(),
            views(parts@) + split_by(text@.skip(from as int), separator@) == split_by(
                text@,
                separator@,
            ),
        decreases text.len() - from,
    {
        let ghost rest = text@.skip(from as int);
        let ghost before = views(parts@);
        proof {
            lemma_find_in_suffix(text@, separator@, from as int, 0);
            lemma_find_from(rest, separator@, 0);
        }
        match chars_find(text, separator, from) {
            None => {
                let part = part_of(text, from, text.len());
                assert(part@ =~= rest);
                parts.push(part);
                assert(views(parts@) =~= before + seq![rest]);
                return parts;
            },
            Some(i) => {
                let part = part_of(text, from, i);
                let ghost k = i - from;
                assert(part@ =~= rest.take(k));
                parts.push(part);
                assert(rest.skip(k + separator@.len()) =~= text@.skip(i + separator@.len()));
                from = i + separator.len();
                assert(views(parts@) =~= before + seq![rest.take(k)]);
                assert(views(parts@) + split_by(text@.skip(from as int), separator@) =~= before + (
                seq![rest.take(k)] + split_by(text@.skip(from as int), separator@)));
            },
        }
    }
}

/// How many characters at the start of `text` are no white space.
pub open spec fn word_len(text: Seq<char>) -> nat
    decreases text.len(),
{
    if text.len() == 0 || is_white(text[0]) {
        0
    } else {
        1 + word_len(text.skip(1))
    }
}

pub proof fn lemma_word_len(text: Seq<char>)
    ensures
        word_len(text) <= text.len(),
    decreases text.len(),
{
    if text.len() > 0 && !is_white(text[0]) {
        lemma_word_len(text.skip(1));
    }
}

/// The words of `text`: its runs of characters that are no white space.
pub open spec fn words_of(text: Seq<char>) -> Seq<Seq<char>>
    decreases text.len(),
{
    if text.len() == 0 {
        Seq::empty()
    } else if is_white(text[0]) {
        words_of(text.skip(1))
    } else {
        proof {
            lemma_word_len(text);
        }
        let n = word_len(text) as int;
        seq![text.take(n)] + words_of(text.skip(n))
    }
}

pub fn chars_words(text: &Vec<char>) -> (words: Vec<Vec<char>>)
    ensures
        views(words@) == words_of(text@),
{
    let mut words: Vec<Vec<char>> = Vec::new();
    let mut from: usize = 0;
    assert(text@.skip(0) =~= text@);
    assert(views(words@) + words_of(text@.skip(0)) =~= words_of(text@));
    while from < text.len()
        invariant
            from <= text@.len(),
            views(words@) + words_of(text@.skip(from as int)) == words_of(text@),
        decreases text.len() - from,
    {
        let ghost rest = text@.skip(from as int);
        let ghost before = views(words@);
        if char_is_white(text[from]) {
            assert(rest.skip(1) =~= text@.skip(from + 1));
            from += 1;
        } else {
            let mut end: usize = from;
            while end < text.len() && !char_is_white(text[end])
                invariant
                    from <= end <= text@.len(),
                    rest == text@.skip(from as int),
                    word_len(rest) == (end - from) + word_len(text@.skip(end as int)),
                decreases text.len() - end,
            {
                assert(text@.skip(end as int).skip(1) =~= text@.skip(end + 1));
                end += 1;
            }
            assert(word_len(rest) == end - from);
            let word = part_of(text, from, end);
            let ghost n = end - from;
            assert(word@ =~= rest.take(n));
            words.push(word);
            assert(rest.skip(n) =~= text@.skip(end as int));
            assert(views(words@) =~= before + seq![rest.take(n)]);
            assert(views(words@) + words_of(text@.skip(end as int)) =~= before + (seq![rest.take(n)]
                + words_of(rest.skip(n))));
            from = end;
        }
    }
    assert(views(words@) + words_of(text@.skip(from as int)) =~= views(words@));
    words
}

/// `text` starts with `prefix`.
pub open spec fn begins(text: Seq<char>, prefix: Seq<char>) -> bool {
    found_at(text, prefix, 0)
}

pub fn chars_begin(text: &Vec<char>, prefix: &str) -> (yes: bool)
    ensures
        yes == begins(text@, prefix@),
{
    chars_found_at(text, &chars_of(prefix), 0)
}

pub fn chars_are(text: &Vec<char>, wanted: &str) -> (same: bool)
    ensures
        same == (text@ == wanted@),
{
    chars_eq(text.as_slice(), chars_of(wanted).as_slice())
}

pub fn trim_chars(text: &Vec<char>) -> (inner: Vec<char>)
    ensures
        inner@ == trimmed(text@),
{
    let mut start: usize = 0;
    while start < text.len() && char_is_white(text[start])
        invariant
            start <= text@.len(),
            forall|k: int| 0 <= k < start ==> is_white(#[trigger] text@[k]),
        decreases text.len() - start,
    {
        start += 1;
    }
    let mut end: usize = text.len();
    while start < end && char_is_white(text[end - 1])
        invariant
            start <= end <= text@.len(),
            forall|k: int| end <= k < text@.len() ==> is_white(#[trigger] text@[k]),
        decreases end - start,
    {
        end -= 1;
    }
    proof {
        let rest = text@.skip(start as int);
        lemma_trim_start(text@, start as int);
        assert forall|k: int| end - start <= k < rest.len() implies is_white(
            #[trigger] rest[k],
        ) by {
            assert(rest[k] == text@[start + k]);
        }
        lemma_trim_end(rest, end - start);
        assert(rest.take(end - start) =~= text@.subrange(start as int, end as int));
    }
    part_of(text, start, end)
}

pub fn lower_chars(text: &Vec<char>) -> (low: Vec<char>)
    ensures
        low@ == lowered(text@),
{
    let mut low: Vec<char> = Vec::new();
    let mut i: usize = 0;
    while i < text.len()
        invariant
            i <= text@.len(),
            low@.len() == i,
            forall|k: int| 0 <= k < i ==> low@[k] == lower(text@[k]),
        decreases text.len() - i,
    {
        low.push(char_to_lower(text[i]));
        i += 1;
    }
    assert(low@ =~= lowered(text@));
    low
}

/// The text that bytes stand for where what is no UTF-8 is replaced.
pub uninterp spec fn lossy_text(bytes: Seq<u8>) -> Seq<char>;

/// Calls `String::from_utf8_lossy`. It decodes UTF-8 and puts U+FFFD in the place of
/// what is none.
#[verifier::external_body]
pub(crate) fn decode_lossy(bytes: &[u8]) -> (text: String)
    ensures
        text@ == lossy_text(bytes@),
        valid_utf8(bytes@) ==> text@ == decode_utf8(bytes@),
{
    String::from_utf8_lossy(bytes).into_owned()
}

/// Appends `more` to `chars`.
pub fn append_chars(chars: &mut Vec<char>, more: &Vec<char>, from: usize, to: usize)
    requires
        from <= to <= more@.len(),
    ensures
        final(chars)@ == old(chars)@ + more@.subrange(from as int, to as int),
{
    let mut i: usize = from;
    while i < to
        invariant
            from <= i <= to <= more@.len(),
            chars@ =~= old(chars)@ + more@.subrange(from as int, i as int),
        decreases to - i,
    {
        chars.push(more[i]);
        i += 1;
    }
}

/// Joins two texts.
pub fn join(a: &str, b: &str) -> (text: String)
    ensures
        text@ == a@ + b@,
{
    let mut text = a.to_owned();
    text.append(b);
    text
}

// ---------------------------------------------------------------------------
// Numbers
// ---------------------------------------------------------------------------

pub open spec fn is_digit_char(c: char) -> bool {
    '0' <= c <= '9'
}

pub open spec fn is_number(text: Seq<char>) -> bool {
    text.len() > 0 && forall|i: int| 0 <= i < text.len() ==> is_digit_char(#[trigger] text[i])
}

/// The number that decimal digits stand for.
pub open spec fn number_of(text: Seq<char>) -> nat
    decreases text.len(),
{
    if text.len() == 0 {
        0
    } else {
        number_of(text.drop_last()) * 10 + (text.last() as u32 - '0' as u32) as nat
    }
}

proof fn lemma_number_grows(text: Seq<char>, n: int)
    requires
        0 <= n <= text.len(),
        forall|i: int| 0 <= i < text.len() ==> is_digit_char(#[trigger] text[i]),
    ensures
        number_of(text.take(n)) <= number_of(text),
    decreases text.len(),
{
    if n == text.len() {
        assert(text.take(n) =~= text);
    } else {
        lemma_number_grows(text.drop_last(), n);
        assert(text.drop_last().take(n) =~= text.take(n));
    }
}

/// The number that a text of digits stands for, where it fits.
pub fn parse_number(text: &str) -> (number: Option<u64>)
    ensures
        number == if is_number(text@) && number_of(text@) <= u64::MAX {
            Some(number_of(text@) as u64)
        } else {
            None
        },
{
    let chars = chars_of(text);
    if chars.len() == 0 {
        return None;
    }
    let mut k: usize = 0;
    while k < chars.len()
        invariant
            chars@ == text@,
            k <= chars@.len(),
            forall|i: int| 0 <= i < k ==> is_digit_char(#[trigger] text@[i]),
        decreases chars.len() - k,
    {
        if !('0' <= chars[k] && chars[k] <= '9') {
            return None;
        }
        k += 1;
    }
    let mut value: u64 = 0;
    let mut i: usize = 0;
    assert(text@.take(0) =~= Seq::empty());
    while i < chars.len()
        invariant
            chars@ == text@,
            i <= chars@.len(),
            is_number(text@),
            value == number_of(text@.take(i as int)),
        decreases chars.len() - i,
    {
        let digit: u64 = chars[i] as u64 - '0' as u64;
        proof {
            assert(text@.take(i + 1).drop_last() =~= text@.take(i as int));
            lemma_number_grows(text@, i + 1);
        }
        if value > (u64::MAX - digit) / 10 {
            return None;
        }
        value = value * 10 + digit;
        i += 1;
    }
    assert(text@.take(i as int) =~= text@);
    Some(value)
}

pub open spec fn digit_char(d: nat) -> char {
    (('0' as u32 + d) as u32) as char
}

/// A number in decimal.
pub open spec fn decimal(n: nat) -> Seq<char>
    decreases n,
{
    if n < 10 {
        seq![digit_char(n)]
    } else {
        decimal(n / 10).push(digit_char(n % 10))
    }
}

fn char_of_digit(d: u64) -> (c: char)
    requires
        d < 10,
    ensures
        c == digit_char(d as nat),
{
    match d {
        0 => '0',
        1 => '1',
        2 => '2',
        3 => '3',
        4 => '4',
        5 => '5',
        6 => '6',
        7 => '7',
        8 => '8',
        _ => '9',
    }
}

fn decimal_chars(n: u64) -> (chars: Vec<char>)
    ensures
        chars@ == decimal(n as nat),
    decreases n,
{
    if n < 10 {
        let mut chars: Vec<char> = Vec::new();
        chars.push(char_of_digit(n));
        assert(chars@ =~= decimal(n as nat));
        chars
    } else {
        let mut chars = decimal_chars(n / 10);
        chars.push(char_of_digit(n % 10));
        chars
    }
}

pub fn to_decimal(n: u64) -> (text: String)
    ensures
        text@ == decimal(n as nat),
{
    text_of(decimal_chars(n))
}

pub open spec fn hex_char(d: nat) -> char {
    if d < 10 {
        digit_char(d)
    } else {
        (('a' as u32 + (d - 10)) as u32) as char
    }
}

pub fn char_of_nibble(d: u8) -> (c: char)
    requires
        d < 16,
    ensures
        c == hex_char(d as nat),
{
    match d {
        0 => '0',
        1 => '1',
        2 => '2',
        3 => '3',
        4 => '4',
        5 => '5',
        6 => '6',
        7 => '7',
        8 => '8',
        9 => '9',
        10 => 'a',
        11 => 'b',
        12 => 'c',
        13 => 'd',
        14 => 'e',
        _ => 'f',
    }
}

/// Bytes in lower-case hexadecimal, two digits each.
pub open spec fn hex_of(bytes: Seq<u8>) -> Seq<char> {
    Seq::new(
        2 * bytes.len(),
        |i: int|
            hex_char(
                if i % 2 == 0 {
                    (bytes[i / 2] / 16) as nat
                } else {
                    (bytes[i / 2] % 16) as nat
                },
            ),
    )
}

pub fn to_hex(bytes: &[u8]) -> (text: String)
    ensures
        text@ == hex_of(bytes@),
{
    let mut chars: Vec<char> = Vec::new();
    let mut i: usize = 0;
    while i < bytes.len()
        invariant
            i <= bytes@.len(),
            chars@.len() == 2 * i,
            forall|k: int| 0 <= k < 2 * i ==> chars@[k] == hex_of(bytes@)[k],
        decreases bytes.len() - i,
    {
        chars.push(char_of_nibble(bytes[i] / 16));
        chars.push(char_of_nibble(bytes[i] % 16));
        assert((2 * i) / 2 == i && (2 * i) % 2 == 0);
        assert((2 * i + 1) / 2 == i && (2 * i + 1) % 2 == 1);
        i += 1;
    }
    assert(chars@ =~= hex_of(bytes@));
    text_of(chars)
}


/// A number in lower-case hexadecimal, with exactly `width` digits.
pub open spec fn hex_fixed(n: nat, width: nat) -> Seq<char>
    decreases width,
{
    if width == 0 {
        Seq::empty()
    } else {
        hex_fixed(n / 16, (width - 1) as nat).push(hex_char(n % 16))
    }
}

/// A number in lower-case hexadecimal, without leading zeros.
pub open spec fn hex_plain(n: nat) -> Seq<char>
    decreases n,
{
    if n < 16 {
        seq![hex_char(n)]
    } else {
        hex_plain(n / 16).push(hex_char(n % 16))
    }
}

fn hex_fixed_chars(n: u64, width: usize) -> (chars: Vec<char>)
    ensures
        chars@ == hex_fixed(n as nat, width as nat),
    decreases width,
{
    if width == 0 {
        return Vec::new();
    }
    let mut chars = hex_fixed_chars(n / 16, width - 1);
    chars.push(char_of_nibble((n % 16) as u8));
    chars
}

pub fn to_hex_fixed(n: u64, width: usize) -> (text: String)
    ensures
        text@ == hex_fixed(n as nat, width as nat),
{
    text_of(hex_fixed_chars(n, width))
}

fn hex_plain_chars(n: u64) -> (chars: Vec<char>)
    ensures
        chars@ == hex_plain(n as nat),
    decreases n,
{
    if n < 16 {
        let mut chars: Vec<char> = Vec::new();
        chars.push(char_of_nibble(n as u8));
        assert(chars@ =~= hex_plain(n as nat));
        return chars;
    }
    let mut chars = hex_plain_chars(n / 16);
    chars.push(char_of_nibble((n % 16) as u8));
    chars
}

pub fn to_hex_plain(n: u64) -> (text: String)
    ensures
        text@ == hex_plain(n as nat),
{
    text_of(hex_plain_chars(n))
}

proof fn lemma_hex_char_is_injective(a: nat, b: nat)
    requires
        a < 16,
        b < 16,
        hex_char(a) == hex_char(b),
    ensures
        a == b,
{
    assert(hex_char(a) as u32 == (if a < 10 {
        48 + a
    } else {
        87 + a
    }));
    assert(hex_char(b) as u32 == (if b < 10 {
        48 + b
    } else {
        87 + b
    }));
}

pub open spec fn power_of_16(width: nat) -> nat
    decreases width,
{
    if width == 0 {
        1
    } else {
        16 * power_of_16((width - 1) as nat)
    }
}

/// Different numbers of so many digits have different texts.
pub proof fn lemma_hex_fixed_is_injective(a: nat, b: nat, width: nat)
    requires
        a < power_of_16(width),
        b < power_of_16(width),
        hex_fixed(a, width) == hex_fixed(b, width),
    ensures
        a == b,
    decreases width,
{
    if width > 0 {
        let less = (width - 1) as nat;
        let x = hex_fixed(a / 16, less);
        let y = hex_fixed(b / 16, less);
        assert(x.push(hex_char(a % 16)).drop_last() =~= x);
        assert(y.push(hex_char(b % 16)).drop_last() =~= y);
        assert(x.push(hex_char(a % 16)).last() == hex_char(a % 16));
        lemma_hex_char_is_injective(a % 16, b % 16);
        lemma_hex_fixed_is_injective(a / 16, b / 16, less);
    }
}

pub proof fn lemma_hex_fixed_len(n: nat, width: nat)
    ensures
        hex_fixed(n, width).len() == width,
    decreases width,
{
    if width > 0 {
        lemma_hex_fixed_len(n / 16, (width - 1) as nat);
    }
}


/// A lower-case hexadecimal digit.
pub open spec fn is_hex_digit(c: char) -> bool {
    '0' <= c <= '9' || 'a' <= c <= 'f'
}

pub proof fn lemma_hex_char(d: nat)
    requires
        d < 16,
    ensures
        is_hex_digit(hex_char(d)),
{
    assert(hex_char(d) as u32 == (if d < 10 {
        48 + d
    } else {
        87 + d
    }));
}

pub proof fn lemma_hex_fixed_digits(n: nat, width: nat)
    ensures
        hex_fixed(n, width).len() == width,
        forall|i: int| 0 <= i < width ==> is_hex_digit(#[trigger] hex_fixed(n, width)[i]),
    decreases width,
{
    if width > 0 {
        lemma_hex_fixed_digits(n / 16, (width - 1) as nat);
        lemma_hex_char(n % 16);
    }
}

pub proof fn lemma_hex_of_digits(bytes: Seq<u8>)
    ensures
        forall|i: int| 0 <= i < 2 * bytes.len() ==> is_hex_digit(#[trigger] hex_of(bytes)[i]),
{
    assert forall|i: int| 0 <= i < 2 * bytes.len() implies is_hex_digit(
        #[trigger] hex_of(bytes)[i],
    ) by {
        lemma_hex_char((bytes[i / 2] / 16) as nat);
        lemma_hex_char((bytes[i / 2] % 16) as nat);
    }
}

/// A text in quotation marks, as it is shown to a developer.
pub uninterp spec fn quoted_text(text: Seq<char>) -> Seq<char>;

/// Writes a text with the `Debug` form of `str`. The form depends on the text alone.
#[verifier::external_body]
pub(crate) fn quoted(text: &str) -> (shown: String)
    ensures
        shown@ == quoted_text(text@),
{
    format!("{:?}", text)
}

/// How a developer is shown a number that may be absent.
pub open spec fn optional_number_text(number: Option<u16>) -> Seq<char> {
    match number {
        Some(number) => "Some("@ + decimal(number as nat) + ")"@,
        None => "None"@,
    }
}

pub fn show_optional_number(number: Option<u16>) -> (text: String)
    ensures
        text@ == optional_number_text(number),
{
    match number {
        Some(number) => join(join("Some(", to_decimal(number as u64).as_str()).as_str(), ")"),
        None => "None".to_owned(),
    }
}

/// How a developer is shown a truth value.
pub open spec fn truth_text(yes: bool) -> Seq<char> {
    if yes {
        "true"@
    } else {
        "false"@
    }
}

pub fn show_truth(yes: bool) -> (text: &'static str)
    ensures
        text@ == truth_text(yes),
{
    if yes {
        "true"
    } else {
        "false"
    }
}

} // verus!
