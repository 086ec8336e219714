//! What holds of every text.

use vstd::prelude::*;

use crate::text::{
    before, byte_is_alphanumeric, bytes_eq, char_is_white, char_of_nibble, char_to_lower,
    chars_contain, chars_find, chars_split_by, chars_split_once, chars_words, decimal, digit_char,
    eq_ignoring_case, find_from, found_at, hex_char, hex_fixed, hex_plain, is_digit_char, is_number,
    is_white, join, lemma_find_char, lemma_find_from, lemma_word_len, lower, lower_chars, lowered,
    number_of, parse_number, show_optional_number, show_truth, split_by, split_once,
    starts_with_bytes, text_before, text_is_blank, to_decimal, to_hex, to_hex_fixed, to_hex_plain,
    trim, trim_chars, trim_end, trim_start, trimmed, views, word_len, words_of,
};

verus! {

/// What stands before the first mark is the text up to it; a text without the mark
/// stands before it whole.
pub proof fn law_before_a_mark(head: Seq<char>, mark: char, rest: Seq<char>)
    requires
        !head.contains(mark),
    ensures
        before(head.push(mark) + rest, mark) == head,
        before(head, mark) == head,
    decreases head.len(),
{
    let text = head.push(mark) + rest;
    if head.len() == 0 {
        assert(text[0] == mark);
        assert(head =~= Seq::empty());
    } else {
        let tail = head.skip(1);
        assert forall|i: int| 0 <= i < tail.len() implies tail[i] != mark by {
            assert(head[i + 1] == tail[i]);
        }
        law_before_a_mark(tail, mark, rest);
        assert(head.contains(head[0]));
        assert(text.skip(1) =~= tail.push(mark) + rest);
        assert(seq![head[0]] + tail =~= head);
    }
}

/// A text is cut at the first mark, and kept whole where there is none.
pub proof fn law_text_is_cut_at_the_mark(
    text: &str,
    mark: char,
    cut: &str,
    head: Seq<char>,
    rest: Seq<char>,
)
    requires
        call_ensures(text_before, (text, mark), cut),
        !head.contains(mark),
    ensures
        text@ == head ==> cut@ == head,
        text@ == head.push(mark) + rest ==> cut@ == head,
{
    law_before_a_mark(head, mark, rest);
}

/// The six characters of white space in ASCII, and those beyond.
pub proof fn law_white_space(c: char, white: bool)
    requires
        call_ensures(char_is_white, (c,), white),
    ensures
        (c as u32) < 128 ==> (white <==> c == ' ' || c == '\t' || c == '\n' || c == '\r' || c
            == '\u{0b}' || c == '\u{0c}'),
        (c as u32) >= 128 ==> (white <==> c == '\u{85}' || c == '\u{a0}' || c == '\u{1680}'
            || '\u{2000}' <= c <= '\u{200a}' || c == '\u{2028}' || c == '\u{2029}' || c
            == '\u{202f}' || c == '\u{205f}' || c == '\u{3000}'),
        white == is_white(c),
{
}

/// The case of a character of `A` to `Z` is changed to the letter that stands at the same
/// place in `a` to `z`; every other character stays.
pub proof fn law_lower_case(c: char, low: char)
    requires
        call_ensures(char_to_lower, (c,), low),
    ensures
        'A' <= c <= 'Z' ==> low as u32 == c as u32 + 32 && 'a' <= low <= 'z',
        !('A' <= c <= 'Z') ==> low == c,
        low == lower(c),
        !('A' <= low <= 'Z'),
{
}

/// A lowered text is as long, character for character the lower case, and lowering it
/// again changes nothing.
pub proof fn law_lowered_text(text: &Vec<char>, low: Vec<char>, i: int)
    requires
        call_ensures(lower_chars, (text,), low),
    ensures
        low@.len() == text@.len(),
        low@ == lowered(text@),
        lowered(low@) == low@,
        0 <= i < text@.len() ==> low@[i] == (if 'A' <= text@[i] <= 'Z' {
            (text@[i] as u32 + 32) as u32 as char
        } else {
            text@[i]
        }),
{
    assert(lowered(low@) =~= low@);
}

/// Two texts are the same but for case where they are as long and differ nowhere but
/// in the case of a letter.
pub proof fn law_same_but_for_case(a: &str, b: &str, same: bool)
    requires
        call_ensures(eq_ignoring_case, (a, b), same),
    ensures
        a@ == b@ ==> same,
        same <==> a@.len() == b@.len() && forall|i: int|
            0 <= i < a@.len() ==> (#[trigger] a@[i] == b@[i] || a@[i] as u32 + 32 == b@[i] as u32
                && 'A' <= a@[i] <= 'Z' || b@[i] as u32 + 32 == a@[i] as u32 && 'A' <= b@[i] <= 'Z'),
{
    let x = lowered(a@);
    let y = lowered(b@);
    if same {
        assert(x.len() == y.len());
        assert forall|i: int| 0 <= i < a@.len() implies (#[trigger] a@[i] == b@[i] || a@[i] as u32
            + 32 == b@[i] as u32 && 'A' <= a@[i] <= 'Z' || b@[i] as u32 + 32 == a@[i] as u32 && 'A'
            <= b@[i] <= 'Z') by {
            assert(x[i] == y[i]);
        }
    }
    if a@.len() == b@.len() && forall|i: int|
        0 <= i < a@.len() ==> (#[trigger] a@[i] == b@[i] || a@[i] as u32 + 32 == b@[i] as u32
            && 'A' <= a@[i] <= 'Z' || b@[i] as u32 + 32 == a@[i] as u32 && 'A' <= b@[i] <= 'Z') {
        assert forall|i: int| 0 <= i < x.len() implies x[i] == y[i] by {
            assert(a@[i] == b@[i] || a@[i] as u32 + 32 == b@[i] as u32 && 'A' <= a@[i] <= 'Z'
                || b@[i] as u32 + 32 == a@[i] as u32 && 'A' <= b@[i] <= 'Z');
        }
        assert(x =~= y);
    }
}

proof fn lemma_trimmed_start(space: Seq<char>, rest: Seq<char>)
    requires
        forall|i: int| 0 <= i < space.len() ==> is_white(#[trigger] space[i]),
        rest.len() == 0 || !is_white(rest[0]),
    ensures
        trim_start(space + rest) == rest,
    decreases space.len(),
{
    let text = space + rest;
    if space.len() == 0 {
        assert(text =~= rest);
    } else {
        assert(text[0] == space[0]);
        assert(text.skip(1) =~= space.skip(1) + rest);
        lemma_trimmed_start(space.skip(1), rest);
    }
}

proof fn lemma_trimmed_end(rest: Seq<char>, space: Seq<char>)
    requires
        forall|i: int| 0 <= i < space.len() ==> is_white(#[trigger] space[i]),
        rest.len() == 0 || !is_white(rest.last()),
    ensures
        trim_end(rest + space) == rest,
    decreases space.len(),
{
    let text = rest + space;
    if space.len() == 0 {
        assert(text =~= rest);
    } else {
        assert(text.last() == space.last());
        assert(text.drop_last() =~= rest + space.drop_last());
        lemma_trimmed_end(rest, space.drop_last());
    }
}

/// White space on both sides of a text goes, and nothing else; a text of nothing else
/// becomes empty.
pub proof fn law_trimmed(left: Seq<char>, inner: Seq<char>, right: Seq<char>)
    requires
        forall|i: int| 0 <= i < left.len() ==> is_white(#[trigger] left[i]),
        forall|i: int| 0 <= i < right.len() ==> is_white(#[trigger] right[i]),
        inner.len() > 0 ==> !is_white(inner[0]) && !is_white(inner.last()),
    ensures
        trimmed(left + inner + right) == inner,
{
    let text = left + inner + right;
    if inner.len() > 0 {
        assert(text =~= left + (inner + right));
        assert((inner + right)[0] == inner[0]);
        lemma_trimmed_start(left, inner + right);
        lemma_trimmed_end(inner, right);
    } else {
        assert(text =~= (left + right) + Seq::<char>::empty());
        assert forall|i: int| 0 <= i < (left + right).len() implies is_white(
            #[trigger] (left + right)[i],
        ) by {
            if i < left.len() {
                assert((left + right)[i] == left[i]);
            } else {
                assert((left + right)[i] == right[i - left.len()]);
            }
        }
        lemma_trimmed_start(left + right, Seq::<char>::empty());
        assert(inner =~= Seq::<char>::empty());
    }
}

/// Both forms of the operation take white space away on both sides, and nothing else.
pub proof fn law_text_is_trimmed(
    text: &str,
    chars: &Vec<char>,
    cut: String,
    cut_chars: Vec<char>,
    left: Seq<char>,
    inner: Seq<char>,
    right: Seq<char>,
)
    requires
        call_ensures(trim, (text,), cut),
        call_ensures(trim_chars, (chars,), cut_chars),
        text@ == left + inner + right,
        chars@ == text@,
        forall|i: int| 0 <= i < left.len() ==> is_white(#[trigger] left[i]),
        forall|i: int| 0 <= i < right.len() ==> is_white(#[trigger] right[i]),
        inner.len() > 0 ==> !is_white(inner[0]) && !is_white(inner.last()),
    ensures
        cut@ == inner,
        cut_chars@ == inner,
{
    law_trimmed(left, inner, right);
}

/// A text is blank where it holds nothing but white space.
pub proof fn law_blank_text(text: &str, blank: bool, c: char, i: int)
    requires
        call_ensures(text_is_blank, (text,), blank),
    ensures
        text@.len() == 0 ==> blank,
        blank && 0 <= i < text@.len() ==> is_white(text@[i]),
        !blank ==> exists|k: int| 0 <= k < text@.len() && !is_white(#[trigger] text@[k]),
{
}

/// A text is split at its first mark, and not where it has none.
pub proof fn law_split_once(head: Seq<char>, mark: char, rest: Seq<char>)
    requires
        !head.contains(mark),
    ensures
        split_once(head.push(mark) + rest, mark) == Some((head, rest)),
        split_once(head, mark) is None,
{
    let text = head.push(mark) + rest;
    lemma_find_char(text, mark, 0);
    lemma_find_char(head, mark, 0);
    let n = head.len() as int;
    assert(text[n] == mark);
    assert forall|k: int| 0 <= k < n implies text[k] != mark by {
        assert(text[k] == head[k]);
        assert(head.contains(head[k]));
    }
    assert(text.take(n) =~= head);
    assert(text.skip(n + 1) =~= rest);
    assert forall|k: int| 0 <= k < n implies head[k] != mark by {
        assert(head.contains(head[k]));
    }
}

/// The operation splits a text at its first mark.
pub proof fn law_text_is_split_once(
    text: &Vec<char>,
    mark: char,
    parts: Option<(Vec<char>, Vec<char>)>,
    head: Seq<char>,
    rest: Seq<char>,
)
    requires
        call_ensures(chars_split_once, (text, mark), parts),
        !head.contains(mark),
    ensures
        text@ == head ==> parts is None,
        text@ == head.push(mark) + rest ==> (parts matches Some((left, right)) && left@ == head
            && right@ == rest),
{
    law_split_once(head, mark, rest);
}

/// A text is split at its first separator and then what follows is; where there is
/// none, the text is the one part.
pub proof fn law_split_by(text: Seq<char>, head: Seq<char>, separator: Seq<char>, rest: Seq<char>)
    requires
        separator.len() > 0,
        text == head + separator + rest,
        forall|k: int| 0 <= k < head.len() ==> !found_at(text, separator, k),
    ensures
        split_by(text, separator) == seq![head] + split_by(rest, separator),
{
    lemma_find_from(text, separator, 0);
    let n = head.len() as int;
    assert(text.subrange(n, n + separator.len()) =~= separator);
    assert(found_at(text, separator, n));
    assert(text.take(n) =~= head);
    assert(text.skip(n + separator.len()) =~= rest);
}

pub proof fn law_split_by_absent(text: Seq<char>, separator: Seq<char>)
    requires
        forall|k: int| !found_at(text, separator, k),
    ensures
        split_by(text, separator) == seq![text],
{
    lemma_find_from(text, separator, 0);
}

/// The operation splits a text at every separator, from the left.
pub proof fn law_text_is_split(
    text: &Vec<char>,
    separator: &Vec<char>,
    head: Seq<char>,
    rest: &Vec<char>,
    parts: Vec<Vec<char>>,
    parts_of_rest: Vec<Vec<char>>,
    i: int,
)
    requires
        call_ensures(chars_split_by, (text, separator), parts),
        call_ensures(chars_split_by, (rest, separator), parts_of_rest),
        separator@.len() > 0,
    ensures
        (forall|k: int| !found_at(text@, separator@, k)) ==> parts@.len() == 1 && parts@[0]@
            == text@,
        text@ == head + separator@ + rest@ && (forall|k: int|
            0 <= k < head.len() ==> !found_at(text@, separator@, k)) ==> {
            &&& parts@.len() == 1 + parts_of_rest@.len()
            &&& parts@[0]@ == head
            &&& 0 <= i < parts_of_rest@.len() ==> parts@[i + 1]@ == parts_of_rest@[i]@
        },
{
    assert(views(parts@).len() == parts@.len());
    assert(views(parts_of_rest@).len() == parts_of_rest@.len());
    if forall|k: int| !found_at(text@, separator@, k) {
        law_split_by_absent(text@, separator@);
        assert(views(parts@)[0] == parts@[0]@);
    }
    if text@ == head + separator@ + rest@ && (forall|k: int|
        0 <= k < head.len() ==> !found_at(text@, separator@, k)) {
        law_split_by(text@, head, separator@, rest@);
        assert(views(parts@)[0] == parts@[0]@);
        if 0 <= i < parts_of_rest@.len() {
            assert(views(parts@)[i + 1] == parts@[i + 1]@);
            assert(views(parts_of_rest@)[i] == parts_of_rest@[i]@);
        }
    }
}

proof fn lemma_word(word: Seq<char>, rest: Seq<char>)
    requires
        forall|i: int| 0 <= i < word.len() ==> !is_white(#[trigger] word[i]),
        rest.len() == 0 || is_white(rest[0]),
    ensures
        word_len(word + rest) == word.len(),
    decreases word.len(),
{
    let text = word + rest;
    if word.len() == 0 {
        assert(text =~= rest);
    } else {
        assert(text[0] == word[0]);
        assert(text.skip(1) =~= word.skip(1) + rest);
        lemma_word(word.skip(1), rest);
    }
}

/// The words of a text are its runs without white space: space before a text changes
/// nothing, a run is a word, and an empty text has none.
pub proof fn law_words(space: char, word: Seq<char>, rest: Seq<char>)
    requires
        is_white(space),
        word.len() > 0,
        forall|i: int| 0 <= i < word.len() ==> !is_white(#[trigger] word[i]),
        rest.len() == 0 || is_white(rest[0]),
    ensures
        words_of(Seq::<char>::empty()).len() == 0,
        words_of(seq![space] + rest) == words_of(rest),
        words_of(word + rest) == seq![word] + words_of(rest),
{
    assert((seq![space] + rest).skip(1) =~= rest);
    lemma_word(word, rest);
    let text = word + rest;
    assert(text[0] == word[0]);
    assert(text.take(word.len() as int) =~= word);
    assert(text.skip(word.len() as int) =~= rest);
}

/// The operation gives those words.
pub proof fn law_text_has_words(
    text: &Vec<char>,
    word: Seq<char>,
    rest: &Vec<char>,
    words: Vec<Vec<char>>,
    words_of_rest: Vec<Vec<char>>,
    i: int,
)
    requires
        call_ensures(chars_words, (text,), words),
        call_ensures(chars_words, (rest,), words_of_rest),
        text@ == word + rest@,
        word.len() > 0,
        forall|i: int| 0 <= i < word.len() ==> !is_white(#[trigger] word[i]),
        rest@.len() == 0 || is_white(rest@[0]),
    ensures
        words@.len() == 1 + words_of_rest@.len(),
        words@[0]@ == word,
        0 <= i < words_of_rest@.len() ==> words@[i + 1]@ == words_of_rest@[i]@,
        rest@.len() == 0 ==> words_of_rest@.len() == 0,
{
    law_words(' ', word, rest@);
    assert(views(words@).len() == words@.len());
    assert(views(words_of_rest@).len() == words_of_rest@.len());
    assert(views(words@)[0] == words@[0]@);
    if 0 <= i < words_of_rest@.len() {
        assert(views(words@)[i + 1] == words@[i + 1]@);
        assert(views(words_of_rest@)[i] == words_of_rest@[i]@);
    }
}

/// A needle is found at the first place where the text reads as it does, and nowhere
/// where it never does.
pub proof fn law_first_place(
    text: &Vec<char>,
    needle: &Vec<char>,
    from: usize,
    place: Option<usize>,
    held: bool,
    k: int,
)
    requires
        call_ensures(chars_find, (text, needle, from), place),
        call_ensures(chars_contain, (text, needle), held),
    ensures
        place matches Some(i) ==> from <= i && i + needle@.len() <= text@.len() && text@.subrange(
            i as int,
            i + needle@.len(),
        ) == needle@,
        from <= k && k + needle@.len() <= text@.len() && text@.subrange(k, k + needle@.len())
            == needle@ ==> (place matches Some(i) && i <= k),
        0 <= k && k + needle@.len() <= text@.len() && text@.subrange(k, k + needle@.len())
            == needle@ ==> held,
        held ==> exists|i: int| 0 <= i && i + needle@.len() <= text@.len() && #[trigger]
            text@.subrange(i, i + needle@.len()) == needle@,
{
    lemma_find_from(text@, needle@, from as int);
    if from <= k && k + needle@.len() <= text@.len() && text@.subrange(k, k + needle@.len())
        == needle@ {
        assert(found_at(text@, needle@, k));
    }
    if 0 <= k && k + needle@.len() <= text@.len() && text@.subrange(k, k + needle@.len())
        == needle@ {
        assert(found_at(text@, needle@, k));
    }
    if held {
        let i = choose|i: int| found_at(text@, needle@, i);
        assert(text@.subrange(i, i + needle@.len()) == needle@);
    }
}

/// Bytes are the same where they are as many and each is the same; bytes start with
/// others where those stand at their front.
pub proof fn law_same_bytes(a: &[u8], b: &[u8], rest: Seq<u8>, same: bool, starts: bool)
    requires
        call_ensures(bytes_eq, (a, b), same),
        call_ensures(starts_with_bytes, (a, b), starts),
    ensures
        same <==> a@ == b@,
        a@ == b@ + rest ==> starts,
        starts ==> a@ == b@ + a@.skip(b@.len() as int),
{
    if a@ == b@ + rest {
        assert(a@.subrange(0, b@.len() as int) =~= b@);
    }
    if starts {
        assert(a@ =~= a@.subrange(0, b@.len() as int) + a@.skip(b@.len() as int));
    }
}

/// Letters and digits of ASCII.
pub proof fn law_alphanumeric_bytes(byte: u8, yes: bool)
    requires
        call_ensures(byte_is_alphanumeric, (byte,), yes),
    ensures
        yes <==> '0' as u32 <= byte <= '9' as u32 || 'A' as u32 <= byte <= 'Z' as u32 || 'a' as u32
            <= byte <= 'z' as u32,
{
}

/// One text behind the other.
pub proof fn law_joined(a: &str, b: &str, text: String)
    requires
        call_ensures(join, (a, b), text),
    ensures
        text@ == a@ + b@,
{
}

/// The ten digits.
pub proof fn law_digits()
    ensures
        digit_char(0) == '0',
        digit_char(1) == '1',
        digit_char(2) == '2',
        digit_char(3) == '3',
        digit_char(4) == '4',
        digit_char(5) == '5',
        digit_char(6) == '6',
        digit_char(7) == '7',
        digit_char(8) == '8',
        digit_char(9) == '9',
{
}

/// A number in decimal reads back as the number, is made of digits and starts with no
/// zero but where it is nought.
pub proof fn law_decimal_reads_back(n: nat)
    ensures
        decimal(n).len() > 0,
        is_number(decimal(n)),
        number_of(decimal(n)) == n,
        n > 0 ==> decimal(n)[0] != '0',
        n == 0 ==> decimal(n) == seq!['0'],
        n >= 10 ==> decimal(n) == decimal(n / 10).push(digit_char(n % 10)),
    decreases n,
{
    if n >= 10 {
        law_decimal_reads_back(n / 10);
        let text = decimal(n);
        assert(text.drop_last() =~= decimal(n / 10));
        let d = (n % 10) as u32;
        assert(digit_char(n % 10) as u32 == 48 + d);
        assert forall|i: int| 0 <= i < text.len() implies is_digit_char(#[trigger] text[i]) by {
            if i < text.len() - 1 {
                assert(text[i] == decimal(n / 10)[i]);
            }
        }
        assert(text[0] == decimal(n / 10)[0]);
    } else {
        let d = n as u32;
        assert(digit_char(n) as u32 == 48 + d);
        let text = decimal(n);
        assert(text.drop_last() =~= Seq::<char>::empty());
        assert(number_of(text.drop_last()) == 0);
    }
}

/// A number of three digits has these.
pub proof fn law_three_digits(n: nat)
    requires
        100 <= n <= 999,
    ensures
        decimal(n) == seq![digit_char(n / 100), digit_char(n / 10 % 10), digit_char(n % 10)],
{
    assert(n / 10 / 10 == n / 100);
    assert(decimal(n / 100) =~= seq![digit_char(n / 100)]);
    assert(decimal(n / 10) =~= decimal(n / 100).push(digit_char(n / 10 % 10)));
    assert(decimal(n) =~= decimal(n / 10).push(digit_char(n % 10)));
}

/// A number that is written is read back.
pub proof fn law_numbers_are_read_back(
    n: u64,
    text: String,
    read_text: &str,
    number: Option<u64>,
)
    requires
        call_ensures(to_decimal, (n,), text),
        read_text@ == text@,
        call_ensures(parse_number, (read_text,), number),
    ensures
        number == Some(n),
{
    law_decimal_reads_back(n as nat);
}

/// A text that is no number, one of other characters than digits or none at all, is not
/// read; one digit more makes ten times the number and the digit.
pub proof fn law_numbers_are_read(
    text: &str,
    longer: &str,
    digit: char,
    number: Option<u64>,
    next: Option<u64>,
    i: int,
)
    requires
        call_ensures(parse_number, (text,), number),
        call_ensures(parse_number, (longer,), next),
        longer@ == text@.push(digit),
    ensures
        text@.len() == 0 ==> number is None,
        0 <= i < text@.len() && !('0' <= text@[i] <= '9') ==> number is None && next is None,
        !('0' <= digit <= '9') ==> next is None,
        '0' <= digit <= '9' && text@.len() == 0 ==> next == Some((digit as u32 - 48) as u64),
        '0' <= digit <= '9' ==> (number matches Some(n) ==> next == (if 10 * n + (digit as u32 - 48)
            <= u64::MAX {
            Some((10 * n + (digit as u32 - 48)) as u64)
        } else {
            None::<u64>
        })),
{
    assert(longer@.drop_last() =~= text@);
    assert(longer@.last() == digit);
    if text@.len() == 0 {
        assert(number_of(text@) == 0);
    }
    if !('0' <= digit <= '9') {
        assert(!is_digit_char(longer@[text@.len() as int]));
    }
    if 0 <= i < text@.len() && !('0' <= text@[i] <= '9') {
        assert(longer@[i] == text@[i]);
        assert(!is_digit_char(text@[i]));
        assert(!is_digit_char(longer@[i]));
    }
    if '0' <= digit <= '9' && (text@.len() == 0 || number is Some) {
        assert forall|k: int| 0 <= k < longer@.len() implies is_digit_char(
            #[trigger] longer@[k],
        ) by {
            if k < text@.len() {
                assert(longer@[k] == text@[k]);
            }
        }
    }
}

/// The sixteen hexadecimal digits, in lower case.
pub proof fn law_nibbles(d: u8, c: char)
    requires
        d < 16,
        call_ensures(char_of_nibble, (d,), c),
    ensures
        d < 10 ==> c as u32 == '0' as u32 + d,
        d >= 10 ==> c as u32 == 'a' as u32 + d - 10,
{
}

/// Bytes are written with two digits each, the high half first.
pub proof fn law_hex_of_bytes(bytes: &[u8], text: String, i: int)
    requires
        call_ensures(to_hex, (bytes,), text),
    ensures
        text@.len() == 2 * bytes@.len(),
        0 <= i < bytes@.len() ==> text@[2 * i] == hex_char((bytes@[i] / 16) as nat) && text@[2 * i
            + 1] == hex_char((bytes@[i] % 16) as nat),
{
    if 0 <= i < bytes@.len() {
        assert((2 * i) % 2 == 0 && (2 * i) / 2 == i);
        assert((2 * i + 1) % 2 == 1 && (2 * i + 1) / 2 == i);
    }
}

/// A number in hexadecimal ends with its last digit, behind what is left of it.
pub proof fn law_hex_of_numbers(
    n: u64,
    width: usize,
    less: usize,
    fixed: String,
    shorter: String,
    plain: String,
    rest: String,
)
    requires
        width > 0,
        less == width - 1,
        call_ensures(to_hex_fixed, (n, width), fixed),
        call_ensures(to_hex_fixed, ((n / 16) as u64, less), shorter),
        call_ensures(to_hex_plain, (n,), plain),
        call_ensures(to_hex_plain, ((n / 16) as u64,), rest),
    ensures
        fixed@ == shorter@.push(hex_char((n % 16) as nat)),
        fixed@.len() == width,
        n < 16 ==> plain@ == seq![hex_char(n as nat)],
        n >= 16 ==> plain@ == rest@.push(hex_char((n % 16) as nat)),
{
    crate::text::lemma_hex_fixed_len(n as nat, width as nat);
}

/// How a developer is shown a number that may be absent, and a truth value.
pub proof fn law_shown_to_developers(
    n: u16,
    some: String,
    none: String,
    yes: &'static str,
    no: &'static str,
)
    requires
        call_ensures(show_optional_number, (Some(n),), some),
        call_ensures(show_optional_number, (None::<u16>,), none),
        call_ensures(show_truth, (true,), yes),
        call_ensures(show_truth, (false,), no),
    ensures
        some@ == "Some("@ + decimal(n as nat) + ")"@,
        none@ == "None"@,
        yes@ == "true"@,
        no@ == "false"@,
{
}

} // verus!
