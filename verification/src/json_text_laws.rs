//! What holds of every JSON object that is written.

use vstd::prelude::*;

use crate::json_text::{
    bool_text, escaped, escaped_char, is_one_line, json_string_of, member_text, members_text,
    null_json, object_text, signed_decimal, to_signed_decimal, ObjectText,
};
use crate::text::{decimal, view_of};

verus! {

/// A string in quotation marks, with what JSON asks escaped in it.
pub open spec fn in_quotes(text: Seq<char>) -> Seq<char> {
    seq!['"'] + escaped(text) + seq!['"']
}

/// A name, a colon and the text of a value.
pub open spec fn named(name: Seq<char>, value: Seq<char>) -> Seq<char> {
    in_quotes(name) + ":"@ + value
}

/// A text without quotation marks, backslashes and control characters is written as it is.
pub proof fn law_plain_text_is_not_escaped(text: Seq<char>)
    requires
        forall|i: int|
            0 <= i < text.len() ==> #[trigger] text[i] != '"' && text[i] != '\\' && text[i] as nat
                >= 32,
    ensures
        escaped(text) == text,
    decreases text.len(),
{
    if text.len() > 0 {
        law_plain_text_is_not_escaped(text.drop_last());
        let c = text[text.len() - 1];
        assert(text.last() == c);
        assert(c != '"' && c != '\\' && c as nat >= 32);
        assert(escaped_char(c) =~= seq![c]);
        assert(text.drop_last() + seq![text.last()] =~= text);
    } else {
        assert(escaped(text) =~= text);
    }
}

/// Each string is written behind the one before it.
pub proof fn law_strings_are_escaped_in_order(a: Seq<char>, b: Seq<char>)
    ensures
        escaped(a + b) == escaped(a) + escaped(b),
    decreases b.len(),
{
    if b.len() == 0 {
        assert(a + b =~= a);
        assert(escaped(a) + escaped(b) =~= escaped(a));
    } else {
        assert((a + b).drop_last() =~= a + b.drop_last());
        assert((a + b).last() == b.last());
        law_strings_are_escaped_in_order(a, b.drop_last());
        assert(escaped(a) + escaped(b) =~= (escaped(a) + escaped(b.drop_last())) + escaped_char(
            b.last(),
        ));
    }
}

/// The members of an object stand in their order, with a comma between two.
pub proof fn law_members_follow_each_other(
    members: Seq<(Seq<char>, Option<Seq<char>>)>,
    name: Seq<char>,
    value: Seq<char>,
)
    ensures
        members.len() == 0 ==> members_text(members) == Some(Seq::<char>::empty()),
        members.len() == 0 ==> members_text(members.push((name, Some(value)))) == Some(
            named(name, value),
        ),
        members.len() > 0 ==> (members_text(members) matches Some(text) ==> members_text(
            members.push((name, Some(value))),
        ) == Some(text + ","@ + named(name, value))),
        members_text(members.push((name, None))) is None,
        members_text(members) is None ==> members_text(members.push((name, Some(value)))) is None,
{
    let more = members.push((name, Some(value)));
    let less = members.push((name, None::<Seq<char>>));
    assert(more.drop_last() =~= members);
    assert(less.drop_last() =~= members);
    if members.len() == 0 {
        assert(Seq::<char>::empty() + Seq::<char>::empty() + named(name, value) =~= named(
            name,
            value,
        ));
    }
}

/// An object is its members in braces.
pub proof fn law_objects_are_in_braces(object: ObjectText, text: Option<String>)
    requires
        call_ensures(ObjectText::text, (&object,), text),
    ensures
        text is Some <==> members_text(object@) is Some,
        text matches Some(text) ==> text@ == "{"@ + members_text(object@)->0 + "}"@,
        text matches Some(text) ==> is_one_line(text@),
{
}

/// An object of two members.
pub proof fn law_object_of_two(a: Seq<char>, x: Seq<char>, b: Seq<char>, y: Seq<char>)
    ensures
        object_text(seq![(a, Some(x)), (b, Some(y))]) == Some(
            "{"@ + named(a, x) + ","@ + named(b, y) + "}"@,
        ),
{
    let empty = Seq::<(Seq<char>, Option<Seq<char>>)>::empty();
    let one = empty.push((a, Some(x)));
    law_members_follow_each_other(empty, a, x);
    law_members_follow_each_other(one, b, y);
    assert(one.push((b, Some(y))) =~= seq![(a, Some(x)), (b, Some(y))]);
    assert("{"@ + (named(a, x) + ","@ + named(b, y)) + "}"@ =~= "{"@ + named(a, x) + ","@ + named(
        b,
        y,
    ) + "}"@);
}

/// An object of three members.
pub proof fn law_object_of_three(
    a: Seq<char>,
    x: Seq<char>,
    b: Seq<char>,
    y: Seq<char>,
    c: Seq<char>,
    z: Seq<char>,
)
    ensures
        object_text(seq![(a, Some(x)), (b, Some(y)), (c, Some(z))]) == Some(
            "{"@ + named(a, x) + ","@ + named(b, y) + ","@ + named(c, z) + "}"@,
        ),
{
    let empty = Seq::<(Seq<char>, Option<Seq<char>>)>::empty();
    let one = empty.push((a, Some(x)));
    let two = one.push((b, Some(y)));
    law_members_follow_each_other(empty, a, x);
    law_members_follow_each_other(one, b, y);
    law_members_follow_each_other(two, c, z);
    assert(two.push((c, Some(z))) =~= seq![(a, Some(x)), (b, Some(y)), (c, Some(z))]);
    assert("{"@ + (named(a, x) + ","@ + named(b, y) + ","@ + named(c, z)) + "}"@ =~= "{"@ + named(
        a,
        x,
    ) + ","@ + named(b, y) + ","@ + named(c, z) + "}"@);
}

/// A number below nought has a sign before it, and nothing is `null`.
pub proof fn law_signed_numbers(n: i64, text: String, null: String)
    requires
        call_ensures(to_signed_decimal, (n,), text),
        call_ensures(null_json, (), null),
    ensures
        n >= 0 ==> text@ == decimal(n as nat),
        n < 0 ==> text@ == "-"@ + decimal((0 - n) as nat),
        null@ == "null"@,
{
}

/// Truth values as JSON.
pub proof fn law_truth_values()
    ensures
        bool_text(true) == "true"@,
        bool_text(false) == "false"@,
{
}

/// Names and values, with commas between them.
pub open spec fn listing(pairs: Seq<(Seq<char>, Seq<char>)>) -> Seq<char>
    decreases pairs.len(),
{
    if pairs.len() == 0 {
        Seq::empty()
    } else if pairs.len() == 1 {
        named(pairs[0].0, pairs[0].1)
    } else {
        listing(pairs.drop_last()) + ","@ + named(pairs.last().0, pairs.last().1)
    }
}

/// The members of an object, each of which has a text.
pub open spec fn present(pairs: Seq<(Seq<char>, Seq<char>)>) -> Seq<
    (Seq<char>, Option<Seq<char>>),
> {
    Seq::new(pairs.len(), |i: int| (pairs[i].0, Some(pairs[i].1)))
}

/// An object whose members all have a text is the listing of them in braces.
pub proof fn law_objects_are_listings(pairs: Seq<(Seq<char>, Seq<char>)>)
    ensures
        members_text(present(pairs)) == Some(listing(pairs)),
        object_text(present(pairs)) == Some("{"@ + listing(pairs) + "}"@),
    decreases pairs.len(),
{
    if pairs.len() == 0 {
    } else {
        let less = pairs.drop_last();
        law_objects_are_listings(less);
        law_members_follow_each_other(present(less), pairs.last().0, pairs.last().1);
        assert(present(less).push((pairs.last().0, Some(pairs.last().1))) =~= present(pairs));
    }
}

} // verus!
