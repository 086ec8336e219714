//! JSON objects as text, with their members in a chosen order.

use vstd::prelude::*;

use crate::text::{decimal, hex_char, join, lemma_hex_char, to_decimal, view_of};
use vstd::string::*;

verus! {

/// A character inside a JSON string. Quotation marks, backslashes and control characters
/// are escaped; everything else stands for itself.
pub open spec fn escaped_char(c: char) -> Seq<char> {
    if c == '"' || c == '\\' {
        seq!['\\', c]
    } else if c == '\u{8}' {
        seq!['\\', 'b']
    } else if c == '\t' {
        seq!['\\', 't']
    } else if c == '\n' {
        seq!['\\', 'n']
    } else if c == '\u{c}' {
        seq!['\\', 'f']
    } else if c == '\r' {
        seq!['\\', 'r']
    } else if 32 > c as nat {
        seq!['\\', 'u', '0', '0', hex_char(c as nat / 16), hex_char(c as nat % 16)]
    } else {
        seq![c]
    }
}

pub open spec fn escaped(text: Seq<char>) -> Seq<char>
    decreases text.len(),
{
    if text.len() == 0 {
        Seq::empty()
    } else {
        escaped(text.drop_last()) + escaped_char(text.last())
    }
}

/// The JSON text of a string. Every string has one.
pub open spec fn json_string_of(text: Seq<char>) -> Option<Seq<char>> {
    Some(seq!['"'] + escaped(text) + seq!['"'])
}

/// Nothing in `text` ends a line.
pub open spec fn is_one_line(text: Seq<char>) -> bool {
    forall|i: int| 0 <= i < text.len() ==> #[trigger] text[i] != '\n' && text[i] != '\r'
}

/// Calls `serde_json::to_string` on a string. It puts the string in quotation marks and
/// escapes in it what [`escaped_char`] says. Writing to memory does not fail.
#[verifier::external_body]
fn written_string(text: &str) -> (json: Option<String>)
    ensures
        view_of(json) == json_string_of(text@),
{
    serde_json::to_string(text).ok()
}

proof fn lemma_escaped_is_one_line(text: Seq<char>)
    ensures
        is_one_line(escaped(text)),
    decreases text.len(),
{
    if text.len() > 0 {
        lemma_escaped_is_one_line(text.drop_last());
        let c = text.last();
        if 32 > c as nat {
            lemma_hex_char(c as nat / 16);
            lemma_hex_char(c as nat % 16);
        }
        assert(is_one_line(escaped_char(c)));
    }
}

/// The JSON text of a string.
pub(crate) fn json_string(text: &str) -> (json: Option<String>)
    ensures
        view_of(json) == json_string_of(text@),
        json matches Some(json) && is_one_line(json@),
{
    proof {
        lemma_escaped_is_one_line(text@);
    }
    written_string(text)
}

pub open spec fn bool_text(value: bool) -> Seq<char> {
    if value {
        "true"@
    } else {
        "false"@
    }
}

fn bool_json(value: bool) -> (text: String)
    ensures
        text@ == bool_text(value),
        is_one_line(text@),
{
    proof {
        reveal_strlit("true");
        reveal_strlit("false");
        assert("true"@ =~= seq!['t', 'r', 'u', 'e']);
        assert("false"@ =~= seq!['f', 'a', 'l', 's', 'e']);
    }
    if value {
        "true".to_owned()
    } else {
        "false".to_owned()
    }
}

pub fn null_json() -> (text: String)
    ensures
        text@ == "null"@,
        is_one_line(text@),
{
    proof {
        reveal_strlit("null");
        assert("null"@ =~= seq!['n', 'u', 'l', 'l']);
    }
    "null".to_owned()
}

pub open spec fn signed_decimal(n: int) -> Seq<char> {
    if n < 0 {
        "-"@ + decimal((-n) as nat)
    } else {
        decimal(n as nat)
    }
}

pub fn to_signed_decimal(n: i64) -> (text: String)
    ensures
        text@ == signed_decimal(n as int),
        is_one_line(text@),
{
    proof {
        reveal_strlit("-");
        lemma_decimal_is_one_line(n as nat);
        lemma_decimal_is_one_line((-n) as nat);
    }
    if n == i64::MIN {
        join("-", to_decimal(9_223_372_036_854_775_808u64).as_str())
    } else if n < 0 {
        join("-", to_decimal((-n) as u64).as_str())
    } else {
        to_decimal(n as u64)
    }
}

proof fn lemma_decimal_is_one_line(n: nat)
    ensures
        is_one_line(decimal(n)),
    decreases n,
{
    if n >= 10 {
        lemma_decimal_is_one_line(n / 10);
    }
}

/// A member of an object: its name, and the text of its value if that has one.
pub open spec fn member_text(name: Seq<char>, value: Option<Seq<char>>) -> Option<Seq<char>> {
    match (json_string_of(name), value) {
        (Some(name), Some(value)) => Some(name + ":"@ + value),
        _ => None,
    }
}

pub open spec fn members_text(members: Seq<(Seq<char>, Option<Seq<char>>)>) -> Option<Seq<char>>
    decreases members.len(),
{
    if members.len() == 0 {
        Some(Seq::empty())
    } else {
        match (
            members_text(members.drop_last()),
            member_text(members.last().0, members.last().1),
        ) {
            (Some(text), Some(member)) => Some(
                text + (if members.len() > 1 {
                    ","@
                } else {
                    Seq::empty()
                }) + member,
            ),
            _ => None,
        }
    }
}

/// The text of an object. It has none where a member has none.
pub open spec fn object_text(members: Seq<(Seq<char>, Option<Seq<char>>)>) -> Option<Seq<char>> {
    match members_text(members) {
        Some(text) => Some("{"@ + text + "}"@),
        None => None,
    }
}

/// An object that is being written.
pub struct ObjectText {
    pub members: Vec<(&'static str, Option<String>)>,
}

pub open spec fn member_views(members: Seq<(&'static str, Option<String>)>) -> Seq<
    (Seq<char>, Option<Seq<char>>),
> {
    Seq::new(members.len(), |i: int| (members[i].0@, view_of(members[i].1)))
}

impl View for ObjectText {
    type V = Seq<(Seq<char>, Option<Seq<char>>)>;

    open spec fn view(&self) -> Seq<(Seq<char>, Option<Seq<char>>)> {
        member_views(self.members@)
    }
}

impl ObjectText {
    /// No value ends a line.
    pub open spec fn wf(self) -> bool {
        forall|i: int|
            0 <= i < self@.len() ==> ((#[trigger] self@[i]).1 matches Some(value) ==> is_one_line(
                value,
            ))
    }

    pub fn new() -> (object: ObjectText)
        ensures
            object@ == Seq::<(Seq<char>, Option<Seq<char>>)>::empty(),
            object.wf(),
    {
        let object = ObjectText { members: Vec::new() };
        assert(object@ =~= Seq::empty());
        object
    }

    pub fn put(&mut self, name: &'static str, value: Option<String>)
        requires
            old(self).wf(),
            value matches Some(value) ==> is_one_line(value@),
        ensures
            final(self)@ == old(self)@.push((name@, view_of(value))),
            final(self).wf(),
    {
        self.members.push((name, value));
        assert(self@ =~= old(self)@.push((name@, view_of(value))));
    }

    pub fn put_text(&mut self, name: &'static str, value: &str)
        requires
            old(self).wf(),
        ensures
            final(self)@ == old(self)@.push((name@, json_string_of(value@))),
            final(self).wf(),
    {
        self.put(name, json_string(value));
    }

    pub fn put_number(&mut self, name: &'static str, value: u64)
        requires
            old(self).wf(),
        ensures
            final(self)@ == old(self)@.push((name@, Some(decimal(value as nat)))),
            final(self).wf(),
    {
        proof {
            lemma_decimal_is_one_line(value as nat);
        }
        self.put(name, Some(to_decimal(value)));
    }

    pub fn put_bool(&mut self, name: &'static str, value: bool)
        requires
            old(self).wf(),
        ensures
            final(self)@ == old(self)@.push((name@, Some(bool_text(value)))),
            final(self).wf(),
    {
        self.put(name, Some(bool_json(value)));
    }

    /// The text of the object, on one line.
    pub fn text(&self) -> (text: Option<String>)
        requires
            self.wf(),
        ensures
            view_of(text) == object_text(self@),
            text matches Some(text) ==> is_one_line(text@),
    {
        let mut text = "".to_owned();
        let ghost all = self@;
        let mut i: usize = 0;
        proof {
            reveal_strlit("");
            assert(all.take(0) =~= Seq::empty());
            assert(text@ =~= Seq::empty());
        }
        while i < self.members.len()
            invariant
                all == self@,
                self.wf(),
                i <= self.members@.len(),
                members_text(all.take(i as int)) == Some(text@),
                is_one_line(text@),
            decreases self.members.len() - i,
        {
            let ghost before = text@;
            proof {
                assert(all.take(i + 1).drop_last() =~= all.take(i as int));
                assert(all.take(i + 1).last() == all[i as int]);
                reveal_strlit(",");
                reveal_strlit(":");
            }
            match (json_string(self.members[i].0), &self.members[i].1) {
                (Some(name), Some(value)) => {
                    if i > 0 {
                        text.append(",");
                    }
                    text.append(name.as_str());
                    text.append(":");
                    text.append(value.as_str());
                    proof {
                        assert(is_one_line(value@)) by {
                            assert(self@[i as int].1 == Some(value@));
                        }
                        let comma = if i > 0 {
                            ","@
                        } else {
                            Seq::empty()
                        };
                        assert(text@ =~= before + comma + (name@ + ":"@ + value@));
                    }
                },
                _ => {
                    proof {
                        lemma_missing_member(all, i as int);
                    }
                    return None;
                },
            }
            i += 1;
        }
        assert(all.take(i as int) =~= all);
        let mut whole = "{".to_owned();
        whole.append(text.as_str());
        whole.append("}");
        proof {
            reveal_strlit("{");
            reveal_strlit("}");
        }
        Some(whole)
    }
}

/// An object has a text as soon as the values of its members have one.
pub proof fn law_objects_have_text(members: Seq<(Seq<char>, Option<Seq<char>>)>)
    requires
        forall|i: int| 0 <= i < members.len() ==> (#[trigger] members[i]).1 is Some,
    ensures
        members_text(members) is Some,
        object_text(members) is Some,
    decreases members.len(),
{
    if members.len() > 0 {
        assert(members.last() == members[members.len() - 1]);
        law_objects_have_text(members.drop_last());
    }
}

proof fn lemma_missing_member(members: Seq<(Seq<char>, Option<Seq<char>>)>, i: int)
    requires
        0 <= i < members.len(),
        member_text(members[i].0, members[i].1) is None,
    ensures
        members_text(members) is None,
    decreases members.len(),
{
    if i < members.len() - 1 {
        lemma_missing_member(members.drop_last(), i);
    }
}

} // verus!
