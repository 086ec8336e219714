//! JSON values that the gateway writes and rewrites.

use vstd::prelude::*;

use crate::lists::reversed;
use crate::text::str_eq;

verus! {

/// A JSON value. Numbers other than `u64` keep their text.
#[derive(Debug, PartialEq, Eq)]
pub enum JsonValue {
    Null,
    Bool(bool),
    Number(u64),
    Decimal(String),
    Text(String),
    List(Vec<JsonValue>),
    Object(Vec<(String, JsonValue)>),
}

/// What a JSON value says.
pub enum JsonTree {
    Null,
    Bool(bool),
    Number(u64),
    Decimal(Seq<char>),
    Text(Seq<char>),
    List(Seq<JsonTree>),
    Object(Seq<(Seq<char>, JsonTree)>),
}

impl JsonValue {
    pub open spec fn tree(self) -> JsonTree
        decreases self,
    {
        match self {
            JsonValue::Null => JsonTree::Null,
            JsonValue::Bool(value) => JsonTree::Bool(value),
            JsonValue::Number(value) => JsonTree::Number(value),
            JsonValue::Decimal(text) => JsonTree::Decimal(text@),
            JsonValue::Text(text) => JsonTree::Text(text@),
            JsonValue::List(values) => JsonTree::List(trees(values@)),
            JsonValue::Object(fields) => JsonTree::Object(entries(fields@)),
        }
    }
}

pub open spec fn trees(values: Seq<JsonValue>) -> Seq<JsonTree>
    decreases values,
{
    if values.len() == 0 {
        Seq::empty()
    } else {
        trees(values.drop_last()).push(values.last().tree())
    }
}

pub open spec fn entries(fields: Seq<(String, JsonValue)>) -> Seq<(Seq<char>, JsonTree)>
    decreases fields,
{
    if fields.len() == 0 {
        Seq::empty()
    } else {
        entries(fields.drop_last()).push((fields.last().0@, fields.last().1.tree()))
    }
}

impl View for JsonValue {
    type V = JsonTree;

    open spec fn view(&self) -> JsonTree {
        self.tree()
    }
}

pub proof fn lemma_trees(values: Seq<JsonValue>)
    ensures
        trees(values).len() == values.len(),
        forall|i: int| 0 <= i < values.len() ==> #[trigger] trees(values)[i] == values[i].tree(),
    decreases values.len(),
{
    if values.len() > 0 {
        lemma_trees(values.drop_last());
    }
}

pub proof fn lemma_entries(fields: Seq<(String, JsonValue)>)
    ensures
        entries(fields).len() == fields.len(),
        forall|i: int|
            0 <= i < fields.len() ==> #[trigger] entries(fields)[i] == (
                fields[i].0@,
                fields[i].1.tree(),
            ),
    decreases fields.len(),
{
    if fields.len() > 0 {
        lemma_entries(fields.drop_last());
    }
}

/// The value under `name`: the first one, where the name stands more than once.
pub open spec fn field_of(tree: JsonTree, name: Seq<char>) -> Option<JsonTree> {
    match tree {
        JsonTree::Object(fields) => first_field(fields, name),
        _ => None,
    }
}

pub open spec fn first_field(fields: Seq<(Seq<char>, JsonTree)>, name: Seq<char>) -> Option<JsonTree>
    decreases fields.len(),
{
    if fields.len() == 0 {
        None
    } else if fields[0].0 == name {
        Some(fields[0].1)
    } else {
        first_field(fields.skip(1), name)
    }
}

impl JsonValue {
    pub fn text(value: &str) -> (json: JsonValue)
        ensures
            json@ == JsonTree::Text(value@),
    {
        JsonValue::Text(value.to_owned())
    }

    /// The text that a value is, if it is one.
    pub fn as_text(&self) -> (text: Option<&str>)
        ensures
            match text {
                Some(text) => self@ == JsonTree::Text(text@),
                None => !(self@ is Text),
            },
    {
        match self {
            JsonValue::Text(text) => Some(text.as_str()),
            _ => None,
        }
    }

    /// The field called `name` of an object.
    pub fn get(&self, name: &str) -> (value: Option<&JsonValue>)
        ensures
            value is Some <==> field_of(self@, name@) is Some,
            value matches Some(v) ==> field_of(self@, name@) == Some(v@),
    {
        match self {
            JsonValue::Object(fields) => {
                let mut i: usize = 0;
                proof {
                    lemma_entries(fields@);
                    assert(entries(fields@).skip(0) =~= entries(fields@));
                }
                while i < fields.len()
                    invariant
                        i <= fields@.len(),
                        *self == JsonValue::Object(*fields),
                        entries(fields@).len() == fields@.len(),
                        forall|k: int|
                            0 <= k < fields@.len() ==> #[trigger] entries(fields@)[k] == (
                                fields@[k].0@,
                                fields@[k].1.tree(),
                            ),
                        field_of(self@, name@) == first_field(entries(fields@).skip(i as int), name@),
                    decreases fields.len() - i,
                {
                    let ghost rest = entries(fields@).skip(i as int);
                    assert(rest[0] == entries(fields@)[i as int]);
                    if str_eq(fields[i].0.as_str(), name) {
                        return Some(&fields[i].1);
                    }
                    assert(rest.skip(1) =~= entries(fields@).skip(i + 1));
                    i += 1;
                }
                None
            },
            _ => None,
        }
    }
}

/// An object without the field called `name`: the first one, where the name stands more
/// than once.
pub open spec fn without_field(fields: Seq<(Seq<char>, JsonTree)>, name: Seq<char>) -> Seq<
    (Seq<char>, JsonTree),
>
    decreases fields.len(),
{
    if fields.len() == 0 {
        fields
    } else if fields[0].0 == name {
        fields.skip(1)
    } else {
        seq![fields[0]] + without_field(fields.skip(1), name)
    }
}

/// An object under construction.
pub struct JsonFields {
    fields: Vec<(String, JsonValue)>,
}

impl View for JsonFields {
    type V = Seq<(Seq<char>, JsonTree)>;

    closed spec fn view(&self) -> Seq<(Seq<char>, JsonTree)> {
        entries(self.fields@)
    }
}

impl JsonFields {
    pub fn new() -> (fields: JsonFields)
        ensures
            fields@ == Seq::<(Seq<char>, JsonTree)>::empty(),
    {
        JsonFields { fields: Vec::new() }
    }

    pub fn put(&mut self, name: &str, value: JsonValue)
        ensures
            final(self)@ == old(self)@.push((name@, value@)),
    {
        let ghost before = self.fields@;
        self.fields.push((name.to_owned(), value));
        assert(self.fields@.drop_last() =~= before);
    }

    pub fn put_text(&mut self, name: &str, value: &str)
        ensures
            final(self)@ == old(self)@.push((name@, JsonTree::Text(value@))),
    {
        self.put(name, JsonValue::text(value));
    }

    pub fn put_number(&mut self, name: &str, value: u64)
        ensures
            final(self)@ == old(self)@.push((name@, JsonTree::Number(value))),
    {
        self.put(name, JsonValue::Number(value));
    }

    pub fn put_bool(&mut self, name: &str, value: bool)
        ensures
            final(self)@ == old(self)@.push((name@, JsonTree::Bool(value))),
    {
        self.put(name, JsonValue::Bool(value));
    }

    pub fn into_value(self) -> (json: JsonValue)
        ensures
            json@ == JsonTree::Object(self@),
    {
        JsonValue::Object(self.fields)
    }
}

// ---------------------------------------------------------------------------
// JSON texts of others
// ---------------------------------------------------------------------------

#[verifier::external_type_specification]
#[verifier::external_body]
pub struct ExSerdeValue(serde_json::Value);

/// What a `serde_json::Value` holds. The fields of an object stand in ascending
/// order of their names.
pub uninterp spec fn value_tree(value: serde_json::Value) -> JsonTree;

/// The value that a JSON text stands for, if it is one.
pub uninterp spec fn parsed_json(text: Seq<char>) -> Option<JsonTree>;

/// The JSON text that is written for a value.
pub uninterp spec fn rendered_json(tree: JsonTree) -> Option<Seq<char>>;

/// Calls `serde_json::from_str`. Whether a text is JSON, and which value it stands
/// for, depends on the text alone.
#[verifier::external_body]
pub(crate) fn parse_value(text: &str) -> (value: Option<serde_json::Value>)
    ensures
        match value {
            Some(value) => parsed_json(text@) == Some(value_tree(value)),
            None => parsed_json(text@) is None,
        },
{
    serde_json::from_str::<serde_json::Value>(text).ok()
}

/// Calls `serde_json::to_string`. The text depends on what the value holds alone.
#[verifier::external_body]
pub(crate) fn render_value(value: &serde_json::Value) -> (text: Option<String>)
    ensures
        match text {
            Some(text) => rendered_json(value_tree(*value)) == Some(text@),
            None => rendered_json(value_tree(*value)) is None,
        },
{
    serde_json::to_string(value).ok()
}

/// A `serde_json::Value`, taken apart by one level.
pub enum OpenedJson {
    Text(String),
    List(Vec<serde_json::Value>),
    Object(Vec<(String, serde_json::Value)>),
    Other(serde_json::Value),
}

/// What a list of values holds.
pub open spec fn value_trees(values: Seq<serde_json::Value>) -> Seq<JsonTree> {
    Seq::new(values.len(), |i: int| value_tree(values[i]))
}

pub open spec fn value_entries(fields: Seq<(String, serde_json::Value)>) -> Seq<
    (Seq<char>, JsonTree),
> {
    Seq::new(fields.len(), |i: int| (fields[i].0@, value_tree(fields[i].1)))
}

/// `a` comes before `b` in the order of bytes.
pub open spec fn name_before(a: Seq<u8>, b: Seq<u8>) -> bool
    decreases a.len(),
{
    if b.len() == 0 {
        false
    } else if a.len() == 0 {
        true
    } else {
        a[0] < b[0] || (a[0] == b[0] && name_before(a.skip(1), b.skip(1)))
    }
}

/// The names of fields are distinct and stand in ascending order.
pub open spec fn names_ascend(fields: Seq<(Seq<char>, JsonTree)>) -> bool {
    forall|i: int, k: int|
        0 <= i < k < fields.len() ==> name_before(
            vstd::utf8::encode_utf8((#[trigger] fields[i]).0),
            vstd::utf8::encode_utf8((#[trigger] fields[k]).0),
        )
}

/// Tells the variants of `serde_json::Value` apart. The map behind an object is a
/// `BTreeMap`, which hands its fields out in ascending order of their names.
#[verifier::external_body]
pub(crate) fn open_value(value: serde_json::Value) -> (opened: OpenedJson)
    ensures
        match opened {
            OpenedJson::Text(text) => value_tree(value) == JsonTree::Text(text@),
            OpenedJson::List(values) => value_tree(value) == JsonTree::List(value_trees(values@)),
            OpenedJson::Object(fields) => {
                &&& value_tree(value) == JsonTree::Object(value_entries(fields@))
                &&& names_ascend(value_entries(fields@))
            },
            OpenedJson::Other(other) => {
                &&& other == value
                &&& !(value_tree(value) is Text)
                &&& !(value_tree(value) is List)
                &&& !(value_tree(value) is Object)
            },
        },
{
    match value {
        serde_json::Value::String(text) => OpenedJson::Text(text),
        serde_json::Value::Array(values) => OpenedJson::List(values),
        serde_json::Value::Object(fields) => OpenedJson::Object(fields.into_iter().collect()),
        other => OpenedJson::Other(other),
    }
}

/// Puts a `serde_json::Value` together again. Fields whose names ascend are kept as
/// they stand.
#[verifier::external_body]
pub(crate) fn close_value(opened: OpenedJson) -> (value: serde_json::Value)
    requires
        opened matches OpenedJson::Object(fields) ==> names_ascend(value_entries(fields@)),
    ensures
        match opened {
            OpenedJson::Text(text) => value_tree(value) == JsonTree::Text(text@),
            OpenedJson::List(values) => value_tree(value) == JsonTree::List(value_trees(values@)),
            OpenedJson::Object(fields) => value_tree(value) == JsonTree::Object(
                value_entries(fields@),
            ),
            OpenedJson::Other(other) => value == other,
        },
{
    match opened {
        OpenedJson::Text(text) => serde_json::Value::String(text),
        OpenedJson::List(values) => serde_json::Value::Array(values),
        OpenedJson::Object(fields) => serde_json::Value::Object(fields.into_iter().collect()),
        OpenedJson::Other(other) => other,
    }
}

/// The value that JSON bytes stand for, or why they are no JSON.
pub uninterp spec fn parsed_bytes(bytes: Seq<u8>) -> Result<JsonTree, Seq<char>>;

/// Calls `serde_json::from_slice`. Which value bytes stand for, and what is said of bytes
/// that are no JSON, depends on the bytes alone.
#[verifier::external_body]
fn parse_slice(bytes: &[u8]) -> (value: Result<serde_json::Value, String>)
    ensures
        match value {
            Ok(value) => parsed_bytes(bytes@) == Ok::<JsonTree, Seq<char>>(value_tree(value)),
            Err(reason) => parsed_bytes(bytes@) == Err::<JsonTree, Seq<char>>(reason@),
        },
{
    match serde_json::from_slice::<serde_json::Value>(bytes) {
        Ok(value) => Ok(value),
        Err(error) => Err(error.to_string()),
    }
}

/// A `serde_json::Value` that holds no others and no text.
pub enum ScalarJson {
    Null,
    Bool(bool),
    Number { whole: Option<u64>, text: String },
}

/// Tells the plain variants of `serde_json::Value` apart. A number is given both as
/// `serde_json::Number::as_u64` and as its text.
#[verifier::external_body]
fn scalar_of(value: &serde_json::Value) -> (scalar: Option<ScalarJson>)
    ensures
        match scalar {
            Some(ScalarJson::Null) => value_tree(*value) == JsonTree::Null,
            Some(ScalarJson::Bool(yes)) => value_tree(*value) == JsonTree::Bool(yes),
            Some(ScalarJson::Number { whole: Some(number), .. }) => value_tree(*value)
                == JsonTree::Number(number),
            Some(ScalarJson::Number { whole: None, text }) => value_tree(*value)
                == JsonTree::Decimal(text@),
            None => value_tree(*value) is Text || value_tree(*value) is List || value_tree(
                *value,
            ) is Object,
        },
{
    match value {
        serde_json::Value::Null => Some(ScalarJson::Null),
        serde_json::Value::Bool(yes) => Some(ScalarJson::Bool(*yes)),
        serde_json::Value::Number(number) => {
            Some(ScalarJson::Number { whole: number.as_u64(), text: number.to_string() })
        },
        _ => None,
    }
}

impl JsonValue {
    /// Takes a `serde_json::Value` over.
    pub fn of(value: serde_json::Value) -> (json: JsonValue)
        ensures
            json@ == value_tree(value),
        decreases value_tree(value),
    {
        match open_value(value) {
            OpenedJson::Text(text) => JsonValue::Text(text),
            OpenedJson::List(values) => {
                let ghost all = value_trees(values@);
                let mut rest = reversed(values);
                let mut taken: Vec<JsonValue> = Vec::new();
                assert(value_trees(values@).len() == values@.len());
                while rest.len() > 0
                    invariant
                        value_tree(value) == JsonTree::List(all),
                        rest@.len() <= all.len(),
                        forall|i: int|
                            0 <= i < rest@.len() ==> value_tree(#[trigger] rest@[i]) == all[all.len() - 1
                                - i],
                        trees(taken@) == all.take(all.len() - rest@.len()),
                    decreases rest@.len(),
                {
                    let ghost before = taken@;
                    let ghost done: int = all.len() - rest@.len();
                    if let Some(first) = rest.pop() {
                        proof {
                            assert(value_tree(first) == all[done]);
                            assert(decreases_to!(value_tree(value) => value_tree(value)->List_0));
                            assert(decreases_to!(all => all[done]));
                        }
                        taken.push(JsonValue::of(first));
                        proof {
                            assert(taken@.drop_last() =~= before);
                            assert(all.take(done + 1) =~= all.take(done).push(all[done]));
                        }
                    }
                }
                assert(all.take(all.len() as int) =~= all);
                JsonValue::List(taken)
            },
            OpenedJson::Object(fields) => {
                let ghost all = value_entries(fields@);
                let mut rest = reversed(fields);
                let mut taken: Vec<(String, JsonValue)> = Vec::new();
                assert(value_entries(fields@).len() == fields@.len());
                while rest.len() > 0
                    invariant
                        value_tree(value) == JsonTree::Object(all),
                        rest@.len() <= all.len(),
                        forall|i: int|
                            0 <= i < rest@.len() ==> ((#[trigger] rest@[i]).0@, value_tree(
                                rest@[i].1,
                            )) == all[all.len() - 1 - i],
                        entries(taken@) == all.take(all.len() - rest@.len()),
                    decreases rest@.len(),
                {
                    let ghost before = taken@;
                    let ghost done: int = all.len() - rest@.len();
                    if let Some((name, field)) = rest.pop() {
                        proof {
                            assert((name@, value_tree(field)) == all[done]);
                            assert(decreases_to!(value_tree(value) => value_tree(value)->Object_0));
                            assert(decreases_to!(all => all[done]));
                            assert(decreases_to!(all[done] => all[done].1));
                        }
                        taken.push((name, JsonValue::of(field)));
                        proof {
                            assert(taken@.drop_last() =~= before);
                            assert(all.take(done + 1) =~= all.take(done).push(all[done]));
                        }
                    }
                }
                assert(all.take(all.len() as int) =~= all);
                JsonValue::Object(taken)
            },
            OpenedJson::Other(other) => match scalar_of(&other) {
                Some(ScalarJson::Bool(yes)) => JsonValue::Bool(yes),
                Some(ScalarJson::Number { whole: Some(number), .. }) => JsonValue::Number(number),
                Some(ScalarJson::Number { whole: None, text }) => JsonValue::Decimal(text),
                _ => JsonValue::Null,
            },
        }
    }

    /// Reads JSON bytes.
    pub fn parse(bytes: &[u8]) -> (json: Result<JsonValue, String>)
        ensures
            match json {
                Ok(json) => parsed_bytes(bytes@) == Ok::<JsonTree, Seq<char>>(json@),
                Err(reason) => parsed_bytes(bytes@) == Err::<JsonTree, Seq<char>>(reason@),
            },
    {
        match parse_slice(bytes) {
            Ok(value) => Ok(JsonValue::of(value)),
            Err(reason) => Err(reason),
        }
    }
}

/// Calls `serde_json::Value::get` with a name: the value under that name, where `value` is
/// an object that has it.
#[verifier::external_body]
pub(crate) fn value_field<'a>(value: &'a serde_json::Value, name: &str) -> (field: Option<
    &'a serde_json::Value,
>)
    ensures
        match field {
            Some(field) => field_of(value_tree(*value), name@) == Some(value_tree(*field)),
            None => field_of(value_tree(*value), name@) is None,
        },
{
    value.get(name)
}

/// Calls `serde_json::Value::as_str`.
#[verifier::external_body]
pub(crate) fn value_text<'a>(value: &'a serde_json::Value) -> (text: Option<&'a str>)
    ensures
        match text {
            Some(text) => value_tree(*value) == JsonTree::Text(text@),
            None => !(value_tree(*value) is Text),
        },
{
    value.as_str()
}

/// Calls `serde_json::Map::remove` on the fields of an object. The other fields stay as
/// they are.
#[verifier::external_body]
pub(crate) fn remove_value_field(value: &mut serde_json::Value, name: &str)
    ensures
        match value_tree(*old(value)) {
            JsonTree::Object(fields) => value_tree(*final(value)) == JsonTree::Object(
                without_field(fields, name@),
            ),
            _ => *final(value) == *old(value),
        },
{
    if let Some(fields) = value.as_object_mut() {
        fields.remove(name);
    }
}

} // verus!
