//! What holds of every JSON value, map of names and span of time.

use vstd::prelude::*;

use crate::config::GatewayConfig;
use crate::duration::Duration;
use crate::json::{first_field, value_tree, JsonFields, JsonTree, JsonValue};
use crate::name_map::NameMap;
use vstd::string::*;

verus! {

/// A text is a text of JSON, and only a text is read as one.
pub proof fn law_texts_of_json(text: &str, json: JsonValue, value: &JsonValue, read: Option<&str>)
    requires
        call_ensures(JsonValue::text, (text,), json),
        call_ensures(JsonValue::as_text, (value,), read),
    ensures
        json@ == JsonTree::Text(text@),
        value@ matches JsonTree::Text(held) ==> (read matches Some(read) && read@ == held),
        !(value@ is Text) ==> read is None,
{
}

proof fn lemma_first_field(fields: Seq<(Seq<char>, JsonTree)>, name: Seq<char>, i: int)
    requires
        0 <= i < fields.len(),
        fields[i].0 == name,
        forall|k: int| 0 <= k < i ==> (#[trigger] fields[k]).0 != name,
    ensures
        first_field(fields, name) == Some(fields[i].1),
    decreases i,
{
    if i > 0 {
        assert(fields[0].0 != name);
        let rest = fields.skip(1);
        assert(rest[i - 1] == fields[i]);
        assert forall|k: int| 0 <= k < i - 1 implies (#[trigger] rest[k]).0 != name by {
            assert(rest[k] == fields[k + 1]);
        }
        lemma_first_field(rest, name, i - 1);
    }
}

proof fn lemma_no_field(fields: Seq<(Seq<char>, JsonTree)>, name: Seq<char>)
    requires
        forall|k: int| 0 <= k < fields.len() ==> (#[trigger] fields[k]).0 != name,
    ensures
        first_field(fields, name) is None,
    decreases fields.len(),
{
    if fields.len() > 0 {
        assert(fields[0].0 != name);
        let rest = fields.skip(1);
        assert forall|k: int| 0 <= k < rest.len() implies (#[trigger] rest[k]).0 != name by {
            assert(rest[k] == fields[k + 1]);
        }
        lemma_no_field(rest, name);
    }
}

/// A field of an object is the first one of its name; what is no object has none.
pub proof fn law_fields_of_json(
    value: &JsonValue,
    name: &str,
    found: Option<&JsonValue>,
    fields: Seq<(Seq<char>, JsonTree)>,
    i: int,
)
    requires
        call_ensures(JsonValue::get, (value, name), found),
    ensures
        !(value@ is Object) ==> found is None,
        value@ == JsonTree::Object(fields) && 0 <= i < fields.len() && fields[i].0 == name@ && (
        forall|k: int| 0 <= k < i ==> (#[trigger] fields[k]).0 != name@) ==> (found matches Some(
            field,
        ) && field@ == fields[i].1),
        value@ == JsonTree::Object(fields) && (forall|k: int|
            0 <= k < fields.len() ==> (#[trigger] fields[k]).0 != name@) ==> found is None,
{
    if value@ == JsonTree::Object(fields) {
        if 0 <= i < fields.len() && fields[i].0 == name@ && (forall|k: int|
            0 <= k < i ==> (#[trigger] fields[k]).0 != name@) {
            lemma_first_field(fields, name@, i);
        }
        if forall|k: int| 0 <= k < fields.len() ==> (#[trigger] fields[k]).0 != name@ {
            lemma_no_field(fields, name@);
        }
    }
}

/// An object is made of the fields that were put in it, in that order.
pub proof fn law_fields_are_put_behind_each_other(
    fresh: JsonFields,
    a: &mut JsonFields,
    b: &mut JsonFields,
    c: &mut JsonFields,
    d: &mut JsonFields,
    name: &str,
    value: JsonValue,
    text: &str,
    number: u64,
    truth: bool,
    last: JsonFields,
    object: JsonValue,
)
    requires
        call_ensures(JsonFields::new, (), fresh),
        call_ensures(JsonFields::put, (a, name, value), ()),
        call_ensures(JsonFields::put_text, (b, name, text), ()),
        call_ensures(JsonFields::put_number, (c, name, number), ()),
        call_ensures(JsonFields::put_bool, (d, name, truth), ()),
        call_ensures(JsonFields::into_value, (last,), object),
    ensures
        fresh@.len() == 0,
        final(a)@ == old(a)@ + seq![(name@, value@)],
        final(b)@ == old(b)@ + seq![(name@, JsonTree::Text(text@))],
        final(c)@ == old(c)@ + seq![(name@, JsonTree::Number(number))],
        final(d)@ == old(d)@ + seq![(name@, JsonTree::Bool(truth))],
        object@ == JsonTree::Object(last@),
{
    assert(final(a)@ =~= old(a)@ + seq![(name@, value@)]);
    assert(final(b)@ =~= old(b)@ + seq![(name@, JsonTree::Text(text@))]);
    assert(final(c)@ =~= old(c)@ + seq![(name@, JsonTree::Number(number))]);
    assert(final(d)@ =~= old(d)@ + seq![(name@, JsonTree::Bool(truth))]);
}

/// A value that was read is taken over whole.
pub proof fn law_values_are_taken_over(value: serde_json::Value, json: JsonValue)
    requires
        call_ensures(JsonValue::of, (value,), json),
    ensures
        json@ == value_tree(value),
{
}

/// A map of names starts empty; to set a name sets that name alone, and tells whether it
/// was there.
pub proof fn law_a_name_is_set<V>(
    fresh: NameMap<V>,
    map: &mut NameMap<V>,
    name: String,
    value: V,
    replaced: bool,
    other: Seq<char>,
    before: usize,
)
    requires
        call_ensures(NameMap::<V>::new, (), fresh),
        old(map).wf(),
        call_ensures(NameMap::<V>::len, (&*old(map),), before),
        call_ensures(NameMap::<V>::insert, (map, name, value), replaced),
    ensures
        fresh.value(other) is None,
        final(map).value(name@) == Some(value),
        other != name@ ==> final(map).value(other) == old(map).value(other),
        replaced <==> old(map).value(name@) is Some,
        final(map).entries@.len() == before + (if replaced {
            0int
        } else {
            1
        }),
{
}

/// What is read under a name is what was last set under it.
pub proof fn law_a_name_is_read<V>(map: &NameMap<V>, name: &str, value: Option<&V>, i: int)
    requires
        map.wf(),
        call_ensures(NameMap::<V>::get, (map, name), value),
    ensures
        value is Some <==> map.value(name@) is Some,
        value matches Some(value) ==> map.value(name@) == Some(*value),
        0 <= i < map.entries@.len() && map.entries@[i].0@ == name@ ==> (value matches Some(value)
            && *value == map.entries@[i].1),
{
    if 0 <= i < map.entries@.len() && map.entries@[i].0@ == name@ {
        lemma_value_of_an_entry(map.entries@, name@, i);
    }
}

proof fn lemma_value_of_an_entry<V>(entries: Seq<(String, V)>, name: Seq<char>, i: int)
    requires
        crate::name_map::names_are_distinct(entries),
        0 <= i < entries.len(),
        entries[i].0@ == name,
    ensures
        crate::name_map::entry_value(entries, name) == Some(entries[i].1),
    decreases entries.len(),
{
    if i < entries.len() - 1 {
        assert(entries.last().0@ != name);
        lemma_value_of_an_entry(entries.drop_last(), name, i);
    }
}

/// A span of time is counted in milliseconds; a second has a thousand of them; the
/// shorter of two spans is no longer than either, and is one of them.
pub proof fn law_spans_of_time(
    millis: u64,
    a: Duration,
    secs: u64,
    b: Duration,
    count: u64,
    shorter: Duration,
)
    requires
        call_ensures(Duration::from_millis, (millis,), a),
        secs * 1_000 <= u64::MAX,
        call_ensures(Duration::from_secs, (secs,), b),
        call_ensures(Duration::as_millis, (&a,), count),
        call_ensures(Duration::shorter_of, (a, b), shorter),
    ensures
        a.millis == millis,
        b.millis == secs * 1_000,
        count == millis,
        shorter.millis <= a.millis,
        shorter.millis <= b.millis,
        shorter == a || shorter == b,
{
}

/// Skills are there only with both directories and the token.
pub proof fn law_a_bridge_needs_three_things(config: &GatewayConfig, yes: bool)
    requires
        call_ensures(GatewayConfig::has_skill_bridge, (config,), yes),
    ensures
        config.skill_bridge_dir is None ==> !yes,
        config.skill_data_dir is None ==> !yes,
        config.skill_bridge_token is None ==> !yes,
        config.skill_bridge_dir is Some && config.skill_data_dir is Some
            && config.skill_bridge_token is Some ==> yes,
{
}

} // verus!
