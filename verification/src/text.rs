//! JSON text, read and written by `serde_json`.
//!
//! The library works on its own trees. This module carries a tree over into
//! a `serde_json::Value` and back, one node at a time, and leaves the text
//! itself to `serde_json`.

use vstd::prelude::*;
use crate::json::{
    items_view, items_writable, lemma_members_push, map_of_members, members_view,
    members_writable, writable, Json, JsonValue,
};

verus! {

/// `serde_json::Value`, taken as it is: nothing is known of a value but
/// what the functions below say.
#[verifier::external_type_specification]
#[verifier::external_body]
pub struct ExValue(serde_json::Value);

/// `serde_json::Map`, taken as it is.
#[verifier::external_type_specification]
#[verifier::external_body]
#[verifier::reject_recursive_types(K)]
#[verifier::reject_recursive_types(V)]
pub struct ExObject<K, V>(serde_json::Map<K, V>);

/// The map that `serde_json` keeps for a JSON object.
pub type JsonObject = serde_json::Map<String, serde_json::Value>;

/// What a `serde_json::Value` holds. A number that `serde_json` keeps as an
/// integer is an `Integer`; one that it keeps as a float is a `Float` with
/// the bits of that float.
pub uninterp spec fn value_of(v: serde_json::Value) -> JsonValue;

/// What a `serde_json::Map` holds: its values by their keys.
pub uninterp spec fn members_of(m: JsonObject) -> Map<Seq<char>, JsonValue>;

/// The compact JSON text that `serde_json` writes for a value.
pub uninterp spec fn json_text(v: JsonValue) -> Seq<char>;

/// The value that `serde_json` reads from a text, `None` where it refuses the text.
pub uninterp spec fn json_parse(text: Seq<char>) -> Option<JsonValue>;

/// The entries of an object without members.
pub open spec fn no_members() -> Map<Seq<char>, JsonValue> {
    Map::empty()
}

/// The values that a list of `serde_json::Value`s holds.
pub open spec fn values_of(items: Seq<serde_json::Value>) -> Seq<JsonValue> {
    Seq::new(items.len(), |i: int| value_of(items[i]))
}

/// `serde_json::Value::Null` is the JSON null.
#[verifier::external_body]
fn value_null() -> (v: serde_json::Value)
    ensures
        value_of(v) == JsonValue::Null,
{
    serde_json::Value::Null
}

/// `Value::from` on a `bool` is `Value::Bool` of it.
#[verifier::external_body]
fn value_from_bool(b: bool) -> (v: serde_json::Value)
    ensures
        value_of(v) == JsonValue::Bool(b),
{
    serde_json::Value::from(b)
}

/// `Value::from` on a `u64` is the number kept as that integer.
#[verifier::external_body]
fn value_from_u64(n: u64) -> (v: serde_json::Value)
    ensures
        value_of(v) == JsonValue::Integer(n as int),
{
    serde_json::Value::from(n)
}

/// `Value::from` on an `i64` is the number kept as that integer, whatever its sign.
#[verifier::external_body]
fn value_from_i64(n: i64) -> (v: serde_json::Value)
    ensures
        value_of(v) == JsonValue::Integer(n as int),
{
    serde_json::Value::from(n)
}

/// `Value::from` on a `&str` is `Value::String` of a copy of it.
#[verifier::external_body]
fn value_from_str(s: &str) -> (v: serde_json::Value)
    ensures
        value_of(v) == JsonValue::Text(s@),
{
    serde_json::Value::from(s)
}

/// `Value::Array` holds the given values in their order.
#[verifier::external_body]
fn value_from_items(items: Vec<serde_json::Value>) -> (v: serde_json::Value)
    ensures
        value_of(v) == JsonValue::Array(values_of(items@)),
{
    serde_json::Value::Array(items)
}

/// `Map::new` is the map without entries.
#[verifier::external_body]
fn object_new() -> (m: JsonObject)
    ensures
        members_of(m) == no_members(),
{
    serde_json::Map::new()
}

/// `Map::insert` sets the value of the key, replacing one that is there;
/// the map is handed back with that entry.
#[verifier::external_body]
fn object_with(m: JsonObject, name: String, value: serde_json::Value) -> (next: JsonObject)
    ensures
        members_of(next) == members_of(m).insert(name@, value_of(value)),
{
    let mut next = m;
    next.insert(name, value);
    next
}

/// `Value::Object` holds the entries of the map.
#[verifier::external_body]
fn value_from_object(m: JsonObject) -> (v: serde_json::Value)
    ensures
        value_of(v) == JsonValue::Object(members_of(m)),
{
    serde_json::Value::Object(m)
}

/// `Value::to_string`, through the `Display` of `Value`: the compact JSON
/// text of the value, a function of what the value holds.
#[verifier::external_body]
fn value_text(v: &serde_json::Value) -> (text: String)
    ensures
        text@ == json_text(value_of(*v)),
{
    v.to_string()
}

/// `serde_json::from_str` for a `Value`: the value read from the text, or
/// `None` where the text is refused; a function of the text.
#[verifier::external_body]
fn value_parse(text: &str) -> (r: Option<serde_json::Value>)
    ensures
        match r {
            Some(v) => json_parse(text@) == Some(value_of(v)),
            None => json_parse(text@) is None,
        },
{
    serde_json::from_str::<serde_json::Value>(text).ok()
}

/// `Value::is_null` tells whether the value is the JSON null.
#[verifier::external_body]
fn value_is_null(v: &serde_json::Value) -> (r: bool)
    ensures
        r == (value_of(*v) is Null),
{
    v.is_null()
}

/// `Value::as_bool` gives the truth value of a JSON boolean and `None` for
/// every other value.
#[verifier::external_body]
fn value_as_bool(v: &serde_json::Value) -> (r: Option<bool>)
    ensures
        match r {
            Some(b) => value_of(*v) == JsonValue::Bool(b),
            None => !(value_of(*v) is Bool),
        },
{
    v.as_bool()
}

/// `Value::as_u64` gives a number kept as an integer that is not negative,
/// and `None` for every other value.
#[verifier::external_body]
fn value_as_u64(v: &serde_json::Value) -> (r: Option<u64>)
    ensures
        match r {
            Some(n) => value_of(*v) == JsonValue::Integer(n as int),
            None => value_of(*v) matches JsonValue::Integer(n) ==> n < 0,
        },
{
    v.as_u64()
}

/// `Value::as_i64` gives a number kept as an integer that fits `i64`, and
/// `None` for every other value; an integer that is kept and does not fit is
/// above `i64::MAX`.
#[verifier::external_body]
fn value_as_i64(v: &serde_json::Value) -> (r: Option<i64>)
    ensures
        match r {
            Some(n) => value_of(*v) == JsonValue::Integer(n as int),
            None => value_of(*v) matches JsonValue::Integer(n) ==> n > i64::MAX,
        },
{
    v.as_i64()
}

/// `Value::as_f64`, taken by its bits: for a number kept as a float these
/// are the bits of that float; a number kept as an integer gives some bits
/// too; every other value gives `None`.
#[verifier::external_body]
fn value_float_bits(v: &serde_json::Value) -> (r: Option<u64>)
    ensures
        match r {
            Some(bits) => value_of(*v) is Integer || value_of(*v) == JsonValue::Float(bits),
            None => !(value_of(*v) is Integer) && !(value_of(*v) is Float),
        },
{
    v.as_f64().map(|number| number.to_bits())
}

/// `Value::as_str` gives the text of a JSON string and `None` for every
/// other value.
#[verifier::external_body]
fn value_as_str(v: &serde_json::Value) -> (r: Option<&str>)
    ensures
        match r {
            Some(s) => value_of(*v) == JsonValue::Text(s@),
            None => !(value_of(*v) is Text),
        },
{
    v.as_str()
}

/// `Value::as_array` gives the items of a JSON list and `None` for every
/// other value.
#[verifier::external_body]
fn value_as_items(v: &serde_json::Value) -> (r: Option<&Vec<serde_json::Value>>)
    ensures
        match r {
            Some(items) => value_of(*v) == JsonValue::Array(values_of(items@)),
            None => !(value_of(*v) is Array),
        },
{
    v.as_array()
}

/// `Value::as_object` gives the map of a JSON object and `None` for every
/// other value.
#[verifier::external_body]
fn value_as_object(v: &serde_json::Value) -> (r: Option<&JsonObject>)
    ensures
        match r {
            Some(m) => value_of(*v) == JsonValue::Object(members_of(*m)),
            None => !(value_of(*v) is Object),
        },
{
    v.as_object()
}

/// `Map::keys`, collected: the keys of the map, each of them once.
#[verifier::external_body]
fn object_names(m: &JsonObject) -> (names: Vec<String>)
    ensures
        forall|name: Seq<char>|
            members_of(*m).contains_key(name) <==> exists|i: int|
                0 <= i < names@.len() && (#[trigger] names@[i])@ == name,
{
    m.keys().cloned().collect()
}

/// `Map::get` gives the value of a key that the map has, and `None` for a
/// key that it lacks.
#[verifier::external_body]
fn object_get<'a>(m: &'a JsonObject, name: &str) -> (r: Option<
    &'a serde_json::Value,
>)
    ensures
        match r {
            Some(v) => members_of(*m).contains_key(name@) && members_of(*m)[name@] == value_of(*v),
            None => !members_of(*m).contains_key(name@),
        },
{
    m.get(name)
}

/// Carries a list of trees over to `serde_json`.
fn items_to_values(items: &Vec<Json>) -> (r: Option<Vec<serde_json::Value>>)
    ensures
        match r {
            Some(values) => values_of(values@) == items_view(items@) && items_writable(items@),
            None => !items_writable(items@),
        },
    decreases items,
{
    let mut values: Vec<serde_json::Value> = Vec::new();
    let mut i: usize = 0;
    while i < items.len()
        invariant
            i <= items.len(),
            values@.len() == i,
            forall|k: int| 0 <= k < i ==> value_of(#[trigger] values@[k]) == items@[k]@,
            forall|k: int| 0 <= k < i ==> writable(#[trigger] items@[k]),
        decreases items.len() - i,
    {
        match to_value(&items[i]) {
            Some(v) => {
                values.push(v);
            },
            None => {
                assert(!writable(items@[i as int]));
                return None;
            },
        }
        i = i + 1;
    }
    assert(values_of(values@) =~= items_view(items@));
    Some(values)
}

/// Carries a list of members over to `serde_json`.
fn members_to_object(members: &Vec<(String, Json)>) -> (r: Option<JsonObject>)
    ensures
        match r {
            Some(m) => members_of(m) == map_of_members(members_view(members@))
                && members_writable(members@),
            None => !members_writable(members@),
        },
    decreases members,
{
    let mut object = object_new();
    let mut i: usize = 0;
    assert(members_view(members@.take(0)) =~= Seq::empty());
    while i < members.len()
        invariant
            i <= members.len(),
            members_of(object) == map_of_members(members_view(members@.take(i as int))),
            forall|k: int| 0 <= k < i ==> writable((#[trigger] members@[k]).1),
        decreases members.len() - i,
    {
        match to_value(&members[i].1) {
            Some(v) => {
                proof {
                    lemma_members_push(members@.take(i as int), members@[i as int].0, members@[i as int].1);
                    assert(members@.take(i as int).push(members@[i as int]) =~= members@.take(i + 1));
                }
                object = object_with(object, members[i].0.clone(), v);
            },
            None => {
                assert(!writable(members@[i as int].1));
                return None;
            },
        }
        i = i + 1;
    }
    assert(members@.take(i as int) =~= members@);
    Some(object)
}

/// Carries a tree over to `serde_json`. A tree that holds a number with a
/// fraction or an exponent is not carried over.
pub fn to_value(j: &Json) -> (r: Option<serde_json::Value>)
    ensures
        match r {
            Some(v) => writable(*j) && value_of(v) == j@,
            None => !writable(*j),
        },
    decreases j,
{
    match j {
        Json::Null => Some(value_null()),
        Json::Bool(b) => Some(value_from_bool(*b)),
        Json::Unsigned(n) => Some(value_from_u64(*n)),
        Json::Signed(n) => Some(value_from_i64(*n)),
        Json::Float(_) => None,
        Json::Text(s) => Some(value_from_str(s.as_str())),
        Json::Array(items) => match items_to_values(items) {
            Some(values) => {
                Some(value_from_items(values))
            },
            None => None,
        },
        Json::Object(members) => match members_to_object(members) {
            Some(object) => {
                Some(value_from_object(object))
            },
            None => None,
        },
    }
}

/// Brings the items of a `serde_json` list into trees.
fn values_to_items(values: &Vec<serde_json::Value>) -> (items: Vec<Json>)
    ensures
        items_view(items@) == values_of(values@),
    decreases values_of(values@),
{
    let mut items: Vec<Json> = Vec::new();
    let mut i: usize = 0;
    while i < values.len()
        invariant
            i <= values.len(),
            items@.len() == i,
            forall|k: int| 0 <= k < i ==> (#[trigger] items@[k])@ == value_of(values@[k]),
        decreases values.len() - i,
    {
        assert(values_of(values@)[i as int] == value_of(values@[i as int]));
        items.push(from_value(&values[i]));
        i = i + 1;
    }
    assert(items_view(items@) =~= values_of(values@));
    items
}

/// Brings the entries of a `serde_json` map into members.
fn object_to_members(object: &JsonObject) -> (members: Vec<(String, Json)>)
    ensures
        map_of_members(members_view(members@)) == members_of(*object),
    decreases members_of(*object),
{
    let names = object_names(object);
    let ghost entries = members_of(*object);
    let mut members: Vec<(String, Json)> = Vec::new();
    let mut i: usize = 0;
    assert(members_view(members@) =~= Seq::empty());
    proof {
        let listed = Seq::new(names@.len(), |k: int| names@[k]@);
        assert forall|name: Seq<char>| entries.dom().contains(name) <==> listed.to_set().contains(
            name,
        ) by {
            if entries.contains_key(name) {
                let k = choose|k: int| 0 <= k < names@.len() && (#[trigger] names@[k])@ == name;
                assert(listed[k] == name);
            }
            if listed.to_set().contains(name) {
                let k = choose|k: int| 0 <= k < listed.len() && listed[k] == name;
                assert(names@[k]@ == name);
            }
        }
        assert(entries.dom() =~= listed.to_set());
        vstd::seq_lib::seq_to_set_is_finite(listed);
    }
    while i < names.len()
        invariant
            i <= names.len(),
            entries == members_of(*object),
            entries.dom().finite(),
            forall|name: Seq<char>|
                entries.contains_key(name) <==> exists|k: int|
                    0 <= k < names@.len() && (#[trigger] names@[k])@ == name,
            forall|name: Seq<char>|
                map_of_members(members_view(members@)).contains_key(name) <==> exists|k: int|
                    0 <= k < i && (#[trigger] names@[k])@ == name,
            forall|name: Seq<char>|
                map_of_members(members_view(members@)).contains_key(name) ==> map_of_members(
                    members_view(members@),
                )[name] == entries[name],
        decreases names.len() - i,
    {
        let ghost built = map_of_members(members_view(members@));
        match object_get(object, names[i].as_str()) {
            Some(v) => {
                assert(decreases_to!(entries => entries[names@[i as int]@]));
                let value = from_value(v);
                let name = names[i].clone();
                proof {
                    lemma_members_push(members@, name, value);
                }
                members.push((name, value));
                proof {
                    let next = map_of_members(members_view(members@));
                    assert(next == built.insert(names@[i as int]@, entries[names@[i as int]@]));
                    assert forall|n: Seq<char>| next.contains_key(n) implies exists|k: int|
                        0 <= k < i + 1 && (#[trigger] names@[k])@ == n by {
                        if n == names@[i as int]@ {
                        } else {
                            assert(built.contains_key(n));
                            let k = choose|k: int| 0 <= k < i && (#[trigger] names@[k])@ == n;
                            assert(0 <= k < i + 1 && names@[k]@ == n);
                        }
                    }
                }
            },
            None => {
                assert(entries.contains_key(names@[i as int]@));
            },
        }
        i = i + 1;
    }
    assert(map_of_members(members_view(members@)) =~= entries);
    members
}

/// Brings a `serde_json::Value` into a tree that holds the same.
pub fn from_value(v: &serde_json::Value) -> (j: Json)
    ensures
        j@ == value_of(*v),
    decreases value_of(*v),
{
    if value_is_null(v) {
        return Json::Null;
    }
    if let Some(b) = value_as_bool(v) {
        return Json::Bool(b);
    }
    if let Some(n) = value_as_u64(v) {
        return Json::Unsigned(n);
    }
    if let Some(n) = value_as_i64(v) {
        return Json::Signed(n);
    }
    if let Some(bits) = value_float_bits(v) {
        return Json::Float(bits);
    }
    if let Some(s) = value_as_str(v) {
        return Json::text(s);
    }
    if let Some(values) = value_as_items(v) {
        assert(decreases_to!(value_of(*v) => value_of(*v)->Array_0));
        return Json::Array(values_to_items(values));
    }
    if let Some(object) = value_as_object(v) {
        assert(decreases_to!(value_of(*v) => value_of(*v)->Object_0));
        return Json::Object(object_to_members(object));
    }
    // every kind of value has been tried above
    Json::Null
}

/// Writes a tree as compact JSON text. A tree that holds a number with a
/// fraction or an exponent is not written.
pub fn render(j: &Json) -> (r: Option<String>)
    ensures
        match r {
            Some(text) => writable(*j) && text@ == json_text(j@),
            None => !writable(*j),
        },
{
    match to_value(j) {
        Some(v) => Some(value_text(&v)),
        None => None,
    }
}

/// Reads JSON text into a tree; a text that is not JSON gives `None`.
pub fn parse(text: &str) -> (r: Option<Json>)
    ensures
        match r {
            Some(j) => json_parse(text@) == Some(j@),
            None => json_parse(text@) is None,
        },
{
    match value_parse(text) {
        Some(v) => Some(from_value(&v)),
        None => None,
    }
}

} // verus!


