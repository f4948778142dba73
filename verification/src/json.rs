//! JSON values, as the crate `serde_json` reads them.
//!
//! Everything in this file is taken from `serde_json` without proof.

use serde_json::Value;
use vstd::prelude::*;

verus! {

/// `serde_json::Value`, a JSON value.
#[verifier::external_type_specification]
#[verifier::external_body]
pub struct ExValue(serde_json::Value);

/// A JSON value, as far as it matters here.
pub enum Json {
    Object(Map<Seq<char>, Json>),
    Text(Seq<char>),
    Other,
}

/// What a `serde_json::Value` holds.
pub uninterp spec fn json_of(value: Value) -> Json;

/// What `serde_json::from_slice` reads from these bytes, if they are JSON.
pub uninterp spec fn json_parsed(bytes: Seq<u8>) -> Option<Json>;

/// The member of an object under a key; nothing of interest where the value is
/// no object or has no such member.
pub open spec fn json_member(value: Json, key: Seq<char>) -> Json {
    match value {
        Json::Object(members) if members.contains_key(key) => members[key],
        _ => Json::Other,
    }
}

/// The text of a JSON string, none of any other value.
pub open spec fn json_text(value: Json) -> Option<Seq<char>> {
    match value {
        Json::Text(text) => Some(text),
        _ => None,
    }
}

/// Whether `a` comes before `b` in the order of strings: they part at some
/// position, where `a` ends or has the smaller character.
pub open spec fn sorts_before(a: Seq<char>, b: Seq<char>) -> bool {
    exists|i: int|
        #![trigger a.take(i)]
        {
            &&& 0 <= i <= a.len()
            &&& i < b.len()
            &&& a.take(i) == b.take(i)
            &&& i < a.len() ==> (a[i] as u32) < (b[i] as u32)
        }
}

/// Whether a list holds the members of a map, each once, in the order of their
/// keys.
pub open spec fn lists<V>(members: Map<Seq<char>, V>, list: Seq<(Seq<char>, V)>) -> bool {
    &&& forall|i: int|
        0 <= i < list.len() ==> members.contains_key(#[trigger] list[i].0) && members[list[i].0]
            == list[i].1
    &&& forall|key: Seq<char>| #[trigger]
        members.contains_key(key) ==> exists|i: int| 0 <= i < list.len() && list[i].0 == key
    &&& forall|i: int, j: int|
        0 <= i < j < list.len() ==> sorts_before(#[trigger] list[i].0, #[trigger] list[j].0)
}

/// What a list of named values holds.
pub open spec fn members_of(list: Seq<(String, &Value)>) -> Seq<(Seq<char>, Json)> {
    list.map_values(|member: (String, &Value)| (member.0@, json_of(*member.1)))
}

/// Reads a JSON value with `serde_json::from_slice`.
///
/// Claimed: whether the bytes are JSON, and what they hold, depends on the bytes
/// alone. What its error says is left open.
#[verifier::external_body]
pub(crate) fn parse(bytes: &[u8]) -> (r: Option<Value>)
    ensures
        match r {
            Some(value) => json_parsed(bytes@) == Some(json_of(value)),
            None => json_parsed(bytes@) is None,
        },
{
    serde_json::from_slice(bytes).ok()
}

/// Looks a member up by `value[key]`.
///
/// Claimed: it is the member of the object under the key; without one, or if the
/// value is no object, it is null.
#[verifier::external_body]
pub(crate) fn member<'a>(value: &'a Value, key: &str) -> (r: &'a Value)
    ensures
        json_of(*r) == json_member(json_of(*value), key@),
{
    &value[key]
}

/// Reads a string with `serde_json::Value::as_str`.
///
/// Claimed: it is the text of a JSON string, and none of any other value.
#[verifier::external_body]
pub(crate) fn as_text(value: &Value) -> (r: Option<&str>)
    ensures
        match r {
            Some(text) => json_text(json_of(*value)) == Some(text@),
            None => json_text(json_of(*value)) is None,
        },
{
    value.as_str()
}

/// Lists the members of an object with `serde_json::Value::as_object` and
/// `serde_json::Map::iter`.
///
/// Claimed: there is a list if and only if the value is an object; it holds
/// every member once, in the order of the keys.
#[verifier::external_body]
pub(crate) fn as_members(value: &Value) -> (r: Option<Vec<(String, &Value)>>)
    ensures
        match r {
            Some(list) => json_of(*value) matches Json::Object(members) && lists(
                members,
                members_of(list@),
            ),
            None => !(json_of(*value) is Object),
        },
{
    value.as_object().map(|members| members.iter().map(|(key, value)| (key.clone(), value)).collect())
}

/// Of two texts that part after a common front, the one with the smaller
/// character there sorts before; a text sorts before any longer one that it
/// begins.
pub proof fn law_order_of_texts(
    front: Seq<char>,
    a: char,
    b: char,
    rest: Seq<char>,
    other: Seq<char>,
)
    ensures
        (a as u32) < (b as u32) ==> sorts_before(
            front + seq![a] + rest,
            front + seq![b] + other,
        ),
        sorts_before(front, front + seq![b] + other),
{
    let i = front.len() as int;
    let small = front + seq![a] + rest;
    let large = front + seq![b] + other;
    assert(small.take(i) =~= front);
    assert(large.take(i) =~= front);
    assert(front.take(i) =~= front);
    assert(small[i] == a && large[i] == b);
}

/// No text sorts before one that sorts before it.
pub proof fn law_order_is_strict(a: Seq<char>, b: Seq<char>)
    requires
        sorts_before(a, b),
    ensures
        !sorts_before(b, a),
        a != b,
{
    let i = choose|i: int|
        #![trigger a.take(i)]
        {
            &&& 0 <= i <= a.len()
            &&& i < b.len()
            &&& a.take(i) == b.take(i)
            &&& i < a.len() ==> (a[i] as u32) < (b[i] as u32)
        };
    if a == b {
        assert(i < a.len());
    }
    if sorts_before(b, a) {
        let j = choose|j: int|
            #![trigger b.take(j)]
            {
                &&& 0 <= j <= b.len()
                &&& j < a.len()
                &&& b.take(j) == a.take(j)
                &&& j < b.len() ==> (b[j] as u32) < (a[j] as u32)
            };
        if i < j {
            assert(b.take(j)[i] == a.take(j)[i]);
        } else if j < i {
            assert(a.take(i)[j] == b.take(i)[j]);
        }
    }
}

} // verus!
