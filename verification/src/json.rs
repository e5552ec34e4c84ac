//! A JSON document as plain values.
use vstd::prelude::*;
use crate::text::str_eq;

verus! {

/// A JSON number: a non-negative integer, a negative integer, or any other number (one
/// with a fraction or an exponent, or outside both integer ranges), whose value the
/// library does not read.
#[derive(Clone, Copy, Debug, PartialEq, Eq, Structural)]
pub enum JsonNumber {
    Unsigned(u64),
    Negative(i64),
    Other,
}

/// One member of a JSON object.
#[derive(Debug, PartialEq, Eq)]
pub struct JsonMember {
    pub key: String,
    pub value: JsonValue,
}

/// A JSON value; an object keeps its members in order.
#[derive(Debug, PartialEq, Eq)]
pub enum JsonValue {
    Null,
    Bool(bool),
    Number(JsonNumber),
    String(String),
    Array(Vec<JsonValue>),
    Object(Vec<JsonMember>),
}

/// The value of the first member named `key`.
pub open spec fn member_value(members: Seq<JsonMember>, key: Seq<char>) -> Option<JsonValue>
    decreases members.len(),
{
    if members.len() == 0 {
        None
    } else if members[0].key@ == key {
        Some(members[0].value)
    } else {
        member_value(members.drop_first(), key)
    }
}

/// The value of the first member named `key`, if any.
pub fn get_member<'a>(members: &'a Vec<JsonMember>, key: &str) -> (r: Option<&'a JsonValue>)
    ensures
        match r {
            Some(v) => member_value(members@, key@) == Some(*v),
            None => member_value(members@, key@) is None,
        },
{
    let mut i: usize = 0;
    assert(members@.skip(0) =~= members@);
    while i < members.len()
        invariant
            i <= members@.len(),
            member_value(members@, key@) == member_value(members@.skip(i as int), key@),
        decreases members.len() - i,
    {
        assert(members@.skip(i as int).drop_first() =~= members@.skip(i + 1));
        if str_eq(members[i].key.as_str(), key) {
            return Some(&members[i].value);
        }
        i += 1;
    }
    None
}

/// Looking a key up after a member was appended finds the earlier member if there is one.
pub proof fn lemma_member_value_push(members: Seq<JsonMember>, m: JsonMember, key: Seq<char>)
    ensures
        member_value(members.push(m), key) == (match member_value(members, key) {
            Some(v) => Some(v),
            None => if m.key@ == key {
                Some(m.value)
            } else {
                None
            },
        }),
    decreases members.len(),
{
    if members.len() > 0 {
        assert(members.push(m).drop_first() =~= members.drop_first().push(m));
        assert(members.push(m)[0] == members[0]);
        lemma_member_value_push(members.drop_first(), m, key);
    } else {
        assert(members.push(m).drop_first() =~= Seq::<JsonMember>::empty());
        assert(members.push(m)[0] == m);
        assert(member_value(Seq::<JsonMember>::empty(), key) is None);
    }
}

/// The members whose name is not `key`, in order.
pub open spec fn without_key(members: Seq<JsonMember>, key: Seq<char>) -> Seq<JsonMember>
    decreases members.len(),
{
    if members.len() == 0 {
        Seq::empty()
    } else if members.last().key@ == key {
        without_key(members.drop_last(), key)
    } else {
        without_key(members.drop_last(), key).push(members.last())
    }
}

/// Without the members named `key`, looking `key` up finds nothing and other names are
/// found as before.
pub proof fn lemma_without_key_lookup(members: Seq<JsonMember>, key: Seq<char>, k: Seq<char>)
    ensures
        member_value(without_key(members, key), k) == (if k == key {
            None
        } else {
            member_value(members, k)
        }),
    decreases members.len(),
{
    if members.len() > 0 {
        lemma_without_key_lookup(members.drop_last(), key, k);
        assert(members =~= members.drop_last().push(members.last()));
        lemma_member_value_push(members.drop_last(), members.last(), k);
        if members.last().key@ != key {
            lemma_member_value_push(without_key(members.drop_last(), key), members.last(), k);
        }
    }
}

/// Removes every member named `key`.
pub fn remove_key(members: &mut Vec<JsonMember>, key: &str)
    ensures
        final(members)@ == without_key(old(members)@, key@),
{
    let mut all: Vec<JsonMember> = Vec::new();
    std::mem::swap(&mut all, members);
    let ghost source = all@;
    let mut kept: Vec<JsonMember> = Vec::new();
    assert(source.skip(0) =~= source);
    while all.len() > 0
        invariant
            all@.len() <= source.len(),
            all@ == source.skip(source.len() - all@.len()),
            kept@ == without_key(source.take(source.len() - all@.len()), key@),
        decreases all.len(),
    {
        let ghost j = source.len() - all@.len();
        let m = all.remove(0);
        assert(source.take(j + 1).drop_last() =~= source.take(j));
        assert(source.take(j + 1).last() == m);
        assert(all@ =~= source.skip(j + 1));
        if !str_eq(m.key.as_str(), key) {
            kept.push(m);
        }
    }
    assert(source.take(source.len() as int) =~= source);
    *members = kept;
}

/// Removes the first member named `key` and gives back its value.
pub fn take_member(members: &mut Vec<JsonMember>, key: &str) -> (r: Option<JsonValue>)
    ensures
        r == member_value(old(members)@, key@),
        r is None ==> final(members)@ == old(members)@,
        forall|k: Seq<char>| k != key@ ==> member_value(final(members)@, k) == member_value(old(members)@, k),
{
    let mut i: usize = 0;
    assert(members@.skip(0) =~= members@);
    while i < members.len()
        invariant
            i <= members@.len(),
            members@ == old(members)@,
            member_value(members@, key@) == member_value(members@.skip(i as int), key@),
            forall|j: int| 0 <= j < i ==> (#[trigger] members@[j]).key@ != key@,
        decreases members.len() - i,
    {
        assert(members@.skip(i as int).drop_first() =~= members@.skip(i + 1));
        if str_eq(members[i].key.as_str(), key) {
            let ghost before = members@;
            let m = members.remove(i);
            proof {
                assert forall|k: Seq<char>| k != key@ implies member_value(members@, k) == member_value(before, k) by {
                    lemma_member_value_remove(before, i as int, k);
                }
            }
            return Some(m.value);
        }
        i += 1;
    }
    None
}

/// Removing a member whose name is not `k`, and that no earlier member shares, leaves
/// the lookup of `k` as it was.
proof fn lemma_member_value_remove(members: Seq<JsonMember>, i: int, k: Seq<char>)
    requires
        0 <= i < members.len(),
        members[i].key@ != k,
    ensures
        member_value(members.remove(i), k) == member_value(members, k),
    decreases i,
{
    if i > 0 {
        assert(members.remove(i).drop_first() =~= members.drop_first().remove(i - 1));
        assert(members.remove(i)[0] == members[0]);
        lemma_member_value_remove(members.drop_first(), i - 1, k);
    } else {
        assert(members.remove(0) =~= members.drop_first());
    }
}


#[verifier::external_type_specification]
#[verifier::external_body]
pub struct ExSerdeJsonValue(serde_json::Value);

// The JSON value that `serde_json::from_str::<serde_json::Value>` reads from a text, as
// the library's value, or `None` where the text is not one JSON document.
pub uninterp spec fn parsed_json(text: Seq<char>) -> Option<JsonValue>;

/// A `serde_json` value as the library's value, one for one: an integer that fits `u64`
/// or `i64` keeps its value, any other number becomes `JsonNumber::Other`, and object
/// members come in the order the `serde_json` map holds them.
#[verifier::external_body]
fn json_from_serde(value: serde_json::Value) -> JsonValue {
    match value {
        serde_json::Value::Null => JsonValue::Null,
        serde_json::Value::Bool(b) => JsonValue::Bool(b),
        serde_json::Value::Number(n) => JsonValue::Number(match (n.as_u64(), n.as_i64()) {
            (Some(u), _) => JsonNumber::Unsigned(u),
            (None, Some(i)) => JsonNumber::Negative(i),
            (None, None) => JsonNumber::Other,
        }),
        serde_json::Value::String(s) => JsonValue::String(s),
        serde_json::Value::Array(items) => JsonValue::Array(items.into_iter().map(json_from_serde).collect()),
        serde_json::Value::Object(map) => JsonValue::Object(
            map.into_iter().map(|(key, value)| JsonMember { key, value: json_from_serde(value) }).collect(),
        ),
    }
}

/// `serde_json::from_str::<serde_json::Value>`: the JSON document a text holds, converted
/// to the library's value, or `None` where the text is not one JSON document.  The result
/// is named `parsed_json` of the text.
#[verifier::external_body]
pub(crate) fn parse_json(text: &str) -> (r: Option<JsonValue>)
    ensures
        r == parsed_json(text@),
{
    serde_json::from_str::<serde_json::Value>(text).ok().map(json_from_serde)
}

} // verus!
