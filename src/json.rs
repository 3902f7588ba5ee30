//! A JSON document as plain values.
//!
//! Numbers are kept exactly: integers as `Int` (or `UInt` beyond `i64`),
//! anything else by its decimal text.
use vstd::prelude::*;

verus! {

/// A JSON value. Object members keep their order; a lookup finds the first
/// member with the key.
#[derive(Debug)]
pub enum JsonValue {
    Null,
    Bool(bool),
    Int(i64),
    UInt(u64),
    Decimal(String),
    Str(String),
    Array(Vec<JsonValue>),
    Object(Vec<(String, JsonValue)>),
}

/// The first member of `fields` named `key`.
pub open spec fn lookup(fields: Seq<(String, JsonValue)>, key: Seq<char>) -> Option<JsonValue>
    decreases fields.len(),
{
    if fields.len() == 0 {
        None
    } else if fields[0].0@ == key {
        Some(fields[0].1)
    } else {
        lookup(fields.drop_first(), key)
    }
}

/// The member `key` of an object; none for other values.
pub open spec fn member(v: JsonValue, key: Seq<char>) -> Option<JsonValue> {
    match v {
        JsonValue::Object(fields) => lookup(fields@, key),
        _ => None,
    }
}

/// Whether `v` is the string `s`.
pub open spec fn is_text(v: Option<JsonValue>, s: Seq<char>) -> bool {
    v matches Some(JsonValue::Str(t)) && t@ == s
}

/// The first member named `key` is at `i`.
pub proof fn lemma_lookup_at(fields: Seq<(String, JsonValue)>, key: Seq<char>, i: int)
    requires
        0 <= i < fields.len(),
        fields[i].0@ == key,
        forall|j: int| 0 <= j < i ==> (#[trigger] fields[j]).0@ != key,
    ensures
        lookup(fields, key) == Some(fields[i].1),
    decreases i,
{
    if i > 0 {
        let rest = fields.drop_first();
        assert forall|j: int| 0 <= j < i - 1 implies (#[trigger] rest[j]).0@ != key by {
            assert(rest[j] == fields[j + 1]);
        }
        lemma_lookup_at(rest, key, i - 1);
    }
}

/// No member is named `key`.
pub proof fn lemma_lookup_absent(fields: Seq<(String, JsonValue)>, key: Seq<char>)
    requires
        forall|j: int| 0 <= j < fields.len() ==> (#[trigger] fields[j]).0@ != key,
    ensures
        lookup(fields, key) is None,
    decreases fields.len(),
{
    if fields.len() > 0 {
        let rest = fields.drop_first();
        assert forall|j: int| 0 <= j < rest.len() implies (#[trigger] rest[j]).0@ != key by {
            assert(rest[j] == fields[j + 1]);
        }
        lemma_lookup_absent(rest, key);
    }
}

/// The position of the first member named `key`.
pub fn find_member(fields: &Vec<(String, JsonValue)>, key: &str) -> (r: Option<usize>)
    ensures
        match r {
            Some(i) => i < fields@.len() && lookup(fields@, key@) == Some(fields@[i as int].1)
                && fields@[i as int].0@ == key@,
            None => lookup(fields@, key@) is None,
        },
{
    let k = key.to_owned();
    let mut i: usize = 0;
    while i < fields.len()
        invariant
            i <= fields@.len(),
            k@ == key@,
            forall|j: int| 0 <= j < i ==> (#[trigger] fields@[j]).0@ != key@,
        decreases fields@.len() - i,
    {
        if fields[i].0 == k {
            proof {
                lemma_lookup_at(fields@, key@, i as int);
            }
            return Some(i);
        }
        i = i + 1;
    }
    proof {
        lemma_lookup_absent(fields@, key@);
    }
    None
}

/// Appending a member leaves earlier lookups as they were and makes a key
/// that was missing find the new member.
pub proof fn lemma_lookup_push(fields: Seq<(String, JsonValue)>, m: (String, JsonValue), key: Seq<char>)
    ensures
        lookup(fields.push(m), key) == match lookup(fields, key) {
            Some(v) => Some(v),
            None => if m.0@ == key { Some(m.1) } else { None },
        },
    decreases fields.len(),
{
    if fields.len() > 0 {
        assert(fields.push(m).drop_first() =~= fields.drop_first().push(m));
        assert(fields.push(m)[0] == fields[0]);
        lemma_lookup_push(fields.drop_first(), m, key);
    } else {
        assert(fields.push(m).drop_first() =~= Seq::<(String, JsonValue)>::empty());
        assert(fields.push(m)[0] == m);
        assert(lookup(Seq::<(String, JsonValue)>::empty(), key) is None);
    }
}

/// Appends the member `key: v` to an object's members.
pub fn push_member(fields: &mut Vec<(String, JsonValue)>, key: &str, v: JsonValue)
    ensures
        final(fields)@.len() == old(fields)@.len() + 1,
        forall|i: int| 0 <= i < old(fields)@.len() ==> final(fields)@[i] == old(fields)@[i],
        final(fields)@.last().0@ == key@,
        final(fields)@.last().1 == v,
        forall|k: Seq<char>| #[trigger] lookup(final(fields)@, k) == match lookup(old(fields)@, k) {
            Some(w) => Some(w),
            None => if k == key@ { Some(v) } else { None },
        },
{
    let ghost before = fields@;
    let m = (key.to_owned(), v);
    fields.push(m);
    proof {
        assert forall|k: Seq<char>| #[trigger] lookup(fields@, k) == match lookup(before, k) {
            Some(w) => Some(w),
            None => if k == key@ { Some(v) } else { None },
        } by {
            lemma_lookup_push(before, m, k);
        }
    }
}

/// A copy of the string member `key`, where there is one.
pub fn text_member(fields: &Vec<(String, JsonValue)>, key: &str) -> (r: Option<String>)
    ensures
        match r {
            Some(s) => lookup(fields@, key@) matches Some(JsonValue::Str(t)) && t@ == s@,
            None => !(lookup(fields@, key@) matches Some(JsonValue::Str(_))),
        },
{
    match find_member(fields, key) {
        Some(i) => match &fields[i].1 {
            JsonValue::Str(s) => Some(s.clone()),
            _ => None,
        },
        None => None,
    }
}

/// The member `key` of `v`, where `v` is an object that has one.
pub fn get_member<'a>(v: &'a JsonValue, key: &str) -> (r: Option<&'a JsonValue>)
    ensures
        match r {
            Some(m) => member(*v, key@) == Some(*m),
            None => member(*v, key@) is None,
        },
{
    match v {
        JsonValue::Object(fields) => match find_member(fields, key) {
            Some(i) => Some(&fields[i].1),
            None => None,
        },
        _ => None,
    }
}

} // verus!
