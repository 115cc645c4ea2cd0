//! A JSON document as the tool description arrives in it, and the lookups that the
//! parameter parser makes on it.

use vstd::prelude::*;

verus! {

/// A JSON value. An object keeps its members in the order they were read; a lookup by
/// key finds the first member with that key.
#[derive(Debug)]
pub enum JsonValue {
    Null,
    Bool(bool),
    /// A number, kept as the text it was written with: nothing here reads its value.
    Number(String),
    Text(String),
    Array(Vec<JsonValue>),
    Object(Vec<(String, JsonValue)>),
}

/// The value of the first member named `key` among `entries`.
pub open spec fn entries_get(entries: Seq<(String, JsonValue)>, key: Seq<char>) -> Option<JsonValue>
    decreases entries.len(),
{
    if entries.len() == 0 {
        None
    } else if entries[0].0@ == key {
        Some(entries[0].1)
    } else {
        entries_get(entries.drop_first(), key)
    }
}

/// The member `key` of `v`, where `v` is an object that has one.
pub open spec fn member(v: JsonValue, key: Seq<char>) -> Option<JsonValue> {
    match v {
        JsonValue::Object(entries) => entries_get(entries@, key),
        _ => None,
    }
}

/// `v[key]`: the member `key` of `v`, or `Null` where `v` is no object or has no such
/// member.
pub open spec fn index_key(v: JsonValue, key: Seq<char>) -> JsonValue {
    match member(v, key) {
        Some(x) => x,
        None => JsonValue::Null,
    }
}

/// The characters of `v`, where it is a string.
pub open spec fn as_text(v: JsonValue) -> Option<Seq<char>> {
    match v {
        JsonValue::Text(s) => Some(s@),
        _ => None,
    }
}

/// The characters of `v` where it is a string, else the empty string.
pub open spec fn text_or_empty(v: JsonValue) -> Seq<char> {
    match as_text(v) {
        Some(s) => s,
        None => Seq::empty(),
    }
}

/// The elements of `v`, where it is an array.
pub open spec fn as_array(v: JsonValue) -> Option<Seq<JsonValue>> {
    match v {
        JsonValue::Array(items) => Some(items@),
        _ => None,
    }
}

/// The elements of `v` where it is an array, each read as a string (non-strings as the
/// empty string); no elements where `v` is no array.
pub open spec fn texts_of(v: JsonValue) -> Seq<Seq<char>> {
    match as_array(v) {
        Some(items) => items.map_values(|x: JsonValue| text_or_empty(x)),
        None => Seq::empty(),
    }
}

/// A lookup finds the first member with the key, and finds nothing only where no member
/// has it.
pub proof fn law_lookup_finds_the_first_member(entries: Seq<(String, JsonValue)>, key: Seq<char>)
    ensures
        entries_get(entries, key) is None <==> forall|i: int|
            0 <= i < entries.len() ==> (#[trigger] entries[i]).0@ != key,
        entries_get(entries, key) matches Some(v) ==> exists|i: int|
            0 <= i < entries.len() && (#[trigger] entries[i]).0@ == key && entries[i].1 == v && forall|j: int|
                0 <= j < i ==> entries[j].0@ != key,
    decreases entries.len(),
{
    if entries.len() > 0 {
        let rest = entries.drop_first();
        law_lookup_finds_the_first_member(rest, key);
        assert forall|i: int| 0 < i < entries.len() implies entries[i] == rest[i - 1] by {}
        if entries[0].0@ != key {
            if entries_get(rest, key) is None {
                assert forall|i: int| 0 <= i < entries.len() implies (#[trigger] entries[i]).0@ != key by {
                    if i > 0 {
                        assert(entries[i] == rest[i - 1]);
                    }
                }
            } else {
                assert(entries[0].0@ != key);
                let v = entries_get(rest, key)->Some_0;
                let i = choose|i: int|
                    0 <= i < rest.len() && (#[trigger] rest[i]).0@ == key && rest[i].1 == v && forall|j: int|
                        0 <= j < i ==> rest[j].0@ != key;
                assert(entries[i + 1] == rest[i]);
                assert forall|j: int| 0 <= j < i + 1 implies entries[j].0@ != key by {
                    if j > 0 {
                        assert(entries[j] == rest[j - 1]);
                    }
                }
                assert(!(forall|i: int| 0 <= i < rest.len() ==> (#[trigger] rest[i]).0@ != key));
                let k = choose|k: int| 0 <= k < rest.len() && !((#[trigger] rest[k]).0@ != key);
                assert(entries[k + 1] == rest[k]);
            }
        }
    }
}

impl JsonValue {
    /// The member `key`, where `self` is an object that has one (`Map::get`).
    pub fn get(&self, key: &str) -> (r: Option<&JsonValue>)
        ensures
            match r {
                Some(x) => member(*self, key@) == Some(*x),
                None => member(*self, key@) is None,
            },
    {
        match self {
            JsonValue::Object(entries) => {
                let mut i: usize = 0;
                assert(entries@.skip(0) =~= entries@);
                while i < entries.len()
                    invariant
                        i <= entries@.len(),
                        member(*self, key@) == entries_get(entries@, key@),
                        entries_get(entries@, key@) == entries_get(entries@.skip(i as int), key@),
                    decreases entries.len() - i,
                {
                    assert(entries@.skip(i as int).drop_first() =~= entries@.skip(i as int + 1));
                    assert(entries@.skip(i as int)[0] == entries@[i as int]);
                    if crate::text::str_eq(entries[i].0.as_str(), key) {
                        return Some(&entries[i].1);
                    }
                    i = i + 1;
                }
                None
            },
            _ => None,
        }
    }

    /// Whether `self[key]` is something other than `Null`.
    pub fn has_non_null(&self, key: &str) -> (r: bool)
        ensures
            r == !(index_key(*self, key@) is Null),
    {
        match self.get(key) {
            Some(JsonValue::Null) => false,
            Some(_) => true,
            None => false,
        }
    }

    /// Whether `self` is a string.
    pub fn is_string(&self) -> (r: bool)
        ensures
            r == (*self is Text),
    {
        match self {
            JsonValue::Text(_) => true,
            _ => false,
        }
    }

    /// Whether `self` is an object.
    pub fn is_object(&self) -> (r: bool)
        ensures
            r == (*self is Object),
    {
        match self {
            JsonValue::Object(_) => true,
            _ => false,
        }
    }

    /// The string that `self` holds, where it is one.
    pub fn as_str(&self) -> (r: Option<&str>)
        ensures
            match r {
                Some(s) => as_text(*self) == Some(s@),
                None => as_text(*self) is None,
            },
    {
        match self {
            JsonValue::Text(s) => Some(s.as_str()),
            _ => None,
        }
    }

    /// The boolean that `self` holds, where it is one.
    pub fn as_bool(&self) -> (r: Option<bool>)
        ensures
            r == match *self {
                JsonValue::Bool(b) => Some(b),
                _ => None,
            },
    {
        match self {
            JsonValue::Bool(b) => Some(*b),
            _ => None,
        }
    }

    /// The elements that `self` holds, where it is an array.
    pub fn as_array(&self) -> (r: Option<&Vec<JsonValue>>)
        ensures
            match r {
                Some(items) => as_array(*self) == Some(items@),
                None => as_array(*self) is None,
            },
    {
        match self {
            JsonValue::Array(items) => Some(items),
            _ => None,
        }
    }
}

/// `self[key]` read as a string, the empty string where it is none.
pub fn member_text(v: &JsonValue, key: &str) -> (r: String)
    ensures
        r@ == text_or_empty(index_key(*v, key@)),
{
    match v.get(key) {
        Some(x) => match x.as_str() {
            Some(s) => s.to_owned(),
            None => String::new(),
        },
        None => String::new(),
    }
}

/// The elements of `v` read as strings, as `texts_of` says.
pub fn texts(v: &JsonValue) -> (r: Vec<String>)
    ensures
        r.deep_view() == texts_of(*v),
{
    let mut out: Vec<String> = Vec::new();
    match v.as_array() {
        Some(items) => {
            let mut i: usize = 0;
            while i < items.len()
                invariant
                    i <= items@.len(),
                    as_array(*v) == Some(items@),
                    out.deep_view() =~= items@.take(i as int).map_values(
                        |x: JsonValue| text_or_empty(x),
                    ),
                decreases items.len() - i,
            {
                let s = match items[i].as_str() {
                    Some(s) => s.to_owned(),
                    None => String::new(),
                };
                let ghost before = out.deep_view();
                out.push(s);
                assert(out.deep_view() =~= before.push(s@));
                assert(items@.take(i as int + 1) =~= items@.take(i as int).push(items@[i as int]));
                i = i + 1;
            }
            assert(items@.take(items@.len() as int) =~= items@);
        },
        None => {},
    }
    out
}

} // verus!
