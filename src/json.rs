//! A JSON document as plain values, and the reading of one field of an object.
use vstd::prelude::*;
use vstd::string::*;

verus! {

/// A JSON value.
#[derive(Debug)]
pub enum JsonValue {
    Null,
    Bool(bool),
    /// An integer that is zero or more.
    UInt(u64),
    /// An integer below zero.
    NegInt(i64),
    /// A number with a fraction or an exponent, as written in the document.
    Float(String),
    Str(String),
    Array(Vec<JsonItem>),
    /// The members of an object, in order.
    Object(Vec<(String, JsonValue)>),
}

/// One element of a JSON array, with its compact JSON text.
#[derive(Debug)]
pub struct JsonItem {
    pub value: JsonValue,
    pub text: String,
}

/// The value of the first member named `key`.
pub open spec fn lookup(fields: Seq<(String, JsonValue)>, key: Seq<char>) -> Option<JsonValue>
    decreases fields.len(),
{
    if fields.len() == 0 {
        None
    } else if fields[0].0@ == key {
        Some(fields[0].1)
    } else {
        lookup(fields.drop_first(), key)
    }
}

/// A value that fits a `u32`: a non-negative integer no larger than `u32::MAX`.
pub open spec fn as_u32(v: JsonValue) -> Option<u32> {
    match v {
        JsonValue::UInt(n) => if n <= u32::MAX as u64 {
            Some(n as u32)
        } else {
            None
        },
        _ => None,
    }
}

pub open spec fn as_bool(v: JsonValue) -> Option<bool> {
    match v {
        JsonValue::Bool(b) => Some(b),
        _ => None,
    }
}

pub open spec fn as_text(v: JsonValue) -> Option<Seq<char>> {
    match v {
        JsonValue::Str(s) => Some(s@),
        _ => None,
    }
}

pub open spec fn all_u32(items: Seq<JsonItem>) -> bool {
    forall|i: int| 0 <= i < items.len() ==> #[trigger] as_u32(items[i].value) is Some
}

pub open spec fn all_text(items: Seq<JsonItem>) -> bool {
    forall|i: int| 0 <= i < items.len() ==> #[trigger] as_text(items[i].value) is Some
}

/// An array whose every element fits a `u32`.
pub open spec fn as_u32_list(v: JsonValue) -> Option<Seq<u32>> {
    match v {
        JsonValue::Array(items) => if all_u32(items@) {
            Some(Seq::new(items@.len(), |i: int| as_u32(items@[i].value)->0))
        } else {
            None
        },
        _ => None,
    }
}

/// An array whose every element is a string.
pub open spec fn as_text_list(v: JsonValue) -> Option<Seq<Seq<char>>> {
    match v {
        JsonValue::Array(items) => if all_text(items@) {
            Some(Seq::new(items@.len(), |i: int| as_text(items@[i].value)->0))
        } else {
            None
        },
        _ => None,
    }
}

/// An array of any values, each given by its JSON text.
pub open spec fn as_rendered_list(v: JsonValue) -> Option<Seq<Seq<char>>> {
    match v {
        JsonValue::Array(items) => Some(Seq::new(items@.len(), |i: int| items@[i].text@)),
        _ => None,
    }
}

/// The characters of each string.
pub open spec fn texts(v: Seq<String>) -> Seq<Seq<char>> {
    v.map_values(|s: String| s@)
}

proof fn lemma_lookup_from(fields: Seq<(String, JsonValue)>, key: Seq<char>, i: int)
    requires
        0 <= i <= fields.len(),
        forall|j: int| 0 <= j < i ==> #[trigger] fields[j].0@ != key,
    ensures
        lookup(fields, key) == lookup(fields.subrange(i, fields.len() as int), key),
    decreases i,
{
    if i > 0 {
        lemma_lookup_from(fields.drop_first(), key, i - 1);
        assert(fields.drop_first().subrange(i - 1, fields.len() - 1) =~= fields.subrange(i, fields.len() as int));
    } else {
        assert(fields.subrange(0, fields.len() as int) =~= fields);
    }
}

/// The position of the first member named `key`.
pub fn find_member(fields: &Vec<(String, JsonValue)>, key: &str) -> (r: Option<usize>)
    ensures
        r is None ==> lookup(fields@, key@) is None,
        r matches Some(i) ==> i < fields.len() && lookup(fields@, key@) == Some(fields@[i as int].1)
            && fields@[i as int].0@ == key@,
{
    let wanted = String::from_str(key);
    let mut i: usize = 0;
    while i < fields.len()
        invariant
            i <= fields.len(),
            wanted@ == key@,
            forall|j: int| 0 <= j < i ==> #[trigger] fields@[j].0@ != key@,
        decreases fields.len() - i,
    {
        if fields[i].0 == wanted {
            proof {
                lemma_lookup_from(fields@, key@, i as int);
                assert(fields@.subrange(i as int, fields@.len() as int)[0] == fields@[i as int]);
            }
            return Some(i);
        }
        i = i + 1;
    }
    proof {
        lemma_lookup_from(fields@, key@, i as int);
    }
    None
}

pub fn u32_of(v: &JsonValue) -> (r: Option<u32>)
    ensures
        r == as_u32(*v),
{
    match v {
        JsonValue::UInt(n) => if *n <= u32::MAX as u64 {
            Some(*n as u32)
        } else {
            None
        },
        _ => None,
    }
}

pub fn bool_of(v: &JsonValue) -> (r: Option<bool>)
    ensures
        r == as_bool(*v),
{
    match v {
        JsonValue::Bool(b) => Some(*b),
        _ => None,
    }
}

pub fn text_of_value(v: &JsonValue) -> (r: Option<String>)
    ensures
        r matches Some(s) ==> as_text(*v) == Some(s@),
        r is None <==> as_text(*v) is None,
{
    match v {
        JsonValue::Str(s) => Some(s.clone()),
        _ => None,
    }
}

pub fn u32_list_of(v: &JsonValue) -> (r: Option<Vec<u32>>)
    ensures
        r matches Some(x) ==> as_u32_list(*v) == Some(x@),
        r is None <==> as_u32_list(*v) is None,
{
    match v {
        JsonValue::Array(items) => {
            let mut out: Vec<u32> = Vec::new();
            let mut i: usize = 0;
            while i < items.len()
                invariant
                    *v == JsonValue::Array(*items),
                    i <= items.len(),
                    out@.len() == i,
                    forall|j: int| 0 <= j < i ==> #[trigger] as_u32(items@[j].value) == Some(out@[j]),
                decreases items.len() - i,
            {
                match u32_of(&items[i].value) {
                    Some(n) => out.push(n),
                    None => {
                        assert(as_u32(items@[i as int].value) is None);
                        assert(!all_u32(items@));
                        return None;
                    },
                }
                i = i + 1;
            }
            assert(out@ =~= Seq::new(items@.len(), |j: int| as_u32(items@[j].value)->0));
            Some(out)
        },
        _ => None,
    }
}

pub fn text_list_of(v: &JsonValue) -> (r: Option<Vec<String>>)
    ensures
        r matches Some(x) ==> as_text_list(*v) == Some(texts(x@)),
        r is None <==> as_text_list(*v) is None,
{
    match v {
        JsonValue::Array(items) => {
            let mut out: Vec<String> = Vec::new();
            let mut i: usize = 0;
            while i < items.len()
                invariant
                    *v == JsonValue::Array(*items),
                    i <= items.len(),
                    out@.len() == i,
                    forall|j: int| 0 <= j < i ==> #[trigger] as_text(items@[j].value) == Some(out@[j]@),
                decreases items.len() - i,
            {
                match text_of_value(&items[i].value) {
                    Some(s) => out.push(s),
                    None => {
                        assert(as_text(items@[i as int].value) is None);
                        assert(!all_text(items@));
                        return None;
                    },
                }
                i = i + 1;
            }
            assert(texts(out@) =~= Seq::new(items@.len(), |j: int| as_text(items@[j].value)->0));
            Some(out)
        },
        _ => None,
    }
}

pub fn rendered_list_of(v: &JsonValue) -> (r: Option<Vec<String>>)
    ensures
        r matches Some(x) ==> as_rendered_list(*v) == Some(texts(x@)),
        r is None <==> as_rendered_list(*v) is None,
{
    match v {
        JsonValue::Array(items) => {
            let mut out: Vec<String> = Vec::new();
            let mut i: usize = 0;
            while i < items.len()
                invariant
                    i <= items.len(),
                    out@.len() == i,
                    forall|j: int| 0 <= j < i ==> #[trigger] out@[j]@ == items@[j].text@,
                decreases items.len() - i,
            {
                out.push(items[i].text.clone());
                i = i + 1;
            }
            assert(texts(out@) =~= Seq::new(items@.len(), |j: int| items@[j].text@));
            Some(out)
        },
        _ => None,
    }
}

} // verus!
