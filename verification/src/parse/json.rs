//! A JSON document tree, as produced by the PL/pgSQL parser's JSON dump.

use vstd::prelude::*;
use crate::text::str_eq;

verus! {

/// A JSON value. Object members keep their document order; a number
/// holds its value when it is a non-negative integer that fits `u64`.
#[derive(Debug)]
pub enum Json {
    Null,
    Bool(bool),
    Number(Option<u64>),
    Str(String),
    Array(Vec<Json>),
    Object(Vec<(String, Json)>),
}

/// The position of the first member of `fields` at or after `from` named `key`.
pub open spec fn key_index_from(fields: Seq<(String, Json)>, key: Seq<char>, from: int) -> Option<int>
    decreases fields.len() - from,
{
    if from < 0 || from >= fields.len() {
        None
    } else if fields[from].0@ == key {
        Some(from)
    } else {
        key_index_from(fields, key, from + 1)
    }
}

/// The value of the first member named `key`, when `j` is an object that has one.
pub open spec fn json_get(j: Json, key: Seq<char>) -> Option<Json> {
    match j {
        Json::Object(fields) => match key_index_from(fields@, key, 0) {
            Some(i) => Some(fields@[i].1),
            None => None,
        },
        _ => None,
    }
}

/// The elements of the array stored under `key` in `j`, if any.
pub open spec fn json_get_array(j: Json, key: Seq<char>) -> Option<Vec<Json>> {
    match json_get(j, key) {
        Some(Json::Array(v)) => Some(v),
        _ => None,
    }
}

proof fn lemma_key_index_from(fields: Seq<(String, Json)>, key: Seq<char>, from: int)
    requires
        0 <= from,
    ensures
        key_index_from(fields, key, from) matches Some(i) ==> 0 <= from <= i < fields.len()
            && fields[i].0@ == key,
        key_index_from(fields, key, from) is None ==> forall|j: int|
            from <= j < fields.len() ==> (#[trigger] fields[j]).0@ != key,
    decreases fields.len() - from,
{
    if 0 <= from < fields.len() && fields[from].0@ != key {
        lemma_key_index_from(fields, key, from + 1);
    }
}

/// A looked-up member value is a part of the object it was found in.
pub proof fn lemma_get_decreases(j: Json, key: Seq<char>)
    ensures
        json_get(j, key) matches Some(x) ==> decreases_to!(j => x),
{
    if let Json::Object(fields) = j {
        lemma_key_index_from(fields@, key, 0);
        if let Some(i) = key_index_from(fields@, key, 0) {
            assert(decreases_to!(j => j->Object_0));
            assert(decreases_to!(fields => fields@));
            assert(decreases_to!(fields@ => fields@[i]));
            assert(decreases_to!(fields@[i] => fields@[i].1));
        }
    }
}

/// A looked-up array is a part of the object it was found in.
pub proof fn lemma_get_array_decreases(j: Json, key: Seq<char>)
    ensures
        json_get_array(j, key) matches Some(v) ==> decreases_to!(j => v),
{
    lemma_get_decreases(j, key);
    if let Some(Json::Array(v)) = json_get(j, key) {
        let x = json_get(j, key)->0;
        assert(decreases_to!(x => x->Array_0));
    }
}

impl Json {
    /// The value of the first member named `key`, when this is an object
    /// that has one.
    pub fn get(&self, key: &str) -> (r: Option<&Json>)
        ensures
            match r {
                Some(x) => json_get(*self, key@) == Some(*x),
                None => json_get(*self, key@) is None,
            },
    {
        match self {
            Json::Object(fields) => {
                let mut i: usize = 0;
                while i < fields.len()
                    invariant
                        0 <= i <= fields.len(),
                        key_index_from(fields@, key@, 0) == key_index_from(fields@, key@, i as int),
                        *self == Json::Object(*fields),
                    decreases fields.len() - i,
                {
                    if str_eq(fields[i].0.as_str(), key) {
                        assert(key_index_from(fields@, key@, i as int) == Some(i as int));
                        return Some(&fields[i].1);
                    }
                    i += 1;
                }
                None
            },
            _ => None,
        }
    }

    /// The elements, when this is an array.
    pub fn as_array(&self) -> (r: Option<&Vec<Json>>)
        ensures
            match r {
                Some(v) => *self == Json::Array(*v),
                None => !(*self is Array),
            },
    {
        match self {
            Json::Array(v) => Some(v),
            _ => None,
        }
    }

    /// The value, when this is a number that is a non-negative integer fitting `u64`.
    pub fn as_u64(&self) -> (r: Option<u64>)
        ensures
            r == match *self {
                Json::Number(n) => n,
                _ => None,
            },
    {
        match self {
            Json::Number(n) => *n,
            _ => None,
        }
    }
}

} // verus!
