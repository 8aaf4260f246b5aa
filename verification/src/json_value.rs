//! JSON values as plain data: the arguments handed to attestation service
//! providers, evidence types and appraisal summaries are carried as these.
//!
//! Arrays and objects are inductive lists, so that two values are equal
//! exactly when they have the same structure.
use vstd::prelude::*;

verus! {

/// A JSON value. Numbers keep their literal text, so that no precision is lost
/// while a value is carried from one message to another.
#[derive(Debug, PartialEq, Eq)]
pub enum JsonValue {
    Null,
    Bool(bool),
    Number(String),
    Str(String),
    Array(JsonArray),
    Object(JsonObject),
}

/// The elements of a JSON array, first to last.
#[derive(Debug, PartialEq, Eq)]
pub enum JsonArray {
    Empty,
    Item(Box<JsonValue>, Box<JsonArray>),
}

/// The members of a JSON object, in order.
#[derive(Debug, PartialEq, Eq)]
pub enum JsonObject {
    Empty,
    Member(String, Box<JsonValue>, Box<JsonObject>),
}

/// The JSON value `{}`.
pub open spec fn json_empty_object() -> JsonValue {
    JsonValue::Object(JsonObject::Empty)
}

/// `v` is a JSON object whose members are, in order, the given keys with
/// the given string values.
pub open spec fn json_is_string_object(v: JsonValue, members: Seq<(Seq<char>, Seq<char>)>) -> bool {
    match v {
        JsonValue::Object(o) => json_members_are_strings(o, members),
        _ => false,
    }
}

/// The members of `o` are, in order, the given keys with the given string values.
pub open spec fn json_members_are_strings(o: JsonObject, members: Seq<(Seq<char>, Seq<char>)>) -> bool
    decreases members.len(),
{
    if members.len() == 0 {
        o is Empty
    } else {
        match o {
            JsonObject::Member(k, v, rest) => {
                &&& k@ == members[0].0
                &&& *v matches JsonValue::Str(s) && s@ == members[0].1
                &&& json_members_are_strings(*rest, members.drop_first())
            },
            JsonObject::Empty => false,
        }
    }
}

/// The keys and string values of `members`, as character sequences.
pub open spec fn string_pairs_view(members: Seq<(String, String)>) -> Seq<(Seq<char>, Seq<char>)> {
    members.map_values(|m: (String, String)| (m.0@, m.1@))
}

impl JsonValue {
    /// The JSON value `{}`.
    pub fn empty_object() -> (v: JsonValue)
        ensures
            v == json_empty_object(),
    {
        JsonValue::Object(JsonObject::Empty)
    }

    /// The JSON object whose members are the given keys with string values,
    /// in the given order.
    pub fn object_of_strings(members: Vec<(String, String)>) -> (v: JsonValue)
        ensures
            json_is_string_object(v, string_pairs_view(members@)),
    {
        let ghost all = members@;
        let mut members = members;
        let mut acc = JsonObject::Empty;
        proof {
            assert(string_pairs_view(all.subrange(all.len() as int, all.len() as int))
                =~= Seq::<(Seq<char>, Seq<char>)>::empty());
        }
        while members.len() > 0
            invariant
                members@.len() <= all.len(),
                members@ == all.subrange(0, members@.len() as int),
                json_members_are_strings(
                    acc,
                    string_pairs_view(all.subrange(members@.len() as int, all.len() as int)),
                ),
            decreases members.len(),
        {
            let ghost k = members@.len() as int;
            let (key, value) = members.pop().unwrap();
            proof {
                let tail = all.subrange(k - 1, all.len() as int);
                assert(string_pairs_view(tail).drop_first() =~= string_pairs_view(
                    all.subrange(k, all.len() as int),
                ));
                assert(tail[0] == all[k - 1]);
            }
            acc = JsonObject::Member(key, Box::new(JsonValue::Str(value)), Box::new(acc));
            proof {
                assert(members@ =~= all.subrange(0, members@.len() as int));
            }
        }
        proof {
            assert(all.subrange(0, all.len() as int) =~= all);
        }
        JsonValue::Object(acc)
    }
}

/// A deep copy of a JSON value.
pub fn copy_json_value(v: &JsonValue) -> (res: JsonValue)
    ensures
        res == *v,
    decreases v,
{
    match v {
        JsonValue::Null => JsonValue::Null,
        JsonValue::Bool(b) => JsonValue::Bool(*b),
        JsonValue::Number(n) => JsonValue::Number(n.clone()),
        JsonValue::Str(s) => JsonValue::Str(s.clone()),
        JsonValue::Array(items) => JsonValue::Array(copy_json_array(items)),
        JsonValue::Object(members) => JsonValue::Object(copy_json_object(members)),
    }
}

/// A deep copy of the elements of a JSON array.
pub fn copy_json_array(a: &JsonArray) -> (res: JsonArray)
    ensures
        res == *a,
    decreases a,
{
    match a {
        JsonArray::Empty => JsonArray::Empty,
        JsonArray::Item(first, rest) => JsonArray::Item(
            Box::new(copy_json_value(first)),
            Box::new(copy_json_array(rest)),
        ),
    }
}

/// A deep copy of the members of a JSON object.
pub fn copy_json_object(o: &JsonObject) -> (res: JsonObject)
    ensures
        res == *o,
    decreases o,
{
    match o {
        JsonObject::Empty => JsonObject::Empty,
        JsonObject::Member(key, value, rest) => JsonObject::Member(
            key.clone(),
            Box::new(copy_json_value(value)),
            Box::new(copy_json_object(rest)),
        ),
    }
}

impl Clone for JsonValue {
    fn clone(&self) -> (res: Self)
        ensures
            res == *self,
    {
        copy_json_value(self)
    }
}

impl Clone for JsonArray {
    fn clone(&self) -> (res: Self)
        ensures
            res == *self,
    {
        copy_json_array(self)
    }
}

impl Clone for JsonObject {
    fn clone(&self) -> (res: Self)
        ensures
            res == *self,
    {
        copy_json_object(self)
    }
}

} // verus!
