//! JSON documents, as far as the protocol reads them.
//!
//! `serde_json` reads and writes the text. A document is handed to the rest
//! of the crate as a `Json` tree of plain values.

use crate::text::text_is;
use vstd::prelude::*;

verus! {

/// A JSON document.
#[derive(Debug, PartialEq, Eq)]
pub enum Json {
    Null,
    Bool(bool),
    /// A number: `Some(n)` where it is a whole number from 0 to 2^64 - 1,
    /// `None` for any other number, whose value is not kept.
    Number(Option<u64>),
    Text(String),
    List(Vec<Json>),
    /// An object: its members, each a name and a document.
    Object(Vec<(String, Json)>),
}

/// The mathematical value of a `Json`.
pub ghost enum JsonValue {
    Null,
    Bool(bool),
    Number(Option<u64>),
    Text(Seq<char>),
    List(Seq<JsonValue>),
    Object(Seq<(Seq<char>, JsonValue)>),
}

/// The value of a document.
pub open spec fn value_of(doc: Json) -> JsonValue
    decreases doc, 0nat,
{
    match doc {
        Json::Null => JsonValue::Null,
        Json::Bool(b) => JsonValue::Bool(b),
        Json::Number(n) => JsonValue::Number(n),
        Json::Text(t) => JsonValue::Text(t@),
        Json::List(items) => JsonValue::List(values_of(items, items.len() as nat)),
        Json::Object(members) => JsonValue::Object(members_of(members, members.len() as nat)),
    }
}

/// The values of the first `n` of `items`.
pub open spec fn values_of(items: Vec<Json>, n: nat) -> Seq<JsonValue>
    decreases items, n,
{
    if n == 0 || n > items.len() {
        Seq::empty()
    } else {
        values_of(items, (n - 1) as nat).push(value_of(items[n - 1]))
    }
}

/// The first `n` of `members`, each with its name and its value.
pub open spec fn members_of(members: Vec<(String, Json)>, n: nat) -> Seq<(Seq<char>, JsonValue)>
    decreases members, n,
{
    if n == 0 || n > members.len() {
        Seq::empty()
    } else {
        members_of(members, (n - 1) as nat).push((members[n - 1].0@, value_of(members[n - 1].1)))
    }
}

impl View for Json {
    type V = JsonValue;

    open spec fn view(&self) -> JsonValue {
        value_of(*self)
    }
}

/// `members_of` keeps the order: it has one member for each one counted.
pub proof fn lemma_members_of(members: Vec<(String, Json)>, n: nat)
    requires
        n <= members.len(),
    ensures
        members_of(members, n).len() == n,
        forall|k: int|
            0 <= k < n ==> #[trigger] members_of(members, n)[k] == (
                members[k].0@,
                members[k].1@,
            ),
    decreases n,
{
    if n > 0 {
        lemma_members_of(members, (n - 1) as nat);
    }
}

/// The value of the first of `members` that is called `name`.
pub open spec fn first_named(members: Seq<(Seq<char>, JsonValue)>, name: Seq<char>) -> Option<
    JsonValue,
>
    decreases members.len(),
{
    if members.len() == 0 {
        None
    } else if members[0].0 == name {
        Some(members[0].1)
    } else {
        first_named(members.drop_first(), name)
    }
}

impl JsonValue {
    /// The member called `name` of an object; `None` for an object without
    /// one and for what is no object.
    pub open spec fn member(self, name: Seq<char>) -> Option<JsonValue> {
        match self {
            JsonValue::Object(members) => first_named(members, name),
            _ => None,
        }
    }
}

/// `serde_json::Value`, of which the verifier sees nothing but the names
/// below.
#[verifier::external_type_specification]
#[verifier::external_body]
pub struct ExValue(serde_json::Value);

/// The document that a `serde_json::Value` holds.
pub uninterp spec fn json_held(value: serde_json::Value) -> JsonValue;

/// The bytes that `serde_json::to_vec` writes for a `serde_json::Value`.
pub uninterp spec fn json_written(value: serde_json::Value) -> Seq<u8>;

/// The document that `serde_json::from_slice` reads from `bytes`, `None`
/// where it refuses them.
pub uninterp spec fn json_parsed(bytes: Seq<u8>) -> Option<JsonValue>;

/// The JSON text of `doc`: what `serde_json::to_vec` writes for the
/// `serde_json::Value` that is built from it.
pub uninterp spec fn json_rendered(doc: JsonValue) -> Seq<u8>;

/// Copies a `serde_json::Value` into a `Json`, variant by variant. A number
/// is kept through `Number::as_u64`, an object's members in the order in
/// which its map walks them. The contract only names the copy's value.
#[verifier::external_body]
fn json_from_value(value: &serde_json::Value) -> (doc: Json)
    ensures
        doc@ == json_held(*value),
{
    match value {
        serde_json::Value::Null => Json::Null,
        serde_json::Value::Bool(b) => Json::Bool(*b),
        serde_json::Value::Number(n) => Json::Number(n.as_u64()),
        serde_json::Value::String(t) => Json::Text(t.clone()),
        serde_json::Value::Array(a) => Json::List(a.iter().map(json_from_value).collect()),
        serde_json::Value::Object(m) => Json::Object(
            m.iter().map(|(k, v)| (k.clone(), json_from_value(v))).collect(),
        ),
    }
}

/// Copies a `Json` into a `serde_json::Value`, variant by variant. A number
/// whose value was not kept becomes `null`; of members with one name the
/// map keeps the last. The value depends on nothing but the document, and
/// the contract says no more: it names the bytes written for the value as
/// the document's text.
#[verifier::external_body]
fn json_to_value(doc: &Json) -> (value: serde_json::Value)
    ensures
        json_written(value) == json_rendered(doc@),
{
    match doc {
        Json::Null | Json::Number(None) => serde_json::Value::Null,
        Json::Bool(b) => serde_json::Value::Bool(*b),
        Json::Number(Some(n)) => serde_json::Value::from(*n),
        Json::Text(t) => serde_json::Value::String(t.clone()),
        Json::List(a) => serde_json::Value::Array(a.iter().map(json_to_value).collect()),
        Json::Object(m) => serde_json::Value::Object(
            m.iter().map(|(k, v)| (k.clone(), json_to_value(v))).collect(),
        ),
    }
}

/// `serde_json::from_slice` at the type `serde_json::Value`: the value read
/// from `bytes`, or `None` where the bytes are refused. The contract only
/// names the document that the value holds.
#[verifier::external_body]
fn read_value(bytes: &[u8]) -> (value: Option<serde_json::Value>)
    ensures
        match value {
            Some(v) => json_parsed(bytes@) == Some(json_held(v)),
            None => json_parsed(bytes@) is None,
        },
{
    match serde_json::from_slice::<serde_json::Value>(bytes) {
        Ok(value) => Some(value),
        Err(_) => None,
    }
}

/// `serde_json::to_vec` on a `serde_json::Value`, which does not fail on one.
/// The contract only names the bytes.
#[verifier::external_body]
fn write_value(value: &serde_json::Value) -> (bytes: Vec<u8>)
    ensures
        bytes@ == json_written(*value),
{
    match serde_json::to_vec(value) {
        Ok(bytes) => bytes,
        Err(_) => Vec::new(),
    }
}

impl Json {
    /// The text `word` as a document.
    pub fn text(word: &str) -> (doc: Json)
        ensures
            doc@ == JsonValue::Text(word@),
    {
        Json::Text(String::from_str(word))
    }

    /// The object with the one member `name`, whose value is `body`.
    pub fn single(name: &str, body: Json) -> (doc: Json)
        ensures
            doc@ == JsonValue::Object(seq![(name@, body@)]),
    {
        let mut members: Vec<(String, Json)> = Vec::new();
        members.push((String::from_str(name), body));
        proof {
            lemma_members_of(members, 1);
            assert(members_of(members, 1) =~= seq![(name@, body@)]);
        }
        Json::Object(members)
    }

    /// The object with the two members given, in this order.
    pub fn pair(first: &str, first_body: Json, second: &str, second_body: Json) -> (doc: Json)
        ensures
            doc@ == JsonValue::Object(seq![(first@, first_body@), (second@, second_body@)]),
    {
        let mut members: Vec<(String, Json)> = Vec::new();
        members.push((String::from_str(first), first_body));
        members.push((String::from_str(second), second_body));
        proof {
            lemma_members_of(members, 2);
            assert(members_of(members, 2) =~= seq![
                (first@, first_body@),
                (second@, second_body@),
            ]);
        }
        Json::Object(members)
    }

    /// The member called `name`, as `JsonValue::member` says.
    pub fn member(&self, name: &str) -> (found: Option<&Json>)
        ensures
            match found {
                Some(j) => self@.member(name@) == Some(j@),
                None => self@.member(name@) is None,
            },
    {
        match self {
            Json::Object(members) => {
                let ghost all = self@->Object_0;
                proof {
                    lemma_members_of(*members, members.len() as nat);
                }
                assert(all.skip(0) =~= all);
                let mut i: usize = 0;
                while i < members.len()
                    invariant
                        i <= members.len(),
                        self@ == JsonValue::Object(all),
                        all.len() == members.len(),
                        first_named(all, name@) == first_named(all.skip(i as int), name@),
                        forall|k: int|
                            0 <= k < members.len() ==> all[k] == (
                                (#[trigger] members[k]).0@,
                                members[k].1@,
                            ),
                    decreases members.len() - i,
                {
                    assert(all.skip(i as int)[0] == all[i as int]);
                    assert(all.skip(i as int).drop_first() =~= all.skip(i as int + 1));
                    if text_is(&members[i].0, name) {
                        return Some(&members[i].1);
                    }
                    i += 1;
                }
                None
            },
            _ => None,
        }
    }

    /// Reads one JSON document from `bytes`; `None` where they are no JSON
    /// text. The members of an object come in the order of their names, each
    /// name once.
    pub fn parse(bytes: &[u8]) -> (doc: Option<Json>)
        ensures
            match doc {
                Some(j) => json_parsed(bytes@) == Some(j@),
                None => json_parsed(bytes@) is None,
            },
    {
        match read_value(bytes) {
            Some(value) => Some(json_from_value(&value)),
            None => None,
        }
    }

    /// Writes the document as JSON text, without blanks. A number whose
    /// value was not kept is written as `null`. The members of an object are
    /// written in the order of their names, and of members with one name
    /// only the last is written.
    pub fn render(&self) -> (bytes: Vec<u8>)
        ensures
            bytes@ == json_rendered(self@),
    {
        let value = json_to_value(self);
        write_value(&value)
    }
}

} // verus!
