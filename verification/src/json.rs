//! JSON documents, as the log of captured queries is stored in them.

use vstd::prelude::*;
use vstd::string::StringExecFns;

verus! {

/// A JSON value.
///
/// A number is held as the text that writes it. The members of an object are
/// held in a fixed order; in a value that the parser hands out, each key
/// stands once.
#[derive(Debug, PartialEq, Eq)]
pub enum JsonValue {
    Null,
    Bool(bool),
    Number(String),
    String(String),
    Array(Vec<JsonValue>),
    Object(Vec<JsonMember>),
}

/// A member of a JSON object: a key and the value under it.
#[derive(Debug, PartialEq, Eq)]
pub struct JsonMember {
    pub key: String,
    pub value: JsonValue,
}

/// What a `JsonValue` holds: texts as sequences of characters, arrays and
/// objects as sequences.
pub enum Json {
    Null,
    Bool(bool),
    Number(Seq<char>),
    String(Seq<char>),
    Array(Seq<Json>),
    Object(Seq<JsonField>),
}

/// What a `JsonMember` holds.
pub struct JsonField {
    pub key: Seq<char>,
    pub value: Json,
}

impl View for JsonValue {
    type V = Json;

    open spec fn view(&self) -> Json
        decreases self,
    {
        match self {
            JsonValue::Null => Json::Null,
            JsonValue::Bool(b) => Json::Bool(*b),
            JsonValue::Number(text) => Json::Number(text@),
            JsonValue::String(text) => Json::String(text@),
            JsonValue::Array(items) => Json::Array(
                Seq::new(
                    items@.len(),
                    |i: int|
                        if 0 <= i < items@.len() {
                            items@[i]@
                        } else {
                            Json::Null
                        },
                ),
            ),
            JsonValue::Object(members) => Json::Object(
                Seq::new(
                    members@.len(),
                    |i: int|
                        if 0 <= i < members@.len() {
                            JsonField { key: members@[i].key@, value: members@[i].value@ }
                        } else {
                            JsonField { key: Seq::empty(), value: Json::Null }
                        },
                ),
            ),
        }
    }
}

impl View for JsonMember {
    type V = JsonField;

    open spec fn view(&self) -> JsonField {
        JsonField { key: self.key@, value: self.value@ }
    }
}

/// What the items of an array hold.
pub open spec fn items_view(items: Seq<JsonValue>) -> Seq<Json> {
    Seq::new(items.len(), |i: int| items[i]@)
}

/// What the members of an object hold.
pub open spec fn members_view(members: Seq<JsonMember>) -> Seq<JsonField> {
    Seq::new(members.len(), |i: int| members[i]@)
}

/// An array holds what its items hold, and an object what its members hold.
pub proof fn lemma_json_view(value: JsonValue)
    ensures
        value matches JsonValue::Array(items) ==> value@ == Json::Array(items_view(items@)),
        value matches JsonValue::Object(members) ==> value@ == Json::Object(
            members_view(members@),
        ),
{
    match value {
        JsonValue::Array(items) => {
            assert(value@->Array_0 =~= items_view(items@));
        },
        JsonValue::Object(members) => {
            assert(value@->Object_0 =~= members_view(members@));
        },
        _ => {},
    }
}

impl Json {
    /// What kind of value this is, in words.
    pub open spec fn kind(self) -> Seq<char> {
        match self {
            Json::Null => "null"@,
            Json::Bool(_) => "a boolean"@,
            Json::Number(_) => "a number"@,
            Json::String(_) => "a string"@,
            Json::Array(_) => "an array"@,
            Json::Object(_) => "an object"@,
        }
    }
}

impl JsonValue {

    /// Says in words what kind of value this is.
    pub fn kind_name(&self) -> (name: &'static str)
        ensures
            name@ == self@.kind(),
    {
        match self {
            JsonValue::Null => "null",
            JsonValue::Bool(_) => "a boolean",
            JsonValue::Number(_) => "a number",
            JsonValue::String(_) => "a string",
            JsonValue::Array(_) => "an array",
            JsonValue::Object(_) => "an object",
        }
    }
}

/// The keys of `members` in their order, with a comma and a space between
/// two of them.
pub open spec fn keys_text(members: Seq<JsonField>) -> Seq<char>
    decreases members.len(),
{
    if members.len() == 0 {
        Seq::empty()
    } else if members.len() == 1 {
        members[0].key
    } else {
        keys_text(members.drop_last()) + ", "@ + members.last().key
    }
}

/// Lists the keys of `members`.
pub fn keys_of(members: &Vec<JsonMember>) -> (out: String)
    ensures
        out@ == keys_text(members_view(members@)),
{
    let ghost fields = members_view(members@);
    let mut out = String::new();
    let mut i: usize = 0;
    while i < members.len()
        invariant
            i <= members.len(),
            fields == members_view(members@),
            out@ == keys_text(fields.take(i as int)),
        decreases members.len() - i,
    {
        let ghost before = fields.take(i as int);
        let ghost now = fields.take(i + 1);
        assert(now.drop_last() =~= before);
        assert(now.last() == members@[i as int]@);
        if i > 0 {
            out.append(", ");
        }
        out.append(members[i].key.as_str());
        assert(out@ =~= keys_text(now));
        i += 1;
    }
    assert(fields.take(members.len() as int) =~= fields);
    out
}

/// `serde_json::Value`, a JSON value as the parser hands it out. It is only
/// handed over to `JsonValue`, variant by variant.
#[verifier::external_type_specification]
#[verifier::external_body]
pub struct ExValue(serde_json::Value);

/// The value that the JSON document `text` holds, or, where the text is no
/// JSON document, what is wrong with it, in words. This is what
/// `serde_json::from_str` makes of the text.
pub uninterp spec fn json_document(text: Seq<char>) -> Result<Json, Seq<char>>;

/// Hands a value of `serde_json` over, variant by variant; the items of an
/// array and the members of an object are handed over in their order.
#[verifier::external_body]
fn from_value(value: serde_json::Value) -> JsonValue {
    match value {
        serde_json::Value::Null => JsonValue::Null,
        serde_json::Value::Bool(b) => JsonValue::Bool(b),
        serde_json::Value::Number(n) => JsonValue::Number(n.to_string()),
        serde_json::Value::String(s) => JsonValue::String(s),
        serde_json::Value::Array(items) => JsonValue::Array(
            items.into_iter().map(from_value).collect(),
        ),
        serde_json::Value::Object(members) => JsonValue::Object(
            members.into_iter().map(|(key, value)| JsonMember { key, value: from_value(value) })
                .collect(),
        ),
    }
}

/// Reads a JSON document.
///
/// Calls `serde_json::from_str`, which parses the whole text as one JSON value
/// and fails where it is none; the failure is handed back in the words in
/// which `serde_json` displays it.
#[verifier::external_body]
pub(crate) fn parse_json(text: &str) -> (r: Result<JsonValue, String>)
    ensures
        match r {
            Ok(value) => json_document(text@) == Ok::<Json, Seq<char>>(value@),
            Err(cause) => json_document(text@) == Err::<Json, Seq<char>>(cause@),
        },
{
    match serde_json::from_str::<serde_json::Value>(text) {
        Ok(value) => Ok(from_value(value)),
        Err(e) => Err(e.to_string()),
    }
}

} // verus!
