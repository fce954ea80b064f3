//! JSON values: those of `serde_json`, seen as trees of plain values.
use vstd::prelude::*;
use crate::collections::Replicate;

verus! {

/// `serde_json::Value`, as it is.
#[verifier::external_type_specification]
#[verifier::external_body]
pub struct ExValue(serde_json::Value);

/// What a JSON value is.
pub enum JsonModel {
    Null,
    Bool(bool),
    /// A number that is a `u64`.
    UInt(u64),
    /// Any other number, as it is written.
    Number(Seq<char>),
    Text(Seq<char>),
    Array(Seq<JsonModel>),
    Object(Map<Seq<char>, JsonModel>),
}

/// What a `serde_json::Value` holds.
pub uninterp spec fn json_of(value: serde_json::Value) -> JsonModel;

/// What `serde_json` reads in a text, or its complaint.
pub uninterp spec fn parsed_json(text: Seq<char>) -> Result<JsonModel, Seq<char>>;

/// How `serde_json` writes a value, without white space.
pub uninterp spec fn written_json(value: JsonModel) -> Seq<char>;

impl JsonModel {
    /// The object without entries.
    pub open spec fn empty() -> JsonModel {
        JsonModel::Object(Map::empty())
    }

    /// An object with one more entry.
    pub open spec fn with(self, key: Seq<char>, value: JsonModel) -> JsonModel {
        match self {
            JsonModel::Object(entries) => JsonModel::Object(entries.insert(key, value)),
            other => other,
        }
    }

    /// An object without an entry.
    pub open spec fn without(self, key: Seq<char>) -> JsonModel {
        match self {
            JsonModel::Object(entries) => JsonModel::Object(entries.remove(key)),
            other => other,
        }
    }

    /// The entry of an object.
    pub open spec fn get(self, key: Seq<char>) -> Option<JsonModel> {
        match self {
            JsonModel::Object(entries) if entries.contains_key(key) => Some(entries[key]),
            _ => None,
        }
    }

    /// The entry of an object, where it is a text.
    pub open spec fn get_text(self, key: Seq<char>) -> Option<Seq<char>> {
        match self.get(key) {
            Some(JsonModel::Text(text)) => Some(text),
            _ => None,
        }
    }

    /// The entry of an object, where it is a `u64`.
    pub open spec fn get_uint(self, key: Seq<char>) -> Option<u64> {
        match self.get(key) {
            Some(JsonModel::UInt(n)) => Some(n),
            _ => None,
        }
    }

    /// The entry of an object, where it is a truth value.
    pub open spec fn get_bool(self, key: Seq<char>) -> Option<bool> {
        match self.get(key) {
            Some(JsonModel::Bool(b)) => Some(b),
            _ => None,
        }
    }

    /// A text, or null.
    pub open spec fn optional_text(text: Option<Seq<char>>) -> JsonModel {
        match text {
            Some(t) => JsonModel::Text(t),
            None => JsonModel::Null,
        }
    }

    /// A number, or null.
    pub open spec fn optional_uint(n: Option<u64>) -> JsonModel {
        match n {
            Some(x) => JsonModel::UInt(x),
            None => JsonModel::Null,
        }
    }
}

/// A JSON value.
#[derive(Debug, PartialEq, Eq)]
pub struct Json {
    pub value: serde_json::Value,
}

impl DeepView for Json {
    type V = JsonModel;

    open spec fn deep_view(&self) -> JsonModel {
        json_of(self.value)
    }
}

impl View for Json {
    type V = JsonModel;

    open spec fn view(&self) -> JsonModel {
        json_of(self.value)
    }
}

impl Replicate for Json {
    fn replicate(&self) -> (copy: Self) {
        copy_value(self)
    }
}

impl Clone for Json {
    fn clone(&self) -> (copy: Self)
        ensures
            copy@ == self@,
    {
        self.replicate()
    }
}

/// `Value::clone`: the copy holds the same.
#[verifier::external_body]
fn copy_value(json: &Json) -> (copy: Json)
    ensures
        json_of(copy.value) == json_of(json.value),
{
    Json { value: json.value.clone() }
}

/// `Value::Null`.
#[verifier::external_body]
pub(crate) fn json_null() -> (json: Json)
    ensures
        json@ == JsonModel::Null,
{
    Json { value: serde_json::Value::Null }
}

/// `Value::from` of a string.
#[verifier::external_body]
pub(crate) fn json_text(text: &str) -> (json: Json)
    ensures
        json@ == JsonModel::Text(text@),
{
    Json { value: serde_json::Value::from(text) }
}

/// `Value::from` of a `u64`.
#[verifier::external_body]
pub(crate) fn json_uint(n: u64) -> (json: Json)
    ensures
        json@ == JsonModel::UInt(n),
{
    Json { value: serde_json::Value::from(n) }
}

/// `Value::from` of a `bool`.
#[verifier::external_body]
pub(crate) fn json_bool(b: bool) -> (json: Json)
    ensures
        json@ == JsonModel::Bool(b),
{
    Json { value: serde_json::Value::from(b) }
}

/// `Value::Array` of values, in their order.
#[verifier::external_body]
pub(crate) fn json_array(items: Vec<Json>) -> (json: Json)
    ensures
        json@ == JsonModel::Array(items.deep_view()),
{
    Json { value: serde_json::Value::Array(items.into_iter().map(|item| item.value).collect()) }
}

/// `Map::new`, as `Value::Object`: the object without entries.
#[verifier::external_body]
pub(crate) fn json_object() -> (json: Json)
    ensures
        json@ == JsonModel::empty(),
{
    Json { value: serde_json::Value::Object(serde_json::Map::new()) }
}

/// `Map::insert`: the entry replaces the one that the object had under the key.
#[verifier::external_body]
fn put_entry(json: &mut Json, key: &str, value: Json)
    requires
        old(json)@ is Object,
    ensures
        final(json)@ == old(json)@.with(key@, value@),
{
    json.value.as_object_mut().map(|map| map.insert(key.to_string(), value.value));
}

/// `Map::remove`: the object loses its entry under the key, if it has one.
#[verifier::external_body]
fn remove_entry(json: &mut Json, key: &str)
    requires
        old(json)@ is Object,
    ensures
        final(json)@ == old(json)@.without(key@),
{
    json.value.as_object_mut().map(|map| map.remove(key));
}

/// `Value::get` with a key: the entry, where the value is an object and has it.
#[verifier::external_body]
fn entry_of(json: &Json, key: &str) -> (entry: Option<Json>)
    ensures
        entry.deep_view() == json@.get(key@),
{
    json.value.get(key).map(|value| Json { value: value.clone() })
}

/// `Value::as_str`: the text, where the value is one.
#[verifier::external_body]
fn text_of_value(json: &Json) -> (text: Option<String>)
    ensures
        text.deep_view() == match json@ {
            JsonModel::Text(t) => Some(t),
            _ => None,
        },
{
    json.value.as_str().map(|text| text.to_string())
}

/// `Value::as_u64`: the number, where the value is one that fits.
#[verifier::external_body]
fn uint_of_value(json: &Json) -> (n: Option<u64>)
    ensures
        n == match json@ {
            JsonModel::UInt(x) => Some(x),
            _ => None,
        },
{
    json.value.as_u64()
}

/// `Value::as_bool`: the truth value, where the value is one.
#[verifier::external_body]
fn bool_of_value(json: &Json) -> (b: Option<bool>)
    ensures
        b == match json@ {
            JsonModel::Bool(x) => Some(x),
            _ => None,
        },
{
    json.value.as_bool()
}

/// `Value::is_null`.
#[verifier::external_body]
fn null_value(json: &Json) -> (null: bool)
    ensures
        null == (json@ is Null),
{
    json.value.is_null()
}

/// `Value::as_array`: the values in their order, where the value is an array.
#[verifier::external_body]
fn items_of_value(json: &Json) -> (items: Option<Vec<Json>>)
    ensures
        items.deep_view() == match json@ {
            JsonModel::Array(a) => Some(a),
            _ => None,
        },
{
    json.value.as_array().map(
        |items| items.iter().map(|value| Json { value: value.clone() }).collect(),
    )
}

/// `Map::keys`: the keys of an object, each once, in increasing order; nothing
/// where the value is no object.
#[verifier::external_body]
fn keys_of_value(json: &Json) -> (keys: Option<Vec<String>>)
    ensures
        match (keys, json@) {
            (Some(k), JsonModel::Object(entries)) => crate::collections::lists::<String>(
                k.deep_view(),
                entries.dom(),
            ),
            (None, JsonModel::Object(_)) => false,
            (Some(_), _) => false,
            (None, _) => true,
        },
{
    json.value.as_object().map(|map| map.keys().cloned().collect())
}

/// `serde_json::from_str`. Claimed: what is read, or the complaint, is a function
/// of the text.
#[verifier::external_body]
pub(crate) fn parse_json(text: &str) -> (result: Result<Json, String>)
    ensures
        match result {
            Ok(json) => parsed_json(text@) == Ok::<JsonModel, Seq<char>>(json@),
            Err(complaint) => parsed_json(text@) == Err::<JsonModel, Seq<char>>(complaint@),
        },
{
    match serde_json::from_str::<serde_json::Value>(text) {
        Ok(value) => Ok(Json { value }),
        Err(error) => Err(error.to_string()),
    }
}

/// `Display` of a value. Claimed: the text is a function of what the value is.
#[verifier::external_body]
pub(crate) fn write_json(json: &Json) -> (text: String)
    ensures
        text@ == written_json(json@),
{
    json.value.to_string()
}

impl Json {
    /// This object with one more entry.
    pub fn with(self, key: &str, value: Json) -> (json: Json)
        requires
            self@ is Object,
        ensures
            json@ == self@.with(key@, value@),
            json@ is Object,
    {
        let mut json = self;
        put_entry(&mut json, key, value);
        json
    }

    /// This object without an entry.
    pub fn without(self, key: &str) -> (json: Json)
        requires
            self@ is Object,
        ensures
            json@ == self@.without(key@),
            json@ is Object,
    {
        let mut json = self;
        remove_entry(&mut json, key);
        json
    }

    /// The entry of an object.
    pub fn get(&self, key: &str) -> (entry: Option<Json>)
        ensures
            entry.deep_view() == self@.get(key@),
    {
        entry_of(self, key)
    }

    /// The entry of an object, where it is a text.
    pub fn get_text(&self, key: &str) -> (text: Option<String>)
        ensures
            text.deep_view() == self@.get_text(key@),
    {
        match entry_of(self, key) {
            Some(entry) => text_of_value(&entry),
            None => None,
        }
    }

    /// The entry of an object, where it is a `u64`.
    pub fn get_uint(&self, key: &str) -> (n: Option<u64>)
        ensures
            n == self@.get_uint(key@),
    {
        match entry_of(self, key) {
            Some(entry) => uint_of_value(&entry),
            None => None,
        }
    }

    /// The entry of an object, where it is a truth value.
    pub fn get_bool(&self, key: &str) -> (b: Option<bool>)
        ensures
            b == self@.get_bool(key@),
    {
        match entry_of(self, key) {
            Some(entry) => bool_of_value(&entry),
            None => None,
        }
    }

    /// The keys of an object.
    pub fn keys(&self) -> (keys: Option<Vec<String>>)
        ensures
            match (keys, self@) {
                (Some(k), JsonModel::Object(entries)) => crate::collections::lists::<String>(
                    k.deep_view(),
                    entries.dom(),
                ),
                (None, JsonModel::Object(_)) => false,
                (Some(_), _) => false,
                (None, _) => true,
            },
    {
        keys_of_value(self)
    }

    /// This text; nothing where this is no text.
    pub fn as_text(&self) -> (text: Option<String>)
        ensures
            text.deep_view() == match self@ {
                JsonModel::Text(t) => Some(t),
                _ => None,
            },
    {
        text_of_value(self)
    }

    /// The values of this array in their order; nothing where this is no array.
    pub fn items(&self) -> (items: Option<Vec<Json>>)
        ensures
            items.deep_view() == match self@ {
                JsonModel::Array(a) => Some(a),
                _ => None,
            },
    {
        items_of_value(self)
    }

    /// Whether this is an object.
    pub fn is_object(&self) -> (object: bool)
        ensures
            object == (self@ is Object),
    {
        self.keys().is_some()
    }

    /// Whether this is null.
    pub fn is_null(&self) -> (null: bool)
        ensures
            null == (self@ is Null),
    {
        null_value(self)
    }

    /// A text, or null.
    pub fn optional_text(text: &Option<String>) -> (json: Json)
        ensures
            json@ == JsonModel::optional_text(text.deep_view()),
    {
        match text {
            Some(t) => json_text(t.as_str()),
            None => json_null(),
        }
    }

    /// A number, or null.
    pub fn optional_uint(n: Option<u64>) -> (json: Json)
        ensures
            json@ == JsonModel::optional_uint(n),
    {
        match n {
            Some(x) => json_uint(x),
            None => json_null(),
        }
    }
}

} // verus!
