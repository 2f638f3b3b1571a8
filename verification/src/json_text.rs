//! JSON as text. `serde_json` reads and prints; the passage between its values
//! and [`Json`] is verified here.
use vstd::prelude::*;
use crate::http::json_result;
use crate::json::{entries_model, items_model, Json, JsonModel};

verus! {

#[verifier::external_type_specification]
#[verifier::external_body]
pub struct ExValue(serde_json::Value);

/// What a `serde_json::Value` holds.
pub uninterp spec fn value_model(value: serde_json::Value) -> JsonModel;

/// What `serde_json` reads from a text: the value that it stands for, or the
/// message with which it is rejected.
pub uninterp spec fn json_parsed(text: Seq<char>) -> Result<JsonModel, Seq<char>>;

/// The value that a text stands for, where it is JSON.
pub open spec fn json_read(text: Seq<char>) -> Option<JsonModel> {
    match json_parsed(text) {
        Ok(value) => Some(value),
        Err(_) => None,
    }
}

/// The value that is read from the text of a number, and `null` where the text
/// is none.
pub open spec fn reread_number(text: Seq<char>) -> JsonModel {
    match json_parsed(text) {
        Ok(value) => value,
        Err(_) => JsonModel::Null,
    }
}

/// A value as `serde_json` prints it on one line.
pub uninterp spec fn compact_text(value: JsonModel) -> Seq<char>;

/// A value as `serde_json` prints it over several lines.
pub uninterp spec fn pretty_text(value: JsonModel) -> Seq<char>;

/// A number with two decimals, as the standard library formats a float.
pub uninterp spec fn two_decimals_text(number: Seq<char>) -> Seq<char>;

/// A `serde_json::Value`, one level deep.
pub enum Parts {
    Null,
    Bool(bool),
    Unsigned(u64),
    Signed(i64),
    Float(String),
    Text(String),
    Array(Vec<serde_json::Value>),
    Object(Vec<(String, serde_json::Value)>),
}

/// What a list of `serde_json` values holds.
pub open spec fn values_model(items: Seq<serde_json::Value>) -> Seq<JsonModel> {
    Seq::new(items.len(), |i: int| value_model(items[i]))
}

/// What a list of keys and `serde_json` values holds, a later entry overriding
/// an earlier one.
pub open spec fn members_model(entries: Seq<(String, serde_json::Value)>) -> Map<
    Seq<char>,
    JsonModel,
>
    decreases entries.len(),
{
    if entries.len() == 0 {
        Map::empty()
    } else {
        members_model(entries.drop_last()).insert(entries.last().0@, value_model(entries.last().1))
    }
}

/// What the parts of a value stand for.
pub open spec fn parts_model(parts: Parts) -> JsonModel {
    match parts {
        Parts::Null => JsonModel::Null,
        Parts::Bool(b) => JsonModel::Bool(b),
        Parts::Unsigned(n) => JsonModel::Integer(n as int),
        Parts::Signed(n) => JsonModel::Integer(n as int),
        Parts::Float(t) => JsonModel::Float(t@),
        Parts::Text(t) => JsonModel::Text(t@),
        Parts::Array(items) => JsonModel::Array(values_model(items@)),
        Parts::Object(entries) => JsonModel::Object(members_model(entries@)),
    }
}

/// Whether no key occurs twice.
pub open spec fn distinct_keys(entries: Seq<(String, serde_json::Value)>) -> bool {
    forall|i: int, j: int|
        0 <= i < j < entries.len() ==> #[trigger] entries[i].0@ != #[trigger] entries[j].0@
}

/// Takes a `serde_json::Value` apart by its variants. A number is told apart by
/// `Number::as_u64` and `Number::as_i64`; one that is neither is kept as
/// `Number::to_string` prints it, and that text is read back as the same number.
/// An object is a map, so its keys are distinct.
#[verifier::external_body]
fn open_value(value: serde_json::Value) -> (parts: Parts)
    ensures
        parts_model(parts) == value_model(value),
        parts matches Parts::Float(t) ==> reread_number(t@) == JsonModel::Float(t@),
        parts matches Parts::Object(entries) ==> distinct_keys(entries@),
{
    match value {
        serde_json::Value::Null => Parts::Null,
        serde_json::Value::Bool(b) => Parts::Bool(b),
        serde_json::Value::Number(n) => match (n.as_u64(), n.as_i64()) {
            (Some(u), _) => Parts::Unsigned(u),
            (None, Some(i)) => Parts::Signed(i),
            (None, None) => Parts::Float(n.to_string()),
        },
        serde_json::Value::String(s) => Parts::Text(s),
        serde_json::Value::Array(items) => Parts::Array(items),
        serde_json::Value::Object(members) => Parts::Object(members.into_iter().collect()),
    }
}

/// Builds a `serde_json::Value` from its parts. A float is read back from its
/// text by `serde_json::from_str`; in an object a later entry replaces an
/// earlier one with the same key.
#[verifier::external_body]
fn close_value(parts: Parts) -> (value: serde_json::Value)
    ensures
        match parts {
            Parts::Float(t) => value_model(value) == reread_number(t@),
            _ => value_model(value) == parts_model(parts),
        },
{
    match parts {
        Parts::Null => serde_json::Value::Null,
        Parts::Bool(b) => serde_json::Value::Bool(b),
        Parts::Unsigned(n) => serde_json::Value::from(n),
        Parts::Signed(n) => serde_json::Value::from(n),
        Parts::Float(t) => serde_json::from_str(&t).unwrap_or_default(),
        Parts::Text(t) => serde_json::Value::String(t),
        Parts::Array(items) => serde_json::Value::Array(items),
        Parts::Object(entries) => serde_json::Value::Object(entries.into_iter().collect()),
    }
}

/// `serde_json::from_str` into a `serde_json::Value`. Which texts are JSON, what
/// they stand for and how the others are rejected depends on the text alone.
#[verifier::external_body]
fn read_value(text: &str) -> (value: Result<serde_json::Value, String>)
    ensures
        json_parsed(text@) == match value {
            Ok(v) => Ok(value_model(v)),
            Err(message) => Err(message@),
        },
{
    serde_json::from_str(text).map_err(|e: serde_json::Error| e.to_string())
}

/// `Display` of a `serde_json::Value`: the value on one line.
#[verifier::external_body]
fn print_value(value: &serde_json::Value) -> (text: String)
    ensures
        text@ == compact_text(value_model(*value)),
{
    value.to_string()
}

/// `serde_json::to_string_pretty` of a `serde_json::Value`, which has no value
/// that it cannot print.
#[verifier::external_body]
fn pretty_value(value: &serde_json::Value) -> (text: String)
    ensures
        text@ == pretty_text(value_model(*value)),
{
    serde_json::to_string_pretty(value).unwrap_or_default()
}

/// Reads a number with `serde_json::from_str` and formats
/// `serde_json::Number::as_f64` with two decimals. A text that is no number
/// counts as zero.
#[verifier::external_body]
pub(crate) fn two_decimals(number: &str) -> (text: String)
    ensures
        text@ == two_decimals_text(number@),
{
    let read: Option<serde_json::Number> = serde_json::from_str(number).ok();
    format!("{:.2}", read.and_then(|n| n.as_f64()).unwrap_or_default())
}

/// A value as `serde_json` holds it: a float is read back from its text.
pub open spec fn stored(value: JsonModel) -> JsonModel
    decreases value,
{
    match value {
        JsonModel::Float(t) => reread_number(t),
        JsonModel::Array(items) => JsonModel::Array(
            Seq::new(
                items.len(),
                |i: int|
                    if 0 <= i < items.len() {
                        stored(items[i])
                    } else {
                        JsonModel::Null
                    },
            ),
        ),
        JsonModel::Object(members) => JsonModel::Object(
            Map::new(
                |k: Seq<char>| members.contains_key(k),
                |k: Seq<char>|
                    if members.contains_key(k) {
                        stored(members[k])
                    } else {
                        JsonModel::Null
                    },
            ),
        ),
        _ => value,
    }
}

/// The value on one line.
pub open spec fn printed(value: JsonModel) -> Seq<char> {
    compact_text(stored(value))
}

/// The value over several lines.
pub open spec fn pretty(value: JsonModel) -> Seq<char> {
    pretty_text(stored(value))
}

proof fn lemma_members_push(
    entries: Seq<(String, serde_json::Value)>,
    entry: (String, serde_json::Value),
)
    ensures
        members_model(entries.push(entry)) == members_model(entries).insert(
            entry.0@,
            value_model(entry.1),
        ),
{
    assert(entries.push(entry).drop_last() =~= entries);
}

proof fn lemma_distinct_member(entries: Seq<(String, serde_json::Value)>, i: int)
    requires
        distinct_keys(entries),
        0 <= i < entries.len(),
    ensures
        members_model(entries).contains_key(entries[i].0@),
        members_model(entries)[entries[i].0@] == value_model(entries[i].1),
        members_model(entries).dom().finite(),
    decreases entries.len(),
{
    let rest = entries.drop_last();
    lemma_members_finite(entries);
    if i < rest.len() {
        assert(distinct_keys(rest));
        lemma_distinct_member(rest, i);
        assert(rest[i] == entries[i]);
        assert(entries[i].0@ != entries[entries.len() - 1].0@);
    }
}

proof fn lemma_members_finite(entries: Seq<(String, serde_json::Value)>)
    ensures
        members_model(entries).dom().finite(),
    decreases entries.len(),
{
    if entries.len() > 0 {
        lemma_members_finite(entries.drop_last());
    }
}

/// The library's value of a `serde_json::Value`.
pub fn json_of_value(value: serde_json::Value) -> (json: Json)
    ensures
        json@ == value_model(value),
        stored(json@) == json@,
    decreases value_model(value),
{
    let parts = open_value(value);
    let ghost whole = value_model(value);
    let ghost opened = parts;
    match parts {
        Parts::Null => Json::Null,
        Parts::Bool(b) => Json::Bool(b),
        Parts::Unsigned(n) => Json::Unsigned(n),
        Parts::Signed(n) => Json::Signed(n),
        Parts::Float(t) => Json::Float(t),
        Parts::Text(t) => Json::Text(t),
        Parts::Array(items) => {
            let mut rest = items;
            let mut list: Vec<Json> = Vec::new();
            while rest.len() > 0
                invariant
                    whole == JsonModel::Array(values_model(items@)),
                    whole == value_model(value),
                    rest@.len() + list@.len() == items@.len(),
                    rest@ == items@.skip(list@.len() as int),
                    forall|k: int|
                        0 <= k < list@.len() ==> (#[trigger] list@[k]).model() == value_model(
                            items@[k],
                        ),
                    forall|k: int|
                        0 <= k < list@.len() ==> stored((#[trigger] list@[k]).model())
                            == list@[k].model(),
                decreases rest@.len(),
            {
                let ghost k = list@.len() as int;
                let item = rest.remove(0);
                proof {
                    assert(item == items@[k]);
                    assert(values_model(items@)[k] == value_model(item));
                    assert(decreases_to!(whole => whole->Array_0));
                    assert(decreases_to!(whole->Array_0 => whole->Array_0[k]));
                }
                list.push(json_of_value(item));
                assert(rest@ =~= items@.skip(k + 1));
            }
            proof {
                assert(items_model(list@) =~= values_model(items@));
                let model = JsonModel::Array(items_model(list@));
                assert forall|k: int| 0 <= k < list@.len() implies stored(model)->Array_0[k]
                    == #[trigger] items_model(list@)[k] by {
                    assert(stored(list@[k].model()) == list@[k].model());
                }
                assert(stored(model)->Array_0 =~= items_model(list@));
            }
            Json::Array(list)
        },
        Parts::Object(entries) => {
            let mut rest = entries;
            let mut list: Vec<(String, Json)> = Vec::new();
            proof {
                assert(entries@.take(0) =~= Seq::empty());
                assert(stored(JsonModel::Object(Map::empty()))->Object_0 =~= Map::empty());
            }
            while rest.len() > 0
                invariant
                    whole == JsonModel::Object(members_model(entries@)),
                    whole == value_model(value),
                    distinct_keys(entries@),
                    rest@.len() + list@.len() == entries@.len(),
                    rest@ == entries@.skip(list@.len() as int),
                    entries_model(list@) == members_model(entries@.take(list@.len() as int)),
                    stored(JsonModel::Object(entries_model(list@))) == JsonModel::Object(
                        entries_model(list@),
                    ),
                decreases rest@.len(),
            {
                let ghost k = list@.len() as int;
                let (key, item) = rest.remove(0);
                proof {
                    assert((key, item) == entries@[k]);
                    lemma_distinct_member(entries@, k);
                    assert(decreases_to!(whole => whole->Object_0));
                    assert(decreases_to!(whole->Object_0 => whole->Object_0[key@]));
                }
                let member = json_of_value(item);
                proof {
                    assert(list@.push((key, member)).drop_last() =~= list@);
                    assert(entries@.take(k + 1).drop_last() =~= entries@.take(k));
                    lemma_stored_insert(
                        entries_model(list@),
                        entries_model(list@),
                        key@,
                        member.model(),
                    );
                }
                list.push((key, member));
                assert(rest@ =~= entries@.skip(k + 1));
            }
            assert(entries@.take(entries@.len() as int) =~= entries@);
            Json::Object(list)
        },
    }
}

proof fn lemma_stored_insert(
    members: Map<Seq<char>, JsonModel>,
    kept: Map<Seq<char>, JsonModel>,
    key: Seq<char>,
    member: JsonModel,
)
    requires
        stored(JsonModel::Object(members)) == JsonModel::Object(kept),
    ensures
        stored(JsonModel::Object(members.insert(key, member))) == JsonModel::Object(
            kept.insert(key, stored(member)),
        ),
{
    let after = stored(JsonModel::Object(members.insert(key, member)));
    assert(after->Object_0 =~= kept.insert(key, stored(member)));
}

/// The `serde_json::Value` of the library's value.
pub fn value_of_json(json: &Json) -> (value: serde_json::Value)
    ensures
        value_model(value) == stored(json@),
    decreases json,
{
    match json {
        Json::Null => close_value(Parts::Null),
        Json::Bool(b) => close_value(Parts::Bool(*b)),
        Json::Unsigned(n) => close_value(Parts::Unsigned(*n)),
        Json::Signed(n) => close_value(Parts::Signed(*n)),
        Json::Float(t) => close_value(Parts::Float(t.clone())),
        Json::Text(t) => close_value(Parts::Text(t.clone())),
        Json::Array(items) => {
            let mut list: Vec<serde_json::Value> = Vec::new();
            let mut i: usize = 0;
            while i < items.len()
                invariant
                    i <= items.len(),
                    list@.len() == i,
                    *json == Json::Array(*items),
                    forall|k: int|
                        0 <= k < i ==> value_model(#[trigger] list@[k]) == stored(
                            items@[k].model(),
                        ),
                decreases items.len() - i,
            {
                proof {
                    assert(decreases_to!(*json => json->Array_0));
                    assert(decreases_to!(*items => items@));
                    assert(decreases_to!(items@ => items@[i as int]));
                }
                list.push(value_of_json(&items[i]));
                i = i + 1;
            }
            assert(values_model(list@) =~= stored(json@)->Array_0);
            close_value(Parts::Array(list))
        },
        Json::Object(entries) => {
            let mut list: Vec<(String, serde_json::Value)> = Vec::new();
            let mut i: usize = 0;
            proof {
                assert(entries@.take(0) =~= Seq::empty());
                assert(stored(JsonModel::Object(Map::empty()))->Object_0 =~= Map::empty());
            }
            while i < entries.len()
                invariant
                    i <= entries.len(),
                    *json == Json::Object(*entries),
                    stored(JsonModel::Object(entries_model(entries@.take(i as int))))
                        == JsonModel::Object(members_model(list@)),
                decreases entries.len() - i,
            {
                proof {
                    assert(decreases_to!(*json => json->Object_0));
                    assert(decreases_to!(*entries => entries@));
                    assert(decreases_to!(entries@ => entries@[i as int]));
                    assert(decreases_to!(entries@[i as int] => entries@[i as int].1));
                }
                let member = value_of_json(&entries[i].1);
                let key = entries[i].0.clone();
                proof {
                    lemma_members_push(list@, (key, member));
                    assert(entries@.take(i + 1).drop_last() =~= entries@.take(i as int));
                    lemma_stored_insert(
                        entries_model(entries@.take(i as int)),
                        members_model(list@),
                        key@,
                        entries@[i as int].1.model(),
                    );
                }
                list.push((key, member));
                i = i + 1;
            }
            assert(entries@.take(entries.len() as int) =~= entries@);
            close_value(Parts::Object(list))
        },
    }
}

/// Reads a JSON text.
pub fn parse_json(text: &str) -> (json: Result<Json, String>)
    ensures
        json_result(json) == json_parsed(text@),
        json matches Ok(value) ==> stored(value@) == value@,
{
    match read_value(text) {
        Ok(value) => Ok(json_of_value(value)),
        Err(message) => Err(message),
    }
}

/// Prints a value on one line.
pub fn print_json(json: &Json) -> (text: String)
    ensures
        text@ == printed(json@),
{
    print_value(&value_of_json(json))
}

/// Prints a value over several lines.
pub fn pretty_json(json: &Json) -> (text: String)
    ensures
        text@ == pretty(json@),
{
    pretty_value(&value_of_json(json))
}

/// A value is printed as it is: texts, integers and truth values stay, and arrays
/// and objects keep what they hold; only a float is read anew from its text.
pub proof fn law_stored_value_keeps_what_it_holds(value: JsonModel, key: Seq<char>, i: int)
    ensures
        value is Null || value is Bool || value is Integer || value is Text ==> stored(value)
            == value,
        value is Array ==> {
            &&& stored(value) is Array
            &&& stored(value)->Array_0.len() == value->Array_0.len()
            &&& 0 <= i < value->Array_0.len() ==> stored(value)->Array_0[i] == stored(
                value->Array_0[i],
            )
        },
        value is Object ==> {
            &&& stored(value) is Object
            &&& stored(value)->Object_0.contains_key(key) <==> value->Object_0.contains_key(key)
            &&& value->Object_0.contains_key(key) ==> stored(value)->Object_0[key] == stored(
                value->Object_0[key],
            )
        },
        printed(value) == compact_text(stored(value)),
        pretty(value) == pretty_text(stored(value)),
{
}

} // verus!
