//! JSON values: a plain type for the tools to read and build, and its
//! mathematical model.
use vstd::prelude::*;
use crate::text::{decimal, i64_text, opt_str, same, signed_decimal, u64_text};

verus! {

/// A JSON value. In an object a later entry overrides an earlier one with the
/// same key.
#[derive(Debug)]
pub enum Json {
    Null,
    Bool(bool),
    /// An integer that is not negative.
    Unsigned(u64),
    /// An integer.
    Signed(i64),
    /// Any other number, as it is printed.
    Float(String),
    Text(String),
    Array(Vec<Json>),
    Object(Vec<(String, Json)>),
}

/// What a JSON value stands for.
pub enum JsonModel {
    Null,
    Bool(bool),
    Integer(int),
    Float(Seq<char>),
    Text(Seq<char>),
    Array(Seq<JsonModel>),
    Object(Map<Seq<char>, JsonModel>),
}

impl Json {
    /// The value that this JSON stands for.
    pub open spec fn model(self) -> JsonModel
        decreases self,
    {
        match self {
            Json::Null => JsonModel::Null,
            Json::Bool(b) => JsonModel::Bool(b),
            Json::Unsigned(n) => JsonModel::Integer(n as int),
            Json::Signed(n) => JsonModel::Integer(n as int),
            Json::Float(t) => JsonModel::Float(t@),
            Json::Text(t) => JsonModel::Text(t@),
            Json::Array(items) => JsonModel::Array(items_model(items@)),
            Json::Object(entries) => JsonModel::Object(entries_model(entries@)),
        }
    }
}

/// The values of a list of items.
pub open spec fn items_model(items: Seq<Json>) -> Seq<JsonModel>
    decreases items,
{
    Seq::new(
        items.len(),
        |i: int|
            if 0 <= i < items.len() {
                items[i].model()
            } else {
                JsonModel::Null
            },
    )
}

/// The members of an object, a later entry overriding an earlier one.
pub open spec fn entries_model(entries: Seq<(String, Json)>) -> Map<Seq<char>, JsonModel>
    decreases entries,
{
    if entries.len() == 0 {
        Map::empty()
    } else {
        entries_model(entries.drop_last()).insert(entries.last().0@, entries.last().1.model())
    }
}

impl View for Json {
    type V = JsonModel;

    open spec fn view(&self) -> JsonModel {
        self.model()
    }
}

/// The member of an object with a given key.
pub open spec fn field(value: JsonModel, key: Seq<char>) -> Option<JsonModel> {
    match value {
        JsonModel::Object(members) => if members.contains_key(key) {
            Some(members[key])
        } else {
            None
        },
        _ => None,
    }
}

/// The text that a value is, if it is one.
pub open spec fn text_of(value: JsonModel) -> Option<Seq<char>> {
    match value {
        JsonModel::Text(t) => Some(t),
        _ => None,
    }
}

/// The 64-bit unsigned integer that a value is, if it is one.
pub open spec fn unsigned_of(value: JsonModel) -> Option<u64> {
    match value {
        JsonModel::Integer(n) => if 0 <= n <= u64::MAX {
            Some(n as u64)
        } else {
            None
        },
        _ => None,
    }
}

/// The 64-bit signed integer that a value is, if it is one.
pub open spec fn signed_of(value: JsonModel) -> Option<i64> {
    match value {
        JsonModel::Integer(n) => if i64::MIN <= n <= i64::MAX {
            Some(n as i64)
        } else {
            None
        },
        _ => None,
    }
}

/// The truth value that a value is, if it is one.
pub open spec fn bool_of(value: JsonModel) -> Option<bool> {
    match value {
        JsonModel::Bool(b) => Some(b),
        _ => None,
    }
}

/// The text member of an object with a given key.
pub open spec fn text_at(value: JsonModel, key: Seq<char>) -> Option<Seq<char>> {
    match field(value, key) {
        Some(member) => text_of(member),
        None => None,
    }
}

/// The unsigned integer member of an object with a given key.
pub open spec fn unsigned_at(value: JsonModel, key: Seq<char>) -> Option<u64> {
    match field(value, key) {
        Some(member) => unsigned_of(member),
        None => None,
    }
}

/// The signed integer member of an object with a given key.
pub open spec fn signed_at(value: JsonModel, key: Seq<char>) -> Option<i64> {
    match field(value, key) {
        Some(member) => signed_of(member),
        None => None,
    }
}

/// The truth value member of an object with a given key.
pub open spec fn bool_at(value: JsonModel, key: Seq<char>) -> Option<bool> {
    match field(value, key) {
        Some(member) => bool_of(member),
        None => None,
    }
}

/// The unsigned integer member of an object with a given key, or a default.
pub open spec fn number_or(value: JsonModel, key: Seq<char>, default: u64) -> u64 {
    match unsigned_at(value, key) {
        Some(n) => n,
        None => default,
    }
}

/// The items of an array.
pub open spec fn items_of(value: JsonModel) -> Option<Seq<JsonModel>> {
    match value {
        JsonModel::Array(items) => Some(items),
        _ => None,
    }
}

proof fn lemma_entries_push(entries: Seq<(String, Json)>, entry: (String, Json))
    ensures
        entries_model(entries.push(entry)) == entries_model(entries).insert(
            entry.0@,
            entry.1.model(),
        ),
{
    assert(entries.push(entry).drop_last() =~= entries);
}

impl Json {
    /// A text value.
    pub fn text(s: &str) -> (value: Json)
        ensures
            value@ == JsonModel::Text(s@),
    {
        Json::Text(s.to_string())
    }

    /// The member with a given key, where this is an object that has one.
    pub fn get(&self, key: &str) -> (member: Option<&Json>)
        ensures
            match member {
                Some(m) => field(self@, key@) == Some(m@),
                None => field(self@, key@) is None,
            },
    {
        match self {
            Json::Object(entries) => {
                let mut i: usize = entries.len();
                assert(entries@.take(i as int) =~= entries@);
                while i > 0
                    invariant
                        i <= entries.len(),
                        *self == Json::Object(*entries),
                        entries_model(entries@).contains_key(key@) == entries_model(
                            entries@.take(i as int),
                        ).contains_key(key@),
                        entries_model(entries@).contains_key(key@) ==> entries_model(
                            entries@,
                        )[key@] == entries_model(entries@.take(i as int))[key@],
                    decreases i,
                {
                    i = i - 1;
                    assert(entries@.take(i + 1).drop_last() =~= entries@.take(i as int));
                    assert(entries@.take(i + 1).last() == entries@[i as int]);
                    if same(entries[i].0.as_str(), key) {
                        return Some(&entries[i].1);
                    }
                }
                assert(entries@.take(0) =~= Seq::empty());
                None
            },
            _ => None,
        }
    }

    /// The text that this is, if it is one.
    pub fn as_str(&self) -> (text: Option<&str>)
        ensures
            opt_str(text) == text_of(self@),
    {
        match self {
            Json::Text(t) => Some(t.as_str()),
            _ => None,
        }
    }

    /// The unsigned integer that this is, if it is one.
    pub fn as_u64(&self) -> (number: Option<u64>)
        ensures
            number == unsigned_of(self@),
    {
        match self {
            Json::Unsigned(n) => Some(*n),
            Json::Signed(n) => if *n >= 0 {
                Some(*n as u64)
            } else {
                None
            },
            _ => None,
        }
    }

    /// The signed integer that this is, if it is one.
    pub fn as_i64(&self) -> (number: Option<i64>)
        ensures
            number == signed_of(self@),
    {
        match self {
            Json::Unsigned(n) => if *n <= i64::MAX as u64 {
                Some(*n as i64)
            } else {
                None
            },
            Json::Signed(n) => Some(*n),
            _ => None,
        }
    }

    /// The truth value that this is, if it is one.
    pub fn as_bool(&self) -> (truth: Option<bool>)
        ensures
            truth == bool_of(self@),
    {
        match self {
            Json::Bool(b) => Some(*b),
            _ => None,
        }
    }

    /// The items of this array, if it is one.
    pub fn as_array(&self) -> (items: Option<&Vec<Json>>)
        ensures
            match items {
                Some(list) => items_of(self@) == Some(items_model(list@)),
                None => items_of(self@) is None,
            },
    {
        match self {
            Json::Array(items) => Some(items),
            _ => None,
        }
    }

    /// Whether this is `null`.
    pub fn is_null(&self) -> (null: bool)
        ensures
            null == (self@ == JsonModel::Null),
    {
        match self {
            Json::Null => true,
            _ => false,
        }
    }

    /// The text member with a given key.
    pub fn str_at(&self, key: &str) -> (text: Option<&str>)
        ensures
            opt_str(text) == text_at(self@, key@),
    {
        match self.get(key) {
            Some(member) => member.as_str(),
            None => None,
        }
    }

    /// The unsigned integer member with a given key.
    pub fn u64_at(&self, key: &str) -> (number: Option<u64>)
        ensures
            number == unsigned_at(self@, key@),
    {
        match self.get(key) {
            Some(member) => member.as_u64(),
            None => None,
        }
    }

    /// The unsigned integer member with a given key, or a default.
    pub fn u64_or(&self, key: &str, default: u64) -> (number: u64)
        ensures
            number == number_or(self@, key@, default),
    {
        match self.u64_at(key) {
            Some(n) => n,
            None => default,
        }
    }

    /// The signed integer member with a given key.
    pub fn i64_at(&self, key: &str) -> (number: Option<i64>)
        ensures
            number == signed_at(self@, key@),
    {
        match self.get(key) {
            Some(member) => member.as_i64(),
            None => None,
        }
    }

    /// The truth value member with a given key.
    pub fn bool_at(&self, key: &str) -> (truth: Option<bool>)
        ensures
            truth == bool_at(self@, key@),
    {
        match self.get(key) {
            Some(member) => member.as_bool(),
            None => None,
        }
    }
}

impl Clone for Json {
    fn clone(&self) -> (copy: Json)
        ensures
            copy@ == self@,
        decreases self,
    {
        match self {
            Json::Null => Json::Null,
            Json::Bool(b) => Json::Bool(*b),
            Json::Unsigned(n) => Json::Unsigned(*n),
            Json::Signed(n) => Json::Signed(*n),
            Json::Float(t) => Json::Float(t.clone()),
            Json::Text(t) => Json::Text(t.clone()),
            Json::Array(items) => {
                let mut list: Vec<Json> = Vec::new();
                let mut i: usize = 0;
                while i < items.len()
                    invariant
                        i <= items.len(),
                        list@.len() == i,
                        *self == Json::Array(*items),
                        forall|k: int| 0 <= k < i ==> (#[trigger] list@[k]).model() == items@[k].model(),
                    decreases items.len() - i,
                {
                    proof {
                        assert(decreases_to!(*self => self->Array_0));
                        assert(decreases_to!(*items => items@));
                        assert(decreases_to!(items@ => items@[i as int]));
                    }
                    list.push(items[i].clone());
                    i = i + 1;
                }
                assert(items_model(list@) =~= items_model(items@));
                Json::Array(list)
            },
            Json::Object(entries) => {
                let mut list: Vec<(String, Json)> = Vec::new();
                let mut i: usize = 0;
                assert(entries@.take(0) =~= Seq::empty());
                while i < entries.len()
                    invariant
                        i <= entries.len(),
                        *self == Json::Object(*entries),
                        entries_model(list@) == entries_model(entries@.take(i as int)),
                    decreases entries.len() - i,
                {
                    proof {
                        assert(decreases_to!(*self => self->Object_0));
                        assert(decreases_to!(*entries => entries@));
                        assert(decreases_to!(entries@ => entries@[i as int]));
                        assert(decreases_to!(entries@[i as int] => entries@[i as int].1));
                    }
                    let member = entries[i].1.clone();
                    let key = entries[i].0.clone();
                    proof {
                        lemma_entries_push(list@, (key, member));
                        assert(entries@.take(i + 1).drop_last() =~= entries@.take(i as int));
                    }
                    list.push((key, member));
                    i = i + 1;
                }
                assert(entries@.take(entries.len() as int) =~= entries@);
                Json::Object(list)
            },
        }
    }
}

/// An object under construction.
#[derive(Debug)]
pub struct JsonObject {
    entries: Vec<(String, Json)>,
}

impl View for JsonObject {
    type V = Map<Seq<char>, JsonModel>;

    closed spec fn view(&self) -> Map<Seq<char>, JsonModel> {
        entries_model(self.entries@)
    }
}

/// The members with a text member set, where there is one.
pub open spec fn with_text(
    members: Map<Seq<char>, JsonModel>,
    key: Seq<char>,
    text: Option<Seq<char>>,
) -> Map<Seq<char>, JsonModel> {
    match text {
        Some(t) => members.insert(key, JsonModel::Text(t)),
        None => members,
    }
}

impl JsonObject {
    /// An object without members.
    pub fn new() -> (object: JsonObject)
        ensures
            object@ == Map::<Seq<char>, JsonModel>::empty(),
    {
        JsonObject { entries: Vec::new() }
    }

    /// Sets a member.
    pub fn set(&mut self, key: &str, value: Json)
        ensures
            final(self)@ == old(self)@.insert(key@, value@),
    {
        let key = key.to_string();
        proof {
            lemma_entries_push(self.entries@, (key, value));
        }
        self.entries.push((key, value));
    }

    /// Sets a text member.
    pub fn set_text(&mut self, key: &str, text: &str)
        ensures
            final(self)@ == old(self)@.insert(key@, JsonModel::Text(text@)),
    {
        self.set(key, Json::text(text));
    }

    /// Sets a text member where there is a text for it.
    pub fn set_some_text(&mut self, key: &str, text: Option<&str>)
        ensures
            final(self)@ == with_text(old(self)@, key@, opt_str(text)),
    {
        if let Some(t) = text {
            self.set_text(key, t);
        }
    }

    /// The finished object.
    pub fn into_json(self) -> (value: Json)
        ensures
            value@ == JsonModel::Object(self@),
    {
        Json::Object(self.entries)
    }
}

/// A list of texts as JSON.
pub open spec fn text_list(items: Seq<Seq<char>>) -> JsonModel {
    JsonModel::Array(Seq::new(items.len(), |i: int| JsonModel::Text(items[i])))
}

/// The character sequences of a list of string slices.
pub open spec fn str_texts(items: Seq<&str>) -> Seq<Seq<char>> {
    Seq::new(items.len(), |i: int| items[i]@)
}

/// A list of texts as JSON.
pub fn json_texts(items: &Vec<&str>) -> (value: Json)
    ensures
        value@ == text_list(str_texts(items@)),
{
    let mut list: Vec<Json> = Vec::new();
    let mut i: usize = 0;
    while i < items.len()
        invariant
            i <= items.len(),
            list@.len() == i,
            forall|k: int| 0 <= k < i ==> (#[trigger] list@[k]).model() == JsonModel::Text(items@[k]@),
        decreases items.len() - i,
    {
        list.push(Json::text(items[i]));
        i = i + 1;
    }
    assert(items_model(list@) =~= Seq::new(
        items@.len(),
        |k: int| JsonModel::Text(str_texts(items@)[k]),
    ));
    Json::Array(list)
}

/// The text of a number, if the value is one.
pub open spec fn number_of(value: JsonModel) -> Option<Seq<char>> {
    match value {
        JsonModel::Integer(n) => Some(signed_decimal(n)),
        JsonModel::Float(t) => Some(t),
        _ => None,
    }
}

/// Whether a number is greater than zero, read off its text: it has no minus
/// sign, and a digit other than zero before the exponent.
pub open spec fn is_positive_number(text: Seq<char>) -> bool {
    &&& !(text.len() > 0 && text[0] == '-')
    &&& exists|i: int| #[trigger] significant_digit(text, i)
}

/// Whether the character at `i` is a digit other than zero that stands before
/// the exponent.
pub open spec fn significant_digit(text: Seq<char>, i: int) -> bool {
    &&& 0 <= i < text.len()
    &&& '1' <= text[i] <= '9'
    &&& forall|k: int| 0 <= k < i ==> #[trigger] text[k] != 'e' && text[k] != 'E'
}

impl Json {
    /// The text of the number that this is, if it is one.
    pub fn number_text(&self) -> (text: Option<String>)
        ensures
            crate::text::opt_string(text) == number_of(self@),
    {
        match self {
            Json::Unsigned(n) => Some(u64_text(*n)),
            Json::Signed(n) => Some(i64_text(*n)),
            Json::Float(t) => Some(t.clone()),
            _ => None,
        }
    }
}

/// Whether the number that `text` stands for is greater than zero.
pub fn is_positive(text: &str) -> (positive: bool)
    ensures
        positive == is_positive_number(text@),
{
    let chars = crate::text::chars_of(text);
    if chars.len() > 0 && chars[0] == '-' {
        return false;
    }
    let mut i: usize = 0;
    while i < chars.len()
        invariant
            chars@ == text@,
            i <= chars.len(),
            !(text@.len() > 0 && text@[0] == '-'),
            forall|k: int| 0 <= k < i ==> #[trigger] text@[k] != 'e' && text@[k] != 'E',
            forall|k: int| 0 <= k < i ==> !significant_digit(text@, k),
        decreases chars.len() - i,
    {
        let c = chars[i];
        if c == 'e' || c == 'E' {
            assert forall|k: int| !significant_digit(text@, k) by {
                if k > i {
                    assert(text@[i as int] == c);
                }
            }
            return false;
        }
        if '1' <= c && c <= '9' {
            assert(significant_digit(text@, i as int));
            return true;
        }
        i = i + 1;
    }
    false
}

/// A member of an object is found by its key, and read as what it is and as
/// nothing else.
pub proof fn law_members_are_read_by_kind(
    members: Map<Seq<char>, JsonModel>,
    key: Seq<char>,
    t: Seq<char>,
    b: bool,
    n: u64,
    m: i64,
)
    ensures
        ({
            let object = JsonModel::Object(members);
            let there = members.contains_key(key);
            &&& field(object, key) is Some <==> there
            &&& there ==> field(object, key) == Some(members[key])
            &&& text_at(object, key) == Some(t) <==> there && members[key] == JsonModel::Text(t)
            &&& text_at(object, key) is Some <==> there && members[key] is Text
            &&& bool_at(object, key) == Some(b) <==> there && members[key] == JsonModel::Bool(b)
            &&& unsigned_at(object, key) == Some(n) <==> there && members[key]
                    == JsonModel::Integer(n as int)
            &&& signed_at(object, key) == Some(m) <==> there && members[key]
                == JsonModel::Integer(m as int)
        }),
{
}

/// A value that is no object has no members, and one that is no array has no
/// items; an array has those that it is made of.
pub proof fn law_only_objects_have_members(value: JsonModel, key: Seq<char>)
    ensures
        value !is Object ==> field(value, key) is None && text_at(value, key) is None
            && unsigned_at(value, key) is None && signed_at(value, key) is None && bool_at(
            value,
            key,
        ) is None,
        value !is Array <==> items_of(value) is None,
        value is Array ==> items_of(value) == Some(value->Array_0),
{
}

/// A number that is there wins over the default, and only a number does.
pub proof fn law_default_fills_in(value: JsonModel, key: Seq<char>, default: u64)
    ensures
        match field(value, key) {
            Some(JsonModel::Integer(n)) => 0 <= n <= u64::MAX ==> number_or(value, key, default)
                == n,
            _ => number_or(value, key, default) == default,
        },
{
}

/// Setting an optional text member changes that member and no other, and
/// changes nothing where there is no text.
pub proof fn law_optional_member_is_set(
    members: Map<Seq<char>, JsonModel>,
    key: Seq<char>,
    text: Option<Seq<char>>,
    other: Seq<char>,
)
    ensures
        ({
            let before = JsonModel::Object(members);
            let after = JsonModel::Object(with_text(members, key, text));
            &&& text is Some ==> text_at(after, key) == text
            &&& text is None ==> after == before
            &&& other != key ==> field(after, other) == field(before, other)
        }),
{
}

/// Of several entries with one key the last one counts.
pub proof fn law_last_entry_counts(entries: Seq<(String, Json)>, i: int)
    requires
        0 <= i < entries.len(),
        forall|j: int| i < j < entries.len() ==> (#[trigger] entries[j]).0@ != entries[i].0@,
    ensures
        field(JsonModel::Object(entries_model(entries)), entries[i].0@) == Some(entries[i].1@),
    decreases entries.len(),
{
    let last: int = entries.len() - 1;
    if i < last {
        let shorter = entries.drop_last();
        assert forall|j: int| i < j < shorter.len() implies (#[trigger] shorter[j]).0@
            != shorter[i].0@ by {
            assert(shorter[j] == entries[j]);
        }
        law_last_entry_counts(shorter, i);
        assert(entries[last].0@ != entries[i].0@);
    }
}

/// An array has its items in their order, each as what it stands for.
pub proof fn law_items_keep_their_order(items: Seq<Json>, i: int)
    requires
        0 <= i < items.len(),
    ensures
        items_model(items).len() == items.len(),
        items_model(items)[i] == items[i]@,
{
}

/// An object has a member for each key among its entries, and no other.
pub proof fn law_members_come_from_entries(entries: Seq<(String, Json)>, key: Seq<char>)
    ensures
        entries_model(entries).contains_key(key) <==> exists|i: int|
            0 <= i < entries.len() && (#[trigger] entries[i]).0@ == key,
    decreases entries.len(),
{
    if entries.len() > 0 {
        let shorter = entries.drop_last();
        law_members_come_from_entries(shorter, key);
        if entries_model(shorter).contains_key(key) {
            let i = choose|i: int| 0 <= i < shorter.len() && (#[trigger] shorter[i]).0@ == key;
            assert(entries[i].0@ == key);
        }
        if exists|i: int| 0 <= i < entries.len() && (#[trigger] entries[i]).0@ == key {
            let i = choose|i: int| 0 <= i < entries.len() && (#[trigger] entries[i]).0@ == key;
            if i < shorter.len() {
                assert(shorter[i].0@ == key);
            }
        }
        assert(entries.last() == entries[entries.len() - 1]);
    }
}

/// An integer is written as a positive number exactly when it is one.
pub proof fn law_positive_integer(n: int)
    ensures
        is_positive_number(signed_decimal(n)) <==> n > 0,
{
    if n < 0 {
        assert(signed_decimal(n)[0] == '-');
    } else {
        lemma_nonzero_digit(n as nat);
    }
}

proof fn lemma_nonzero_digit(n: nat)
    ensures
        n > 0 <==> exists|i: int| #[trigger] significant_digit(decimal(n), i),
        forall|i: int|
            0 <= i < decimal(n).len() ==> '0' <= #[trigger] decimal(n)[i] && decimal(n)[i] <= '9',
    decreases n,
{
    let text = decimal(n);
    if n < 10 {
        if n > 0 {
            assert(significant_digit(text, 0));
        }
    } else {
        let head = decimal(n / 10);
        lemma_nonzero_digit(n / 10);
        let i = choose|i: int| #[trigger] significant_digit(head, i);
        assert(significant_digit(head, i));
        assert(text[i] == head[i]);
        assert forall|k: int| 0 <= k < i implies #[trigger] text[k] != 'e' && text[k] != 'E' by {
            assert(text[k] == head[k]);
        }
        assert(significant_digit(text, i));
        assert forall|k: int| 0 <= k < text.len() implies '0' <= #[trigger] text[k] && text[k]
            <= '9' by {
            if k < head.len() {
                assert(text[k] == head[k]);
            }
        }
    }
}

/// A number without a sign and an exponent is positive exactly when one of its
/// digits is not zero.
pub proof fn law_positive_fraction(text: Seq<char>)
    requires
        forall|i: int|
            0 <= i < text.len() ==> '0' <= #[trigger] text[i] <= '9' || text[i] == '.',
    ensures
        is_positive_number(text) <==> exists|i: int|
            0 <= i < text.len() && '1' <= #[trigger] text[i] <= '9',
{
    if exists|i: int| 0 <= i < text.len() && '1' <= #[trigger] text[i] <= '9' {
        let i = choose|i: int| 0 <= i < text.len() && '1' <= #[trigger] text[i] <= '9';
        assert(significant_digit(text, i));
    }
    if exists|i: int| #[trigger] significant_digit(text, i) {
        let i = choose|i: int| #[trigger] significant_digit(text, i);
        assert('1' <= text[i] <= '9');
    }
}

} // verus!
