//! JSON documents as plain data, and the lookups the decoder performs on them.

use vstd::prelude::*;
use crate::text::same_text;

verus! {

/// The mathematical value of a JSON document.
///
/// A number is kept as its decimal text. An object is the list of its
/// entries, key and value, in the order in which they were handed over.
pub enum JsonModel {
    Null,
    Bool(bool),
    Number(Seq<char>),
    Text(Seq<char>),
    Array(Seq<JsonModel>),
    Object(Seq<(Seq<char>, JsonModel)>),
}

/// A JSON document held as plain values.
#[derive(Debug, PartialEq)]
pub enum Json {
    Null,
    Bool(bool),
    Number(String),
    Text(String),
    Array(Vec<Json>),
    Object(Vec<(String, Json)>),
}

/// The mathematical value of a document.
pub open spec fn model_of(doc: Json) -> JsonModel
    decreases doc,
{
    match doc {
        Json::Null => JsonModel::Null,
        Json::Bool(b) => JsonModel::Bool(b),
        Json::Number(n) => JsonModel::Number(n@),
        Json::Text(s) => JsonModel::Text(s@),
        Json::Array(items) => JsonModel::Array(
            Seq::new(
                items@.len(),
                |i: int|
                    if 0 <= i < items@.len() {
                        model_of(items@[i])
                    } else {
                        JsonModel::Null
                    },
            ),
        ),
        Json::Object(entries) => JsonModel::Object(
            Seq::new(
                entries@.len(),
                |i: int|
                    if 0 <= i < entries@.len() {
                        (entries@[i].0@, model_of(entries@[i].1))
                    } else {
                        (Seq::<char>::empty(), JsonModel::Null)
                    },
            ),
        ),
    }
}

impl View for Json {
    type V = JsonModel;

    open spec fn view(&self) -> JsonModel {
        model_of(*self)
    }
}

/// The models of a list of documents, element by element.
pub open spec fn items_model(items: Seq<Json>) -> Seq<JsonModel> {
    Seq::new(items.len(), |i: int| items[i]@)
}

/// The models of an object's entries, entry by entry.
pub open spec fn entries_model(entries: Seq<(String, Json)>) -> Seq<(Seq<char>, JsonModel)> {
    Seq::new(entries.len(), |i: int| (entries[i].0@, entries[i].1@))
}

/// Index of the first entry at or after `from` whose key is `key`, or the
/// number of entries when there is none.
pub open spec fn position(entries: Seq<(Seq<char>, JsonModel)>, key: Seq<char>, from: int) -> int
    decreases entries.len() - from,
{
    if from < 0 || from >= entries.len() {
        entries.len() as int
    } else if entries[from].0 == key {
        from
    } else {
        position(entries, key, from + 1)
    }
}

/// The value of the first entry whose key is `key`.
pub open spec fn field(entries: Seq<(Seq<char>, JsonModel)>, key: Seq<char>) -> Option<JsonModel> {
    let at = position(entries, key, 0);
    if at < entries.len() {
        Some(entries[at].1)
    } else {
        None
    }
}

/// The predicate "this entry's key is none of `modeled`".
pub open spec fn is_open(modeled: Set<Seq<char>>) -> spec_fn((Seq<char>, JsonModel)) -> bool {
    |entry: (Seq<char>, JsonModel)| !modeled.contains(entry.0)
}

/// The entries whose keys are none of `modeled`, in document order.
pub open spec fn open_fields(
    entries: Seq<(Seq<char>, JsonModel)>,
    modeled: Set<Seq<char>>,
) -> Seq<(Seq<char>, JsonModel)> {
    entries.filter(is_open(modeled))
}

/// An array's model lists the models of its items, and an object's model
/// lists the models of its entries.
pub proof fn lemma_view_of_children(doc: Json)
    ensures
        doc matches Json::Array(items) ==> doc@ == JsonModel::Array(items_model(items@)),
        doc matches Json::Object(entries) ==> doc@ == JsonModel::Object(entries_model(entries@)),
{
    match doc {
        Json::Array(items) => {
            assert(doc@->Array_0 =~= items_model(items@));
        },
        Json::Object(entries) => {
            assert(doc@->Object_0 =~= entries_model(entries@));
        },
        _ => {},
    }
}

/// `position` stays inside the entries, starts no earlier than `from`, and
/// names an entry with the key when it names one at all.
pub proof fn lemma_position(entries: Seq<(Seq<char>, JsonModel)>, key: Seq<char>, from: int)
    requires
        0 <= from <= entries.len(),
    ensures
        from <= position(entries, key, from) <= entries.len(),
        position(entries, key, from) < entries.len() ==> entries[position(entries, key, from)].0
            == key,
        forall|j: int| from <= j < position(entries, key, from) ==> entries[j].0 != key,
    decreases entries.len() - from,
{
    if from < entries.len() && entries[from].0 != key {
        lemma_position(entries, key, from + 1);
    }
}

/// A field is read from the first entry that has its key: the value found
/// stands in the document under that key with no such key before it, and
/// nothing is found only where no entry has the key.
pub proof fn lemma_field_is_first_match(entries: Seq<(Seq<char>, JsonModel)>, key: Seq<char>)
    ensures
        match field(entries, key) {
            Some(value) => exists|i: int|
                0 <= i < entries.len() && #[trigger] entries[i] == (key, value) && forall|j: int|
                    0 <= j < i ==> entries[j].0 != key,
            None => forall|i: int| 0 <= i < entries.len() ==> entries[i].0 != key,
        },
{
    lemma_position(entries, key, 0);
    let at = position(entries, key, 0);
    if at < entries.len() {
        assert(entries[at] == (key, entries[at].1));
    }
}

/// Looking past the first entry: `position` in the entries without
/// their first is `position` in all of them, one to the left.
pub proof fn lemma_position_shift(entries: Seq<(Seq<char>, JsonModel)>, key: Seq<char>, from: int)
    requires
        entries.len() > 0,
        0 <= from < entries.len(),
    ensures
        position(entries, key, from + 1) == position(entries.drop_first(), key, from) + 1,
    decreases entries.len() - from,
{
    let rest = entries.drop_first();
    if from + 1 < entries.len() {
        assert(rest[from] == entries[from + 1]);
        if entries[from + 1].0 != key {
            lemma_position_shift(entries, key, from + 1);
        }
    }
}

/// A field is the value of the first entry where that has the key, and
/// else the field of the entries after the first.
pub proof fn lemma_field_step(entries: Seq<(Seq<char>, JsonModel)>, key: Seq<char>)
    requires
        entries.len() > 0,
    ensures
        field(entries, key) == if entries[0].0 == key {
            Some(entries[0].1)
        } else {
            field(entries.drop_first(), key)
        },
{
    if entries[0].0 != key {
        let rest = entries.drop_first();
        lemma_position_shift(entries, key, 0);
        lemma_position(rest, key, 0);
        let at = position(rest, key, 0);
        if at < rest.len() {
            assert(rest[at] == entries[at + 1]);
        }
    }
}

/// A key that is not modeled has among the open fields the field that
/// it has in the document.
pub proof fn lemma_field_of_open_fields(
    entries: Seq<(Seq<char>, JsonModel)>,
    modeled: Set<Seq<char>>,
    key: Seq<char>,
)
    requires
        !modeled.contains(key),
    ensures
        field(open_fields(entries, modeled), key) == field(entries, key),
    decreases entries.len(),
{
    let keep = is_open(modeled);
    if entries.len() == 0 {
        reveal(Seq::filter);
    } else {
        let first = entries[0];
        let rest = entries.drop_first();
        assert(entries =~= seq![first] + rest);
        rest.lemma_filter_prepend(first, keep);
        lemma_field_of_open_fields(rest, modeled, key);
        lemma_field_step(entries, key);
        if keep(first) {
            let kept = seq![first] + rest.filter(keep);
            assert(kept.drop_first() =~= rest.filter(keep));
            lemma_field_step(kept, key);
        } else {
            assert(Seq::<(Seq<char>, JsonModel)>::empty() + rest.filter(keep) =~= rest.filter(
                keep,
            ));
        }
    }
}

/// The open fields are exactly the entries whose keys are not modeled:
/// each such entry is kept, and nothing else is.
pub proof fn lemma_open_fields_keep_all(
    entries: Seq<(Seq<char>, JsonModel)>,
    modeled: Set<Seq<char>>,
)
    ensures
        forall|i: int|
            0 <= i < entries.len() && !modeled.contains(entries[i].0) ==> open_fields(
                entries,
                modeled,
            ).contains(#[trigger] entries[i]),
        forall|entry: (Seq<char>, JsonModel)| #[trigger]
            open_fields(entries, modeled).contains(entry) ==> entries.contains(entry)
                && !modeled.contains(entry.0),
{
    let keep = is_open(modeled);
    assert forall|i: int|
        0 <= i < entries.len() && !modeled.contains(entries[i].0) implies open_fields(
        entries,
        modeled,
    ).contains(#[trigger] entries[i]) by {
        entries.lemma_filter_contains(keep, i);
    }
    assert forall|entry: (Seq<char>, JsonModel)| #[trigger]
        open_fields(entries, modeled).contains(entry) implies entries.contains(entry)
        && !modeled.contains(entry.0) by {
        entries.lemma_filter_contains_rev(keep, entry);
        let at = choose|at: int|
            0 <= at < entries.filter(keep).len() && entries.filter(keep)[at] == entry;
        entries.lemma_filter_pred(keep, at);
    }
}

/// The document that a text denotes under the JSON grammar, or nothing
/// where the text is not one well-formed document.
pub uninterp spec fn parsed(text: Seq<char>) -> Option<JsonModel>;

/// The document that a `serde_json::Value` holds.
pub uninterp spec fn value_model(value: serde_json::Value) -> JsonModel;

/// Makes `serde_json::Value` known as a type whose inside is not looked
/// at: a parsed document is read only through the functions below.
#[verifier::external_type_specification]
#[verifier::external_body]
pub struct ExValue(serde_json::Value);

/// The documents that a list of values holds, value by value.
pub open spec fn values_model(values: Seq<&serde_json::Value>) -> Seq<JsonModel> {
    Seq::new(values.len(), |i: int| value_model(*values[i]))
}

/// The entries that a list of keys and values holds, pair by pair.
pub open spec fn members_model(members: Seq<(&String, &serde_json::Value)>) -> Seq<
    (Seq<char>, JsonModel),
> {
    Seq::new(members.len(), |i: int| (members[i].0@, value_model(*members[i].1)))
}

/// Parses one JSON document.
///
/// Trusted: `serde_json::from_str`, read as a `serde_json::Value`. The
/// contract only names the outcome: the same text always gives a value
/// that holds the same document, or is always refused.
#[verifier::external_body]
fn parse_value(text: &str) -> (value: Option<serde_json::Value>)
    ensures
        match value {
            Some(tree) => parsed(text@) == Some(value_model(tree)),
            None => parsed(text@) is None,
        },
{
    serde_json::from_str::<serde_json::Value>(text).ok()
}

/// The document of a value that is `null`, a boolean, a number or a
/// string, and nothing for an array or an object.
///
/// Trusted: the variants of `serde_json::Value`; a number is kept as the
/// text that `serde_json::Number` prints.
#[verifier::external_body]
fn scalar_of(value: &serde_json::Value) -> (scalar: Option<Json>)
    ensures
        match scalar {
            Some(doc) => doc@ == value_model(*value) && !(doc@ is Array) && !(doc@ is Object),
            None => value_model(*value) is Array || value_model(*value) is Object,
        },
{
    match value {
        serde_json::Value::Null => Some(Json::Null),
        serde_json::Value::Bool(b) => Some(Json::Bool(*b)),
        serde_json::Value::Number(n) => Some(Json::Number(n.to_string())),
        serde_json::Value::String(s) => Some(Json::Text(s.clone())),
        serde_json::Value::Array(_) => None,
        serde_json::Value::Object(_) => None,
    }
}

/// The items of a value that is an array, and nothing for any other.
///
/// Trusted: the variant `serde_json::Value::Array`, whose vector holds
/// the items in their order.
#[verifier::external_body]
fn items_of<'a>(value: &'a serde_json::Value) -> (items: Option<Vec<&'a serde_json::Value>>)
    ensures
        match items {
            Some(list) => value_model(*value) == JsonModel::Array(values_model(list@)),
            None => !(value_model(*value) is Array),
        },
{
    match value {
        serde_json::Value::Array(list) => Some(list.iter().collect()),
        _ => None,
    }
}

/// The entries of a value that is an object, and nothing for any other.
///
/// Trusted: the variant `serde_json::Value::Object` and
/// `serde_json::Map::iter`, which hands out each key once with its
/// value, in the order in which the map keeps them.
#[verifier::external_body]
fn members_of<'a>(value: &'a serde_json::Value) -> (members: Option<
    Vec<(&'a String, &'a serde_json::Value)>,
>)
    ensures
        match members {
            Some(list) => value_model(*value) == JsonModel::Object(members_model(list@)),
            None => !(value_model(*value) is Object),
        },
{
    match value {
        serde_json::Value::Object(map) => Some(map.iter().collect()),
        _ => None,
    }
}

/// Copies the document that a value holds into plain data.
fn to_json(value: &serde_json::Value) -> (doc: Json)
    ensures
        doc@ == value_model(*value),
    decreases value_model(*value),
{
    let ghost model = value_model(*value);
    match scalar_of(value) {
        Some(doc) => doc,
        None => match items_of(value) {
            Some(list) => {
                let mut items: Vec<Json> = Vec::new();
                let mut i: usize = 0;
                while i < list.len()
                    invariant
                        model == value_model(*value),
                        model == JsonModel::Array(values_model(list@)),
                        i <= list.len(),
                        items.len() == i,
                        forall|j: int| 0 <= j < i ==> items@[j]@ == value_model(*list@[j]),
                    decreases list.len() - i,
                {
                    proof {
                        assert(model->Array_0[i as int] == value_model(*list@[i as int]));
                        assert(decreases_to!(model => model->Array_0[i as int]));
                    }
                    let item = to_json(list[i]);
                    items.push(item);
                    i += 1;
                }
                let doc = Json::Array(items);
                proof {
                    lemma_view_of_children(doc);
                    assert(items_model(items@) =~= values_model(list@));
                }
                doc
            },
            None => match members_of(value) {
                Some(list) => {
                    let mut entries: Vec<(String, Json)> = Vec::new();
                    let mut i: usize = 0;
                    while i < list.len()
                        invariant
                            model == value_model(*value),
                            model == JsonModel::Object(members_model(list@)),
                            i <= list.len(),
                            entries.len() == i,
                            forall|j: int|
                                0 <= j < i ==> entries@[j].0@ == list@[j].0@ && entries@[j].1@
                                    == value_model(*list@[j].1),
                        decreases list.len() - i,
                    {
                        proof {
                            assert(model->Object_0[i as int].1 == value_model(*list@[i as int].1));
                            assert(decreases_to!(model => model->Object_0[i as int].1));
                        }
                        let key = list[i].0.clone();
                        let item = to_json(list[i].1);
                        entries.push((key, item));
                        i += 1;
                    }
                    let doc = Json::Object(entries);
                    proof {
                        lemma_view_of_children(doc);
                        assert(entries_model(entries@) =~= members_model(list@));
                    }
                    doc
                },
                None => Json::Null,
            },
        },
    }
}

impl Json {
    /// Parses one JSON document: the document that the text denotes, or
    /// nothing where the text is not one well-formed document.
    pub fn parse(text: &str) -> (doc: Option<Json>)
        ensures
            match doc {
                Some(tree) => parsed(text@) == Some(tree@),
                None => parsed(text@) is None,
            },
    {
        match parse_value(text) {
            Some(value) => Some(to_json(&value)),
            None => None,
        }
    }

    /// A deep copy with the same model.
    pub fn duplicate(&self) -> (copy: Json)
        ensures
            copy@ == self@,
        decreases self,
    {
        match self {
            Json::Null => Json::Null,
            Json::Bool(b) => Json::Bool(*b),
            Json::Number(n) => Json::Number(n.clone()),
            Json::Text(s) => Json::Text(s.clone()),
            Json::Array(items) => {
                let mut copies: Vec<Json> = Vec::new();
                let mut i: usize = 0;
                while i < items.len()
                    invariant
                        *self == Json::Array(*items),
                        i <= items.len(),
                        copies.len() == i,
                        forall|j: int| 0 <= j < i ==> copies@[j]@ == items@[j]@,
                    decreases items.len() - i,
                {
                    proof {
                        assert(self->Array_0 == *items);
                        assert(decreases_to!(*self => items[i as int]));
                    }
                    let item = items[i].duplicate();
                    copies.push(item);
                    i += 1;
                }
                let copy = Json::Array(copies);
                proof {
                    lemma_view_of_children(copy);
                    lemma_view_of_children(*self);
                    assert(items_model(copies@) =~= items_model(items@));
                }
                copy
            },
            Json::Object(entries) => {
                let mut copies: Vec<(String, Json)> = Vec::new();
                let mut i: usize = 0;
                while i < entries.len()
                    invariant
                        *self == Json::Object(*entries),
                        i <= entries.len(),
                        copies.len() == i,
                        forall|j: int|
                            0 <= j < i ==> copies@[j].0@ == entries@[j].0@ && copies@[j].1@
                                == entries@[j].1@,
                    decreases entries.len() - i,
                {
                    proof {
                        assert(self->Object_0 == *entries);
                        assert(decreases_to!(*self => entries[i as int].1));
                    }
                    let key = entries[i].0.clone();
                    let value = entries[i].1.duplicate();
                    copies.push((key, value));
                    i += 1;
                }
                let copy = Json::Object(copies);
                proof {
                    lemma_view_of_children(copy);
                    lemma_view_of_children(*self);
                    assert(entries_model(copies@) =~= entries_model(entries@));
                }
                copy
            },
        }
    }

    /// The text of a JSON string, and nothing for any other document.
    pub fn as_text(&self) -> (text: Option<&String>)
        ensures
            match text {
                Some(s) => self@ == JsonModel::Text(s@),
                None => !(self@ is Text),
            },
    {
        match self {
            Json::Text(s) => Some(s),
            _ => None,
        }
    }

    /// The entries of a JSON object, and nothing for any other document.
    pub fn as_object(&self) -> (entries: Option<&Vec<(String, Json)>>)
        ensures
            match entries {
                Some(list) => self@ == JsonModel::Object(entries_model(list@)),
                None => !(self@ is Object),
            },
    {
        proof {
            lemma_view_of_children(*self);
        }
        match self {
            Json::Object(entries) => Some(entries),
            _ => None,
        }
    }

    /// The items of a JSON array, and nothing for any other document.
    pub fn as_array(&self) -> (items: Option<&Vec<Json>>)
        ensures
            match items {
                Some(list) => self@ == JsonModel::Array(items_model(list@)),
                None => !(self@ is Array),
            },
    {
        proof {
            lemma_view_of_children(*self);
        }
        match self {
            Json::Array(items) => Some(items),
            _ => None,
        }
    }
}

/// The value of the first entry whose key is `key`.
pub fn find_field<'a>(entries: &'a Vec<(String, Json)>, key: &str) -> (found: Option<&'a Json>)
    ensures
        match found {
            Some(value) => field(entries_model(entries@), key@) == Some(value@),
            None => field(entries_model(entries@), key@) is None,
        },
{
    let ghost model = entries_model(entries@);
    let mut i: usize = 0;
    while i < entries.len()
        invariant
            i <= entries.len(),
            model == entries_model(entries@),
            position(model, key@, 0) == position(model, key@, i as int),
        decreases entries.len() - i,
    {
        if same_text(entries[i].0.as_str(), key) {
            return Some(&entries[i].1);
        }
        i += 1;
    }
    None
}

/// The entries whose keys are none of the two given ones, copied in order.
pub fn collect_open_fields(entries: &Vec<(String, Json)>, first: &str, second: &str) -> (open: Vec<
    (String, Json),
>)
    ensures
        entries_model(open@) == open_fields(entries_model(entries@), set![first@, second@]),
{
    let ghost model = entries_model(entries@);
    let ghost modeled = set![first@, second@];
    let mut open: Vec<(String, Json)> = Vec::new();
    let mut i: usize = 0;
    proof {
        assert(model.take(0) =~= Seq::empty());
        reveal(Seq::filter);
        assert(entries_model(open@) =~= model.take(0).filter(is_open(modeled)));
    }
    while i < entries.len()
        invariant
            i <= entries.len(),
            model == entries_model(entries@),
            modeled == set![first@, second@],
            entries_model(open@) == model.take(i as int).filter(is_open(modeled)),
        decreases entries.len() - i,
    {
        let ghost before = entries_model(open@);
        let key = entries[i].0.as_str();
        proof {
            assert(model.take(i + 1) =~= model.take(i as int).push(model[i as int]));
            model.take(i as int).lemma_filter_push(model[i as int], is_open(modeled));
        }
        if !same_text(key, first) && !same_text(key, second) {
            let copy = (entries[i].0.clone(), entries[i].1.duplicate());
            open.push(copy);
            proof {
                assert(entries_model(open@) =~= before.push(model[i as int]));
            }
        }
        i += 1;
    }
    proof {
        assert(model.take(entries.len() as int) =~= model);
    }
    open
}

} // verus!
