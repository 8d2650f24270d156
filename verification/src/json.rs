//! JSON documents as trees of the library's own, read and written by
//! `serde_json`.
//!
//! The rules of this library work on `JsonValue`. Parsing a text and
//! printing a document are left to `serde_json`; what it returns is named
//! (`parsed_json`, `pretty_json`), not described. So is the way in which an
//! object of `serde_json` arranges its fields (`arranged`).

use vstd::prelude::*;
use crate::error::JsonErrorCategory;
use crate::text::same_text;

verus! {

/// A JSON number, as `serde_json` holds it. The library carries numbers
/// through and never looks inside one.
#[verifier::external_type_specification]
#[verifier::external_body]
pub struct ExJsonNumber(serde_json::Number);

/// A JSON document, as `serde_json` holds it.
#[verifier::external_type_specification]
#[verifier::external_body]
pub struct ExJsonDocument(serde_json::Value);

/// One field of a JSON object.
#[derive(Debug, PartialEq)]
pub struct JsonField {
    /// The field's name.
    pub name: String,
    /// The field's value.
    pub value: JsonValue,
}

/// A JSON document as a tree. An object is the list of its fields.
#[derive(Debug, PartialEq)]
pub enum JsonValue {
    Null,
    Bool(bool),
    Number(serde_json::Number),
    Text(String),
    Array(Vec<JsonValue>),
    Object(Vec<JsonField>),
}

/// What a `JsonField` holds.
pub struct FieldModel {
    pub name: Seq<char>,
    pub value: JsonModel,
}

/// What a `JsonValue` holds.
pub enum JsonModel {
    Null,
    Bool(bool),
    Number(serde_json::Number),
    Text(Seq<char>),
    Array(Seq<JsonModel>),
    Object(Seq<FieldModel>),
}

impl View for JsonValue {
    type V = JsonModel;

    open spec fn view(&self) -> JsonModel
        decreases self,
    {
        match self {
            JsonValue::Null => JsonModel::Null,
            JsonValue::Bool(flag) => JsonModel::Bool(*flag),
            JsonValue::Number(number) => JsonModel::Number(*number),
            JsonValue::Text(text) => JsonModel::Text(text@),
            JsonValue::Array(items) => JsonModel::Array(
                Seq::new(
                    items@.len(),
                    |i: int|
                        if 0 <= i < items@.len() {
                            items@[i].view()
                        } else {
                            JsonModel::Null
                        },
                ),
            ),
            JsonValue::Object(fields) => JsonModel::Object(
                Seq::new(
                    fields@.len(),
                    |i: int|
                        if 0 <= i < fields@.len() {
                            FieldModel { name: fields@[i].name@, value: fields@[i].value.view() }
                        } else {
                            FieldModel { name: Seq::empty(), value: JsonModel::Null }
                        },
                ),
            ),
        }
    }
}

impl DeepView for JsonValue {
    type V = JsonModel;

    open spec fn deep_view(&self) -> JsonModel {
        self.view()
    }
}

impl View for JsonField {
    type V = FieldModel;

    open spec fn view(&self) -> FieldModel {
        FieldModel { name: self.name@, value: self.value@ }
    }
}

impl DeepView for JsonField {
    type V = FieldModel;

    open spec fn deep_view(&self) -> FieldModel {
        self.view()
    }
}

/// The models of the items of an array.
pub open spec fn items_model(items: Seq<JsonValue>) -> Seq<JsonModel> {
    Seq::new(items.len(), |i: int| items[i]@)
}

/// The models of the fields of an object.
pub open spec fn fields_model(fields: Seq<JsonField>) -> Seq<FieldModel> {
    Seq::new(fields.len(), |i: int| fields[i]@)
}

/// An array's model is the models of its items.
pub proof fn lemma_array_view(items: Vec<JsonValue>)
    ensures
        JsonValue::Array(items)@ == JsonModel::Array(items_model(items@)),
{
    let whole = JsonValue::Array(items);
    assert(whole@ is Array);
    assert(whole@->Array_0 =~= items_model(items@));
}

/// An object's model is the models of its fields.
pub proof fn lemma_object_view(fields: Vec<JsonField>)
    ensures
        JsonValue::Object(fields)@ == JsonModel::Object(fields_model(fields@)),
{
    let whole = JsonValue::Object(fields);
    assert(whole@ is Object);
    assert(whole@->Object_0 =~= fields_model(fields@));
}

/// Whether `at` is the first place in `fields` that holds the name `key`.
pub open spec fn is_first_field(fields: Seq<FieldModel>, key: Seq<char>, at: int) -> bool {
    &&& 0 <= at < fields.len()
    &&& fields[at].name == key
    &&& forall|j: int| 0 <= j < at ==> fields[j].name != key
}

/// The first place in `fields` that holds the name `key`.
pub open spec fn field_index(fields: Seq<FieldModel>, key: Seq<char>) -> Option<int> {
    if exists|at: int| is_first_field(fields, key, at) {
        Some(choose|at: int| is_first_field(fields, key, at))
    } else {
        None
    }
}

/// There is one first place at most.
pub proof fn lemma_first_field_unique(
    fields: Seq<FieldModel>,
    key: Seq<char>,
    at: int,
)
    requires
        is_first_field(fields, key, at),
    ensures
        field_index(fields, key) == Some(at),
{
    let chosen = choose|i: int| is_first_field(fields, key, i);
    if chosen < at {
    } else if at < chosen {
    }
}

/// Where no field holds the name, there is no first place.
pub proof fn lemma_no_field(fields: Seq<FieldModel>, key: Seq<char>)
    requires
        forall|j: int| 0 <= j < fields.len() ==> fields[j].name != key,
    ensures
        field_index(fields, key) is None,
{
}

impl JsonModel {
    /// The value of the field `key`, if this is an object that has it.
    pub open spec fn member(self, key: Seq<char>) -> Option<JsonModel> {
        match self {
            JsonModel::Object(fields) => match field_index(fields, key) {
                Some(at) => Some(fields[at].value),
                None => None,
            },
            _ => None,
        }
    }

    /// Whether this is a text equal to `text`.
    pub open spec fn is_text(self, text: Seq<char>) -> bool {
        self == JsonModel::Text(text)
    }
}

/// The first place in `fields` that holds the name `key`.
pub fn find_field(fields: &Vec<JsonField>, key: &str) -> (found: Option<usize>)
    ensures
        match found {
            Some(at) => field_index(fields_model(fields@), key@) == Some(at as int),
            None => field_index(fields_model(fields@), key@) is None,
        },
{
    let mut i: usize = 0;
    while i < fields.len()
        invariant
            i <= fields.len(),
            forall|j: int| 0 <= j < i ==> fields_model(fields@)[j].name != key@,
        decreases fields.len() - i,
    {
        if same_text(fields[i].name.as_str(), key) {
            proof {
                lemma_first_field_unique(fields_model(fields@), key@, i as int);
            }
            return Some(i);
        }
        i += 1;
    }
    proof {
        lemma_no_field(fields_model(fields@), key@);
    }
    None
}

impl JsonValue {
    /// The value of the field `key`, if this is an object that has it.
    pub fn member(&self, key: &str) -> (found: Option<&JsonValue>)
        ensures
            match found {
                Some(value) => self@.member(key@) == Some(value@),
                None => self@.member(key@) is None,
            },
    {
        match self {
            JsonValue::Object(fields) => {
                proof {
                    lemma_object_view(*fields);
                }
                match find_field(fields, key) {
                    Some(at) => Some(&fields[at].value),
                    None => None,
                }
            },
            _ => None,
        }
    }

    /// Whether this is a text equal to `text`.
    pub fn is_text(&self, text: &str) -> (same: bool)
        ensures
            same == self@.is_text(text@),
    {
        match self {
            JsonValue::Text(held) => same_text(held.as_str(), text),
            _ => false,
        }
    }
}

/// How `serde_json` failed on a text or a document.
#[derive(Debug, PartialEq, Eq)]
pub struct JsonFailure {
    /// The category of the failure.
    pub category: JsonErrorCategory,
    /// The failure in words, with the place in the text where it has one.
    pub message: String,
}

/// What a `JsonFailure` holds.
pub struct JsonFailureModel {
    pub category: JsonErrorCategory,
    pub message: Seq<char>,
}

impl View for JsonFailure {
    type V = JsonFailureModel;

    open spec fn view(&self) -> JsonFailureModel {
        JsonFailureModel { category: self.category, message: self.message@ }
    }
}

/// One field of a document of `serde_json`, taken out of its object.
struct OpenedField {
    name: String,
    value: serde_json::Value,
}

/// A document of `serde_json`, taken apart one level deep.
enum Opened {
    Null,
    Bool(bool),
    Number(serde_json::Number),
    Text(String),
    Array(Vec<serde_json::Value>),
    Object(Vec<OpenedField>),
}

/// The tree that a document of `serde_json` holds: variant for variant, the
/// items of an array in their order, the fields of an object in the order
/// in which the object hands them out.
pub uninterp spec fn document_tree(document: serde_json::Value) -> JsonModel;

/// The fields as an object of `serde_json` arranges them when it is filled
/// with them in their order.
pub uninterp spec fn arranged(fields: Seq<FieldModel>) -> Seq<FieldModel>;

/// What `serde_json::from_str` makes of a text: the tree of the document,
/// or how the text fails to be one.
pub uninterp spec fn parsed_json(text: Seq<char>) -> Result<JsonModel, JsonFailureModel>;

/// What `serde_json::to_string_pretty` prints for the document that holds a
/// tree.
pub uninterp spec fn pretty_json(tree: JsonModel) -> Result<Seq<char>, JsonFailureModel>;

/// The trees of documents, one for one.
pub open spec fn document_trees(documents: Seq<serde_json::Value>) -> Seq<JsonModel> {
    Seq::new(documents.len(), |i: int| document_tree(documents[i]))
}

/// The fields of an opened object, each with the tree of its value.
spec fn opened_fields(fields: Seq<OpenedField>) -> Seq<FieldModel> {
    Seq::new(
        fields.len(),
        |i: int| FieldModel { name: fields[i].name@, value: document_tree(fields[i].value) },
    )
}

/// The tree of the document that was taken apart.
spec fn opened_tree(opened: Opened) -> JsonModel {
    match opened {
        Opened::Null => JsonModel::Null,
        Opened::Bool(flag) => JsonModel::Bool(flag),
        Opened::Number(number) => JsonModel::Number(number),
        Opened::Text(text) => JsonModel::Text(text@),
        Opened::Array(items) => JsonModel::Array(document_trees(items@)),
        Opened::Object(fields) => JsonModel::Object(opened_fields(fields@)),
    }
}

/// Calls `serde_json::from_str` for a `serde_json::Value`. The contract
/// claims that the outcome is a function of the text. A failure is handed
/// on as its category (`Error::classify`) and its message
/// (`Error::to_string`).
#[verifier::external_body]
fn parse_document(text: &str) -> (parsed: Result<serde_json::Value, JsonFailure>)
    ensures
        match parsed {
            Ok(document) => parsed_json(text@) == Ok::<JsonModel, JsonFailureModel>(
                document_tree(document),
            ),
            Err(failure) => parsed_json(text@) == Err::<JsonModel, JsonFailureModel>(failure@),
        },
{
    match serde_json::from_str::<serde_json::Value>(text) {
        Ok(document) => Ok(document),
        Err(error) => Err(
            JsonFailure {
                category: match error.classify() {
                    serde_json::error::Category::Io => JsonErrorCategory::Io,
                    serde_json::error::Category::Syntax => JsonErrorCategory::Syntax,
                    serde_json::error::Category::Data => JsonErrorCategory::Data,
                    serde_json::error::Category::Eof => JsonErrorCategory::Eof,
                },
                message: error.to_string(),
            },
        ),
    }
}

/// Calls `serde_json::to_string_pretty`. The contract claims that the
/// outcome is a function of the tree that the document holds. A failure is
/// handed on as its category and its message.
#[verifier::external_body]
fn print_document(document: &serde_json::Value) -> (printed: Result<String, JsonFailure>)
    ensures
        match printed {
            Ok(text) => pretty_json(document_tree(*document)) == Ok::<
                Seq<char>,
                JsonFailureModel,
            >(text@),
            Err(failure) => pretty_json(document_tree(*document)) == Err::<
                Seq<char>,
                JsonFailureModel,
            >(failure@),
        },
{
    match serde_json::to_string_pretty(document) {
        Ok(text) => Ok(text),
        Err(error) => Err(
            JsonFailure {
                category: match error.classify() {
                    serde_json::error::Category::Io => JsonErrorCategory::Io,
                    serde_json::error::Category::Syntax => JsonErrorCategory::Syntax,
                    serde_json::error::Category::Data => JsonErrorCategory::Data,
                    serde_json::error::Category::Eof => JsonErrorCategory::Eof,
                },
                message: error.to_string(),
            },
        ),
    }
}

/// Takes a `serde_json::Value` apart, one level deep: one arm for each of
/// its variants, the items of an array and the fields of an object moved
/// out in the order in which they are held. The contract claims that the
/// document's tree is made of the trees of what was moved out.
#[verifier::external_body]
fn open_document(document: serde_json::Value) -> (opened: Opened)
    ensures
        opened_tree(opened) == document_tree(document),
{
    match document {
        serde_json::Value::Null => Opened::Null,
        serde_json::Value::Bool(flag) => Opened::Bool(flag),
        serde_json::Value::Number(number) => Opened::Number(number),
        serde_json::Value::String(text) => Opened::Text(text),
        serde_json::Value::Array(items) => Opened::Array(items),
        serde_json::Value::Object(fields) => Opened::Object(
            fields.into_iter().map(|(name, value)| OpenedField { name, value }).collect(),
        ),
    }
}

/// Puts a `serde_json::Value` together, one level deep: one variant for
/// each arm, the fields of an object collected into a `serde_json::Map` in
/// their order. The contract claims that the document's tree is made of
/// the trees of what was moved in, the fields of an object as the map
/// arranges them.
#[verifier::external_body]
fn close_document(opened: Opened) -> (document: serde_json::Value)
    ensures
        document_tree(document) == (match opened {
            Opened::Object(fields) => JsonModel::Object(arranged(opened_fields(fields@))),
            _ => opened_tree(opened),
        }),
{
    match opened {
        Opened::Null => serde_json::Value::Null,
        Opened::Bool(flag) => serde_json::Value::Bool(flag),
        Opened::Number(number) => serde_json::Value::Number(number),
        Opened::Text(text) => serde_json::Value::String(text),
        Opened::Array(items) => serde_json::Value::Array(items),
        Opened::Object(fields) => serde_json::Value::Object(
            fields.into_iter().map(|field| (field.name, field.value)).collect(),
        ),
    }
}

/// The trees as the documents built from them hold them, one for one.
pub open spec fn arranged_items(items: Seq<JsonModel>) -> Seq<JsonModel>
    decreases items, 0nat,
{
    Seq::new(
        items.len(),
        |i: int|
            if 0 <= i < items.len() {
                arranged_tree(items[i])
            } else {
                JsonModel::Null
            },
    )
}

/// The fields with their values as the documents built from them hold
/// them, one for one.
pub open spec fn arranged_values(fields: Seq<FieldModel>) -> Seq<FieldModel>
    decreases fields, 0nat,
{
    Seq::new(
        fields.len(),
        |i: int|
            if 0 <= i < fields.len() {
                FieldModel { name: fields[i].name, value: arranged_tree(fields[i].value) }
            } else {
                FieldModel { name: Seq::empty(), value: JsonModel::Null }
            },
    )
}

/// The tree as the document built from it holds it: the fields of each
/// object arranged as `serde_json` arranges them.
pub open spec fn arranged_tree(tree: JsonModel) -> JsonModel
    decreases tree, 1nat,
{
    match tree {
        JsonModel::Array(items) => JsonModel::Array(arranged_items(items)),
        JsonModel::Object(fields) => JsonModel::Object(arranged(arranged_values(fields))),
        _ => tree,
    }
}

/// The tree that a text parses to, or how the text fails to parse.
pub open spec fn parsed_tree(text: Seq<char>) -> Result<JsonModel, JsonFailureModel> {
    parsed_json(text)
}

/// The text that a tree is printed as, or how printing fails.
pub open spec fn printed_tree(tree: JsonModel) -> Result<Seq<char>, JsonFailureModel> {
    pretty_json(arranged_tree(tree))
}

/// The tree of a document.
fn tree_of_document(document: serde_json::Value) -> (tree: JsonValue)
    ensures
        tree@ == document_tree(document),
    decreases document_tree(document),
{
    let ghost whole = document_tree(document);
    match open_document(document) {
        Opened::Null => JsonValue::Null,
        Opened::Bool(flag) => JsonValue::Bool(flag),
        Opened::Number(number) => JsonValue::Number(number),
        Opened::Text(text) => JsonValue::Text(text),
        Opened::Array(items) => {
            let ghost trees = document_trees(items@);
            let mut rest = items;
            let mut reversed: Vec<JsonValue> = Vec::new();
            // Taken from the end, so that each item is moved out once.
            while rest.len() > 0
                invariant
                    whole == document_tree(document),
                    whole == JsonModel::Array(trees),
                    rest@.len() + reversed@.len() == trees.len(),
                    forall|k: int| 0 <= k < rest@.len() ==> document_tree(rest@[k]) == trees[k],
                    forall|k: int|
                        0 <= k < reversed@.len() ==> reversed@[k]@ == trees[trees.len() - 1 - k],
                decreases rest.len(),
            {
                let item = rest.pop().unwrap();
                proof {
                    let at = rest@.len() as int;
                    assert(document_tree(item) == trees[at]);
                    assert(decreases_to!(whole => whole->Array_0));
                    assert(decreases_to!(trees => trees[at]));
                }
                reversed.push(tree_of_document(item));
            }
            let mut ordered: Vec<JsonValue> = Vec::new();
            while reversed.len() > 0
                invariant
                    reversed@.len() + ordered@.len() == trees.len(),
                    forall|k: int|
                        0 <= k < reversed@.len() ==> reversed@[k]@ == trees[trees.len() - 1 - k],
                    forall|k: int| 0 <= k < ordered@.len() ==> ordered@[k]@ == trees[k],
                decreases reversed.len(),
            {
                let tree = reversed.pop().unwrap();
                ordered.push(tree);
            }
            proof {
                lemma_array_view(ordered);
                assert(items_model(ordered@) =~= trees);
            }
            JsonValue::Array(ordered)
        },
        Opened::Object(fields) => {
            let ghost models = opened_fields(fields@);
            let mut rest = fields;
            let mut reversed: Vec<JsonField> = Vec::new();
            while rest.len() > 0
                invariant
                    whole == document_tree(document),
                    whole == JsonModel::Object(models),
                    rest@.len() + reversed@.len() == models.len(),
                    forall|k: int|
                        0 <= k < rest@.len() ==> rest@[k].name@ == models[k].name && document_tree(
                            rest@[k].value,
                        ) == models[k].value,
                    forall|k: int|
                        0 <= k < reversed@.len() ==> reversed@[k]@ == models[models.len() - 1 - k],
                decreases rest.len(),
            {
                let field = rest.pop().unwrap();
                proof {
                    let at = rest@.len() as int;
                    assert(document_tree(field.value) == models[at].value);
                    assert(decreases_to!(whole => whole->Object_0));
                    assert(decreases_to!(models => models[at]));
                    assert(decreases_to!(models[at] => models[at].value));
                }
                reversed.push(JsonField { name: field.name, value: tree_of_document(field.value) });
            }
            let mut ordered: Vec<JsonField> = Vec::new();
            while reversed.len() > 0
                invariant
                    reversed@.len() + ordered@.len() == models.len(),
                    forall|k: int|
                        0 <= k < reversed@.len() ==> reversed@[k]@ == models[models.len() - 1 - k],
                    forall|k: int| 0 <= k < ordered@.len() ==> ordered@[k]@ == models[k],
                decreases reversed.len(),
            {
                let field = reversed.pop().unwrap();
                ordered.push(field);
            }
            proof {
                lemma_object_view(ordered);
                assert(fields_model(ordered@) =~= models);
            }
            JsonValue::Object(ordered)
        },
    }
}

/// The document built from a tree.
fn document_of_tree(tree: JsonValue) -> (document: serde_json::Value)
    ensures
        document_tree(document) == arranged_tree(tree@),
    decreases tree,
{
    match tree {
        JsonValue::Null => {
            assert(arranged_tree(tree@) == JsonModel::Null);
            close_document(Opened::Null)
        },
        JsonValue::Bool(flag) => {
            assert(arranged_tree(tree@) == JsonModel::Bool(flag));
            close_document(Opened::Bool(flag))
        },
        JsonValue::Number(number) => {
            assert(arranged_tree(tree@) == JsonModel::Number(number));
            close_document(Opened::Number(number))
        },
        JsonValue::Text(text) => {
            assert(arranged_tree(tree@) == JsonModel::Text(text@));
            close_document(Opened::Text(text))
        },
        JsonValue::Array(items) => {
            proof {
                lemma_array_view(items);
            }
            let ghost models = items_model(items@);
            let ghost held = items@;
            let mut rest = items;
            let mut reversed: Vec<serde_json::Value> = Vec::new();
            while rest.len() > 0
                invariant
                    tree == JsonValue::Array(items),
                    held == items@,
                    models == items_model(held),
                    rest@.len() + reversed@.len() == held.len(),
                    forall|k: int| 0 <= k < rest@.len() ==> rest@[k] == held[k],
                    forall|k: int|
                        0 <= k < reversed@.len() ==> document_tree(reversed@[k]) == arranged_tree(
                            models[models.len() - 1 - k],
                        ),
                decreases rest.len(),
            {
                let item = rest.pop().unwrap();
                proof {
                    let at = rest@.len() as int;
                    assert(item == held[at]);
                    assert(decreases_to!(tree => tree->Array_0));
                    assert(decreases_to!(items => items@));
                    assert(decreases_to!(held => held[at]));
                }
                reversed.push(document_of_tree(item));
            }
            let mut ordered: Vec<serde_json::Value> = Vec::new();
            while reversed.len() > 0
                invariant
                    reversed@.len() + ordered@.len() == models.len(),
                    forall|k: int|
                        0 <= k < reversed@.len() ==> document_tree(reversed@[k]) == arranged_tree(
                            models[models.len() - 1 - k],
                        ),
                    forall|k: int|
                        0 <= k < ordered@.len() ==> document_tree(ordered@[k]) == arranged_tree(
                            models[k],
                        ),
                decreases reversed.len(),
            {
                let document = reversed.pop().unwrap();
                ordered.push(document);
            }
            proof {
                assert(document_trees(ordered@) =~= arranged_items(models));
            }
            close_document(Opened::Array(ordered))
        },
        JsonValue::Object(fields) => {
            proof {
                lemma_object_view(fields);
            }
            let ghost models = fields_model(fields@);
            let ghost held = fields@;
            let mut rest = fields;
            let mut reversed: Vec<OpenedField> = Vec::new();
            while rest.len() > 0
                invariant
                    tree == JsonValue::Object(fields),
                    held == fields@,
                    models == fields_model(held),
                    rest@.len() + reversed@.len() == held.len(),
                    forall|k: int| 0 <= k < rest@.len() ==> rest@[k] == held[k],
                    forall|k: int|
                        0 <= k < reversed@.len() ==> reversed@[k].name@ == models[models.len() - 1
                            - k].name && document_tree(reversed@[k].value) == arranged_tree(
                            models[models.len() - 1 - k].value,
                        ),
                decreases rest.len(),
            {
                let field = rest.pop().unwrap();
                proof {
                    let at = rest@.len() as int;
                    assert(field == held[at]);
                    assert(decreases_to!(tree => tree->Object_0));
                    assert(decreases_to!(fields => fields@));
                    assert(decreases_to!(held => held[at]));
                    assert(decreases_to!(held[at] => held[at].value));
                }
                reversed.push(
                    OpenedField { name: field.name, value: document_of_tree(field.value) },
                );
            }
            let mut ordered: Vec<OpenedField> = Vec::new();
            while reversed.len() > 0
                invariant
                    reversed@.len() + ordered@.len() == models.len(),
                    forall|k: int|
                        0 <= k < reversed@.len() ==> reversed@[k].name@ == models[models.len() - 1
                            - k].name && document_tree(reversed@[k].value) == arranged_tree(
                            models[models.len() - 1 - k].value,
                        ),
                    forall|k: int|
                        0 <= k < ordered@.len() ==> ordered@[k].name@ == models[k].name
                            && document_tree(ordered@[k].value) == arranged_tree(models[k].value),
                decreases reversed.len(),
            {
                let field = reversed.pop().unwrap();
                ordered.push(field);
            }
            proof {
                assert(opened_fields(ordered@) =~= arranged_values(models));
            }
            close_document(Opened::Object(ordered))
        },
    }
}

/// Parses a JSON text into a tree.
pub fn parse(text: &str) -> (parsed: Result<JsonValue, JsonFailure>)
    ensures
        match parsed {
            Ok(tree) => parsed_tree(text@) == Ok::<JsonModel, JsonFailureModel>(tree@),
            Err(failure) => parsed_tree(text@) == Err::<JsonModel, JsonFailureModel>(failure@),
        },
{
    match parse_document(text) {
        Ok(document) => Ok(tree_of_document(document)),
        Err(failure) => Err(failure),
    }
}

/// Prints a tree as indented JSON text.
pub fn print(tree: JsonValue) -> (printed: Result<String, JsonFailure>)
    ensures
        match printed {
            Ok(text) => printed_tree(tree@) == Ok::<Seq<char>, JsonFailureModel>(text@),
            Err(failure) => printed_tree(tree@) == Err::<Seq<char>, JsonFailureModel>(failure@),
        },
{
    let document = document_of_tree(tree);
    print_document(&document)
}

} // verus!
