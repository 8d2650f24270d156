//! The editor's settings and tasks documents, and the changes made to them.
//!
//! A document is read from text, changed as a tree and printed back whole.
//! A change that does not find the shape it expects fails before anything is
//! printed, so no half-changed document is ever written.

pub mod csharp;
pub mod rust;

use vstd::prelude::*;
use crate::json::{
    field_index,
    fields_model,
    is_first_field,
    find_field,
    items_model,
    lemma_array_view,
    lemma_object_view,
    parse,
    parsed_tree,
    print,
    printed_tree,
    FieldModel,
    JsonFailure,
    JsonFailureModel,
    JsonField,
    JsonModel,
    JsonValue,
};
use crate::lang_options::CsharpLspOption;
use crate::text::same_text;

verus! {

/// A document that lacks the shape a change expects.
#[derive(Debug, Copy, Clone, PartialEq, Eq, Structural)]
pub enum ShapeError {
    /// The document is no object with an array `inputs`.
    InputsNotAnArray,
    /// An input that was to be extended has no array `options`.
    OptionsNotAnArray,
    /// The settings document is neither an object nor null.
    SettingsNotAnObject,
}

/// Why a document could not be changed.
#[derive(Debug, PartialEq, Eq)]
pub enum PatchError {
    /// The text is no JSON document.
    Syntax(JsonFailure),
    /// The document lacks the shape the change expects.
    Shape(ShapeError),
    /// The changed document could not be printed.
    Print(JsonFailure),
}

/// What a `PatchError` holds.
pub enum PatchErrorModel {
    Syntax(JsonFailureModel),
    Shape(ShapeError),
    Print(JsonFailureModel),
}

impl View for PatchError {
    type V = PatchErrorModel;

    open spec fn view(&self) -> PatchErrorModel {
        match self {
            PatchError::Syntax(failure) => PatchErrorModel::Syntax(failure@),
            PatchError::Shape(error) => PatchErrorModel::Shape(*error),
            PatchError::Print(failure) => PatchErrorModel::Print(failure@),
        }
    }
}

/// The entry that offers one project or package for selection.
pub open spec fn option_entry(label: Seq<char>, value: Seq<char>) -> JsonModel {
    JsonModel::Object(
        seq![
            FieldModel { name: "label"@, value: JsonModel::Text(label) },
            FieldModel { name: "value"@, value: JsonModel::Text(value) },
        ],
    )
}

/// Whether an input is to be extended: it is an object whose `id` is a text
/// among `ids`.
pub open spec fn input_selected(input: JsonModel, ids: Seq<Seq<char>>) -> bool {
    match input.member("id"@) {
        Some(JsonModel::Text(id)) => ids.contains(id),
        _ => false,
    }
}

/// The object with `value` in place of what the field `key` held; None if
/// this is no object or has no such field.
pub open spec fn with_field_value(object: JsonModel, key: Seq<char>, value: JsonModel) -> Option<
    JsonModel,
> {
    match object {
        JsonModel::Object(fields) => match field_index(fields, key) {
            Some(at) => Some(
                JsonModel::Object(fields.update(at, FieldModel { name: fields[at].name, value })),
            ),
            None => None,
        },
        _ => None,
    }
}

/// The input with `entry` appended to its array `options`; None if the input
/// has no such array.
pub open spec fn with_option(input: JsonModel, entry: JsonModel) -> Option<JsonModel> {
    match input.member("options"@) {
        Some(JsonModel::Array(options)) => with_field_value(
            input,
            "options"@,
            JsonModel::Array(options.push(entry)),
        ),
        _ => None,
    }
}

/// The input after the change: extended if it is selected, else as it was.
pub open spec fn extended_input(input: JsonModel, ids: Seq<Seq<char>>, entry: JsonModel) -> Option<
    JsonModel,
> {
    if input_selected(input, ids) {
        with_option(input, entry)
    } else {
        Some(input)
    }
}

/// Whether each selected input among the first `count` can be extended.
pub open spec fn inputs_extensible(
    inputs: Seq<JsonModel>,
    ids: Seq<Seq<char>>,
    entry: JsonModel,
    count: int,
) -> bool {
    forall|i: int| 0 <= i < count ==> (#[trigger] extended_input(inputs[i], ids, entry)) is Some
}

/// The inputs after the change, one for one.
pub open spec fn extended_inputs(
    inputs: Seq<JsonModel>,
    ids: Seq<Seq<char>>,
    entry: JsonModel,
) -> Seq<
    JsonModel,
> {
    Seq::new(inputs.len(), |i: int| extended_input(inputs[i], ids, entry).unwrap())
}

/// The tasks document after `entry` was appended to the options of each
/// input whose `id` is among `ids`.
pub open spec fn extended_tasks(
    document: JsonModel,
    ids: Seq<Seq<char>>,
    entry: JsonModel,
) -> Result<
    JsonModel,
    ShapeError,
> {
    match document.member("inputs"@) {
        Some(JsonModel::Array(inputs)) => if inputs_extensible(
            inputs,
            ids,
            entry,
            inputs.len() as int,
        ) {
            Ok(
                with_field_value(
                    document,
                    "inputs"@,
                    JsonModel::Array(extended_inputs(inputs, ids, entry)),
                ).unwrap(),
            )
        } else {
            Err(ShapeError::OptionsNotAnArray)
        },
        _ => Err(ShapeError::InputsNotAnArray),
    }
}

/// The document with the field `key` set to `value`: replaced where the
/// object has the field, added at the end where it has not. Null becomes an
/// object with that one field. None if the document is anything else.
pub open spec fn with_member(document: JsonModel, key: Seq<char>, value: JsonModel) -> Option<
    JsonModel,
> {
    match document {
        JsonModel::Object(fields) => match field_index(fields, key) {
            Some(at) => Some(
                JsonModel::Object(fields.update(at, FieldModel { name: fields[at].name, value })),
            ),
            None => Some(JsonModel::Object(fields.push(FieldModel { name: key, value }))),
        },
        JsonModel::Null => Some(JsonModel::Object(seq![FieldModel { name: key, value }])),
        _ => None,
    }
}

/// Builds the entry that offers one project or package for selection.
pub fn make_option_entry(label: &str, value: &str) -> (entry: JsonValue)
    ensures
        entry@ == option_entry(label@, value@),
{
    let mut fields: Vec<JsonField> = Vec::new();
    fields.push(JsonField { name: "label".to_owned(), value: JsonValue::Text(label.to_owned()) });
    fields.push(JsonField { name: "value".to_owned(), value: JsonValue::Text(value.to_owned()) });
    proof {
        lemma_object_view(fields);
        assert(fields_model(fields@) =~= option_entry(label@, value@)->Object_0);
    }
    JsonValue::Object(fields)
}

/// Whether `id` is among `ids`.
fn id_listed(ids: &Vec<String>, id: &str) -> (listed: bool)
    ensures
        listed == ids.deep_view().contains(id@),
{
    let mut i: usize = 0;
    while i < ids.len()
        invariant
            i <= ids.len(),
            forall|j: int| 0 <= j < i ==> ids.deep_view()[j] != id@,
        decreases ids.len() - i,
    {
        if same_text(ids[i].as_str(), id) {
            assert(ids.deep_view()[i as int] == id@);
            return true;
        }
        i += 1;
    }
    false
}

/// Whether an input is to be extended.
fn is_selected(input: &JsonValue, ids: &Vec<String>) -> (selected: bool)
    ensures
        selected == input_selected(input@, ids.deep_view()),
{
    match input.member("id") {
        Some(JsonValue::Text(id)) => id_listed(ids, id.as_str()),
        _ => false,
    }
}

/// Puts `value` in place of what the field at `at` held.
fn replace_field_value(fields: &mut Vec<JsonField>, at: usize, value: JsonValue)
    requires
        at < old(fields).len(),
    ensures
        fields_model(final(fields)@) == fields_model(old(fields)@).update(
            at as int,
            FieldModel { name: fields_model(old(fields)@)[at as int].name, value: value@ },
        ),
{
    let held = fields.remove(at);
    fields.insert(at, JsonField { name: held.name, value });
    assert(fields_model(fields@) =~= fields_model(old(fields)@).update(
        at as int,
        FieldModel { name: fields_model(old(fields)@)[at as int].name, value: value@ },
    ));
}

/// Appends the entry `label`/`value` to the input's options if the input is
/// selected. None if a selected input has no array `options`.
fn extend_input(input: JsonValue, ids: &Vec<String>, label: &str, value: &str) -> (extended: Option<
    JsonValue,
>)
    ensures
        match extended {
            Some(changed) => extended_input(
                input@,
                ids.deep_view(),
                option_entry(label@, value@),
            ) == Some(changed@),
            None => extended_input(input@, ids.deep_view(), option_entry(label@, value@)) is None,
        },
{
    if !is_selected(&input, ids) {
        return Some(input);
    }
    match input {
        JsonValue::Object(mut fields) => {
            proof {
                lemma_object_view(fields);
            }
            match find_field(&fields, "options") {
                Some(at) => {
                    let held = fields.remove(at);
                    match held.value {
                        JsonValue::Array(mut options) => {
                            let ghost before = options;
                            options.push(make_option_entry(label, value));
                            proof {
                                lemma_array_view(before);
                                lemma_array_view(options);
                                assert(items_model(options@) =~= items_model(before@).push(
                                    option_entry(label@, value@),
                                ));
                            }
                            fields.insert(
                                at,
                                JsonField { name: held.name, value: JsonValue::Array(options) },
                            );
                            proof {
                                lemma_object_view(fields);
                                assert(fields_model(fields@) =~= fields_model(
                                    input->Object_0@,
                                ).update(
                                    at as int,
                                    FieldModel {
                                        name: held.name@,
                                        value: JsonValue::Array(options)@,
                                    },
                                ));
                            }
                            Some(JsonValue::Object(fields))
                        },
                        _ => None,
                    }
                },
                None => None,
            }
        },
        _ => None,
    }
}

/// Appends the entry `label`/`value` to the options of each input of the
/// tasks document whose `id` is among `ids`.
///
/// Fails, with nothing changed, where the document is no object with an
/// array `inputs`, or where an input to be extended has no array `options`.
pub fn extend_tasks(document: JsonValue, ids: &Vec<String>, label: &str, value: &str) -> (changed:
    Result<JsonValue, ShapeError>)
    ensures
        match changed {
            Ok(tree) => extended_tasks(
                document@,
                ids.deep_view(),
                option_entry(label@, value@),
            ) == Ok::<JsonModel, ShapeError>(tree@),
            Err(error) => extended_tasks(
                document@,
                ids.deep_view(),
                option_entry(label@, value@),
            ) == Err::<JsonModel, ShapeError>(error),
        },
{
    let ghost entry = option_entry(label@, value@);
    match document {
        JsonValue::Object(mut fields) => {
            proof {
                lemma_object_view(fields);
            }
            match find_field(&fields, "inputs") {
                Some(at) => {
                    let held = fields.remove(at);
                    match held.value {
                        JsonValue::Array(mut inputs) => {
                            proof {
                                lemma_array_view(inputs);
                            }
                            let ghost before = items_model(inputs@);
                            assert(document@.member("inputs"@) == Some(JsonModel::Array(before)));
                            let mut done: Vec<JsonValue> = Vec::new();
                            // Taken from the end, so that each input is moved
                            // out once; `done` holds them in reverse.
                            while inputs.len() > 0
                                invariant
                                    document@.member("inputs"@) == Some(JsonModel::Array(before)),
                                    inputs@.len() <= before.len(),
                                    items_model(inputs@) == before.take(inputs@.len() as int),
                                    done@.len() == before.len() - inputs@.len(),
                                    forall|k: int|
                                        0 <= k < done@.len() ==> extended_input(
                                            #[trigger] before[before.len() - 1 - k],
                                            ids.deep_view(),
                                            entry,
                                        ) == Some(done@[k]@),
                                    entry == option_entry(label@, value@),
                                decreases inputs.len(),
                            {
                                let ghost held_inputs = inputs@;
                                let input = inputs.pop().unwrap();
                                proof {
                                    assert(items_model(held_inputs)[held_inputs.len() - 1]
                                        == input@);
                                    assert(items_model(inputs@) =~= before.take(
                                        inputs@.len() as int,
                                    ));
                                }
                                match extend_input(input, ids, label, value) {
                                    Some(extended) => {
                                        done.push(extended);
                                    },
                                    None => {
                                        assert(!inputs_extensible(
                                            before,
                                            ids.deep_view(),
                                            entry,
                                            before.len() as int,
                                        )) by {
                                            assert(extended_input(
                                                before[inputs@.len() as int],
                                                ids.deep_view(),
                                                entry,
                                            ) is None);
                                        }
                                        return Err(ShapeError::OptionsNotAnArray);
                                    },
                                }
                            }
                            let mut ordered: Vec<JsonValue> = Vec::new();
                            while done.len() > 0
                                invariant
                                    done@.len() + ordered@.len() == before.len(),
                                    forall|k: int|
                                        0 <= k < done@.len() ==> extended_input(
                                            #[trigger] before[before.len() - 1 - k],
                                            ids.deep_view(),
                                            entry,
                                        ) == Some(done@[k]@),
                                    forall|k: int|
                                        0 <= k < ordered@.len() ==> extended_input(
                                            #[trigger] before[k],
                                            ids.deep_view(),
                                            entry,
                                        ) == Some(ordered@[k]@),
                                decreases done.len(),
                            {
                                let extended = done.pop().unwrap();
                                assert(extended_input(
                                    before[before.len() - 1 - done@.len()],
                                    ids.deep_view(),
                                    entry,
                                ) == Some(extended@));
                                ordered.push(extended);
                            }
                            proof {
                                lemma_array_view(ordered);
                                assert(inputs_extensible(
                                    before,
                                    ids.deep_view(),
                                    entry,
                                    before.len() as int,
                                ));
                                assert(items_model(ordered@) =~= extended_inputs(
                                    before,
                                    ids.deep_view(),
                                    entry,
                                ));
                            }
                            fields.insert(
                                at,
                                JsonField { name: held.name, value: JsonValue::Array(ordered) },
                            );
                            proof {
                                lemma_object_view(fields);
                                assert(fields_model(fields@) =~= fields_model(
                                    document->Object_0@,
                                ).update(
                                    at as int,
                                    FieldModel {
                                        name: held.name@,
                                        value: JsonValue::Array(ordered)@,
                                    },
                                ));
                            }
                            Ok(JsonValue::Object(fields))
                        },
                        _ => Err(ShapeError::InputsNotAnArray),
                    }
                },
                None => Err(ShapeError::InputsNotAnArray),
            }
        },
        _ => Err(ShapeError::InputsNotAnArray),
    }
}

/// Sets the field `key` of the document to `value`.
///
/// None where the document is neither an object nor null.
pub fn set_member(document: JsonValue, key: &str, value: JsonValue) -> (changed: Option<JsonValue>)
    ensures
        match changed {
            Some(tree) => with_member(document@, key@, value@) == Some(tree@),
            None => with_member(document@, key@, value@) is None,
        },
{
    match document {
        JsonValue::Object(mut fields) => {
            proof {
                lemma_object_view(fields);
            }
            match find_field(&fields, key) {
                Some(at) => {
                    replace_field_value(&mut fields, at, value);
                },
                None => {
                    fields.push(JsonField { name: key.to_owned(), value });
                    assert(fields_model(fields@) =~= fields_model(document->Object_0@).push(
                        FieldModel { name: key@, value: value@ },
                    ));
                },
            }
            proof {
                lemma_object_view(fields);
            }
            Some(JsonValue::Object(fields))
        },
        JsonValue::Null => {
            let mut fields: Vec<JsonField> = Vec::new();
            fields.push(JsonField { name: key.to_owned(), value });
            proof {
                lemma_object_view(fields);
                assert(fields_model(fields@) =~= seq![FieldModel { name: key@, value: value@ }]);
            }
            Some(JsonValue::Object(fields))
        },
        _ => None,
    }
}

/// Putting a new value into a field moves no field: each name is found
/// where it was.
pub proof fn lemma_field_index_after_update(
    fields: Seq<FieldModel>,
    at: int,
    value: JsonModel,
    key: Seq<char>,
)
    requires
        0 <= at < fields.len(),
    ensures
        field_index(fields.update(at, FieldModel { name: fields[at].name, value }), key)
            == field_index(fields, key),
{
    let updated = fields.update(at, FieldModel { name: fields[at].name, value });
    assert forall|i: int| is_first_field(updated, key, i) == is_first_field(fields, key, i) by {
        if 0 <= i < fields.len() {
            assert(updated[i].name == fields[i].name);
            assert forall|j: int| 0 <= j < i implies updated[j].name == fields[j].name by {}
        }
    }
}

/// An object with a new value in one field holds that value there, and in
/// every other field what it held.
pub proof fn lemma_member_after_update(
    object: JsonModel,
    key: Seq<char>,
    value: JsonModel,
    other: Seq<char>,
)
    requires
        with_field_value(object, key, value) is Some,
    ensures
        with_field_value(object, key, value).unwrap().member(key) == Some(value),
        other != key ==> with_field_value(object, key, value).unwrap().member(other)
            == object.member(other),
{
    let fields = object->Object_0;
    let at = field_index(fields, key).unwrap();
    lemma_field_index_after_update(fields, at, value, key);
    lemma_field_index_after_update(fields, at, value, other);
    if other != key {
        match field_index(fields, other) {
            Some(place) => {
                assert(is_first_field(fields, other, place));
                assert(is_first_field(fields, key, at));
                assert(place != at);
            },
            None => {},
        }
    }
}

/// An input that was extended is selected as before, and offers one more
/// option: the new entry, behind those it offered.
pub proof fn lemma_extended_input_offers_entry(
    input: JsonModel,
    ids: Seq<Seq<char>>,
    entry: JsonModel,
)
    requires
        input_selected(input, ids),
        extended_input(input, ids, entry) is Some,
    ensures
        input.member("options"@) is Some,
        input.member("options"@).unwrap() is Array,
        input_selected(extended_input(input, ids, entry).unwrap(), ids),
        extended_input(input, ids, entry).unwrap().member("options"@) == Some(
            JsonModel::Array(input.member("options"@).unwrap()->Array_0.push(entry)),
        ),
{
    reveal_strlit("options");
    reveal_strlit("id");
    assert("id"@ != "options"@) by {
        assert("id"@.len() != "options"@.len());
    }
    let options = input.member("options"@).unwrap()->Array_0;
    lemma_member_after_update(input, "options"@, JsonModel::Array(options.push(entry)), "id"@);
}

/// The inputs of a tasks document that was extended are the inputs it had,
/// each extended.
pub proof fn lemma_extended_tasks_inputs(document: JsonModel, ids: Seq<Seq<char>>, entry: JsonModel)
    requires
        extended_tasks(document, ids, entry) is Ok,
    ensures
        document.member("inputs"@) is Some,
        document.member("inputs"@).unwrap() is Array,
        extended_tasks(document, ids, entry).unwrap().member("inputs"@) == Some(
            JsonModel::Array(
                extended_inputs(document.member("inputs"@).unwrap()->Array_0, ids, entry),
            ),
        ),
{
    let inputs = document.member("inputs"@).unwrap()->Array_0;
    lemma_member_after_update(
        document,
        "inputs"@,
        JsonModel::Array(extended_inputs(inputs, ids, entry)),
        "inputs"@,
    );
}

/// Registering is not idempotent: a tasks document that can be extended
/// once can be extended again with the same entry, and each selected input
/// then offers the entry twice, behind the options it offered at first.
/// Every other input is as it was.
pub proof fn lemma_extending_twice_appends_twice(
    document: JsonModel,
    ids: Seq<Seq<char>>,
    entry: JsonModel,
)
    requires
        extended_tasks(document, ids, entry) is Ok,
    ensures
        extended_tasks(extended_tasks(document, ids, entry).unwrap(), ids, entry) is Ok,
        ({
            let inputs = document.member("inputs"@).unwrap()->Array_0;
            let twice = extended_tasks(
                extended_tasks(document, ids, entry).unwrap(),
                ids,
                entry,
            ).unwrap().member("inputs"@).unwrap()->Array_0;
            &&& twice.len() == inputs.len()
            &&& forall|i: int|
                0 <= i < inputs.len() ==> if input_selected(inputs[i], ids) {
                    (#[trigger] twice[i]).member("options"@) == Some(
                        JsonModel::Array(
                            inputs[i].member("options"@).unwrap()->Array_0.push(entry).push(entry),
                        ),
                    )
                } else {
                    twice[i] == inputs[i]
                }
        }),
{
    lemma_extended_tasks_inputs(document, ids, entry);
    let inputs = document.member("inputs"@).unwrap()->Array_0;
    let once_document = extended_tasks(document, ids, entry).unwrap();
    let once = extended_inputs(inputs, ids, entry);
    assert(once_document.member("inputs"@) == Some(JsonModel::Array(once)));
    assert forall|i: int| 0 <= i < once.len() implies (#[trigger] extended_input(
        once[i],
        ids,
        entry,
    )) is Some by {
        assert(extended_input(inputs[i], ids, entry) is Some);
        if input_selected(inputs[i], ids) {
            lemma_extended_input_offers_entry(inputs[i], ids, entry);
        }
    }
    assert(inputs_extensible(once, ids, entry, once.len() as int));
    lemma_extended_tasks_inputs(once_document, ids, entry);
    let twice = extended_inputs(once, ids, entry);
    assert forall|i: int| 0 <= i < inputs.len() implies if input_selected(inputs[i], ids) {
        (#[trigger] twice[i]).member("options"@) == Some(
            JsonModel::Array(
                inputs[i].member("options"@).unwrap()->Array_0.push(entry).push(entry),
            ),
        )
    } else {
        twice[i] == inputs[i]
    } by {
        assert(extended_input(inputs[i], ids, entry) is Some);
        if input_selected(inputs[i], ids) {
            lemma_extended_input_offers_entry(inputs[i], ids, entry);
            lemma_extended_input_offers_entry(once[i], ids, entry);
        }
    }
}

/// What reading a document from `text`, changing it and printing it gives:
/// the new text, or the first of the three steps that fails.
pub open spec fn rewritten(
    text: Seq<char>,
    change: spec_fn(JsonModel) -> Result<JsonModel, ShapeError>,
) -> Result<Seq<char>, PatchErrorModel> {
    match parsed_tree(text) {
        Err(failure) => Err(PatchErrorModel::Syntax(failure)),
        Ok(tree) => match change(tree) {
            Err(error) => Err(PatchErrorModel::Shape(error)),
            Ok(changed) => match printed_tree(changed) {
                Err(failure) => Err(PatchErrorModel::Print(failure)),
                Ok(printed) => Ok(printed),
            },
        },
    }
}

/// Whether `outcome` is what `expected` says, text for text and error for
/// error.
pub open spec fn outcome_is(
    outcome: Result<String, PatchError>,
    expected: Result<Seq<char>, PatchErrorModel>,
) -> bool {
    match outcome {
        Ok(text) => expected == Ok::<Seq<char>, PatchErrorModel>(text@),
        Err(error) => expected == Err::<Seq<char>, PatchErrorModel>(error@),
    }
}

/// A change to one of the editor's documents.
#[derive(Debug, PartialEq, Eq)]
pub enum JsonPatch {
    /// Register a package in the tasks document of a Rust workspace.
    AddPackage { package_name: String, package_friendly_name: String },
    /// Register a project in the tasks document of a C# workspace.
    AddCsharpProject {
        project_path: String,
        project_friendly_name: String,
        is_runnable: bool,
        is_watchable: bool,
    },
    /// Write the choice of language server into the settings document.
    SetCsharpLsp(CsharpLspOption),
}

/// What a `JsonPatch` holds.
pub enum JsonPatchModel {
    AddPackage { package_name: Seq<char>, package_friendly_name: Seq<char> },
    AddCsharpProject {
        project_path: Seq<char>,
        project_friendly_name: Seq<char>,
        is_runnable: bool,
        is_watchable: bool,
    },
    SetCsharpLsp(CsharpLspOption),
}

impl View for JsonPatch {
    type V = JsonPatchModel;

    open spec fn view(&self) -> JsonPatchModel {
        match self {
            JsonPatch::AddPackage { package_name, package_friendly_name } => {
                JsonPatchModel::AddPackage {
                    package_name: package_name@,
                    package_friendly_name: package_friendly_name@,
                }
            },
            JsonPatch::AddCsharpProject {
                project_path,
                project_friendly_name,
                is_runnable,
                is_watchable,
            } => JsonPatchModel::AddCsharpProject {
                project_path: project_path@,
                project_friendly_name: project_friendly_name@,
                is_runnable: *is_runnable,
                is_watchable: *is_watchable,
            },
            JsonPatch::SetCsharpLsp(option) => JsonPatchModel::SetCsharpLsp(*option),
        }
    }
}

impl JsonPatchModel {
    /// The document after the change.
    pub open spec fn changed(self, document: JsonModel) -> Result<JsonModel, ShapeError> {
        match self {
            JsonPatchModel::AddPackage { package_name, package_friendly_name } => {
                rust::tasks_with_package(document, package_name, package_friendly_name)
            },
            JsonPatchModel::AddCsharpProject {
                project_path,
                project_friendly_name,
                is_runnable,
                is_watchable,
            } => csharp::tasks_with_project(
                document,
                project_path,
                project_friendly_name,
                is_runnable,
                is_watchable,
            ),
            JsonPatchModel::SetCsharpLsp(option) => csharp::settings_with_lsp(document, option),
        }
    }

    /// The text of the document after the change, or why there is none.
    pub open spec fn applied(self, text: Seq<char>) -> Result<Seq<char>, PatchErrorModel> {
        rewritten(text, |document: JsonModel| self.changed(document))
    }
}

impl JsonPatch {
    /// Makes the change on a document.
    pub fn change(&self, document: JsonValue) -> (changed: Result<JsonValue, ShapeError>)
        ensures
            match changed {
                Ok(tree) => self@.changed(document@) == Ok::<JsonModel, ShapeError>(tree@),
                Err(error) => self@.changed(document@) == Err::<JsonModel, ShapeError>(error),
            },
    {
        match self {
            JsonPatch::AddPackage { package_name, package_friendly_name } => rust::add_package(
                document,
                package_name.as_str(),
                package_friendly_name.as_str(),
            ),
            JsonPatch::AddCsharpProject {
                project_path,
                project_friendly_name,
                is_runnable,
                is_watchable,
            } => csharp::add_csharp_project(
                document,
                project_path.as_str(),
                project_friendly_name.as_str(),
                *is_runnable,
                *is_watchable,
            ),
            JsonPatch::SetCsharpLsp(option) => csharp::set_csharp_lsp(document, *option),
        }
    }

    /// Makes the change on the text of a document: reads the document from
    /// the text, changes it and prints it.
    ///
    /// Fails where the text is no JSON document, where the document lacks
    /// the shape the change expects, and where the changed document cannot
    /// be printed; the error says which.
    pub fn apply(&self, text: &str) -> (outcome: Result<String, PatchError>)
        ensures
            outcome_is(outcome, self@.applied(text@)),
    {
        match parse(text) {
            Err(failure) => Err(PatchError::Syntax(failure)),
            Ok(document) => match self.change(document) {
                Err(error) => Err(PatchError::Shape(error)),
                Ok(changed) => match print(changed) {
                    Err(failure) => Err(PatchError::Print(failure)),
                    Ok(printed) => Ok(printed),
                },
            },
        }
    }
}

/// The settings file of an editor workspace.
#[derive(Debug, PartialEq)]
pub struct VSCodeSettingsFile {
    /// The path to the settings file.
    pub file_path: String,
    /// The values in the settings file.
    pub values: JsonValue,
}

/// The tasks file of an editor workspace.
#[derive(Debug, PartialEq)]
pub struct VSCodeTasksFile {
    /// The path to the tasks file.
    pub file_path: String,
    /// The values in the tasks file.
    pub values: JsonValue,
}

impl VSCodeSettingsFile {
    /// The settings file at `file_path` whose content is `content`.
    ///
    /// Fails where the content is no JSON document.
    pub fn new(file_path: String, content: &str) -> (file: Result<Self, PatchError>)
        ensures
            match file {
                Ok(held) => held.file_path == file_path && parsed_tree(content@) == Ok::<
                    JsonModel,
                    JsonFailureModel,
                >(held.values@),
                Err(error) => error@ is Syntax && parsed_tree(content@) == Err::<
                    JsonModel,
                    JsonFailureModel,
                >(error@->Syntax_0),
            },
    {
        match parse(content) {
            Ok(values) => Ok(VSCodeSettingsFile { file_path, values }),
            Err(failure) => Err(PatchError::Syntax(failure)),
        }
    }

    /// The text to write to the settings file: the values, printed.
    pub fn write_settings(self) -> (printed: Result<String, PatchError>)
        ensures
            match printed {
                Ok(text) => printed_tree(self.values@) == Ok::<Seq<char>, JsonFailureModel>(text@),
                Err(error) => error@ is Print && printed_tree(self.values@) == Err::<
                    Seq<char>,
                    JsonFailureModel,
                >(error@->Print_0),
            },
    {
        match print(self.values) {
            Ok(text) => Ok(text),
            Err(failure) => Err(PatchError::Print(failure)),
        }
    }
}

impl VSCodeTasksFile {
    /// The tasks file at `file_path` whose content is `content`.
    ///
    /// Fails where the content is no JSON document.
    pub fn new(file_path: String, content: &str) -> (file: Result<Self, PatchError>)
        ensures
            match file {
                Ok(held) => held.file_path == file_path && parsed_tree(content@) == Ok::<
                    JsonModel,
                    JsonFailureModel,
                >(held.values@),
                Err(error) => error@ is Syntax && parsed_tree(content@) == Err::<
                    JsonModel,
                    JsonFailureModel,
                >(error@->Syntax_0),
            },
    {
        match parse(content) {
            Ok(values) => Ok(VSCodeTasksFile { file_path, values }),
            Err(failure) => Err(PatchError::Syntax(failure)),
        }
    }

    /// The text to write to the tasks file: the values, printed.
    pub fn write_tasks(self) -> (printed: Result<String, PatchError>)
        ensures
            match printed {
                Ok(text) => printed_tree(self.values@) == Ok::<Seq<char>, JsonFailureModel>(text@),
                Err(error) => error@ is Print && printed_tree(self.values@) == Err::<
                    Seq<char>,
                    JsonFailureModel,
                >(error@->Print_0),
            },
    {
        match print(self.values) {
            Ok(text) => Ok(text),
            Err(failure) => Err(PatchError::Print(failure)),
        }
    }
}

} // verus!
