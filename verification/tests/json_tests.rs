use vscodeconfigurator::error::JsonErrorCategory;
use vscodeconfigurator::json::{find_field, parse, print, JsonField, JsonValue};
use vscodeconfigurator::lang_options::{CargoPackageTemplateOption, CsharpLspOption};
use vscodeconfigurator::vscode_ops::csharp::{add_csharp_project, set_csharp_lsp};
use vscodeconfigurator::vscode_ops::rust::add_package;
use vscodeconfigurator::vscode_ops::{
    extend_tasks, make_option_entry, set_member, JsonPatch, PatchError, ShapeError,
    VSCodeSettingsFile, VSCodeTasksFile,
};

fn text(value: &str) -> JsonValue {
    JsonValue::Text(value.to_string())
}

fn field(name: &str, value: JsonValue) -> JsonField {
    JsonField { name: name.to_string(), value }
}

fn object(fields: Vec<JsonField>) -> JsonValue {
    JsonValue::Object(fields)
}

fn input(id: &str, options: Vec<JsonValue>) -> JsonValue {
    object(vec![field("id", text(id)), field("options", JsonValue::Array(options))])
}

fn entry(label: &str, value: &str) -> JsonValue {
    object(vec![field("label", text(label)), field("value", text(value))])
}

fn tasks(inputs: Vec<JsonValue>) -> JsonValue {
    object(vec![field("inputs", JsonValue::Array(inputs))])
}

#[test]
fn parse_builds_the_tree() {
    let tree = parse("{\"b\": [1, true, null, \"x\"], \"a\": {\"k\": \"v\"}}").unwrap();
    let expected = object(vec![
        field("a", object(vec![field("k", text("v"))])),
        field(
            "b",
            JsonValue::Array(vec![
                JsonValue::Number(serde_json::Number::from(1u64)),
                JsonValue::Bool(true),
                JsonValue::Null,
                text("x"),
            ]),
        ),
    ]);
    assert_eq!(tree, expected);
}

#[test]
fn parse_scalars() {
    assert_eq!(parse("null").unwrap(), JsonValue::Null);
    assert_eq!(parse("false").unwrap(), JsonValue::Bool(false));
    assert_eq!(parse("\"a\\nb\"").unwrap(), text("a\nb"));
    assert_eq!(parse("[]").unwrap(), JsonValue::Array(vec![]));
    assert_eq!(parse("{}").unwrap(), object(vec![]));
    assert_eq!(parse("-7").unwrap(), JsonValue::Number(serde_json::Number::from(-7i64)));
}

#[test]
fn parse_failures_have_categories() {
    let syntax = parse("{\"a\": }").unwrap_err();
    assert_eq!(syntax.category, JsonErrorCategory::Syntax);
    assert_eq!(syntax.message, "expected value at line 1 column 7");
    let eof = parse("{\"a\": [1, 2").unwrap_err();
    assert_eq!(eof.category, JsonErrorCategory::Eof);
    let empty = parse("").unwrap_err();
    assert_eq!(empty.category, JsonErrorCategory::Eof);
    let trailing = parse("{} x").unwrap_err();
    assert_eq!(trailing.category, JsonErrorCategory::Syntax);
}

#[test]
fn print_is_indented_json() {
    let tree = tasks(vec![input("packageName", vec![entry("Pkg", "pkg")])]);
    let printed = print(tree).unwrap();
    let expected = "{\n  \"inputs\": [\n    {\n      \"id\": \"packageName\",\n      \"options\": [\n        {\n          \"label\": \"Pkg\",\n          \"value\": \"pkg\"\n        }\n      ]\n    }\n  ]\n}";
    assert_eq!(printed, expected);
}

#[test]
fn print_scalars_and_empty_containers() {
    assert_eq!(print(JsonValue::Null).unwrap(), "null");
    assert_eq!(print(JsonValue::Bool(true)).unwrap(), "true");
    assert_eq!(print(text("a\"b")).unwrap(), "\"a\\\"b\"");
    assert_eq!(print(JsonValue::Number(serde_json::Number::from(42u64))).unwrap(), "42");
    assert_eq!(print(JsonValue::Array(vec![])).unwrap(), "[]");
    assert_eq!(print(object(vec![])).unwrap(), "{}");
}

#[test]
fn print_then_parse_gives_the_tree_back() {
    let tree = tasks(vec![
        input("packageName", vec![entry("Pkg", "pkg")]),
        object(vec![field("id", text("other")), field("n", JsonValue::Bool(false))]),
    ]);
    let printed = print(tree).unwrap();
    let again = parse(printed.as_str()).unwrap();
    let same = tasks(vec![
        input("packageName", vec![entry("Pkg", "pkg")]),
        object(vec![field("id", text("other")), field("n", JsonValue::Bool(false))]),
    ]);
    assert_eq!(again, same);
}

#[test]
fn find_field_and_member() {
    let fields = vec![field("id", text("a")), field("options", JsonValue::Null), field("id", text("b"))];
    assert_eq!(find_field(&fields, "id"), Some(0));
    assert_eq!(find_field(&fields, "options"), Some(1));
    assert_eq!(find_field(&fields, "missing"), None);
    let tree = object(fields);
    assert_eq!(tree.member("id"), Some(&text("a")));
    assert_eq!(tree.member("missing"), None);
    assert_eq!(text("x").member("id"), None);
    assert!(text("x").is_text("x"));
    assert!(!text("x").is_text("y"));
    assert!(!JsonValue::Null.is_text(""));
}

#[test]
fn option_entry_has_label_and_value() {
    assert_eq!(make_option_entry("Pkg", "pkg"), entry("Pkg", "pkg"));
}

#[test]
fn package_add_appends_one_entry() {
    let document = tasks(vec![input("packageName", vec![])]);
    let changed = add_package(document, "pkg", "Pkg").unwrap();
    assert_eq!(changed, tasks(vec![input("packageName", vec![entry("Pkg", "pkg")])]));
}

#[test]
fn package_add_twice_appends_two_entries() {
    let document = tasks(vec![input("packageName", vec![])]);
    let once = add_package(document, "pkg", "Pkg").unwrap();
    let twice = add_package(once, "pkg", "Pkg").unwrap();
    assert_eq!(
        twice,
        tasks(vec![input("packageName", vec![entry("Pkg", "pkg"), entry("Pkg", "pkg")])])
    );
}

#[test]
fn package_add_keeps_other_inputs_and_fields() {
    let document = object(vec![
        field("version", text("2.0.0")),
        field(
            "inputs",
            JsonValue::Array(vec![
                input("other", vec![entry("A", "a")]),
                input("packageName", vec![entry("Old", "old")]),
                object(vec![field("type", text("pickString"))]),
                text("not an object"),
                input("packageName", vec![]),
            ]),
        ),
        field("tasks", JsonValue::Array(vec![])),
    ]);
    let changed = add_package(document, "pkg", "Pkg").unwrap();
    let expected = object(vec![
        field("version", text("2.0.0")),
        field(
            "inputs",
            JsonValue::Array(vec![
                input("other", vec![entry("A", "a")]),
                input("packageName", vec![entry("Old", "old"), entry("Pkg", "pkg")]),
                object(vec![field("type", text("pickString"))]),
                text("not an object"),
                input("packageName", vec![entry("Pkg", "pkg")]),
            ]),
        ),
        field("tasks", JsonValue::Array(vec![])),
    ]);
    assert_eq!(changed, expected);
}

#[test]
fn package_add_on_text_appends_one_entry() {
    let patch = JsonPatch::AddPackage {
        package_name: "pkg".to_string(),
        package_friendly_name: "Pkg".to_string(),
    };
    let before = "{\"inputs\": [{\"id\": \"packageName\", \"options\": []}]}";
    let after = patch.apply(before).unwrap();
    let document: serde_json::Value = serde_json::from_str(after.as_str()).unwrap();
    let options = document["inputs"][0]["options"].as_array().unwrap();
    assert_eq!(options.len(), 1);
    assert_eq!(options[0]["label"], "Pkg");
    assert_eq!(options[0]["value"], "pkg");
    let again = patch.apply(after.as_str()).unwrap();
    let document: serde_json::Value = serde_json::from_str(again.as_str()).unwrap();
    let options = document["inputs"][0]["options"].as_array().unwrap();
    assert_eq!(options.len(), 2);
    assert_eq!(options[0], options[1]);
}

#[test]
fn patch_on_text_reports_syntax_errors() {
    let patch = JsonPatch::AddPackage {
        package_name: "pkg".to_string(),
        package_friendly_name: "Pkg".to_string(),
    };
    match patch.apply("{ not json") {
        Err(PatchError::Syntax(failure)) => assert_eq!(failure.category, JsonErrorCategory::Syntax),
        other => panic!("unexpected outcome: {:?}", other),
    }
}

#[test]
fn patch_on_text_reports_shape_errors() {
    let patch = JsonPatch::AddPackage {
        package_name: "pkg".to_string(),
        package_friendly_name: "Pkg".to_string(),
    };
    assert_eq!(patch.apply("{}"), Err(PatchError::Shape(ShapeError::InputsNotAnArray)));
    assert_eq!(patch.apply("[]"), Err(PatchError::Shape(ShapeError::InputsNotAnArray)));
    assert_eq!(patch.apply("null"), Err(PatchError::Shape(ShapeError::InputsNotAnArray)));
    assert_eq!(
        patch.apply("{\"inputs\": {}}"),
        Err(PatchError::Shape(ShapeError::InputsNotAnArray))
    );
    assert_eq!(
        patch.apply("{\"inputs\": [{\"id\": \"packageName\"}]}"),
        Err(PatchError::Shape(ShapeError::OptionsNotAnArray))
    );
    assert_eq!(
        patch.apply("{\"inputs\": [{\"id\": \"packageName\", \"options\": {}}]}"),
        Err(PatchError::Shape(ShapeError::OptionsNotAnArray))
    );
    let lsp = JsonPatch::SetCsharpLsp(CsharpLspOption::OmniSharp);
    assert_eq!(lsp.apply("[1]"), Err(PatchError::Shape(ShapeError::SettingsNotAnObject)));
}

#[test]
fn unselected_input_without_options_is_no_error() {
    let document = tasks(vec![object(vec![field("id", text("other"))]), input("packageName", vec![])]);
    let changed = add_package(document, "pkg", "Pkg").unwrap();
    assert_eq!(
        changed,
        tasks(vec![
            object(vec![field("id", text("other"))]),
            input("packageName", vec![entry("Pkg", "pkg")]),
        ])
    );
}

#[test]
fn extend_tasks_with_several_ids() {
    let ids = vec!["a".to_string(), "c".to_string()];
    let document = tasks(vec![input("a", vec![]), input("b", vec![]), input("c", vec![])]);
    let changed = extend_tasks(document, &ids, "L", "v").unwrap();
    assert_eq!(
        changed,
        tasks(vec![
            input("a", vec![entry("L", "v")]),
            input("b", vec![]),
            input("c", vec![entry("L", "v")]),
        ])
    );
    let none: Vec<String> = vec![];
    let untouched = extend_tasks(tasks(vec![input("a", vec![])]), &none, "L", "v").unwrap();
    assert_eq!(untouched, tasks(vec![input("a", vec![])]));
}

#[test]
fn csharp_project_add_honours_the_flags() {
    let document = || {
        tasks(vec![
            input("projectItem", vec![]),
            input("watchProject", vec![]),
            input("runProject", vec![]),
        ])
    };
    let plain = add_csharp_project(document(), "src/App", "App", false, false).unwrap();
    assert_eq!(
        plain,
        tasks(vec![
            input("projectItem", vec![entry("App", "src/App")]),
            input("watchProject", vec![]),
            input("runProject", vec![]),
        ])
    );
    let watchable = add_csharp_project(document(), "src/App", "App", false, true).unwrap();
    assert_eq!(
        watchable,
        tasks(vec![
            input("projectItem", vec![entry("App", "src/App")]),
            input("watchProject", vec![entry("App", "src/App")]),
            input("runProject", vec![]),
        ])
    );
    let runnable = add_csharp_project(document(), "src/App", "App", true, false).unwrap();
    assert_eq!(
        runnable,
        tasks(vec![
            input("projectItem", vec![entry("App", "src/App")]),
            input("watchProject", vec![]),
            input("runProject", vec![entry("App", "src/App")]),
        ])
    );
    let both = add_csharp_project(document(), "src/App", "App", true, true).unwrap();
    assert_eq!(
        both,
        tasks(vec![
            input("projectItem", vec![entry("App", "src/App")]),
            input("watchProject", vec![entry("App", "src/App")]),
            input("runProject", vec![entry("App", "src/App")]),
        ])
    );
}

#[test]
fn csharp_project_add_fails_only_on_selected_inputs() {
    let document = tasks(vec![
        input("projectItem", vec![]),
        object(vec![field("id", text("runProject"))]),
    ]);
    assert_eq!(
        add_csharp_project(document, "p", "P", true, false),
        Err(ShapeError::OptionsNotAnArray)
    );
    let document = tasks(vec![
        input("projectItem", vec![]),
        object(vec![field("id", text("runProject"))]),
    ]);
    assert!(add_csharp_project(document, "p", "P", false, true).is_ok());
}

#[test]
fn set_member_replaces_adds_and_refuses() {
    let replaced = set_member(
        object(vec![field("a", text("old")), field("b", JsonValue::Null)]),
        "a",
        text("new"),
    );
    assert_eq!(replaced, Some(object(vec![field("a", text("new")), field("b", JsonValue::Null)])));
    let added = set_member(object(vec![field("a", text("x"))]), "b", JsonValue::Bool(true));
    assert_eq!(added, Some(object(vec![field("a", text("x")), field("b", JsonValue::Bool(true))])));
    let from_null = set_member(JsonValue::Null, "k", text("v"));
    assert_eq!(from_null, Some(object(vec![field("k", text("v"))])));
    assert_eq!(set_member(JsonValue::Array(vec![]), "k", text("v")), None);
    assert_eq!(set_member(text("t"), "k", text("v")), None);
}

#[test]
fn csharp_lsp_settings() {
    let omnisharp = set_csharp_lsp(object(vec![field("editor.tabSize", text("4"))]), CsharpLspOption::OmniSharp);
    assert_eq!(
        omnisharp,
        Ok(object(vec![
            field("editor.tabSize", text("4")),
            field("dotnet.server.useOmnisharp", JsonValue::Bool(true)),
            field("dotnet.server.path", text("latest")),
        ]))
    );
    let builtin = set_csharp_lsp(
        object(vec![
            field("dotnet.server.path", text("latest")),
            field("dotnet.server.useOmnisharp", JsonValue::Bool(true)),
        ]),
        CsharpLspOption::CsharpLsp,
    );
    assert_eq!(
        builtin,
        Ok(object(vec![
            field("dotnet.server.path", text("")),
            field("dotnet.server.useOmnisharp", JsonValue::Bool(false)),
        ]))
    );
    assert_eq!(
        set_csharp_lsp(JsonValue::Bool(true), CsharpLspOption::CsharpLsp),
        Err(ShapeError::SettingsNotAnObject)
    );
}

#[test]
fn csharp_lsp_on_text() {
    let patch = JsonPatch::SetCsharpLsp(CsharpLspOption::OmniSharp);
    let after = patch.apply("{\"z\": 1, \"dotnet.server.path\": \"\"}").unwrap();
    assert_eq!(
        after,
        "{\n  \"dotnet.server.path\": \"latest\",\n  \"dotnet.server.useOmnisharp\": true,\n  \"z\": 1\n}"
    );
}

#[test]
fn settings_and_tasks_files() {
    let settings = VSCodeSettingsFile::new("/p/.vscode/settings.json".to_string(), "{\"a\": 1}").unwrap();
    assert_eq!(settings.file_path, "/p/.vscode/settings.json");
    assert_eq!(
        settings.values,
        object(vec![field("a", JsonValue::Number(serde_json::Number::from(1u64)))])
    );
    assert_eq!(settings.write_settings().unwrap(), "{\n  \"a\": 1\n}");
    let tasks_file = VSCodeTasksFile::new("/p/.vscode/tasks.json".to_string(), "{\"inputs\": []}").unwrap();
    assert_eq!(tasks_file.values, tasks(vec![]));
    assert_eq!(tasks_file.write_tasks().unwrap(), "{\n  \"inputs\": []\n}");
    match VSCodeTasksFile::new("x".to_string(), "nope") {
        Err(PatchError::Syntax(failure)) => assert_eq!(failure.category, JsonErrorCategory::Syntax),
        other => panic!("unexpected outcome: {:?}", other),
    }
    assert!(VSCodeSettingsFile::new("x".to_string(), "").is_err());
}

#[test]
fn lang_option_names_and_flags() {
    assert_eq!(CsharpLspOption::CsharpLsp.name(), "CsharpLsp");
    assert_eq!(CsharpLspOption::OmniSharp.name(), "OmniSharp");
    assert!(!CsharpLspOption::CsharpLsp.uses_omnisharp());
    assert!(CsharpLspOption::OmniSharp.uses_omnisharp());
    assert_eq!(CsharpLspOption::CsharpLsp.server_path(), "");
    assert_eq!(CsharpLspOption::OmniSharp.server_path(), "latest");
    assert_eq!(CargoPackageTemplateOption::Binary.name(), "Binary");
    assert_eq!(CargoPackageTemplateOption::Library.name(), "Library");
    assert_eq!(CargoPackageTemplateOption::Binary.cargo_flag(), "--bin");
    assert_eq!(CargoPackageTemplateOption::Library.cargo_flag(), "--lib");
}
