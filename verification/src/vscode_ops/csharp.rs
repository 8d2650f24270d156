//! Changes to the settings and tasks documents of a C# workspace.

use vstd::prelude::*;
use crate::io::{join_path, joined};
use crate::json::{JsonModel, JsonValue};
use crate::lang_options::CsharpLspOption;
use crate::logging::OutputEmoji;
use crate::operation::{
    Action,
    ActionModel,
    Announcement,
    AnnouncementModel,
    Guard,
    Operation,
    OperationModel,
    Removal,
};
use crate::vscode_ops::{
    extend_tasks,
    extended_tasks,
    option_entry,
    set_member,
    with_member,
    JsonPatch,
    JsonPatchModel,
    ShapeError,
};

verus! {

/// The ids of the inputs that offer a project: `projectItem` always,
/// `watchProject` for a project that can be watched, `runProject` for one
/// that can be run.
pub open spec fn project_ids(is_runnable: bool, is_watchable: bool) -> Seq<Seq<char>> {
    seq!["projectItem"@] + (if is_watchable {
        seq!["watchProject"@]
    } else {
        Seq::empty()
    }) + (if is_runnable {
        seq!["runProject"@]
    } else {
        Seq::empty()
    })
}

/// The tasks document after a project was registered.
pub open spec fn tasks_with_project(
    document: JsonModel,
    project_path: Seq<char>,
    project_friendly_name: Seq<char>,
    is_runnable: bool,
    is_watchable: bool,
) -> Result<JsonModel, ShapeError> {
    extended_tasks(
        document,
        project_ids(is_runnable, is_watchable),
        option_entry(project_friendly_name, project_path),
    )
}

/// The settings document after the language server was chosen: the field
/// `dotnet.server.useOmnisharp` says whether OmniSharp is used, and the
/// field `dotnet.server.path` holds the server path that goes with it.
pub open spec fn settings_with_lsp(document: JsonModel, csharp_lsp: CsharpLspOption) -> Result<
    JsonModel,
    ShapeError,
> {
    match with_member(
        document,
        "dotnet.server.useOmnisharp"@,
        JsonModel::Bool(csharp_lsp.spec_uses_omnisharp()),
    ) {
        Some(first) => match with_member(
            first,
            "dotnet.server.path"@,
            JsonModel::Text(csharp_lsp.spec_server_path()),
        ) {
            Some(second) => Ok(second),
            None => Err(ShapeError::SettingsNotAnObject),
        },
        None => Err(ShapeError::SettingsNotAnObject),
    }
}

/// Registers a project in the tasks document: appends the option
/// `{label: friendly name, value: path}` to each input whose `id` is
/// `projectItem`, and also to those whose `id` is `watchProject` if the
/// project can be watched, and `runProject` if it can be run.
///
/// Fails, with nothing changed, where the document is no object with an
/// array `inputs`, or where such an input has no array `options`.
pub fn add_csharp_project(
    document: JsonValue,
    project_path: &str,
    project_friendly_name: &str,
    is_runnable: bool,
    is_watchable: bool,
) -> (changed: Result<JsonValue, ShapeError>)
    ensures
        match changed {
            Ok(tree) => tasks_with_project(
                document@,
                project_path@,
                project_friendly_name@,
                is_runnable,
                is_watchable,
            ) == Ok::<JsonModel, ShapeError>(tree@),
            Err(error) => tasks_with_project(
                document@,
                project_path@,
                project_friendly_name@,
                is_runnable,
                is_watchable,
            ) == Err::<JsonModel, ShapeError>(error),
        },
{
    let mut ids: Vec<String> = Vec::new();
    ids.push("projectItem".to_owned());
    if is_watchable {
        ids.push("watchProject".to_owned());
    }
    if is_runnable {
        ids.push("runProject".to_owned());
    }
    assert(ids.deep_view() =~= project_ids(is_runnable, is_watchable));
    extend_tasks(document, &ids, project_friendly_name, project_path)
}

/// Writes the choice of language server into the settings document.
///
/// Fails where the document is neither an object nor null.
pub fn set_csharp_lsp(document: JsonValue, csharp_lsp: CsharpLspOption) -> (changed: Result<
    JsonValue,
    ShapeError,
>)
    ensures
        match changed {
            Ok(tree) => settings_with_lsp(document@, csharp_lsp) == Ok::<JsonModel, ShapeError>(
                tree@,
            ),
            Err(error) => settings_with_lsp(document@, csharp_lsp) == Err::<JsonModel, ShapeError>(
                error,
            ),
        },
{
    match set_member(
        document,
        "dotnet.server.useOmnisharp",
        JsonValue::Bool(csharp_lsp.uses_omnisharp()),
    ) {
        Some(first) => match set_member(
            first,
            "dotnet.server.path",
            JsonValue::Text(csharp_lsp.server_path().to_owned()),
        ) {
            Some(second) => Ok(second),
            None => Err(ShapeError::SettingsNotAnObject),
        },
        None => Err(ShapeError::SettingsNotAnObject),
    }
}

/// The operation that writes the choice of language server into the
/// settings document of the project in `output_directory`.
pub open spec fn lsp_update(
    output_directory: Seq<char>,
    csharp_lsp: CsharpLspOption,
) -> OperationModel {
    OperationModel {
        announcement: AnnouncementModel::Operation {
            message: "Updating C# LSP option in tasks.json..."@,
            emoji: OutputEmoji::Document,
        },
        save_cursor: false,
        target: joined(output_directory, ".vscode/settings.json"@),
        guard: Guard::Always,
        removal: Removal::File,
        action: ActionModel::Patch(JsonPatchModel::SetCsharpLsp(csharp_lsp)),
    }
}

/// The operation that registers a project in the tasks document of the
/// project in `output_directory`.
pub open spec fn project_registration(
    output_directory: Seq<char>,
    project_path: Seq<char>,
    project_friendly_name: Seq<char>,
    is_runnable: bool,
    is_watchable: bool,
) -> OperationModel {
    OperationModel {
        announcement: AnnouncementModel::Operation {
            message: "Adding C# project to tasks.json..."@,
            emoji: OutputEmoji::Document,
        },
        save_cursor: false,
        target: joined(output_directory, ".vscode/tasks.json"@),
        guard: Guard::Always,
        removal: Removal::File,
        action: ActionModel::Patch(
            JsonPatchModel::AddCsharpProject {
                project_path,
                project_friendly_name,
                is_runnable,
                is_watchable,
            },
        ),
    }
}

/// Updates the C# LSP option in the `.vscode/settings.json` file.
pub fn update_csharp_lsp(output_directory: &str, csharp_lsp: CsharpLspOption) -> (operation:
    Operation)
    ensures
        operation@ == lsp_update(output_directory@, csharp_lsp),
{
    Operation {
        announcement: Announcement::Operation {
            message: "Updating C# LSP option in tasks.json...".to_owned(),
            emoji: OutputEmoji::Document,
        },
        save_cursor: false,
        target: join_path(output_directory, ".vscode/settings.json"),
        guard: Guard::Always,
        removal: Removal::File,
        action: Action::Patch(JsonPatch::SetCsharpLsp(csharp_lsp)),
    }
}

/// Adds a C# project to the `.vscode/tasks.json` file.
pub fn add_csharp_project_to_tasks(
    output_directory: &str,
    project_path: &str,
    project_friendly_name: &str,
    is_runnable: bool,
    is_watchable: bool,
) -> (operation: Operation)
    ensures
        operation@ == project_registration(
            output_directory@,
            project_path@,
            project_friendly_name@,
            is_runnable,
            is_watchable,
        ),
{
    Operation {
        announcement: Announcement::Operation {
            message: "Adding C# project to tasks.json...".to_owned(),
            emoji: OutputEmoji::Document,
        },
        save_cursor: false,
        target: join_path(output_directory, ".vscode/tasks.json"),
        guard: Guard::Always,
        removal: Removal::File,
        action: Action::Patch(
            JsonPatch::AddCsharpProject {
                project_path: project_path.to_owned(),
                project_friendly_name: project_friendly_name.to_owned(),
                is_runnable,
                is_watchable,
            },
        ),
    }
}

} // verus!
