//! Changes to the tasks document of a Rust workspace.

use vstd::prelude::*;
use crate::io::{join_path, joined};
use crate::json::{JsonModel, JsonValue};
use crate::logging::OutputEmoji;
use crate::operation::{
    Action,
    ActionModel,
    Announcement,
    AnnouncementModel,
    Guard,
    Operation,
    OperationModel,
    Removal,
};
use crate::vscode_ops::{
    extend_tasks,
    extended_tasks,
    option_entry,
    JsonPatch,
    JsonPatchModel,
    ShapeError,
};

verus! {

/// The ids of the inputs that offer the packages of a workspace.
pub open spec fn package_ids() -> Seq<Seq<char>> {
    seq!["packageName"@]
}

/// The tasks document after a package was registered: each input whose
/// `id` is `packageName` offers the package, under its friendly name, as
/// one more option.
pub open spec fn tasks_with_package(
    document: JsonModel,
    package_name: Seq<char>,
    package_friendly_name: Seq<char>,
) -> Result<JsonModel, ShapeError> {
    extended_tasks(document, package_ids(), option_entry(package_friendly_name, package_name))
}

/// Registers a package in the tasks document: appends the option
/// `{label: friendly name, value: name}` to each input whose `id` is
/// `packageName`. Registering twice appends twice.
///
/// Fails, with nothing changed, where the document is no object with an
/// array `inputs`, or where such an input has no array `options`.
pub fn add_package(
    document: JsonValue,
    package_name: &str,
    package_friendly_name: &str,
) -> (changed:
    Result<JsonValue, ShapeError>)
    ensures
        match changed {
            Ok(tree) => tasks_with_package(document@, package_name@, package_friendly_name@)
                == Ok::<JsonModel, ShapeError>(tree@),
            Err(error) => tasks_with_package(document@, package_name@, package_friendly_name@)
                == Err::<JsonModel, ShapeError>(error),
        },
{
    let mut ids: Vec<String> = Vec::new();
    ids.push("packageName".to_owned());
    assert(ids.deep_view() =~= package_ids());
    extend_tasks(document, &ids, package_friendly_name, package_name)
}

/// The operation that registers a package in the tasks document of the
/// project in `output_directory`.
pub open spec fn package_registration(
    output_directory: Seq<char>,
    package_name: Seq<char>,
    package_friendly_name: Seq<char>,
) -> OperationModel {
    OperationModel {
        announcement: AnnouncementModel::Operation {
            message: "Adding package to tasks.json..."@,
            emoji: OutputEmoji::Document,
        },
        save_cursor: false,
        target: joined(output_directory, ".vscode/tasks.json"@),
        guard: Guard::Always,
        removal: Removal::File,
        action: ActionModel::Patch(
            JsonPatchModel::AddPackage { package_name, package_friendly_name },
        ),
    }
}

/// Adds a Rust package to the `.vscode/tasks.json` file.
pub fn add_package_to_tasks(
    output_directory: &str,
    package_name: &str,
    package_friendly_name: &str,
) -> (operation: Operation)
    ensures
        operation@ == package_registration(
            output_directory@,
            package_name@,
            package_friendly_name@,
        ),
{
    Operation {
        announcement: Announcement::Operation {
            message: "Adding package to tasks.json...".to_owned(),
            emoji: OutputEmoji::Document,
        },
        save_cursor: false,
        target: join_path(output_directory, ".vscode/tasks.json"),
        guard: Guard::Always,
        removal: Removal::File,
        action: Action::Patch(
            JsonPatch::AddPackage {
                package_name: package_name.to_owned(),
                package_friendly_name: package_friendly_name.to_owned(),
            },
        ),
    }
}

} // verus!
