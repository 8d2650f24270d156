//! The files of a C# project that come from templates.

use vstd::prelude::*;
use crate::io::{join_path, joined};
use crate::operation::{Operation, OperationModel};
use crate::template_ops::vscode::ensure_vscode_dir_exists;
use crate::template_ops::{
    copy_template,
    directory_creation,
    pair,
    render_template,
    template_copy,
    template_render,
};
use crate::text::join2;

verus! {

/// The name of the solution file of a solution.
pub open spec fn solution_file_name(solution_name: Seq<char>) -> Seq<char> {
    solution_name + ".sln"@
}

/// The operation that copies the `GitVersion.yml` file to the project root.
pub open spec fn gitversion_copy(output_directory: Seq<char>, force: bool) -> OperationModel {
    template_copy(
        "csharp/GitVersion/GitVersion.yml"@,
        output_directory,
        "GitVersion.yml"@,
        "project root"@,
        force,
    )
}

/// The operations that write a file of the `.vscode` directory from a
/// template in which `{{solutionName}}` stands for the solution file.
pub open spec fn vscode_file_copy(
    relative_template_file_path: Seq<char>,
    output_directory: Seq<char>,
    output_file_name: Seq<char>,
    solution_name: Seq<char>,
    force: bool,
) -> Seq<OperationModel> {
    seq![
        directory_creation(output_directory, ".vscode"@),
        template_render(
            relative_template_file_path,
            joined(output_directory, ".vscode"@),
            output_file_name,
            "'.vscode' directory"@,
            "{{solutionName}}"@,
            solution_file_name(solution_name),
            force,
        ),
    ]
}

/// The operations that write the `settings.json` file to the `.vscode`
/// directory.
pub open spec fn vscode_settings_copy(
    output_directory: Seq<char>,
    solution_name: Seq<char>,
    force: bool,
) -> Seq<OperationModel> {
    vscode_file_copy(
        "csharp/VSCode/settings.json"@,
        output_directory,
        "settings.json"@,
        solution_name,
        force,
    )
}

/// The operations that write the `tasks.json` file to the `.vscode`
/// directory.
pub open spec fn vscode_tasks_copy(
    output_directory: Seq<char>,
    solution_name: Seq<char>,
    force: bool,
) -> Seq<OperationModel> {
    vscode_file_copy(
        "csharp/VSCode/tasks.json"@,
        output_directory,
        "tasks.json"@,
        solution_name,
        force,
    )
}

/// Copies the `GitVersion.yml` file to the project root.
pub fn csharp_copy_gitversion(output_directory: &str, force: bool) -> (operation: Operation)
    ensures
        operation@ == gitversion_copy(output_directory@, force),
{
    copy_template(
        "csharp/GitVersion/GitVersion.yml",
        output_directory,
        "GitVersion.yml",
        "project root",
        force,
    )
}

/// Copies the `settings.json` file to the project root's `.vscode`
/// directory, which is made first if it is not there. Each
/// `{{solutionName}}` in the template gives way to the name of the solution
/// file.
pub fn csharp_copy_vscode_settings(
    output_directory: &str,
    solution_name: &str,
    force: bool,
) -> (operations:
    Vec<Operation>)
    ensures
        operations.deep_view() == vscode_settings_copy(output_directory@, solution_name@, force),
{
    let directory = join_path(output_directory, ".vscode");
    let solution_name_full = join2(solution_name, ".sln");
    pair(
        ensure_vscode_dir_exists(output_directory),
        render_template(
            "csharp/VSCode/settings.json",
            directory.as_str(),
            "settings.json",
            "'.vscode' directory",
            "{{solutionName}}",
            solution_name_full.as_str(),
            force,
        ),
    )
}

/// Copies the `tasks.json` file to the project root's `.vscode` directory,
/// which is made first if it is not there. Each `{{solutionName}}` in the
/// template gives way to the name of the solution file.
pub fn csharp_copy_vscode_tasks(
    output_directory: &str,
    solution_name: &str,
    force: bool,
) -> (operations:
    Vec<Operation>)
    ensures
        operations.deep_view() == vscode_tasks_copy(output_directory@, solution_name@, force),
{
    let directory = join_path(output_directory, ".vscode");
    let solution_name_full = join2(solution_name, ".sln");
    pair(
        ensure_vscode_dir_exists(output_directory),
        render_template(
            "csharp/VSCode/tasks.json",
            directory.as_str(),
            "tasks.json",
            "'.vscode' directory",
            "{{solutionName}}",
            solution_name_full.as_str(),
            force,
        ),
    )
}

} // verus!
