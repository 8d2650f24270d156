//! The files of a Rust project that come from templates.

use vstd::prelude::*;
use crate::io::{join_path, joined};
use crate::operation::{Operation, OperationModel};
use crate::template_ops::vscode::ensure_vscode_dir_exists;
use crate::template_ops::{
    copy_template,
    create_directory,
    directory_creation,
    pair,
    render_template,
    template_copy,
    template_render,
};

verus! {

/// The operation that copies the `.gitignore` file to the project root.
pub open spec fn gitignore_copy(output_directory: Seq<char>, force: bool) -> OperationModel {
    template_copy("rust/Git/gitignore"@, output_directory, ".gitignore"@, "project root"@, force)
}

/// The operation that copies the `Cargo.toml` workspace file to the project
/// root.
pub open spec fn cargo_workspace_file_copy(
    output_directory: Seq<char>,
    force: bool,
) -> OperationModel {
    template_copy(
        "rust/Cargo/Cargo.workspace.toml"@,
        output_directory,
        "Cargo.toml"@,
        "project root"@,
        force,
    )
}

/// The operations that copy the `settings.json` file to the `.vscode`
/// directory.
pub open spec fn vscode_settings_copy(output_directory: Seq<char>, force: bool) -> Seq<
    OperationModel,
> {
    seq![
        directory_creation(output_directory, ".vscode"@),
        template_copy(
            "rust/VSCode/settings.json"@,
            joined(output_directory, ".vscode"@),
            "settings.json"@,
            "'.vscode' directory"@,
            force,
        ),
    ]
}

/// The operations that write the `tasks.json` file to the `.vscode`
/// directory, for the package `package_name`.
pub open spec fn vscode_tasks_copy(
    output_directory: Seq<char>,
    package_name: Seq<char>,
    force: bool,
) -> Seq<OperationModel> {
    seq![
        directory_creation(output_directory, ".vscode"@),
        template_render(
            "rust/VSCode/tasks.json"@,
            joined(output_directory, ".vscode"@),
            "tasks.json"@,
            "'.vscode' directory"@,
            "{{basePackageName}}"@,
            package_name,
            force,
        ),
    ]
}

/// The operations that copy a script to the `tools` directory.
pub open spec fn tools_script_copy(
    relative_template_file_path: Seq<char>,
    output_directory: Seq<char>,
    output_file_name: Seq<char>,
    force: bool,
) -> Seq<OperationModel> {
    seq![
        directory_creation(output_directory, "tools"@),
        template_copy(
            relative_template_file_path,
            joined(output_directory, "tools"@),
            output_file_name,
            "'tools' directory"@,
            force,
        ),
    ]
}

/// The operations that copy the `Build-Package.ps1` file to the `tools`
/// directory.
pub open spec fn build_pwsh_script_copy(output_directory: Seq<char>, force: bool) -> Seq<
    OperationModel,
> {
    tools_script_copy(
        "rust/Tools/Build-Package.ps1"@,
        output_directory,
        "Build-Package.ps1"@,
        force,
    )
}

/// The operations that copy the `Clean-Package.ps1` file to the `tools`
/// directory.
pub open spec fn clean_pwsh_script_copy(output_directory: Seq<char>, force: bool) -> Seq<
    OperationModel,
> {
    tools_script_copy(
        "rust/Tools/Clean-Package.ps1"@,
        output_directory,
        "Clean-Package.ps1"@,
        force,
    )
}

/// Copies the `.gitignore` file to the project root.
pub fn copy_gitignore(output_directory: &str, force: bool) -> (operation: Operation)
    ensures
        operation@ == gitignore_copy(output_directory@, force),
{
    copy_template("rust/Git/gitignore", output_directory, ".gitignore", "project root", force)
}

/// Copies the `Cargo.toml` workspace file to the project root.
pub fn copy_cargo_workspace_file(output_directory: &str, force: bool) -> (operation: Operation)
    ensures
        operation@ == cargo_workspace_file_copy(output_directory@, force),
{
    copy_template(
        "rust/Cargo/Cargo.workspace.toml",
        output_directory,
        "Cargo.toml",
        "project root",
        force,
    )
}

/// Copies the `settings.json` file to the project root's `.vscode`
/// directory, which is made first if it is not there.
pub fn copy_vscode_settings(output_directory: &str, force: bool) -> (operations: Vec<Operation>)
    ensures
        operations.deep_view() == vscode_settings_copy(output_directory@, force),
{
    let directory = join_path(output_directory, ".vscode");
    pair(
        ensure_vscode_dir_exists(output_directory),
        copy_template(
            "rust/VSCode/settings.json",
            directory.as_str(),
            "settings.json",
            "'.vscode' directory",
            force,
        ),
    )
}

/// Copies the `tasks.json` file to the project root's `.vscode` directory,
/// which is made first if it is not there. Each `{{basePackageName}}` in
/// the template gives way to the package name.
pub fn copy_vscode_tasks(output_directory: &str, package_name: &str, force: bool) -> (operations:
    Vec<Operation>)
    ensures
        operations.deep_view() == vscode_tasks_copy(output_directory@, package_name@, force),
{
    let directory = join_path(output_directory, ".vscode");
    pair(
        ensure_vscode_dir_exists(output_directory),
        render_template(
            "rust/VSCode/tasks.json",
            directory.as_str(),
            "tasks.json",
            "'.vscode' directory",
            "{{basePackageName}}",
            package_name,
            force,
        ),
    )
}

/// Creates the `tools` directory in the project root if it does not exist.
pub fn ensure_tools_dir_exists(output_directory: &str) -> (operation: Operation)
    ensures
        operation@ == directory_creation(output_directory@, "tools"@),
{
    create_directory(output_directory, "tools")
}

/// Copies the `Build-Package.ps1` file to the `tools` directory, which is
/// made first if it is not there.
pub fn copy_build_pwsh_script(output_directory: &str, force: bool) -> (operations: Vec<Operation>)
    ensures
        operations.deep_view() == build_pwsh_script_copy(output_directory@, force),
{
    let directory = join_path(output_directory, "tools");
    pair(
        ensure_tools_dir_exists(output_directory),
        copy_template(
            "rust/Tools/Build-Package.ps1",
            directory.as_str(),
            "Build-Package.ps1",
            "'tools' directory",
            force,
        ),
    )
}

/// Copies the `Clean-Package.ps1` file to the `tools` directory, which is
/// made first if it is not there.
pub fn copy_clean_pwsh_script(output_directory: &str, force: bool) -> (operations: Vec<Operation>)
    ensures
        operations.deep_view() == clean_pwsh_script_copy(output_directory@, force),
{
    let directory = join_path(output_directory, "tools");
    pair(
        ensure_tools_dir_exists(output_directory),
        copy_template(
            "rust/Tools/Clean-Package.ps1",
            directory.as_str(),
            "Clean-Package.ps1",
            "'tools' directory",
            force,
        ),
    )
}

} // verus!
