//! The command line of .NET.

use vstd::prelude::*;
use crate::external_procs::{invocation_in, invoke_in, push_argument};
use crate::io::{join_path, joined};
use crate::logging::OutputEmoji;
use crate::operation::{
    Action,
    ActionModel,
    Announcement,
    AnnouncementModel,
    Guard,
    Invocation,
    InvocationModel,
    Operation,
    OperationModel,
    Removal,
};
use crate::template_ops::csharp::solution_file_name;
use crate::text::{join2, join3};

verus! {

/// The operation that has `dotnet` make one file of a project: under the
/// overwrite policy on that file, `dotnet` is run in the output directory
/// with `arguments`.
pub open spec fn dotnet_creation(
    message: Seq<char>,
    emoji: OutputEmoji,
    output_directory: Seq<char>,
    output_file_name: Seq<char>,
    arguments: Seq<Seq<char>>,
    force: bool,
) -> OperationModel {
    OperationModel {
        announcement: AnnouncementModel::Operation { message, emoji },
        save_cursor: true,
        target: joined(output_directory, output_file_name),
        guard: Guard::Overwrite { force },
        removal: Removal::File,
        action: ActionModel::Run(invocation_in("dotnet"@, arguments, output_directory)),
    }
}

/// The line that announces a file added to the project root.
pub open spec fn adding_message(output_file_name: Seq<char>) -> Seq<char> {
    "Adding '"@ + output_file_name + "' to project root..."@
}

fn create_with_dotnet(
    message: String,
    emoji: OutputEmoji,
    output_directory: &str,
    output_file_name: &str,
    arguments: Vec<String>,
    force: bool,
) -> (operation: Operation)
    ensures
        operation@ == dotnet_creation(
            message@,
            emoji,
            output_directory@,
            output_file_name@,
            arguments.deep_view(),
            force,
        ),
{
    Operation {
        announcement: Announcement::Operation { message, emoji },
        save_cursor: true,
        target: join_path(output_directory, output_file_name),
        guard: Guard::Overwrite { force },
        removal: Removal::File,
        action: Action::Run(invoke_in("dotnet", arguments, output_directory)),
    }
}

fn add_with_dotnet(
    output_directory: &str,
    output_file_name: &str,
    arguments: Vec<String>,
    force: bool,
) -> (operation: Operation)
    ensures
        operation@ == dotnet_creation(
            adding_message(output_file_name@),
            OutputEmoji::Document,
            output_directory@,
            output_file_name@,
            arguments.deep_view(),
            force,
        ),
{
    create_with_dotnet(
        join3("Adding '", output_file_name, "' to project root..."),
        OutputEmoji::Document,
        output_directory,
        output_file_name,
        arguments,
        force,
    )
}

/// The operation that initializes a solution.
pub open spec fn solution_initialization(
    output_directory: Seq<char>,
    solution_name: Seq<char>,
    force: bool,
) -> OperationModel {
    dotnet_creation(
        "Initializing .NET solution '"@ + solution_file_name(solution_name) + "'..."@,
        OutputEmoji::Package,
        output_directory,
        solution_file_name(solution_name),
        seq!["new"@, "sln"@, "--name"@, solution_name],
        force,
    )
}

/// Initializes a new .NET solution: `dotnet new sln --name` with the
/// solution's name.
pub fn initalize_dotnet_solution(
    output_directory: &str,
    solution_name: &str,
    force: bool,
) -> (operation:
    Operation)
    ensures
        operation@ == solution_initialization(output_directory@, solution_name@, force),
{
    let output_file_name = join2(solution_name, ".sln");
    let mut arguments: Vec<String> = Vec::new();
    push_argument(&mut arguments, "new");
    push_argument(&mut arguments, "sln");
    push_argument(&mut arguments, "--name");
    push_argument(&mut arguments, solution_name);
    assert(arguments.deep_view() =~= seq!["new"@, "sln"@, "--name"@, solution_name@]);
    create_with_dotnet(
        join3("Initializing .NET solution '", output_file_name.as_str(), "'..."),
        OutputEmoji::Package,
        output_directory,
        output_file_name.as_str(),
        arguments,
        force,
    )
}

/// The operation that adds a `global.json` file.
pub open spec fn globaljson_addition(output_directory: Seq<char>, force: bool) -> OperationModel {
    dotnet_creation(
        adding_message("global.json"@),
        OutputEmoji::Document,
        output_directory,
        "global.json"@,
        seq!["new"@, "globaljson"@, "--roll-forward"@, "latestMinor"@],
        force,
    )
}

/// Add a `global.json` file to the project root:
/// `dotnet new globaljson --roll-forward latestMinor`.
pub fn add_dotnet_globaljson(output_directory: &str, force: bool) -> (operation: Operation)
    ensures
        operation@ == globaljson_addition(output_directory@, force),
{
    let mut arguments: Vec<String> = Vec::new();
    push_argument(&mut arguments, "new");
    push_argument(&mut arguments, "globaljson");
    push_argument(&mut arguments, "--roll-forward");
    push_argument(&mut arguments, "latestMinor");
    assert(arguments.deep_view() =~= seq![
        "new"@,
        "globaljson"@,
        "--roll-forward"@,
        "latestMinor"@,
    ]);
    add_with_dotnet(output_directory, "global.json", arguments, force)
}

/// The operation that adds a `.gitignore` file.
pub open spec fn gitignore_addition(output_directory: Seq<char>, force: bool) -> OperationModel {
    dotnet_creation(
        adding_message(".gitignore"@),
        OutputEmoji::Document,
        output_directory,
        ".gitignore"@,
        seq!["new"@, "gitignore"@],
        force,
    )
}

/// Add a `.gitignore` file to the project root: `dotnet new gitignore`.
pub fn add_dotnet_gitignore(output_directory: &str, force: bool) -> (operation: Operation)
    ensures
        operation@ == gitignore_addition(output_directory@, force),
{
    let mut arguments: Vec<String> = Vec::new();
    push_argument(&mut arguments, "new");
    push_argument(&mut arguments, "gitignore");
    assert(arguments.deep_view() =~= seq!["new"@, "gitignore"@]);
    add_with_dotnet(output_directory, ".gitignore", arguments, force)
}

/// The operation that adds a `Directory.Build.props` file.
pub open spec fn buildprops_addition(output_directory: Seq<char>, force: bool) -> OperationModel {
    dotnet_creation(
        adding_message("Directory.Build.props"@),
        OutputEmoji::Document,
        output_directory,
        "Directory.Build.props"@,
        seq!["new"@, "buildprops"@, "--use-artifacts"@],
        force,
    )
}

/// Add a `Directory.Build.props` file to the project root:
/// `dotnet new buildprops --use-artifacts`.
pub fn add_dotnet_buildprops(output_directory: &str, force: bool) -> (operation: Operation)
    ensures
        operation@ == buildprops_addition(output_directory@, force),
{
    let mut arguments: Vec<String> = Vec::new();
    push_argument(&mut arguments, "new");
    push_argument(&mut arguments, "buildprops");
    push_argument(&mut arguments, "--use-artifacts");
    assert(arguments.deep_view() =~= seq!["new"@, "buildprops"@, "--use-artifacts"@]);
    add_with_dotnet(output_directory, "Directory.Build.props", arguments, force)
}

/// The operation that adds a `NuGet.Config` file.
pub open spec fn nugetconfig_addition(output_directory: Seq<char>, force: bool) -> OperationModel {
    dotnet_creation(
        adding_message("NuGet.Config"@),
        OutputEmoji::Document,
        output_directory,
        "NuGet.Config"@,
        seq!["new"@, "nugetconfig"@],
        force,
    )
}

/// Add a `NuGet.Config` file to the project root: `dotnet new nugetconfig`.
pub fn add_dotnet_nugetconfig(output_directory: &str, force: bool) -> (operation: Operation)
    ensures
        operation@ == nugetconfig_addition(output_directory@, force),
{
    let mut arguments: Vec<String> = Vec::new();
    push_argument(&mut arguments, "new");
    push_argument(&mut arguments, "nugetconfig");
    assert(arguments.deep_view() =~= seq!["new"@, "nugetconfig"@]);
    add_with_dotnet(output_directory, "NuGet.Config", arguments, force)
}

/// The operation that adds a `Directory.Packages.props` file.
pub open spec fn packagesprops_addition(
    output_directory: Seq<char>,
    force: bool,
) -> OperationModel {
    dotnet_creation(
        adding_message("Directory.Packages.props"@),
        OutputEmoji::Document,
        output_directory,
        "Directory.Packages.props"@,
        seq!["new"@, "packagesprops"@],
        force,
    )
}

/// Add a `Directory.Packages.props` file to the project root:
/// `dotnet new packagesprops`.
pub fn add_dotnet_packagesprops(output_directory: &str, force: bool) -> (operation: Operation)
    ensures
        operation@ == packagesprops_addition(output_directory@, force),
{
    let mut arguments: Vec<String> = Vec::new();
    push_argument(&mut arguments, "new");
    push_argument(&mut arguments, "packagesprops");
    assert(arguments.deep_view() =~= seq!["new"@, "packagesprops"@]);
    add_with_dotnet(output_directory, "Directory.Packages.props", arguments, force)
}

/// The operations that make sure the project has a tool manifest: the
/// `.config` directory is made, without a word, if it is not there; then,
/// unless the manifest is there, `dotnet new tool-manifest` is run.
pub open spec fn tool_manifest_initialization(output_directory: Seq<char>) -> Seq<OperationModel> {
    seq![
        OperationModel {
            announcement: AnnouncementModel::Silent,
            save_cursor: false,
            target: joined(output_directory, ".config"@),
            guard: Guard::IfAbsent,
            removal: Removal::File,
            action: ActionModel::CreateDirectory,
        },
        OperationModel {
            announcement: AnnouncementModel::Operation {
                message: "Initializing .NET tool manifiest..."@,
                emoji: OutputEmoji::Package,
            },
            save_cursor: true,
            target: joined(joined(output_directory, ".config"@), "dotnet-tools.json"@),
            guard: Guard::IfAbsent,
            removal: Removal::File,
            action: ActionModel::Run(
                invocation_in("dotnet"@, seq!["new"@, "tool-manifest"@], output_directory),
            ),
        },
    ]
}

/// The operation that installs a tool:
/// `dotnet tool install` with the tool's name and `--tool-manifest`.
pub open spec fn tool_installation(
    output_directory: Seq<char>,
    tool_name: Seq<char>,
) -> OperationModel {
    OperationModel {
        announcement: AnnouncementModel::Info {
            message: "- 📦 Adding .NET tool '"@ + tool_name + "'... "@,
        },
        save_cursor: true,
        target: output_directory,
        guard: Guard::Always,
        removal: Removal::File,
        action: ActionModel::Run(
            invocation_in(
                "dotnet"@,
                seq!["tool"@, "install"@, tool_name, "--tool-manifest"@],
                output_directory,
            ),
        ),
    }
}

/// The operations that add a tool to the project.
pub open spec fn tool_addition(output_directory: Seq<char>, tool_name: Seq<char>) -> Seq<
    OperationModel,
> {
    tool_manifest_initialization(output_directory).push(
        tool_installation(output_directory, tool_name),
    )
}

/// Add a tool manifest file to the project root.
pub fn initialize_dotnet_tool_manifest(output_directory: &str) -> (operations: Vec<Operation>)
    ensures
        operations.deep_view() == tool_manifest_initialization(output_directory@),
{
    let config_directory = join_path(output_directory, ".config");
    let tool_manifest_file_path = join_path(config_directory.as_str(), "dotnet-tools.json");
    let mut arguments: Vec<String> = Vec::new();
    push_argument(&mut arguments, "new");
    push_argument(&mut arguments, "tool-manifest");
    assert(arguments.deep_view() =~= seq!["new"@, "tool-manifest"@]);
    let mut operations: Vec<Operation> = Vec::new();
    operations.push(
        Operation {
            announcement: Announcement::Silent,
            save_cursor: false,
            target: config_directory,
            guard: Guard::IfAbsent,
            removal: Removal::File,
            action: Action::CreateDirectory,
        },
    );
    operations.push(
        Operation {
            announcement: Announcement::Operation {
                message: "Initializing .NET tool manifiest...".to_owned(),
                emoji: OutputEmoji::Package,
            },
            save_cursor: true,
            target: tool_manifest_file_path,
            guard: Guard::IfAbsent,
            removal: Removal::File,
            action: Action::Run(invoke_in("dotnet", arguments, output_directory)),
        },
    );
    assert(operations.deep_view() =~= tool_manifest_initialization(output_directory@));
    operations
}

/// Add a .NET tool to the project: the tool manifest is seen to first, then
/// the tool is installed.
pub fn add_dotnet_tool(output_directory: &str, tool_name: &str) -> (operations: Vec<Operation>)
    ensures
        operations.deep_view() == tool_addition(output_directory@, tool_name@),
{
    let mut operations = initialize_dotnet_tool_manifest(output_directory);
    let ghost manifest = operations.deep_view();
    let mut arguments: Vec<String> = Vec::new();
    push_argument(&mut arguments, "tool");
    push_argument(&mut arguments, "install");
    push_argument(&mut arguments, tool_name);
    push_argument(&mut arguments, "--tool-manifest");
    assert(arguments.deep_view() =~= seq!["tool"@, "install"@, tool_name@, "--tool-manifest"@]);
    operations.push(
        Operation {
            announcement: Announcement::Info {
                message: join3("- 📦 Adding .NET tool '", tool_name, "'... "),
            },
            save_cursor: true,
            target: output_directory.to_owned(),
            guard: Guard::Always,
            removal: Removal::File,
            action: Action::Run(invoke_in("dotnet", arguments, output_directory)),
        },
    );
    assert(operations.deep_view() =~= manifest.push(
        tool_installation(output_directory@, tool_name@),
    ));
    operations
}

/// The operation that adds a project to a solution:
/// `dotnet sln` with the solution file, `add` and the project, run in the
/// current directory. It is announced by the project's path as seen from
/// the solution.
pub open spec fn project_addition(
    solution_file_path: Seq<char>,
    project_file_path: Seq<char>,
    project_path_relative: Seq<char>,
) -> OperationModel {
    OperationModel {
        announcement: AnnouncementModel::Info {
            message: "- 📄 Adding '"@ + project_path_relative + "' to solution... "@,
        },
        save_cursor: true,
        target: solution_file_path,
        guard: Guard::Always,
        removal: Removal::File,
        action: ActionModel::Run(
            InvocationModel {
                program: "dotnet"@,
                arguments: seq!["sln"@, solution_file_path, "add"@, project_file_path],
                directory: None,
            },
        ),
    }
}

/// Add a project to a solution. `project_file_path` is the project's
/// canonical path.
///
/// None where the project does not lie below the directory of the solution
/// file.
pub fn add_project_to_solution(solution_file_path: &str, project_file_path: &str) -> (operation:
    Option<Operation>)
    ensures
        match crate::io::relative_to(project_file_path@, crate::io::parent(solution_file_path@)) {
            Some(relative) => operation matches Some(held) && held@ == project_addition(
                solution_file_path@,
                project_file_path@,
                relative,
            ),
            None => operation is None,
        },
{
    let solution_directory = crate::io::parent_of(solution_file_path);
    match crate::io::strip_prefix(project_file_path, solution_directory.as_str()) {
        None => None,
        Some(project_path_relative) => {
            let mut arguments: Vec<String> = Vec::new();
            push_argument(&mut arguments, "sln");
            push_argument(&mut arguments, solution_file_path);
            push_argument(&mut arguments, "add");
            push_argument(&mut arguments, project_file_path);
            assert(arguments.deep_view() =~= seq![
                "sln"@,
                solution_file_path@,
                "add"@,
                project_file_path@,
            ]);
            Some(
                Operation {
                    announcement: Announcement::Info {
                        message: join3(
                            "- 📄 Adding '",
                            project_path_relative.as_str(),
                            "' to solution... ",
                        ),
                    },
                    save_cursor: true,
                    target: solution_file_path.to_owned(),
                    guard: Guard::Always,
                    removal: Removal::File,
                    action: Action::Run(
                        Invocation {
                            program: "dotnet".to_owned(),
                            arguments,
                            directory: None,
                        },
                    ),
                },
            )
        },
    }
}

} // verus!
