use std::collections::{BTreeMap, BTreeSet};
use vscodeconfigurator::error::{CliError, CliErrorKind, ErrorSource};
use vscodeconfigurator::io::OutputDirectory;
use vscodeconfigurator::lang_options::{CargoPackageTemplateOption, CsharpLspOption};
use vscodeconfigurator::logging::{ConsoleCommand, ConsoleLogger};
use vscodeconfigurator::operation::{Effect, Invocation, Reply, Stage};
use vscodeconfigurator::plan::{Plan, PlanEnd, PlanState, PlanStep, Progress};
use vscodeconfigurator::subcommands::csharp::add::{
    find_with_extension, get_project_friendly_name, get_solution_file_path_default_value,
    AddCommandArgs,
};
use vscodeconfigurator::subcommands::csharp::init::InitCommandArgs;
use vscodeconfigurator::subcommands::csharp::CsharpSubcommands;
use vscodeconfigurator::subcommands::rust::add::RustAddCommandArgs;
use vscodeconfigurator::subcommands::rust::init::RustInitCommandArgs;
use vscodeconfigurator::subcommands::rust::RustSubcommands;
use vscodeconfigurator::subcommands::{
    resolve_directory, run_root, CommandFailure, Completions, ConfiguratorSubcommand, Environment,
    ProjectSurvey, RootOutcome, RootSubcommands,
};
use vscodeconfigurator::vscode_ops::{PatchError, ShapeError};

struct World {
    files: BTreeMap<String, String>,
    directories: BTreeSet<String>,
    templates: BTreeMap<String, String>,
    answer: bool,
    asked: usize,
    runs: Vec<Invocation>,
}

fn empty_world() -> World {
    World {
        files: BTreeMap::new(),
        directories: BTreeSet::new(),
        templates: BTreeMap::new(),
        answer: false,
        asked: 0,
        runs: Vec::new(),
    }
}

fn rust_templates(world: &mut World) {
    let templates = [
        ("templates/rust/Git/gitignore", "target/\n"),
        ("templates/rust/Cargo/Cargo.workspace.toml", "[workspace]\nresolver = \"2\"\n"),
        ("templates/rust/VSCode/settings.json", "{\"rust-analyzer.check.command\": \"clippy\"}"),
        (
            "templates/rust/VSCode/tasks.json",
            "{\"inputs\": [{\"id\": \"packageName\", \"options\": [{\"label\": \"{{basePackageName}}\", \"value\": \"{{basePackageName}}\"}]}]}",
        ),
        ("templates/rust/Tools/Build-Package.ps1", "cargo build\n"),
        ("templates/rust/Tools/Clean-Package.ps1", "cargo clean\n"),
    ];
    for (path, content) in templates {
        world.templates.insert(path.to_string(), content.to_string());
    }
}

fn perform(world: &mut World, effect: Effect) -> Reply {
    match effect {
        Effect::Probe { path } => {
            Reply::Exists(world.files.contains_key(&path) || world.directories.contains(&path))
        }
        Effect::AskOverwrite => {
            world.asked += 1;
            Reply::Answer(world.answer)
        }
        Effect::RemoveFile { path } => {
            world.files.remove(&path);
            Reply::Done
        }
        Effect::RemoveDirectory { path } => {
            world.directories.remove(&path);
            Reply::Done
        }
        Effect::CreateDirectory { path } => {
            world.directories.insert(path);
            Reply::Done
        }
        Effect::CopyTemplate { template, to } => {
            let content = world.templates[&template].clone();
            world.files.insert(to, content);
            Reply::Done
        }
        Effect::ReadTemplate { template } => Reply::Content(world.templates[&template].clone()),
        Effect::ReadFile { path } => Reply::Content(world.files[&path].clone()),
        Effect::WriteFile { path, content } => {
            world.files.insert(path, content);
            Reply::Done
        }
        Effect::Run(invocation) => {
            let directory = invocation.directory.clone().unwrap_or_default();
            if invocation.program == "git" && invocation.arguments == ["init"] {
                world.directories.insert(format!("{}/.git", directory));
            }
            if invocation.program == "cargo" && invocation.arguments[0] == "init" {
                let package = invocation.arguments[4].clone();
                world.files.insert(format!("{}/Cargo.toml", package), "[package]\n".to_string());
                world.directories.insert(package);
            }
            world.runs.push(invocation);
            Reply::Done
        }
        Effect::Finished => unreachable!(),
    }
}

fn run(plan: &Plan, world: &mut World, logger: &mut ConsoleLogger) -> PlanState {
    let mut state = Plan::begin();
    let mut reply = Reply::Begin;
    for _ in 0..1000 {
        let (next, effect) = plan.advance(state, reply, logger);
        state = next;
        if effect == Effect::Finished {
            return state;
        }
        reply = perform(world, effect);
    }
    panic!("the plan does not end");
}

fn printed(logger: &ConsoleLogger) -> String {
    logger
        .stdout
        .iter()
        .map(|command| match command {
            ConsoleCommand::Print(text) => text.clone(),
            _ => String::new(),
        })
        .collect()
}

fn survey() -> ProjectSurvey {
    ProjectSurvey {
        current_dir_entries: Vec::new(),
        solution_file_exists: false,
        project_path_exists: false,
        project_dir_entries: Vec::new(),
        project_canonical_path: String::new(),
    }
}

fn environment(home: Option<&str>, current_dir: &str) -> Environment {
    Environment {
        home: home.map(|path| path.to_string()),
        current_dir: current_dir.to_string(),
        project: survey(),
    }
}

fn directory(path: &str) -> OutputDirectory {
    OutputDirectory { path: path.to_string() }
}

fn rust_init(path: &str, name: &str, force: bool) -> RustInitCommandArgs {
    RustInitCommandArgs {
        output_directory: directory(path),
        base_package_name: name.to_string(),
        base_package_template: CargoPackageTemplateOption::Library,
        force,
    }
}

#[test]
fn rust_init_in_an_empty_directory() {
    let mut world = empty_world();
    rust_templates(&mut world);
    world.directories.insert("/tmp/work".to_string());
    let command = rust_init("/tmp/work", "mypkg", false);
    let plan = command.run_command(&environment(Some("/home/u"), "/cwd")).unwrap();
    let mut logger = ConsoleLogger::new(false);
    let state = run(&plan, &mut world, &mut logger);
    assert!(matches!(state.progress, Progress::Ended(PlanEnd::Completed)));
    assert_eq!(state.position, plan.steps.len());
    assert_eq!(world.asked, 0);

    assert!(world.directories.contains("/tmp/work/.git"));
    assert_eq!(world.files["/tmp/work/.gitignore"], "target/\n");
    assert_eq!(world.files["/tmp/work/Cargo.toml"], "[workspace]\nresolver = \"2\"\n");
    assert!(world.directories.contains("/tmp/work/.vscode"));
    assert_eq!(
        world.files["/tmp/work/.vscode/settings.json"],
        "{\"rust-analyzer.check.command\": \"clippy\"}"
    );
    let tasks: serde_json::Value =
        serde_json::from_str(world.files["/tmp/work/.vscode/tasks.json"].as_str()).unwrap();
    assert_eq!(tasks["inputs"][0]["id"], "packageName");
    assert_eq!(tasks["inputs"][0]["options"][0]["value"], "mypkg");
    assert_eq!(tasks["inputs"][0]["options"][0]["label"], "mypkg");
    assert!(world.directories.contains("/tmp/work/tools"));
    assert_eq!(world.files["/tmp/work/tools/Build-Package.ps1"], "cargo build\n");
    assert_eq!(world.files["/tmp/work/tools/Clean-Package.ps1"], "cargo clean\n");
    assert!(world.directories.contains("/tmp/work/mypkg"));
    assert_eq!(
        world.runs,
        vec![
            Invocation {
                program: "git".to_string(),
                arguments: vec!["init".to_string()],
                directory: Some("/tmp/work".to_string()),
            },
            Invocation {
                program: "cargo".to_string(),
                arguments: vec![
                    "init".to_string(),
                    "--lib".to_string(),
                    "--edition".to_string(),
                    "2021".to_string(),
                    "/tmp/work/mypkg".to_string(),
                ],
                directory: Some("/tmp/work".to_string()),
            },
        ]
    );
    let expected_output = "\
[Info] - Git
[Info] - - Initializing Git repository... Done!
[Info] - - Copying '.gitignore' to project root... Done!

[Info] - VSCode
[Info] - - Creating '.vscode' directory... Done!
[Info] - - Copying 'settings.json' to '.vscode' directory... Done!
[Info] - - Copying 'tasks.json' to '.vscode' directory... Done!
[Info] - - Creating 'tools' directory... Done!
[Info] - - Copying 'Build-Package.ps1' to 'tools' directory... Done!
[Info] - - Copying 'Clean-Package.ps1' to 'tools' directory... Done!

[Info] - Rust
[Info] - - Copying 'Cargo.toml' to project root... Done!
[Info] - - Initializing package for 'mypkg'...  Done!

[Info] - VSCode project initialized!
";
    assert_eq!(printed(&logger), expected_output);
}

#[test]
fn rust_init_creates_the_output_directory() {
    let mut world = empty_world();
    rust_templates(&mut world);
    let command = rust_init("proj/", "mypkg", true);
    let plan = command.run_command(&environment(None, "/cwd")).unwrap();
    let mut logger = ConsoleLogger::new(false);
    let state = run(&plan, &mut world, &mut logger);
    assert!(matches!(state.progress, Progress::Ended(PlanEnd::Completed)));
    assert!(world.directories.contains("proj"));
    assert!(world.files.contains_key("/cwd/proj/.gitignore"));
    assert!(world.directories.contains("/cwd/proj/mypkg"));
}

#[test]
fn rust_init_twice_asks_and_keeps_when_declined() {
    let mut world = empty_world();
    rust_templates(&mut world);
    let command = rust_init("/w", "mypkg", false);
    let plan = command.run_command(&environment(None, "/cwd")).unwrap();
    let mut logger = ConsoleLogger::new(false);
    run(&plan, &mut world, &mut logger);
    world.files.insert("/w/.gitignore".to_string(), "edited\n".to_string());
    let files = world.files.clone();
    let state = run(&plan, &mut world, &mut logger);
    assert!(matches!(state.progress, Progress::Ended(PlanEnd::Completed)));
    assert_eq!(world.asked, 7);
    assert_eq!(world.files, files);
    assert_eq!(world.runs.len(), 3);
}

#[test]
fn rust_init_twice_forced_gives_the_same_files() {
    let mut world = empty_world();
    rust_templates(&mut world);
    let command = rust_init("/w", "mypkg", true);
    let plan = command.run_command(&environment(None, "/cwd")).unwrap();
    let mut logger = ConsoleLogger::new(false);
    run(&plan, &mut world, &mut logger);
    let files = world.files.clone();
    world.files.insert("/w/.gitignore".to_string(), "edited\n".to_string());
    run(&plan, &mut world, &mut logger);
    assert_eq!(world.asked, 0);
    assert_eq!(world.files, files);
}

#[test]
fn rust_init_without_home_fails_on_tilde() {
    let command = rust_init("~/proj", "mypkg", false);
    let error = command.run_command(&environment(None, "/cwd")).unwrap_err();
    assert_eq!(error.kind, CliErrorKind::UnsupportedOperatingSystem);
    let plan = command.run_command(&environment(Some("/home/u"), "/cwd")).unwrap();
    match &plan.steps[0] {
        PlanStep::Perform(operation) => assert_eq!(operation.target, "/home/u/proj"),
        other => panic!("unexpected step {:?}", other),
    }
}

#[test]
fn resolve_directory_expands_and_trims() {
    let resolved = resolve_directory(&directory("~/proj//"), &environment(Some("/home/u"), "/cwd"));
    assert_eq!(resolved.unwrap().path, "/home/u/proj");
    let relative = resolve_directory(&directory("./proj/"), &environment(None, "/cwd")).unwrap();
    assert_eq!(relative.path, "./proj");
    assert_eq!(relative.to_absolute("/cwd"), "/cwd/proj");
    assert!(resolve_directory(&directory("~"), &environment(None, "/cwd")).is_err());
}

fn tasks_text() -> String {
    "{\"inputs\": [{\"id\": \"packageName\", \"options\": []}]}".to_string()
}

#[test]
fn rust_add_registers_the_package() {
    let mut world = empty_world();
    world.directories.insert("/w".to_string());
    world.files.insert("/w/.vscode/tasks.json".to_string(), tasks_text());
    let command = RustAddCommandArgs {
        output_directory: directory("/w/"),
        package_name: "pkg".to_string(),
        package_friendly_name: Some("Pkg".to_string()),
    };
    let plan = command.run_command(&environment(None, "/cwd")).unwrap();
    let mut logger = ConsoleLogger::new(false);
    let state = run(&plan, &mut world, &mut logger);
    assert!(matches!(state.progress, Progress::Ended(PlanEnd::Completed)));
    let document: serde_json::Value =
        serde_json::from_str(world.files["/w/.vscode/tasks.json"].as_str()).unwrap();
    let options = document["inputs"][0]["options"].as_array().unwrap();
    assert_eq!(options.len(), 1);
    assert_eq!(options[0]["label"], "Pkg");
    assert_eq!(options[0]["value"], "pkg");
    assert_eq!(
        printed(&logger),
        "[Info] - Add package\n[Info] - - Adding package to tasks.json... Done!\n"
    );
    run(&plan, &mut world, &mut logger);
    let document: serde_json::Value =
        serde_json::from_str(world.files["/w/.vscode/tasks.json"].as_str()).unwrap();
    assert_eq!(document["inputs"][0]["options"].as_array().unwrap().len(), 2);
}

#[test]
fn rust_add_uses_the_name_as_friendly_name() {
    let mut world = empty_world();
    world.directories.insert("/w".to_string());
    world.files.insert("/w/.vscode/tasks.json".to_string(), tasks_text());
    let command = RustAddCommandArgs {
        output_directory: directory("/w"),
        package_name: "pkg".to_string(),
        package_friendly_name: None,
    };
    let plan = command.run_command(&environment(None, "/cwd")).unwrap();
    let mut logger = ConsoleLogger::new(false);
    run(&plan, &mut world, &mut logger);
    let document: serde_json::Value =
        serde_json::from_str(world.files["/w/.vscode/tasks.json"].as_str()).unwrap();
    assert_eq!(document["inputs"][0]["options"][0]["label"], "pkg");
}

#[test]
fn rust_add_requires_the_output_directory() {
    let mut world = empty_world();
    let command = RustAddCommandArgs {
        output_directory: directory("/missing"),
        package_name: "pkg".to_string(),
        package_friendly_name: None,
    };
    let plan = command.run_command(&environment(None, "/cwd")).unwrap();
    let mut logger = ConsoleLogger::new(false);
    let state = run(&plan, &mut world, &mut logger);
    match state.progress {
        Progress::Ended(PlanEnd::Rejected(error)) => {
            assert_eq!(error.kind, CliErrorKind::OutputDirectoryDoesNotExist);
            assert_eq!(error.message, "The specified output directory does not exist.");
        }
        other => panic!("unexpected progress {:?}", other),
    }
    assert_eq!(printed(&logger), "");
    assert!(world.files.is_empty());
}

#[test]
fn rust_add_stops_on_a_document_without_inputs() {
    let mut world = empty_world();
    world.directories.insert("/w".to_string());
    world.files.insert("/w/.vscode/tasks.json".to_string(), "{\"tasks\": []}".to_string());
    let command = RustAddCommandArgs {
        output_directory: directory("/w"),
        package_name: "pkg".to_string(),
        package_friendly_name: None,
    };
    let plan = command.run_command(&environment(None, "/cwd")).unwrap();
    let mut logger = ConsoleLogger::new(false);
    let state = run(&plan, &mut world, &mut logger);
    match state.progress {
        Progress::Ended(PlanEnd::Failed(error)) => {
            assert_eq!(error, PatchError::Shape(ShapeError::InputsNotAnArray))
        }
        other => panic!("unexpected progress {:?}", other),
    }
    assert_eq!(world.files["/w/.vscode/tasks.json"], "{\"tasks\": []}");
}

fn csharp_init(path: &str, name: Option<&str>) -> InitCommandArgs {
    InitCommandArgs {
        output_directory: directory(path),
        solution_name: name.map(|name| name.to_string()),
        add_gitversion: false,
        add_nuget_config: false,
        enable_centrally_managed_packages: false,
        csharp_lsp: CsharpLspOption::CsharpLsp,
        force: false,
    }
}

fn csharp_templates(world: &mut World) {
    let templates = [
        ("templates/csharp/GitVersion/GitVersion.yml", "mode: ContinuousDelivery\n"),
        (
            "templates/csharp/VSCode/settings.json",
            "{\"dotnet.defaultSolution\": \"{{solutionName}}\"}",
        ),
        (
            "templates/csharp/VSCode/tasks.json",
            "{\"inputs\": [{\"id\": \"projectItem\", \"options\": []}], \"solution\": \"{{solutionName}}\"}",
        ),
    ];
    for (path, content) in templates {
        world.templates.insert(path.to_string(), content.to_string());
    }
}

fn run_programs(plan: &Plan) -> Vec<String> {
    plan.steps
        .iter()
        .filter_map(|step| match step {
            PlanStep::Perform(operation) => match &operation.action {
                vscodeconfigurator::operation::Action::Run(invocation) => {
                    Some(format!("{} {}", invocation.program, invocation.arguments.join(" ")))
                }
                _ => None,
            },
            _ => None,
        })
        .collect()
}

#[test]
fn csharp_init_minimal_plan() {
    let command = csharp_init("/w/Foo", None);
    assert_eq!(command.get_solution_name_value(), Some("Foo".to_string()));
    let plan = command.run_command(&environment(None, "/cwd")).unwrap();
    assert_eq!(
        run_programs(&plan),
        vec![
            "dotnet new globaljson --roll-forward latestMinor".to_string(),
            "git init".to_string(),
            "dotnet new gitignore".to_string(),
            "dotnet new sln --name Foo".to_string(),
            "dotnet new buildprops --use-artifacts".to_string(),
        ]
    );
    let mut world = empty_world();
    csharp_templates(&mut world);
    let mut logger = ConsoleLogger::new(false);
    let state = run(&plan, &mut world, &mut logger);
    assert!(matches!(state.progress, Progress::Ended(PlanEnd::Completed)));
    assert_eq!(world.asked, 0);
    let settings: serde_json::Value =
        serde_json::from_str(world.files["/w/Foo/.vscode/settings.json"].as_str()).unwrap();
    assert_eq!(settings["dotnet.defaultSolution"], "Foo.sln");
    assert_eq!(settings["dotnet.server.useOmnisharp"], false);
    assert_eq!(settings["dotnet.server.path"], "");
    assert_eq!(
        world.files["/w/Foo/.vscode/tasks.json"],
        "{\"inputs\": [{\"id\": \"projectItem\", \"options\": []}], \"solution\": \"Foo.sln\"}"
    );
    let expected_output = "\
[Info] - Basic
[Info] - - Adding 'global.json' to project root... Done!

[Info] - Git
[Info] - - Initializing Git repository... Done!
[Info] - - Adding '.gitignore' to project root... Done!

[Info] - .NET
[Info] - - Initializing .NET solution 'Foo.sln'... Done!
[Info] - - Adding 'Directory.Build.props' to project root... Done!

[Info] - VSCode
[Info] - - Creating '.vscode' directory... Done!
[Info] - - Copying 'settings.json' to '.vscode' directory... Done!
[Info] - - Updating C# LSP option in tasks.json... Done!
[Info] - - Copying 'tasks.json' to '.vscode' directory... Done!

[Info] - VSCode project initialized!
";
    assert_eq!(printed(&logger), expected_output);
}

#[test]
fn csharp_init_with_every_extra() {
    let command = InitCommandArgs {
        output_directory: directory("/w/Foo"),
        solution_name: Some("Bar".to_string()),
        add_gitversion: true,
        add_nuget_config: true,
        enable_centrally_managed_packages: true,
        csharp_lsp: CsharpLspOption::OmniSharp,
        force: true,
    };
    assert_eq!(command.get_solution_name_value(), Some("Bar".to_string()));
    let plan = command.run_command(&environment(None, "/cwd")).unwrap();
    assert_eq!(
        run_programs(&plan),
        vec![
            "dotnet new globaljson --roll-forward latestMinor".to_string(),
            "git init".to_string(),
            "dotnet new gitignore".to_string(),
            "dotnet new sln --name Bar".to_string(),
            "dotnet new buildprops --use-artifacts".to_string(),
            "dotnet new nugetconfig".to_string(),
            "dotnet new packagesprops".to_string(),
            "dotnet new tool-manifest".to_string(),
            "dotnet tool install GitVersion.Tool --tool-manifest".to_string(),
        ]
    );
    let mut world = empty_world();
    csharp_templates(&mut world);
    let mut logger = ConsoleLogger::new(false);
    let state = run(&plan, &mut world, &mut logger);
    assert!(matches!(state.progress, Progress::Ended(PlanEnd::Completed)));
    assert_eq!(world.asked, 0);
    assert_eq!(world.files["/w/Foo/GitVersion.yml"], "mode: ContinuousDelivery\n");
    let settings: serde_json::Value =
        serde_json::from_str(world.files["/w/Foo/.vscode/settings.json"].as_str()).unwrap();
    assert_eq!(settings["dotnet.defaultSolution"], "Bar.sln");
    assert_eq!(settings["dotnet.server.useOmnisharp"], true);
    assert_eq!(settings["dotnet.server.path"], "latest");
    assert!(printed(&logger).contains("[Info] - GitVersion\n"));
}

#[test]
fn csharp_init_with_every_extra_into_an_empty_directory_asks_nothing() {
    let command = InitCommandArgs {
        output_directory: directory("/w/Foo"),
        solution_name: None,
        add_gitversion: true,
        add_nuget_config: true,
        enable_centrally_managed_packages: true,
        csharp_lsp: CsharpLspOption::CsharpLsp,
        force: false,
    };
    let plan = command.run_command(&environment(None, "/cwd")).unwrap();
    let mut world = empty_world();
    csharp_templates(&mut world);
    let mut logger = ConsoleLogger::new(false);
    let state = run(&plan, &mut world, &mut logger);
    assert!(matches!(state.progress, Progress::Ended(PlanEnd::Completed)));
    assert_eq!(world.asked, 0);
}

#[test]
fn rust_init_asks_where_the_package_takes_the_name_of_a_file() {
    let mut world = empty_world();
    rust_templates(&mut world);
    let command = rust_init("/w", "Cargo.toml", false);
    let plan = command.run_command(&environment(None, "/cwd")).unwrap();
    let mut logger = ConsoleLogger::new(false);
    let state = run(&plan, &mut world, &mut logger);
    assert!(matches!(state.progress, Progress::Ended(PlanEnd::Completed)));
    assert_eq!(world.asked, 1);
}

#[test]
fn commands_normalise_the_output_directory() {
    let command = rust_init("./a/./b/.//", "mypkg", true);
    let plan = command.run_command(&environment(None, "/cwd")).unwrap();
    match &plan.steps[0] {
        PlanStep::Perform(operation) => assert_eq!(operation.target, "./a/./b"),
        other => panic!("unexpected step {:?}", other),
    }
    match &plan.steps[3] {
        PlanStep::Perform(operation) => assert_eq!(operation.target, "/cwd/a/b/.gitignore"),
        other => panic!("unexpected step {:?}", other),
    }
}

#[test]
fn csharp_init_without_a_name() {
    let command = csharp_init("/", None);
    assert_eq!(command.get_solution_name_value(), None);
    let error = command.run_command(&environment(None, "/cwd")).unwrap_err();
    assert_eq!(error.kind, CliErrorKind::UnableToParseSolutionName);
    assert_eq!(error.message, "The solution name could not be determined.");
}

fn csharp_add() -> AddCommandArgs {
    AddCommandArgs {
        solution_file_path: None,
        project_path: "src/App".to_string(),
        project_friendly_name: None,
        is_runnable: true,
        is_watchable: false,
    }
}

fn add_environment() -> Environment {
    Environment {
        home: None,
        current_dir: "/w/Sol".to_string(),
        project: ProjectSurvey {
            current_dir_entries: vec![
                "README.md".to_string(),
                ".git".to_string(),
                "Sol.sln".to_string(),
                "Other.sln".to_string(),
            ],
            solution_file_exists: false,
            project_path_exists: true,
            project_dir_entries: vec!["Program.cs".to_string(), "My.App.csproj".to_string()],
            project_canonical_path: "/w/Sol/src/App".to_string(),
        },
    }
}

#[test]
fn csharp_add_finds_solution_and_name() {
    let mut logger = ConsoleLogger::new(false);
    let plan = csharp_add().run_command(&add_environment(), &mut logger).unwrap();
    assert!(logger.stdout.is_empty());
    assert_eq!(run_programs(&plan), vec!["dotnet sln /w/Sol/Sol.sln add /w/Sol/src/App".to_string()]);
    let mut world = empty_world();
    world.files.insert(
        "/w/Sol/.vscode/tasks.json".to_string(),
        "{\"inputs\": [{\"id\": \"projectItem\", \"options\": []}, {\"id\": \"watchProject\", \"options\": []}, {\"id\": \"runProject\", \"options\": []}]}".to_string(),
    );
    let state = run(&plan, &mut world, &mut logger);
    assert!(matches!(state.progress, Progress::Ended(PlanEnd::Completed)));
    let document: serde_json::Value =
        serde_json::from_str(world.files["/w/Sol/.vscode/tasks.json"].as_str()).unwrap();
    assert_eq!(document["inputs"][0]["options"][0]["label"], "My.App");
    assert_eq!(document["inputs"][0]["options"][0]["value"], "src/App");
    assert_eq!(document["inputs"][1]["options"].as_array().unwrap().len(), 0);
    assert_eq!(document["inputs"][2]["options"][0]["label"], "My.App");
    assert_eq!(
        printed(&logger),
        "[Info] - Add project\n[Info] - - 📄 Adding 'src/App' to solution... Done!\n[Info] - - Adding C# project to tasks.json... Done!\n"
    );
}

#[test]
fn csharp_add_reports_what_is_missing() {
    let mut no_solution = add_environment();
    no_solution.project.current_dir_entries = vec!["README.md".to_string()];
    let mut logger = ConsoleLogger::new(false);
    assert!(matches!(
        csharp_add().run_command(&no_solution, &mut logger),
        Err(CommandFailure::Reported)
    ));
    assert_eq!(printed(&logger), "[Error] - No solution file found in the current directory.");

    let mut given = csharp_add();
    given.solution_file_path = Some("/x/Nope.sln".to_string());
    let mut logger = ConsoleLogger::new(false);
    assert!(matches!(
        given.run_command(&add_environment(), &mut logger),
        Err(CommandFailure::Reported)
    ));
    assert_eq!(printed(&logger), "[Error] - The solution file path '/x/Nope.sln' does not exist.");

    let mut no_project = add_environment();
    no_project.project.project_path_exists = false;
    let mut logger = ConsoleLogger::new(false);
    assert!(matches!(
        csharp_add().run_command(&no_project, &mut logger),
        Err(CommandFailure::Reported)
    ));
    assert_eq!(printed(&logger), "[Error] - The project path 'src/App' does not exist.");

    let mut no_name = add_environment();
    no_name.project.project_dir_entries = vec!["Program.cs".to_string()];
    let mut logger = ConsoleLogger::new(false);
    assert!(matches!(
        csharp_add().run_command(&no_name, &mut logger),
        Err(CommandFailure::Reported)
    ));
    assert_eq!(printed(&logger), "[Error] - No project file found in the project directory.");
}

#[test]
fn csharp_add_with_given_solution_and_name() {
    let mut command = csharp_add();
    command.solution_file_path = Some("/w/Sol/Given.sln".to_string());
    command.project_friendly_name = Some("Friendly".to_string());
    let mut environment = add_environment();
    environment.project.solution_file_exists = true;
    environment.project.current_dir_entries = Vec::new();
    environment.project.project_dir_entries = Vec::new();
    let mut logger = ConsoleLogger::new(false);
    let plan = command.run_command(&environment, &mut logger).unwrap();
    assert_eq!(
        run_programs(&plan),
        vec!["dotnet sln /w/Sol/Given.sln add /w/Sol/src/App".to_string()]
    );
}

#[test]
fn csharp_add_outside_the_solution() {
    let mut environment = add_environment();
    environment.project.project_canonical_path = "/elsewhere/App".to_string();
    let mut logger = ConsoleLogger::new(false);
    match csharp_add().run_command(&environment, &mut logger) {
        Err(CommandFailure::Error(report)) => {
            assert!(matches!(report.source, ErrorSource::Unknown));
            assert_eq!(report.message, "prefix not found");
        }
        other => panic!("unexpected outcome {:?}", other),
    }
    assert!(logger.stdout.is_empty());
}

#[test]
fn directory_listings_are_searched_in_order() {
    let entries = vec!["a.txt".to_string(), "b.sln".to_string(), "c.sln".to_string()];
    assert_eq!(find_with_extension(&entries, "sln"), Some("b.sln".to_string()));
    assert_eq!(find_with_extension(&entries, "csproj"), None);
    assert_eq!(
        get_solution_file_path_default_value("/cwd", &entries),
        Some("/cwd/b.sln".to_string())
    );
    assert_eq!(get_solution_file_path_default_value("/cwd", &Vec::new()), None);
    let project = vec![".csproj".to_string(), "App.csproj".to_string()];
    assert_eq!(get_project_friendly_name(&project), Some("App".to_string()));
    assert_eq!(get_project_friendly_name(&entries), None);
}

#[test]
fn subcommands_dispatch() {
    let mut logger = ConsoleLogger::new(false);
    let rust = RustSubcommands::Init(rust_init("/w", "mypkg", true));
    let plan = rust.match_subcommand(&environment(None, "/cwd"), &mut logger).unwrap();
    assert_eq!(plan.steps.len(), 20);
    let rust_add = RustSubcommands::Add(RustAddCommandArgs {
        output_directory: directory("~"),
        package_name: "pkg".to_string(),
        package_friendly_name: None,
    });
    match rust_add.match_subcommand(&environment(None, "/cwd"), &mut logger) {
        Err(CommandFailure::Error(report)) => {
            assert!(matches!(
                report.source,
                ErrorSource::Internal(CliErrorKind::UnsupportedOperatingSystem)
            ));
            assert_eq!(report.message, "The operating system is not supported.");
        }
        other => panic!("unexpected outcome {:?}", other),
    }
    let csharp = CsharpSubcommands::Init(csharp_init("/w/Foo", None));
    assert!(csharp.match_subcommand(&environment(None, "/cwd"), &mut logger).is_ok());
    let csharp_failing = CsharpSubcommands::Init(csharp_init("/", None));
    assert!(matches!(
        csharp_failing.match_subcommand(&environment(None, "/cwd"), &mut logger),
        Err(CommandFailure::Error(_))
    ));
    let adding = CsharpSubcommands::Add(csharp_add());
    assert!(adding.match_subcommand(&add_environment(), &mut logger).is_ok());
    assert!(logger.stdout.is_empty());
}

#[test]
fn root_dispatch_and_missing_subcommand() {
    let mut logger = ConsoleLogger::new(false);
    let missing = [
        None,
        Some(RootSubcommands::Csharp { command: None }),
        Some(RootSubcommands::Rust { command: None }),
    ];
    for command in missing.iter() {
        match run_root(command.as_ref(), &environment(None, "/cwd"), &mut logger) {
            Err(CommandFailure::Error(report)) => {
                assert!(matches!(
                    report.source,
                    ErrorSource::Internal(CliErrorKind::NoSubcommandProvided)
                ));
                assert_eq!(report.message, "No subcommand provided.");
            }
            other => panic!("unexpected outcome {:?}", other),
        }
    }
    let root = RootSubcommands::Rust {
        command: Some(RustSubcommands::Init(rust_init("/w", "p", false))),
    };
    match run_root(Some(&root), &environment(None, "/cwd"), &mut logger) {
        Ok(RootOutcome::Plan(plan)) => assert_eq!(plan.steps.len(), 20),
        other => panic!("unexpected outcome {:?}", other),
    }
    let csharp = RootSubcommands::Csharp {
        command: Some(CsharpSubcommands::Init(csharp_init("/", None))),
    };
    assert!(run_root(Some(&csharp), &environment(None, "/cwd"), &mut logger).is_err());
    let adding = RootSubcommands::Csharp { command: Some(CsharpSubcommands::Add(csharp_add())) };
    let mut failing = add_environment();
    failing.project.project_path_exists = false;
    assert!(matches!(
        run_root(Some(&adding), &failing, &mut logger),
        Err(CommandFailure::Reported)
    ));
    assert_eq!(printed(&logger), "[Error] - The project path 'src/App' does not exist.");
}

#[test]
fn root_hands_on_a_request_for_completions() {
    let mut logger = ConsoleLogger::new(false);
    let root = RootSubcommands::Completions(Completions { shell: clap_complete::Shell::Fish });
    match run_root(Some(&root), &environment(None, "/cwd"), &mut logger) {
        Ok(RootOutcome::Completions(shell)) => assert_eq!(shell, clap_complete::Shell::Fish),
        other => panic!("unexpected outcome {:?}", other),
    }
    assert!(logger.stdout.is_empty());
}

#[test]
fn plan_builder_and_empty_plan() {
    let mut plan = Plan::new();
    assert!(plan.steps.is_empty());
    let mut logger = ConsoleLogger::new(false);
    let (state, effect) = plan.advance(Plan::begin(), Reply::Begin, &mut logger);
    assert_eq!(effect, Effect::Finished);
    assert!(matches!(state.progress, Progress::Ended(PlanEnd::Completed)));
    plan.category("One");
    plan.newline();
    plan.initialized();
    plan.require("/p", CliError::new("missing", CliErrorKind::FilePathDoesNotExist));
    plan.category("Two");
    let (state, effect) = plan.advance(Plan::begin(), Reply::Begin, &mut logger);
    assert_eq!(effect, Effect::Probe { path: "/p".to_string() });
    assert_eq!(state.position, 3);
    assert!(matches!(state.progress, Progress::Checking));
    assert_eq!(printed(&logger), "[Info] - One\n\n[Info] - VSCode project initialized!\n");
    logger.release();
    let (state, effect) = plan.advance(state, Reply::Exists(true), &mut logger);
    assert_eq!(effect, Effect::Finished);
    assert_eq!(state.position, 5);
    assert!(matches!(state.progress, Progress::Ended(PlanEnd::Completed)));
    assert_eq!(printed(&logger), "[Info] - Two\n");
}

#[test]
fn plan_is_confused_by_replies_that_fit_nothing() {
    let mut plan = Plan::new();
    plan.require("/p", CliError::new("missing", CliErrorKind::FilePathDoesNotExist));
    let mut logger = ConsoleLogger::new(false);
    let (state, _) = plan.advance(Plan::begin(), Reply::Begin, &mut logger);
    let (state, effect) = plan.advance(state, Reply::Done, &mut logger);
    assert_eq!(effect, Effect::Finished);
    assert!(matches!(state.progress, Progress::Ended(PlanEnd::Confused)));
    let (state, effect) = plan.advance(state, Reply::Exists(true), &mut logger);
    assert_eq!(effect, Effect::Finished);
    assert!(matches!(state.progress, Progress::Ended(PlanEnd::Confused)));
    let misplaced = PlanState { position: 0, progress: Progress::Within(Stage::Probing) };
    let (state, effect) = plan.advance(misplaced, Reply::Exists(true), &mut logger);
    assert_eq!(effect, Effect::Finished);
    assert!(matches!(state.progress, Progress::Ended(PlanEnd::Confused)));
    let beyond = PlanState { position: 9, progress: Progress::Checking };
    let (state, _) = plan.advance(beyond, Reply::Exists(true), &mut logger);
    assert!(matches!(state.progress, Progress::Ended(PlanEnd::Confused)));
}
