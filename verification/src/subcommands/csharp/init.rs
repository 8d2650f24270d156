//! The command that initializes a C# project.

use vstd::prelude::*;
use crate::error::{CliError, CliErrorKind, CliErrorModel};
use crate::external_procs::dotnet::{
    add_dotnet_buildprops,
    add_dotnet_gitignore,
    add_dotnet_globaljson,
    add_dotnet_nugetconfig,
    add_dotnet_packagesprops,
    add_dotnet_tool,
    buildprops_addition,
    gitignore_addition,
    globaljson_addition,
    initalize_dotnet_solution,
    nugetconfig_addition,
    packagesprops_addition,
    solution_initialization,
    tool_addition,
};
use crate::external_procs::git::{git_initialization, initialize_git_repo};
use crate::io::{
    absolute_form,
    directory_ensured,
    is_name,
    joined,
    lemma_joined_names_differ,
    lemma_joined_twice,
    spec_file_name,
    unsupported_operating_system,
    OutputDirectory,
};
use crate::lang_options::CsharpLspOption;
use crate::plan::{
    follows_policy,
    guarded_as,
    lemma_follows_policy_both,
    materializes_under_policy,
    performing,
    Plan,
    PlanStepModel,
};
use crate::subcommands::{
    plan_is,
    resolve_directory,
    resolved_directory,
    Environment,
    EnvironmentModel,
};
use crate::template_ops::csharp::{
    csharp_copy_gitversion,
    csharp_copy_vscode_settings,
    csharp_copy_vscode_tasks,
    gitversion_copy,
    solution_file_name,
    vscode_settings_copy,
    vscode_tasks_copy,
};
use crate::world::{
    asks_first,
    fresh,
    lemma_fresh_both,
    lemma_fresh_by_targets,
    lemma_fresh_plan_never_asks,
    plan_performed,
    target_of,
    World,
};
use crate::vscode_ops::csharp::{lsp_update, update_csharp_lsp};

verus! {

/// The arguments of the `csharp init` command, and the logic to run the
/// command.
#[derive(Debug)]
pub struct InitCommandArgs {
    /// The output directory for the new project.
    pub output_directory: OutputDirectory,
    /// The name of the solution file. If not provided, the name of the
    /// output directory is used.
    pub solution_name: Option<String>,
    /// Add GitVersion to the project.
    pub add_gitversion: bool,
    /// Add a NuGet configuration file to the project.
    pub add_nuget_config: bool,
    /// Whether to enable centrally managed packages.
    pub enable_centrally_managed_packages: bool,
    /// The C# language server to use.
    pub csharp_lsp: CsharpLspOption,
    /// Force the command to run without prompting for confirmation.
    pub force: bool,
}

/// What an `InitCommandArgs` holds.
pub struct InitCommandModel {
    pub output_directory: Seq<char>,
    pub solution_name: Option<Seq<char>>,
    pub add_gitversion: bool,
    pub add_nuget_config: bool,
    pub enable_centrally_managed_packages: bool,
    pub csharp_lsp: CsharpLspOption,
    pub force: bool,
}

impl View for InitCommandArgs {
    type V = InitCommandModel;

    open spec fn view(&self) -> InitCommandModel {
        InitCommandModel {
            output_directory: self.output_directory@,
            solution_name: self.solution_name.deep_view(),
            add_gitversion: self.add_gitversion,
            add_nuget_config: self.add_nuget_config,
            enable_centrally_managed_packages: self.enable_centrally_managed_packages,
            csharp_lsp: self.csharp_lsp,
            force: self.force,
        }
    }
}

/// The error of a solution without a name.
pub open spec fn solution_name_undetermined() -> CliErrorModel {
    CliErrorModel {
        message: "The solution name could not be determined."@,
        kind: CliErrorKind::UnableToParseSolutionName,
    }
}

impl InitCommandModel {
    /// The name of the solution: the name given, or the name of the output
    /// directory where none is given. None where none is given and the
    /// output directory has no name.
    pub open spec fn solution_name_value(self) -> Option<Seq<char>> {
        match self.solution_name {
            Some(name) => Some(name),
            None => spec_file_name(self.output_directory),
        }
    }

    /// The steps that add the optional files of the solution.
    pub open spec fn optional_files(self, root: Seq<char>) -> Seq<PlanStepModel> {
        (if self.add_nuget_config {
            seq![PlanStepModel::Perform(nugetconfig_addition(root, self.force))]
        } else {
            Seq::empty()
        }) + (if self.enable_centrally_managed_packages {
            seq![PlanStepModel::Perform(packagesprops_addition(root, self.force))]
        } else {
            Seq::empty()
        })
    }

    /// The steps that add GitVersion, if that was asked for.
    pub open spec fn gitversion_steps(self, root: Seq<char>) -> Seq<PlanStepModel> {
        if self.add_gitversion {
            seq![PlanStepModel::Category("GitVersion"@)] + performing(
                tool_addition(root, "GitVersion.Tool"@),
            ) + seq![
                PlanStepModel::Perform(gitversion_copy(root, self.force)),
                PlanStepModel::Newline,
            ]
        } else {
            Seq::empty()
        }
    }

    /// The steps that make the directory, the tool chain's configuration and
    /// the repository.
    pub open spec fn base_steps(self, directory: Seq<char>, root: Seq<char>) -> Seq<
        PlanStepModel,
    > {
        seq![
            PlanStepModel::Perform(directory_ensured(directory)),
            PlanStepModel::Category("Basic"@),
            PlanStepModel::Perform(globaljson_addition(root, self.force)),
            PlanStepModel::Newline,
            PlanStepModel::Category("Git"@),
            PlanStepModel::Perform(git_initialization(root)),
            PlanStepModel::Perform(gitignore_addition(root, self.force)),
            PlanStepModel::Newline,
        ]
    }

    /// The steps that make the solution and its files.
    pub open spec fn solution_steps(self, root: Seq<char>, solution_name: Seq<char>) -> Seq<
        PlanStepModel,
    > {
        seq![
            PlanStepModel::Category(".NET"@),
            PlanStepModel::Perform(solution_initialization(root, solution_name, self.force)),
            PlanStepModel::Perform(buildprops_addition(root, self.force)),
        ] + self.optional_files(root) + seq![PlanStepModel::Newline]
    }

    /// The steps that make the editor's documents.
    pub open spec fn editor_steps(self, root: Seq<char>, solution_name: Seq<char>) -> Seq<
        PlanStepModel,
    > {
        seq![PlanStepModel::Category("VSCode"@)] + performing(
            vscode_settings_copy(root, solution_name, self.force),
        ) + seq![PlanStepModel::Perform(lsp_update(root, self.csharp_lsp))] + performing(
            vscode_tasks_copy(root, solution_name, self.force),
        ) + seq![PlanStepModel::Newline, PlanStepModel::Initialized]
    }

    /// The steps of the command for the resolved output directory
    /// `directory`, whose absolute form is `root`, and the solution
    /// `solution_name`.
    pub open spec fn steps(
        self,
        directory: Seq<char>,
        root: Seq<char>,
        solution_name: Seq<char>,
    ) -> Seq<PlanStepModel> {
        self.base_steps(directory, root) + self.solution_steps(root, solution_name)
            + self.gitversion_steps(root) + self.editor_steps(root, solution_name)
    }

    /// The plan of the command in an environment, or the error where the
    /// output directory cannot be resolved or the solution has no name.
    pub open spec fn planned(self, environment: EnvironmentModel) -> Result<
        Seq<PlanStepModel>,
        CliErrorModel,
    > {
        match resolved_directory(self.output_directory, environment.home) {
            Some(directory) => match self.solution_name_value() {
                Some(solution_name) => Ok(
                    self.steps(
                        directory,
                        absolute_form(directory, environment.current_dir),
                        solution_name,
                    ),
                ),
                None => Err(solution_name_undetermined()),
            },
            None => Err(unsupported_operating_system()),
        }
    }
}

/// Every step of the command that writes a file of the project does so
/// under the overwrite policy, forced as the command says: what does not
/// exist is made, and what exists gives way only if the command is forced
/// or the user agrees.
pub proof fn lemma_csharp_init_follows_policy(
    command: InitCommandModel,
    directory: Seq<char>,
    root: Seq<char>,
    solution_name: Seq<char>,
)
    ensures
        follows_policy(command.steps(directory, root, solution_name), command.force),
{
    let base = command.base_steps(directory, root);
    let solution = command.solution_steps(root, solution_name);
    let gitversion = command.gitversion_steps(root);
    let editor = command.editor_steps(root, solution_name);
    assert(follows_policy(base, command.force));
    assert(follows_policy(solution, command.force)) by {
        assert forall|i: int| 0 <= i < solution.len() implies materializes_under_policy(
            #[trigger] solution[i],
            command.force,
        ) && guarded_as(solution[i], command.force) by {
            if i >= 3 && i < solution.len() - 1 {
                assert(solution[i] == command.optional_files(root)[i - 3]);
            }
        }
    }
    assert(follows_policy(gitversion, command.force)) by {
        if command.add_gitversion {
            assert(gitversion.len() == 6);
            assert forall|i: int| 0 <= i < gitversion.len() implies materializes_under_policy(
                #[trigger] gitversion[i],
                command.force,
            ) && guarded_as(gitversion[i], command.force) by {
                if 1 <= i < 4 {
                    assert(gitversion[i] == performing(tool_addition(root, "GitVersion.Tool"@))[i
                        - 1]);
                }
            }
        }
    }
    assert(follows_policy(editor, command.force)) by {
        assert(editor.len() == 8);
        assert forall|i: int| 0 <= i < editor.len() implies materializes_under_policy(
            #[trigger] editor[i],
            command.force,
        ) && guarded_as(editor[i], command.force) by {
            if 1 <= i < 3 {
                assert(editor[i] == performing(
                    vscode_settings_copy(root, solution_name, command.force),
                )[i - 1]);
            } else if 4 <= i < 6 {
                assert(editor[i] == performing(
                    vscode_tasks_copy(root, solution_name, command.force),
                )[i - 4]);
            }
        }
    }
    lemma_follows_policy_both(base, solution, command.force);
    lemma_follows_policy_both(base + solution, gitversion, command.force);
    lemma_follows_policy_both(base + solution + gitversion, editor, command.force);
}

/// The names, seen from the project's root, of the files and directories
/// that the command makes, the solution file aside.
pub open spec fn written_names() -> Seq<Seq<char>> {
    seq![
        "global.json"@,
        ".gitignore"@,
        "Directory.Build.props"@,
        "NuGet.Config"@,
        "Directory.Packages.props"@,
        ".config"@,
        ".config"@ + "/"@ + "dotnet-tools.json"@,
        "GitVersion.yml"@,
        ".vscode"@,
        ".vscode"@ + "/"@ + "settings.json"@,
        ".vscode"@ + "/"@ + "tasks.json"@,
    ]
}

/// The names that the command writes are relative, not empty, and differ
/// from one another.
pub proof fn lemma_written_names_differ()
    ensures
        written_names().len() == 11,
        forall|i: int| 0 <= i < 11 ==> is_name(#[trigger] written_names()[i]),
        forall|i: int, j: int|
            0 <= i < j < 11 ==> #[trigger] written_names()[i] != #[trigger] written_names()[j],
        written_names()[9] == ".vscode/settings.json"@,
{
    reveal_strlit("global.json");
    reveal_strlit(".gitignore");
    reveal_strlit("Directory.Build.props");
    reveal_strlit("NuGet.Config");
    reveal_strlit("Directory.Packages.props");
    reveal_strlit(".config");
    reveal_strlit("dotnet-tools.json");
    reveal_strlit("GitVersion.yml");
    reveal_strlit(".vscode");
    reveal_strlit("settings.json");
    reveal_strlit("tasks.json");
    reveal_strlit(".vscode/settings.json");
    reveal_strlit("/");
    let names = written_names();
    assert(names[0].len() == 11 && names[0][0] == 'g');
    assert(names[1].len() == 10 && names[1][0] == '.');
    assert(names[2].len() == 21 && names[2][0] == 'D');
    assert(names[3].len() == 12 && names[3][0] == 'N');
    assert(names[4].len() == 24 && names[4][0] == 'D');
    assert(names[5].len() == 7 && names[5][0] == '.' && names[5][1] == 'c');
    assert(names[6].len() == 25 && names[6][0] == '.');
    assert(names[7].len() == 14 && names[7][0] == 'G');
    assert(names[8].len() == 7 && names[8][0] == '.' && names[8][1] == 'v');
    assert(names[9].len() == 21 && names[9][0] == '.');
    assert(names[10].len() == 18 && names[10][0] == '.');
    assert(names[9] =~= ".vscode/settings.json"@);
}

/// An initialisation into an empty directory asks no question, from the
/// first move to the last: where nothing exists below the project's root,
/// the directory as it is given is no path below the root, and the
/// solution file has a name of its own, the user is never asked whether to
/// overwrite, forced or not, and whichever of the optional files the
/// command adds.
pub proof fn lemma_csharp_init_into_empty_directory_never_asks(
    command: InitCommandModel,
    directory: Seq<char>,
    root: Seq<char>,
    solution_name: Seq<char>,
    world: World,
    answer: bool,
    moves: nat,
)
    requires
        root.len() > 0,
        is_name(solution_file_name(solution_name)),
        !written_names().contains(solution_file_name(solution_name)),
        forall|name: Seq<char>| is_name(name) ==> !world.holds(#[trigger] joined(root, name)),
        forall|name: Seq<char>| is_name(name) ==> directory != #[trigger] joined(root, name),
    ensures
        fresh(command.steps(directory, root, solution_name), world),
        !plan_performed(
            command.steps(directory, root, solution_name),
            world,
            answer,
            moves,
        ).asked(),
{
    let names = written_names();
    let solution_file = solution_file_name(solution_name);
    lemma_written_names_differ();
    lemma_joined_names_differ(root);
    assert forall|k: int| 0 <= k < 11 implies solution_file != #[trigger] names[k] by {
        assert(names.contains(names[k]));
    }
    reveal_strlit(".config");
    reveal_strlit(".vscode");
    reveal_strlit("dotnet-tools.json");
    reveal_strlit("settings.json");
    reveal_strlit("tasks.json");
    reveal_strlit("/");
    lemma_joined_twice(root, ".config"@, "dotnet-tools.json"@);
    lemma_joined_twice(root, ".vscode"@, "settings.json"@);
    lemma_joined_twice(root, ".vscode"@, "tasks.json"@);
    let at = |k: int| joined(root, names[k]);
    let solution_path = joined(root, solution_file);

    let base = command.base_steps(directory, root);
    let base_paths = set![directory, root, at(0), at(1)];
    assert(base.len() == 8);
    assert forall|j: int| 0 <= j < 8 implies #[trigger] target_of(base[j]) == (if j == 0 {
        Some(directory)
    } else if j == 2 {
        Some(at(0))
    } else if j == 5 {
        Some(root)
    } else if j == 6 {
        Some(at(1))
    } else {
        None
    }) by {}
    lemma_fresh_by_targets(base, world, base_paths);

    let head = seq![
        PlanStepModel::Category(".NET"@),
        PlanStepModel::Perform(solution_initialization(root, solution_name, command.force)),
        PlanStepModel::Perform(buildprops_addition(root, command.force)),
    ];
    let head_paths = set![solution_path, at(2)];
    assert forall|j: int| 0 <= j < 3 implies #[trigger] target_of(head[j]) == (if j == 1 {
        Some(solution_path)
    } else if j == 2 {
        Some(at(2))
    } else {
        None
    }) by {}
    lemma_fresh_by_targets(head, world, head_paths);

    let nuget = if command.add_nuget_config {
        seq![PlanStepModel::Perform(nugetconfig_addition(root, command.force))]
    } else {
        Seq::empty()
    };
    let nuget_paths = set![at(3)];
    assert forall|j: int| 0 <= j < nuget.len() implies #[trigger] target_of(nuget[j]) == Some(
        at(3),
    ) by {}
    lemma_fresh_by_targets(nuget, world, nuget_paths);

    let packages = if command.enable_centrally_managed_packages {
        seq![PlanStepModel::Perform(packagesprops_addition(root, command.force))]
    } else {
        Seq::empty()
    };
    let packages_paths = set![at(4)];
    assert forall|j: int| 0 <= j < packages.len() implies #[trigger] target_of(packages[j])
        == Some(at(4)) by {}
    lemma_fresh_by_targets(packages, world, packages_paths);

    let line = seq![PlanStepModel::Newline];
    let no_paths = Set::<Seq<char>>::empty();
    assert forall|j: int| 0 <= j < 1 implies #[trigger] target_of(line[j]) is None by {}
    lemma_fresh_by_targets(line, world, no_paths);

    let gitversion = command.gitversion_steps(root);
    let gitversion_paths = set![at(5), at(6), root, at(7)];
    if command.add_gitversion {
        let tools = performing(tool_addition(root, "GitVersion.Tool"@));
        assert(gitversion.len() == 6);
        assert forall|j: int| 1 <= j < 4 implies gitversion[j] == tools[j - 1] by {}
        assert forall|j: int| 0 <= j < 6 implies #[trigger] target_of(gitversion[j]) == (if j
            == 1 {
            Some(at(5))
        } else if j == 2 {
            Some(at(6))
        } else if j == 3 {
            Some(root)
        } else if j == 4 {
            Some(at(7))
        } else {
            None
        }) by {}
        assert forall|j: int| 0 <= j < 6 && asks_first(#[trigger] gitversion[j]) implies j
            == 4 by {}
    }
    lemma_fresh_by_targets(gitversion, world, gitversion_paths);

    let editor = command.editor_steps(root, solution_name);
    let editor_paths = set![at(8), at(9), at(10)];
    let settings = performing(vscode_settings_copy(root, solution_name, command.force));
    let tasks = performing(vscode_tasks_copy(root, solution_name, command.force));
    assert(editor.len() == 8);
    assert forall|j: int| 1 <= j < 3 implies editor[j] == settings[j - 1] by {}
    assert forall|j: int| 4 <= j < 6 implies editor[j] == tasks[j - 4] by {}
    assert forall|j: int| 0 <= j < 8 implies #[trigger] target_of(editor[j]) == (if j == 1 || j
        == 4 {
        Some(at(8))
    } else if j == 2 || j == 3 {
        Some(at(9))
    } else if j == 5 {
        Some(at(10))
    } else {
        None
    }) by {}
    assert forall|j: int| 0 <= j < 8 && asks_first(#[trigger] editor[j]) implies j == 2 || j
        == 5 by {}
    lemma_fresh_by_targets(editor, world, editor_paths);

    let first = base + head;
    let first_paths = base_paths.union(head_paths);
    lemma_fresh_both(base, head, world, base_paths, head_paths);
    let second = first + nuget;
    let second_paths = first_paths.union(nuget_paths);
    lemma_fresh_both(first, nuget, world, first_paths, nuget_paths);
    let third = second + packages;
    let third_paths = second_paths.union(packages_paths);
    lemma_fresh_both(second, packages, world, second_paths, packages_paths);
    let fourth = third + line;
    let fourth_paths = third_paths.union(no_paths);
    lemma_fresh_both(third, line, world, third_paths, no_paths);
    let fifth = fourth + gitversion;
    let fifth_paths = fourth_paths.union(gitversion_paths);
    lemma_fresh_both(fourth, gitversion, world, fourth_paths, gitversion_paths);
    let whole = fifth + editor;
    lemma_fresh_both(fifth, editor, world, fifth_paths, editor_paths);
    assert(command.solution_steps(root, solution_name) =~= head + nuget + packages + line);
    assert(command.steps(directory, root, solution_name) =~= whole);
    lemma_fresh_plan_never_asks(whole, world, answer, moves);
}

/// A forced initialisation asks no question, whatever the world holds.
pub proof fn lemma_forced_csharp_init_never_asks(
    command: InitCommandModel,
    directory: Seq<char>,
    root: Seq<char>,
    solution_name: Seq<char>,
    world: crate::world::World,
    answer: bool,
    moves: nat,
)
    requires
        command.force,
    ensures
        !crate::world::plan_performed(
            command.steps(directory, root, solution_name),
            world,
            answer,
            moves,
        ).asked(),
{
    let steps = command.steps(directory, root, solution_name);
    lemma_csharp_init_follows_policy(command, directory, root, solution_name);
    crate::world::lemma_forced_plan_is_fresh(steps, world);
    crate::world::lemma_fresh_plan_never_asks(steps, world, answer, moves);
}

impl InitCommandArgs {
    /// Runs the `csharp init` command: yields its plan.
    ///
    /// Fails where the output directory begins with `~` and no home
    /// directory is known, and where no solution name is given and the
    /// output directory has no name.
    pub fn run_command(&self, environment: &Environment) -> (planned: Result<Plan, CliError>)
        ensures
            plan_is(planned, self@.planned(environment@)),
    {
        let output_directory = match resolve_directory(&self.output_directory, environment) {
            Ok(directory) => directory,
            Err(error) => {
                return Err(error);
            },
        };
        let output_directory_absolute = output_directory.to_absolute(
            environment.current_dir.as_str(),
        );
        let root = output_directory_absolute.as_str();
        let solution_name = match self.get_solution_name_value() {
            Some(name) => name,
            None => {
                return Err(
                    CliError::new(
                        "The solution name could not be determined.",
                        CliErrorKind::UnableToParseSolutionName,
                    ),
                );
            },
        };
        let mut plan = Plan::new();
        self.plan_base(&mut plan, &output_directory, root);
        self.plan_solution(&mut plan, root, solution_name.as_str());
        self.plan_gitversion(&mut plan, root);
        self.plan_editor(&mut plan, root, solution_name.as_str());
        Ok(plan)
    }

    fn plan_base(&self, plan: &mut Plan, output_directory: &OutputDirectory, root: &str)
        ensures
            final(plan)@ == old(plan)@ + self@.base_steps(output_directory@, root@),
    {
        plan.perform(output_directory.create_if_not_exists());

        plan.category("Basic");
        plan.perform(add_dotnet_globaljson(root, self.force));
        plan.newline();

        plan.category("Git");
        plan.perform(initialize_git_repo(root));
        plan.perform(add_dotnet_gitignore(root, self.force));
        plan.newline();
        assert(plan@ =~= old(plan)@ + self@.base_steps(output_directory@, root@));
    }

    fn plan_solution(&self, plan: &mut Plan, root: &str, solution_name: &str)
        ensures
            final(plan)@ == old(plan)@ + self@.solution_steps(root@, solution_name@),
    {
        plan.category(".NET");
        plan.perform(initalize_dotnet_solution(root, solution_name, self.force));
        plan.perform(add_dotnet_buildprops(root, self.force));
        if self.add_nuget_config {
            plan.perform(add_dotnet_nugetconfig(root, self.force));
        }
        if self.enable_centrally_managed_packages {
            plan.perform(add_dotnet_packagesprops(root, self.force));
        }
        plan.newline();
        assert(plan@ =~= old(plan)@ + self@.solution_steps(root@, solution_name@));
    }

    fn plan_gitversion(&self, plan: &mut Plan, root: &str)
        ensures
            final(plan)@ == old(plan)@ + self@.gitversion_steps(root@),
    {
        if self.add_gitversion {
            plan.category("GitVersion");
            plan.perform_all(add_dotnet_tool(root, "GitVersion.Tool"));
            plan.perform(csharp_copy_gitversion(root, self.force));
            plan.newline();
        }
        assert(plan@ =~= old(plan)@ + self@.gitversion_steps(root@));
    }

    fn plan_editor(&self, plan: &mut Plan, root: &str, solution_name: &str)
        ensures
            final(plan)@ == old(plan)@ + self@.editor_steps(root@, solution_name@),
    {
        plan.category("VSCode");
        plan.perform_all(csharp_copy_vscode_settings(root, solution_name, self.force));
        plan.perform(update_csharp_lsp(root, self.csharp_lsp));
        plan.perform_all(csharp_copy_vscode_tasks(root, solution_name, self.force));
        plan.newline();

        plan.initialized();
        assert(plan@ =~= old(plan)@ + self@.editor_steps(root@, solution_name@));
    }

    /// The name of the solution: the name given, or the name of the output
    /// directory where none is given.
    pub fn get_solution_name_value(&self) -> (name: Option<String>)
        ensures
            name.deep_view() == self@.solution_name_value(),
    {
        match &self.solution_name {
            None => self.output_directory.file_name(),
            Some(name) => Some(name.clone()),
        }
    }
}

} // verus!
