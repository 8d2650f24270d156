//! The command that initializes a Rust project.

use vstd::prelude::*;
use crate::error::{CliError, CliErrorModel};
use crate::external_procs::cargo::{initalize_package, package_initialization};
use crate::external_procs::git::{git_initialization, initialize_git_repo};
use crate::io::{
    absolute_form,
    directory_ensured,
    is_name,
    joined,
    lemma_joined_below,
    lemma_joined_injective,
    lemma_joined_twice,
    unsupported_operating_system,
    OutputDirectory,
};
use crate::operation::Guard;
use crate::world::{
    finds_untouched,
    fresh,
    lemma_forced_plan_is_fresh,
    lemma_fresh_plan_never_asks,
    plan_performed,
    target_of,
    works_on,
    World,
};
use crate::lang_options::CargoPackageTemplateOption;
use crate::plan::{
    follows_policy,
    guarded_as,
    materializes_under_policy,
    performing,
    Plan,
    PlanStepModel,
};
use crate::subcommands::{
    plan_is,
    resolve_directory,
    resolved_directory,
    Environment,
    EnvironmentModel,
};
use crate::template_ops::rust::{
    build_pwsh_script_copy,
    cargo_workspace_file_copy,
    clean_pwsh_script_copy,
    copy_build_pwsh_script,
    copy_cargo_workspace_file,
    copy_clean_pwsh_script,
    copy_gitignore,
    copy_vscode_settings,
    copy_vscode_tasks,
    gitignore_copy,
    vscode_settings_copy,
    vscode_tasks_copy,
};

verus! {

/// The arguments of the `rust init` command, and the logic to run the
/// command.
#[derive(Debug)]
pub struct RustInitCommandArgs {
    /// The output directory for the new project.
    pub output_directory: OutputDirectory,
    /// The name of the base package.
    pub base_package_name: String,
    /// The type of Cargo package to create.
    pub base_package_template: CargoPackageTemplateOption,
    /// Force the command to run without prompting for confirmation.
    pub force: bool,
}

/// What a `RustInitCommandArgs` holds.
pub struct RustInitCommandModel {
    pub output_directory: Seq<char>,
    pub base_package_name: Seq<char>,
    pub base_package_template: CargoPackageTemplateOption,
    pub force: bool,
}

impl View for RustInitCommandArgs {
    type V = RustInitCommandModel;

    open spec fn view(&self) -> RustInitCommandModel {
        RustInitCommandModel {
            output_directory: self.output_directory@,
            base_package_name: self.base_package_name@,
            base_package_template: self.base_package_template,
            force: self.force,
        }
    }
}

impl RustInitCommandModel {
    /// The steps of the command for the resolved output directory
    /// `directory`, whose absolute form is `root`: the directory is made if
    /// it is not there; then come the repository and its ignore file, the
    /// editor's settings and tasks and the two scripts, the workspace file
    /// and the base package.
    pub open spec fn steps(self, directory: Seq<char>, root: Seq<char>) -> Seq<PlanStepModel> {
        seq![
            PlanStepModel::Perform(directory_ensured(directory)),
            PlanStepModel::Category("Git"@),
            PlanStepModel::Perform(git_initialization(root)),
            PlanStepModel::Perform(gitignore_copy(root, self.force)),
            PlanStepModel::Newline,
            PlanStepModel::Category("VSCode"@),
        ] + performing(vscode_settings_copy(root, self.force)) + performing(
            vscode_tasks_copy(root, self.base_package_name, self.force),
        ) + performing(build_pwsh_script_copy(root, self.force)) + performing(
            clean_pwsh_script_copy(root, self.force),
        ) + seq![
            PlanStepModel::Newline,
            PlanStepModel::Category("Rust"@),
            PlanStepModel::Perform(cargo_workspace_file_copy(root, self.force)),
            PlanStepModel::Perform(
                package_initialization(
                    root,
                    self.base_package_name,
                    self.base_package_template,
                    self.force,
                ),
            ),
            PlanStepModel::Newline,
            PlanStepModel::Initialized,
        ]
    }

    /// The plan of the command in an environment, or the error where the
    /// output directory cannot be resolved.
    pub open spec fn planned(self, environment: EnvironmentModel) -> Result<
        Seq<PlanStepModel>,
        CliErrorModel,
    > {
        match resolved_directory(self.output_directory, environment.home) {
            Some(directory) => Ok(
                self.steps(directory, absolute_form(directory, environment.current_dir)),
            ),
            None => Err(unsupported_operating_system()),
        }
    }
}

/// Every step of the command that writes a file of the project does so
/// under the overwrite policy, forced as the command says: what does not
/// exist is made, and what exists gives way only if the command is forced
/// or the user agrees.
pub proof fn lemma_rust_init_follows_policy(
    command: RustInitCommandModel,
    directory: Seq<char>,
    root: Seq<char>,
)
    ensures
        follows_policy(command.steps(directory, root), command.force),
{
    let steps = command.steps(directory, root);
    assert(steps.len() == 20);
    assert forall|i: int| 0 <= i < steps.len() implies materializes_under_policy(
        #[trigger] steps[i],
        command.force,
    ) && guarded_as(steps[i], command.force) by {
        if i >= 6 && i < 14 {
            let k = i - 6;
            assert(steps[i] == (performing(vscode_settings_copy(root, command.force)) + performing(
                vscode_tasks_copy(root, command.base_package_name, command.force),
            ) + performing(build_pwsh_script_copy(root, command.force)) + performing(
                clean_pwsh_script_copy(root, command.force),
            ))[k]);
        }
    }
}

/// The names, seen from the project's root, of the files and directories
/// that the command writes from templates.
pub open spec fn written_names() -> Seq<Seq<char>> {
    seq![
        ".gitignore"@,
        ".vscode"@,
        ".vscode"@ + "/"@ + "settings.json"@,
        ".vscode"@ + "/"@ + "tasks.json"@,
        "tools"@,
        "tools"@ + "/"@ + "Build-Package.ps1"@,
        "tools"@ + "/"@ + "Clean-Package.ps1"@,
        "Cargo.toml"@,
    ]
}

/// The names that the command writes are relative, not empty, and differ
/// from one another.
pub proof fn lemma_written_names_differ()
    ensures
        written_names().len() == 8,
        forall|i: int| 0 <= i < 8 ==> is_name(#[trigger] written_names()[i]),
        forall|i: int, j: int|
            0 <= i < j < 8 ==> #[trigger] written_names()[i] != #[trigger] written_names()[j],
{
    reveal_strlit(".gitignore");
    reveal_strlit(".vscode");
    reveal_strlit("settings.json");
    reveal_strlit("tasks.json");
    reveal_strlit("tools");
    reveal_strlit("Build-Package.ps1");
    reveal_strlit("Clean-Package.ps1");
    reveal_strlit("Cargo.toml");
    reveal_strlit("/");
    let names = written_names();
    assert(names[0].len() == 10 && names[0][0] == '.');
    assert(names[1].len() == 7 && names[1][0] == '.');
    assert(names[2].len() == 21 && names[2][0] == '.');
    assert(names[3].len() == 18 && names[3][0] == '.');
    assert(names[4].len() == 5 && names[4][0] == 't');
    assert(names[5].len() == 23 && names[5][0] == 't' && names[5][6] == 'B');
    assert(names[6].len() == 23 && names[6][0] == 't' && names[6][6] == 'C');
    assert(names[7].len() == 10 && names[7][0] == 'C');
}

/// The paths that the steps of the command work on, step for step.
pub proof fn lemma_rust_init_targets(
    command: RustInitCommandModel,
    directory: Seq<char>,
    root: Seq<char>,
)
    requires
        root.len() > 0,
        is_name(command.base_package_name),
    ensures
        command.steps(directory, root).len() == 20,
        forall|j: int|
            0 <= j < 20 ==> #[trigger] target_of(command.steps(directory, root)[j]) == (if j == 0 {
                Some(directory)
            } else if j == 2 {
                Some(root)
            } else if j == 3 {
                Some(joined(root, written_names()[0]))
            } else if j == 6 || j == 8 {
                Some(joined(root, written_names()[1]))
            } else if j == 7 {
                Some(joined(root, written_names()[2]))
            } else if j == 9 {
                Some(joined(root, written_names()[3]))
            } else if j == 10 || j == 12 {
                Some(joined(root, written_names()[4]))
            } else if j == 11 {
                Some(joined(root, written_names()[5]))
            } else if j == 13 {
                Some(joined(root, written_names()[6]))
            } else if j == 16 {
                Some(joined(root, written_names()[7]))
            } else if j == 17 {
                Some(joined(root, command.base_package_name))
            } else {
                None
            }),
{
    reveal_strlit(".vscode");
    reveal_strlit("tools");
    reveal_strlit("settings.json");
    reveal_strlit("tasks.json");
    reveal_strlit("Build-Package.ps1");
    reveal_strlit("Clean-Package.ps1");
    reveal_strlit("/");
    let steps = command.steps(directory, root);
    let middle = performing(vscode_settings_copy(root, command.force)) + performing(
        vscode_tasks_copy(root, command.base_package_name, command.force),
    ) + performing(build_pwsh_script_copy(root, command.force)) + performing(
        clean_pwsh_script_copy(root, command.force),
    );
    assert(steps.len() == 20);
    lemma_joined_twice(root, ".vscode"@, "settings.json"@);
    lemma_joined_twice(root, ".vscode"@, "tasks.json"@);
    lemma_joined_twice(root, "tools"@, "Build-Package.ps1"@);
    lemma_joined_twice(root, "tools"@, "Clean-Package.ps1"@);
    assert forall|j: int| 6 <= j < 14 implies steps[j] == middle[j - 6] by {}
}

/// An initialisation into an empty directory asks no question, from the
/// first move to the last: where nothing exists below the project's root,
/// the directory as it is given is no path below the root, and the base
/// package has a name of its own, the user is never asked whether to
/// overwrite, forced or not.
pub proof fn lemma_rust_init_into_empty_directory_never_asks(
    command: RustInitCommandModel,
    directory: Seq<char>,
    root: Seq<char>,
    world: World,
    answer: bool,
    moves: nat,
)
    requires
        root.len() > 0,
        is_name(command.base_package_name),
        !written_names().contains(command.base_package_name),
        forall|name: Seq<char>| is_name(name) ==> !world.holds(#[trigger] joined(root, name)),
        forall|name: Seq<char>| is_name(name) ==> directory != #[trigger] joined(root, name),
    ensures
        fresh(command.steps(directory, root), world),
        !plan_performed(command.steps(directory, root), world, answer, moves).asked(),
{
    let steps = command.steps(directory, root);
    let names = written_names();
    let package = command.base_package_name;
    lemma_written_names_differ();
    lemma_rust_init_targets(command, directory, root);
    assert forall|k: int| 0 <= k < 8 implies package != #[trigger] names[k] by {
        assert(names.contains(names[k]));
    }
    assert forall|i: int| 0 <= i < steps.len() implies finds_untouched(
        steps,
        world,
        #[trigger] steps[i],
        i,
    ) by {
        if steps[i] is Perform && steps[i]->Perform_0.guard == (Guard::Overwrite { force: false }) {
            let target = steps[i]->Perform_0.target;
            assert(target_of(steps[i]) == Some(target));
            let name = if i == 3 {
                names[0]
            } else if i == 7 {
                names[2]
            } else if i == 9 {
                names[3]
            } else if i == 11 {
                names[5]
            } else if i == 13 {
                names[6]
            } else if i == 16 {
                names[7]
            } else {
                package
            };
            assert(i == 3 || i == 7 || i == 9 || i == 11 || i == 13 || i == 16 || i == 17) by {
                assert(steps[0]->Perform_0.guard == Guard::IfAbsent);
                assert(steps[2]->Perform_0.guard == Guard::Always);
                assert(steps[6]->Perform_0.guard == Guard::IfAbsent);
                assert(steps[8]->Perform_0.guard == Guard::IfAbsent);
                assert(steps[10]->Perform_0.guard == Guard::IfAbsent);
                assert(steps[12]->Perform_0.guard == Guard::IfAbsent);
            }
            assert(target == joined(root, name));
            assert(is_name(name));
            assert(!world.holds(target));
            lemma_joined_below(root, name);
            assert forall|j: int| 0 <= j < i && j < steps.len() implies !works_on(
                #[trigger] steps[j],
                target,
            ) by {
                if works_on(steps[j], target) {
                    assert(target_of(steps[j]) == Some(target));
                    if j == 0 || j == 2 {
                    } else {
                        let other = if j == 3 {
                            names[0]
                        } else if j == 6 || j == 8 {
                            names[1]
                        } else if j == 7 {
                            names[2]
                        } else if j == 9 {
                            names[3]
                        } else if j == 10 || j == 12 {
                            names[4]
                        } else if j == 11 {
                            names[5]
                        } else if j == 13 {
                            names[6]
                        } else {
                            names[7]
                        };
                        assert(joined(root, other) == joined(root, name));
                        lemma_joined_injective(root, other, name);
                    }
                }
            }
        }
    }
    lemma_fresh_plan_never_asks(steps, world, answer, moves);
}

/// A forced initialisation asks no question, whatever the world holds.
pub proof fn lemma_forced_rust_init_never_asks(
    command: RustInitCommandModel,
    directory: Seq<char>,
    root: Seq<char>,
    world: World,
    answer: bool,
    moves: nat,
)
    requires
        command.force,
    ensures
        !plan_performed(command.steps(directory, root), world, answer, moves).asked(),
{
    lemma_rust_init_follows_policy(command, directory, root);
    lemma_forced_plan_is_fresh(command.steps(directory, root), world);
    lemma_fresh_plan_never_asks(command.steps(directory, root), world, answer, moves);
}

impl RustInitCommandArgs {
    /// Runs the `rust init` command: yields its plan.
    ///
    /// Fails where the output directory begins with `~` and no home
    /// directory is known.
    pub fn run_command(&self, environment: &Environment) -> (planned: Result<Plan, CliError>)
        ensures
            plan_is(planned, self@.planned(environment@)),
    {
        let output_directory = match resolve_directory(&self.output_directory, environment) {
            Ok(directory) => directory,
            Err(error) => {
                return Err(error);
            },
        };
        let output_directory_absolute = output_directory.to_absolute(
            environment.current_dir.as_str(),
        );
        let root = output_directory_absolute.as_str();
        let mut plan = Plan::new();
        plan.perform(output_directory.create_if_not_exists());

        plan.category("Git");
        plan.perform(initialize_git_repo(root));
        plan.perform(copy_gitignore(root, self.force));
        plan.newline();

        plan.category("VSCode");
        plan.perform_all(copy_vscode_settings(root, self.force));
        plan.perform_all(copy_vscode_tasks(root, self.base_package_name.as_str(), self.force));
        plan.perform_all(copy_build_pwsh_script(root, self.force));
        plan.perform_all(copy_clean_pwsh_script(root, self.force));
        plan.newline();

        plan.category("Rust");
        plan.perform(copy_cargo_workspace_file(root, self.force));
        plan.perform(
            initalize_package(
                root,
                self.base_package_name.as_str(),
                self.base_package_template,
                self.force,
            ),
        );
        plan.newline();

        plan.initialized();
        assert(plan@ =~= self@.steps(output_directory@, root@));
        Ok(plan)
    }
}

} // verus!
