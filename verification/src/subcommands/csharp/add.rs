//! The command that adds a project to a C# solution.

use vstd::prelude::*;
use crate::error::{ErrorReport, ErrorReportModel, ErrorSource, ErrorSourceModel};
use crate::external_procs::dotnet::{add_project_to_solution, project_addition};
use crate::io::{
    extension,
    file_stem,
    join_path,
    joined,
    parent,
    parent_of,
    relative_to,
    spec_extension,
    spec_file_stem,
};
use crate::logging::{leveled, Color, CommandModel, ConsoleLogger};
use crate::plan::{Plan, PlanStepModel};
use crate::subcommands::{
    planned_is,
    CommandFailure,
    CommandFailureModel,
    Environment,
    EnvironmentModel,
    Planning,
};
use crate::text::{join3, same_text};
use crate::vscode_ops::csharp::{add_csharp_project_to_tasks, project_registration};

verus! {

/// The arguments of the `csharp add` command, and the logic to run the
/// command.
#[derive(Debug)]
pub struct AddCommandArgs {
    /// The solution file to add the project to.
    pub solution_file_path: Option<String>,
    /// The path to the project.
    pub project_path: String,
    /// The friendly name of the project.
    pub project_friendly_name: Option<String>,
    /// Whether the project is runnable.
    pub is_runnable: bool,
    /// Whether the project is watchable.
    pub is_watchable: bool,
}

/// What an `AddCommandArgs` holds.
pub struct AddCommandModel {
    pub solution_file_path: Option<Seq<char>>,
    pub project_path: Seq<char>,
    pub project_friendly_name: Option<Seq<char>>,
    pub is_runnable: bool,
    pub is_watchable: bool,
}

impl View for AddCommandArgs {
    type V = AddCommandModel;

    open spec fn view(&self) -> AddCommandModel {
        AddCommandModel {
            solution_file_path: self.solution_file_path.deep_view(),
            project_path: self.project_path@,
            project_friendly_name: self.project_friendly_name.deep_view(),
            is_runnable: self.is_runnable,
            is_watchable: self.is_watchable,
        }
    }
}

/// Whether `at` is the first place in `entries` whose name has the
/// extension `wanted`.
pub open spec fn is_first_with_extension(
    entries: Seq<Seq<char>>,
    wanted: Seq<char>,
    at: int,
) -> bool {
    &&& 0 <= at < entries.len()
    &&& spec_extension(entries[at]) == Some(wanted)
    &&& forall|j: int| 0 <= j < at ==> spec_extension(#[trigger] entries[j]) != Some(wanted)
}

/// The first of `entries` whose name has the extension `wanted`.
pub open spec fn first_with_extension(entries: Seq<Seq<char>>, wanted: Seq<char>) -> Option<
    Seq<char>,
> {
    if exists|at: int| is_first_with_extension(entries, wanted, at) {
        Some(entries[choose|at: int| is_first_with_extension(entries, wanted, at)])
    } else {
        None
    }
}

/// The first of `entries` whose name has the extension `wanted`.
pub fn find_with_extension(entries: &Vec<String>, wanted: &str) -> (found: Option<String>)
    ensures
        found.deep_view() == first_with_extension(entries.deep_view(), wanted@),
{
    let mut i: usize = 0;
    while i < entries.len()
        invariant
            i <= entries.len(),
            forall|j: int|
                0 <= j < i ==> spec_extension(#[trigger] entries.deep_view()[j]) != Some(wanted@),
        decreases entries.len() - i,
    {
        assert(entries.deep_view()[i as int] == entries@[i as int]@);
        let matches = match extension(entries[i].as_str()) {
            Some(held) => same_text(held.as_str(), wanted),
            None => false,
        };
        if matches {
            proof {
                let all = entries.deep_view();
                assert(is_first_with_extension(all, wanted@, i as int));
                let chosen = choose|at: int| is_first_with_extension(all, wanted@, at);
                if chosen < i {
                    assert(spec_extension(all[chosen]) != Some(wanted@));
                } else if i < chosen {
                    assert(spec_extension(all[i as int]) != Some(wanted@));
                }
            }
            return Some(entries[i].clone());
        }
        i += 1;
    }
    assert forall|at: int| !is_first_with_extension(entries.deep_view(), wanted@, at) by {
        if is_first_with_extension(entries.deep_view(), wanted@, at) {
            assert(spec_extension(entries.deep_view()[at]) != Some(wanted@));
        }
    }
    None
}

/// The solution file of the current directory: the first of its entries
/// whose name ends in `.sln`, as a path below the directory.
pub open spec fn solution_file_path_default_value(
    current_dir: Seq<char>,
    current_dir_entries: Seq<Seq<char>>,
) -> Option<Seq<char>> {
    match first_with_extension(current_dir_entries, "sln"@) {
        Some(name) => Some(joined(current_dir, name)),
        None => None,
    }
}

/// The friendly name of the project in a directory: the name, without its
/// extension, of the first of the directory's entries whose name ends in
/// `.csproj`.
pub open spec fn project_friendly_name_default(project_dir_entries: Seq<Seq<char>>) -> Option<
    Seq<char>,
> {
    match first_with_extension(project_dir_entries, "csproj"@) {
        Some(name) => Some(spec_file_stem(name)),
        None => None,
    }
}

/// Gets the default value for the solution file path if it is not provided
/// by the user.
pub fn get_solution_file_path_default_value(
    current_dir: &str,
    current_dir_entries: &Vec<String>,
) -> (path:
    Option<String>)
    ensures
        path.deep_view() == solution_file_path_default_value(
            current_dir@,
            current_dir_entries.deep_view(),
        ),
{
    match find_with_extension(current_dir_entries, "sln") {
        Some(name) => Some(join_path(current_dir, name.as_str())),
        None => None,
    }
}

/// Gets the friendly name of the project, if it is not provided by the
/// user.
pub fn get_project_friendly_name(project_dir_entries: &Vec<String>) -> (name: Option<String>)
    ensures
        name.deep_view() == project_friendly_name_default(project_dir_entries.deep_view()),
{
    match find_with_extension(project_dir_entries, "csproj") {
        Some(name) => Some(file_stem(name.as_str())),
        None => None,
    }
}

/// The planning that fails after `message` was written to the console as an
/// error.
pub open spec fn refused(message: Seq<char>, is_tty: bool) -> Planning {
    Planning {
        outcome: Err(CommandFailureModel::Reported),
        output: leveled(is_tty, Color::Red, "[Error] - "@, message),
    }
}

/// The report of a project that does not lie below its solution.
pub open spec fn prefix_not_found() -> ErrorReportModel {
    ErrorReportModel { source: ErrorSourceModel::Unknown, message: "prefix not found"@ }
}

impl AddCommandModel {
    /// The steps of the command for the solution file `solution_file_path`
    /// and the project's friendly name, where the project, seen from the
    /// solution, is at `project_path_relative`.
    pub open spec fn steps(
        self,
        solution_file_path: Seq<char>,
        project_canonical_path: Seq<char>,
        project_path_relative: Seq<char>,
        project_friendly_name: Seq<char>,
    ) -> Seq<PlanStepModel> {
        seq![
            PlanStepModel::Category("Add project"@),
            PlanStepModel::Perform(
                project_addition(
                    solution_file_path,
                    project_canonical_path,
                    project_path_relative,
                ),
            ),
            PlanStepModel::Perform(
                project_registration(
                    parent(solution_file_path),
                    self.project_path,
                    project_friendly_name,
                    self.is_runnable,
                    self.is_watchable,
                ),
            ),
        ]
    }

    /// The solution file of the command: the one given, or the one found in
    /// the current directory. The error message where there is none.
    pub open spec fn solution(self, environment: EnvironmentModel) -> Result<Seq<char>, Seq<char>> {
        match self.solution_file_path {
            None => match solution_file_path_default_value(
                environment.current_dir,
                environment.project.current_dir_entries,
            ) {
                Some(path) => Ok(path),
                None => Err("No solution file found in the current directory."@),
            },
            Some(path) => if environment.project.solution_file_exists {
                Ok(path)
            } else {
                Err("The solution file path '"@ + path + "' does not exist."@)
            },
        }
    }

    /// The friendly name of the project: the one given, or the one found in
    /// the project directory. The error message where there is none.
    pub open spec fn friendly_name(self, environment: EnvironmentModel) -> Result<
        Seq<char>,
        Seq<char>,
    > {
        match self.project_friendly_name {
            None => match project_friendly_name_default(environment.project.project_dir_entries) {
                Some(name) => Ok(name),
                None => Err("No project file found in the project directory."@),
            },
            Some(name) => Ok(name),
        }
    }

    /// What running the command gives: the solution file is settled first,
    /// then the project path must exist, then the friendly name is settled;
    /// the first of these that fails is written to the console as an error.
    /// A project that does not lie below its solution fails the command
    /// with a report that is not written yet.
    pub open spec fn planning(self, environment: EnvironmentModel, is_tty: bool) -> Planning {
        match self.solution(environment) {
            Err(message) => refused(message, is_tty),
            Ok(solution_file_path) => if !environment.project.project_path_exists {
                refused("The project path '"@ + self.project_path + "' does not exist."@, is_tty)
            } else {
                match self.friendly_name(environment) {
                    Err(message) => refused(message, is_tty),
                    Ok(project_friendly_name) => match relative_to(
                        environment.project.project_canonical_path,
                        parent(solution_file_path),
                    ) {
                        None => Planning {
                            outcome: Err(CommandFailureModel::Error(prefix_not_found())),
                            output: Seq::empty(),
                        },
                        Some(project_path_relative) => Planning {
                            outcome: Ok(
                                self.steps(
                                    solution_file_path,
                                    environment.project.project_canonical_path,
                                    project_path_relative,
                                    project_friendly_name,
                                ),
                            ),
                            output: Seq::empty(),
                        },
                    },
                }
            }
        }
    }
}

impl AddCommandArgs {
    /// Runs the `csharp add` command: yields its plan.
    ///
    /// Fails, with the reason written to the console, where no solution file
    /// is given and none is found in the current directory, where the
    /// solution file that is given does not exist, where the project path
    /// does not exist, and where no friendly name is given and no project
    /// file is found in the project directory. Fails with a report where the
    /// project does not lie below the directory of the solution file.
    pub fn run_command(&self, environment: &Environment, logger: &mut ConsoleLogger) -> (planned:
        Result<Plan, CommandFailure>)
        ensures
            planned_is(planned, self@.planning(environment@, old(logger).is_tty).outcome),
            final(logger)@ == old(logger)@.out(
                self@.planning(environment@, old(logger).is_tty).output,
            ),
    {
        proof {
            assert(logger@.stdout + Seq::<CommandModel>::empty() =~= logger@.stdout);
        }
        let survey = &environment.project;
        let solution_file_path: String = match &self.solution_file_path {
            None => match get_solution_file_path_default_value(
                environment.current_dir.as_str(),
                &survey.current_dir_entries,
            ) {
                Some(path) => path,
                None => {
                    logger.write_error(
                        "No solution file found in the current directory.".to_owned(),
                    );
                    return Err(CommandFailure::Reported);
                },
            },
            Some(path) => {
                if !survey.solution_file_exists {
                    logger.write_error(
                        join3("The solution file path '", path.as_str(), "' does not exist."),
                    );
                    return Err(CommandFailure::Reported);
                }
                path.clone()
            },
        };
        if !survey.project_path_exists {
            logger.write_error(
                join3("The project path '", self.project_path.as_str(), "' does not exist."),
            );
            return Err(CommandFailure::Reported);
        }
        let project_friendly_name: String = match &self.project_friendly_name {
            None => match get_project_friendly_name(&survey.project_dir_entries) {
                Some(name) => name,
                None => {
                    logger.write_error(
                        "No project file found in the project directory.".to_owned(),
                    );
                    return Err(CommandFailure::Reported);
                },
            },
            Some(name) => name.clone(),
        };
        let addition = match add_project_to_solution(
            solution_file_path.as_str(),
            survey.project_canonical_path.as_str(),
        ) {
            Some(operation) => operation,
            None => {
                return Err(
                    CommandFailure::Error(
                        ErrorReport {
                            source: ErrorSource::Unknown,
                            message: "prefix not found".to_owned(),
                        },
                    ),
                );
            },
        };
        let solution_directory = parent_of(solution_file_path.as_str());
        let mut plan = Plan::new();
        plan.category("Add project");
        plan.perform(addition);
        plan.perform(
            add_csharp_project_to_tasks(
                solution_directory.as_str(),
                self.project_path.as_str(),
                project_friendly_name.as_str(),
                self.is_runnable,
                self.is_watchable,
            ),
        );
        assert(plan@ =~= self@.steps(
            solution_file_path@,
            survey.project_canonical_path@,
            relative_to(survey.project_canonical_path@, parent(solution_file_path@)).unwrap(),
            project_friendly_name@,
        ));
        Ok(plan)
    }
}

} // verus!
