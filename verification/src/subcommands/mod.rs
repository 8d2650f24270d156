//! The commands of the tool.
//!
//! A command is a value that holds its arguments. Running it does nothing
//! to the project: it yields the plan of what is to be said and done, or the
//! reason why there is no plan.

pub mod csharp;
pub mod rust;

use vstd::prelude::*;
use crate::error::{CliError, CliErrorKind, CliErrorModel, ErrorReport, ErrorReportModel};
use crate::io::{
    home_resolved,
    unsupported_operating_system,
    without_trailing_slashes,
    OutputDirectory,
};
use crate::logging::{CommandModel, ConsoleLogger};
use crate::plan::{Plan, PlanStepModel};
use self::csharp::CsharpSubcommands;
use self::rust::RustSubcommands;

verus! {

/// What a command to add a project needs to know of the file system.
#[derive(Debug)]
pub struct ProjectSurvey {
    /// The names of the entries of the current directory, in the order in
    /// which the directory lists them.
    pub current_dir_entries: Vec<String>,
    /// Whether the solution file that the command names exists.
    pub solution_file_exists: bool,
    /// Whether the project path that the command names exists.
    pub project_path_exists: bool,
    /// The names of the entries of the project directory, in the order in
    /// which the directory lists them.
    pub project_dir_entries: Vec<String>,
    /// The canonical form of the project path.
    pub project_canonical_path: String,
}

/// What a `ProjectSurvey` holds.
pub struct ProjectSurveyModel {
    pub current_dir_entries: Seq<Seq<char>>,
    pub solution_file_exists: bool,
    pub project_path_exists: bool,
    pub project_dir_entries: Seq<Seq<char>>,
    pub project_canonical_path: Seq<char>,
}

impl View for ProjectSurvey {
    type V = ProjectSurveyModel;

    open spec fn view(&self) -> ProjectSurveyModel {
        ProjectSurveyModel {
            current_dir_entries: self.current_dir_entries.deep_view(),
            solution_file_exists: self.solution_file_exists,
            project_path_exists: self.project_path_exists,
            project_dir_entries: self.project_dir_entries.deep_view(),
            project_canonical_path: self.project_canonical_path@,
        }
    }
}

/// What a command needs to know of the process it runs in.
#[derive(Debug)]
pub struct Environment {
    /// The value of the home directory variable, None where it is not
    /// defined.
    pub home: Option<String>,
    /// The current directory.
    pub current_dir: String,
    /// What a command to add a project needs to know; any value will do for
    /// another command.
    pub project: ProjectSurvey,
}

/// What an `Environment` holds.
pub struct EnvironmentModel {
    pub home: Option<Seq<char>>,
    pub current_dir: Seq<char>,
    pub project: ProjectSurveyModel,
}

impl View for Environment {
    type V = EnvironmentModel;

    open spec fn view(&self) -> EnvironmentModel {
        EnvironmentModel {
            home: self.home.deep_view(),
            current_dir: self.current_dir@,
            project: self.project@,
        }
    }
}

/// Why a command has no plan.
#[derive(Debug)]
pub enum CommandFailure {
    /// The reason was written to the console.
    Reported,
    /// The reason is still to be written to the console.
    Error(ErrorReport),
}

/// What a `CommandFailure` holds.
pub enum CommandFailureModel {
    Reported,
    Error(ErrorReportModel),
}

impl View for CommandFailure {
    type V = CommandFailureModel;

    open spec fn view(&self) -> CommandFailureModel {
        match self {
            CommandFailure::Reported => CommandFailureModel::Reported,
            CommandFailure::Error(report) => CommandFailureModel::Error(report@),
        }
    }
}

/// What running a command gives: the plan or the reason why there is none,
/// and what was said meanwhile.
pub struct Planning {
    pub outcome: Result<Seq<PlanStepModel>, CommandFailureModel>,
    pub output: Seq<CommandModel>,
}

/// The planning that says nothing and ends as `outcome` says, an error
/// being one of the tool's own.
pub open spec fn silent_planning(outcome: Result<Seq<PlanStepModel>, CliErrorModel>) -> Planning {
    Planning {
        outcome: match outcome {
            Ok(steps) => Ok(steps),
            Err(error) => Err(
                CommandFailureModel::Error(
                    ErrorReportModel {
                        source: crate::error::ErrorSourceModel::Internal(error.kind),
                        message: error.message,
                    },
                ),
            ),
        },
        output: Seq::empty(),
    }
}

/// Whether `planned` is what `expected` says.
pub open spec fn planned_is(
    planned: Result<Plan, CommandFailure>,
    expected: Result<Seq<PlanStepModel>, CommandFailureModel>,
) -> bool {
    match planned {
        Ok(plan) => expected == Ok::<Seq<PlanStepModel>, CommandFailureModel>(plan@),
        Err(failure) => expected == Err::<Seq<PlanStepModel>, CommandFailureModel>(failure@),
    }
}

/// Whether `planned` is what `expected` says.
pub open spec fn plan_is(
    planned: Result<Plan, CliError>,
    expected: Result<Seq<PlanStepModel>, CliErrorModel>,
) -> bool {
    match planned {
        Ok(plan) => expected == Ok::<Seq<PlanStepModel>, CliErrorModel>(plan@),
        Err(error) => expected == Err::<Seq<PlanStepModel>, CliErrorModel>(error@),
    }
}

/// The output directory of a command once it is resolved: with a leading
/// `~` replaced by the home directory, and without separators and dots at
/// its end. None where the path begins with `~` and no home directory is
/// known.
pub open spec fn resolved_directory(directory: Seq<char>, home: Option<Seq<char>>) -> Option<
    Seq<char>,
> {
    match home_resolved(directory, home) {
        Some(path) => Some(without_trailing_slashes(path)),
        None => None,
    }
}

/// Resolves the output directory of a command.
pub fn resolve_directory(directory: &OutputDirectory, environment: &Environment) -> (resolved:
    Result<OutputDirectory, CliError>)
    ensures
        match resolved {
            Ok(path) => resolved_directory(directory@, environment@.home) == Some(path@),
            Err(error) => resolved_directory(directory@, environment@.home) is None && error@
                == unsupported_operating_system(),
        },
{
    let mut output_directory = OutputDirectory { path: directory.path.clone() };
    let home: Option<&str> = match &environment.home {
        Some(path) => Some(path.as_str()),
        None => None,
    };
    match output_directory.resolve_home_dir(home) {
        Err(error) => Err(error),
        Ok(mut expanded) => expanded.trim_trailing_slashes(),
    }
}

/// Turns the failure of a plain command into the failure of any command.
pub fn report(planned: Result<Plan, CliError>) -> (outcome: Result<Plan, CommandFailure>)
    ensures
        match planned {
            Ok(plan) => planned_is(outcome, silent_planning(Ok(plan@)).outcome),
            Err(error) => planned_is(outcome, silent_planning(Err(error@)).outcome),
        },
{
    match planned {
        Ok(plan) => Ok(plan),
        Err(error) => Err(CommandFailure::Error(ErrorReport::from_cli_error(&error))),
    }
}

/// A subcommand of the tool.
pub trait ConfiguratorSubcommand {
    /// What running the subcommand gives in an environment.
    spec fn planning(&self, environment: EnvironmentModel, is_tty: bool) -> Planning;

    /// Matches the subcommand provided by the user and runs the
    /// corresponding command: yields its plan.
    fn match_subcommand(&self, environment: &Environment, logger: &mut ConsoleLogger) -> (planned:
        Result<Plan, CommandFailure>)
        ensures
            planned_is(planned, self.planning(environment@, old(logger).is_tty).outcome),
            final(logger)@ == old(logger)@.out(
                self.planning(environment@, old(logger).is_tty).output,
            ),
    ;
}

/// The error of a command line without a subcommand.
pub open spec fn no_subcommand_provided() -> CliErrorModel {
    CliErrorModel {
        message: "No subcommand provided."@,
        kind: CliErrorKind::NoSubcommandProvided,
    }
}

/// A shell for which `clap_complete` writes completion scripts. The
/// library hands the shell on and never looks at it.
#[verifier::external_type_specification]
#[verifier::external_body]
pub struct ExShell(clap_complete::Shell);

/// Generate completion scripts for the shell of your choice.
#[derive(Debug, PartialEq)]
pub struct Completions {
    /// The shell to generate completions for.
    pub shell: clap_complete::Shell,
}

/// The root subcommands for the CLI.
#[derive(Debug)]
#[allow(inconsistent_fields)]
pub enum RootSubcommands {
    /// Subcommands for C# projects.
    Csharp { command: Option<CsharpSubcommands> },
    /// Subcommands for Rust projects.
    Rust { command: Option<RustSubcommands> },
    /// Generate completion scripts for the shell of your choice.
    Completions(Completions),
}

/// What a command line asks for.
#[derive(Debug)]
pub enum RootOutcome {
    /// To go through a plan.
    Plan(Plan),
    /// To write the completion script for a shell.
    Completions(clap_complete::Shell),
}

/// What a `RootOutcome` holds.
pub enum RootOutcomeModel {
    Plan(Seq<PlanStepModel>),
    Completions(clap_complete::Shell),
}

impl View for RootOutcome {
    type V = RootOutcomeModel;

    open spec fn view(&self) -> RootOutcomeModel {
        match self {
            RootOutcome::Plan(plan) => RootOutcomeModel::Plan(plan@),
            RootOutcome::Completions(shell) => RootOutcomeModel::Completions(*shell),
        }
    }
}

/// What running a command line gives: what it asks for or the reason why
/// it asks for nothing, and what was said meanwhile.
pub struct RootPlanning {
    pub outcome: Result<RootOutcomeModel, CommandFailureModel>,
    pub output: Seq<CommandModel>,
}

/// The planning of a command line whose subcommand plans as `planning`
/// says.
pub open spec fn planned_root(planning: Planning) -> RootPlanning {
    RootPlanning {
        outcome: match planning.outcome {
            Ok(steps) => Ok(RootOutcomeModel::Plan(steps)),
            Err(failure) => Err(failure),
        },
        output: planning.output,
    }
}

/// What running a command line gives. A command line without a subcommand,
/// or with a language and no command for it, fails with the error that says
/// so. A request for completions is handed on. Any other command line gives
/// what its subcommand plans.
pub open spec fn root_planning(
    command: Option<&RootSubcommands>,
    environment: EnvironmentModel,
    is_tty: bool,
) -> RootPlanning {
    match command {
        Some(RootSubcommands::Csharp { command: Some(subcommand) }) => planned_root(
            subcommand.planning(environment, is_tty),
        ),
        Some(RootSubcommands::Rust { command: Some(subcommand) }) => planned_root(
            subcommand.planning(environment, is_tty),
        ),
        Some(RootSubcommands::Completions(completions)) => RootPlanning {
            outcome: Ok(RootOutcomeModel::Completions(completions.shell)),
            output: Seq::empty(),
        },
        _ => planned_root(silent_planning(Err(no_subcommand_provided()))),
    }
}

/// Whether `outcome` is what `expected` says.
pub open spec fn root_is(
    outcome: Result<RootOutcome, CommandFailure>,
    expected: Result<RootOutcomeModel, CommandFailureModel>,
) -> bool {
    match outcome {
        Ok(asked) => expected == Ok::<RootOutcomeModel, CommandFailureModel>(asked@),
        Err(failure) => expected == Err::<RootOutcomeModel, CommandFailureModel>(failure@),
    }
}

fn plan_of(planned: Result<Plan, CommandFailure>) -> (outcome: Result<RootOutcome, CommandFailure>)
    ensures
        match planned {
            Ok(plan) => outcome matches Ok(asked) && asked@ == RootOutcomeModel::Plan(plan@),
            Err(failure) => outcome matches Err(same) && same@ == failure@,
        },
{
    match planned {
        Ok(plan) => Ok(RootOutcome::Plan(plan)),
        Err(failure) => Err(failure),
    }
}

/// Runs a command line: yields what it asks for.
///
/// Fails where the command line has no subcommand, and where its
/// subcommand has no plan.
pub fn run_root(
    command: Option<&RootSubcommands>,
    environment: &Environment,
    logger: &mut ConsoleLogger,
) -> (outcome: Result<RootOutcome, CommandFailure>)
    ensures
        root_is(outcome, root_planning(command, environment@, old(logger).is_tty).outcome),
        final(logger)@ == old(logger)@.out(
            root_planning(command, environment@, old(logger).is_tty).output,
        ),
{
    proof {
        assert(logger@.stdout + Seq::<CommandModel>::empty() =~= logger@.stdout);
    }
    match command {
        Some(RootSubcommands::Csharp { command: Some(subcommand) }) => plan_of(
            subcommand.match_subcommand(environment, logger),
        ),
        Some(RootSubcommands::Rust { command: Some(subcommand) }) => plan_of(
            subcommand.match_subcommand(environment, logger),
        ),
        Some(RootSubcommands::Completions(completions)) => Ok(
            RootOutcome::Completions(completions.shell),
        ),
        _ => plan_of(
            report(
                Err(CliError::new("No subcommand provided.", CliErrorKind::NoSubcommandProvided)),
            ),
        ),
    }
}

} // verus!
