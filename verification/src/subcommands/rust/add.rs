//! The command that adds a package to a Rust project.

use vstd::prelude::*;
use crate::error::{CliError, CliErrorKind, CliErrorModel};
use crate::io::{absolute_form, unsupported_operating_system, OutputDirectory};
use crate::plan::{Plan, PlanStepModel};
use crate::subcommands::{
    plan_is,
    resolve_directory,
    resolved_directory,
    Environment,
    EnvironmentModel,
};
use crate::vscode_ops::rust::{add_package_to_tasks, package_registration};

verus! {

/// The arguments of the `rust add` command, and the logic to run the
/// command.
#[derive(Debug)]
pub struct RustAddCommandArgs {
    /// The output directory for the project.
    pub output_directory: OutputDirectory,
    /// The name of the package.
    pub package_name: String,
    /// The friendly name of the package.
    pub package_friendly_name: Option<String>,
}

/// What a `RustAddCommandArgs` holds.
pub struct RustAddCommandModel {
    pub output_directory: Seq<char>,
    pub package_name: Seq<char>,
    pub package_friendly_name: Option<Seq<char>>,
}

impl View for RustAddCommandArgs {
    type V = RustAddCommandModel;

    open spec fn view(&self) -> RustAddCommandModel {
        RustAddCommandModel {
            output_directory: self.output_directory@,
            package_name: self.package_name@,
            package_friendly_name: self.package_friendly_name.deep_view(),
        }
    }
}

/// The error of a project directory that does not exist.
pub open spec fn output_directory_missing() -> CliErrorModel {
    CliErrorModel {
        message: "The specified output directory does not exist."@,
        kind: CliErrorKind::OutputDirectoryDoesNotExist,
    }
}

impl RustAddCommandModel {
    /// The name under which the package is offered: its friendly name, or
    /// its name where it has none.
    pub open spec fn friendly_name(self) -> Seq<char> {
        match self.package_friendly_name {
            Some(name) => name,
            None => self.package_name,
        }
    }

    /// The steps of the command for the resolved output directory
    /// `directory`, whose absolute form is `root`: the directory must
    /// exist; then the package is registered in the tasks document.
    pub open spec fn steps(self, directory: Seq<char>, root: Seq<char>) -> Seq<PlanStepModel> {
        seq![
            PlanStepModel::Require { path: directory, error: output_directory_missing() },
            PlanStepModel::Category("Add package"@),
            PlanStepModel::Perform(
                package_registration(root, self.package_name, self.friendly_name()),
            ),
        ]
    }

    /// The plan of the command in an environment, or the error where the
    /// output directory cannot be resolved.
    pub open spec fn planned(self, environment: EnvironmentModel) -> Result<
        Seq<PlanStepModel>,
        CliErrorModel,
    > {
        match resolved_directory(self.output_directory, environment.home) {
            Some(directory) => Ok(
                self.steps(directory, absolute_form(directory, environment.current_dir)),
            ),
            None => Err(unsupported_operating_system()),
        }
    }
}

impl RustAddCommandArgs {
    /// Runs the `rust add` command: yields its plan.
    ///
    /// Fails where the output directory begins with `~` and no home
    /// directory is known.
    pub fn run_command(&self, environment: &Environment) -> (planned: Result<Plan, CliError>)
        ensures
            plan_is(planned, self@.planned(environment@)),
    {
        let output_directory = match resolve_directory(&self.output_directory, environment) {
            Ok(directory) => directory,
            Err(error) => {
                return Err(error);
            },
        };
        let output_directory_absolute = output_directory.to_absolute(
            environment.current_dir.as_str(),
        );
        let package_friendly_name = match &self.package_friendly_name {
            Some(name) => name.as_str(),
            None => self.package_name.as_str(),
        };
        let mut plan = Plan::new();
        plan.require(
            output_directory.path.as_str(),
            CliError::new(
                "The specified output directory does not exist.",
                CliErrorKind::OutputDirectoryDoesNotExist,
            ),
        );
        plan.category("Add package");
        plan.perform(
            add_package_to_tasks(
                output_directory_absolute.as_str(),
                self.package_name.as_str(),
                package_friendly_name,
            ),
        );
        assert(plan@ =~= self@.steps(output_directory@, output_directory_absolute@));
        Ok(plan)
    }
}

} // verus!
