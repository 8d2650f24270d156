//! The commands for C# projects.

pub mod add;
pub mod init;

use vstd::prelude::*;
use crate::logging::{CommandModel, ConsoleLogger};
use crate::plan::Plan;
use crate::subcommands::{
    report,
    silent_planning,
    CommandFailure,
    ConfiguratorSubcommand,
    Environment,
    EnvironmentModel,
    Planning,
};
use self::add::AddCommandArgs;
use self::init::InitCommandArgs;

verus! {

/// Subcommands for C# projects.
#[derive(Debug)]
pub enum CsharpSubcommands {
    /// Initialize a new C# project.
    Init(InitCommandArgs),
    /// Add a new project to a C# solution.
    Add(AddCommandArgs),
}

impl ConfiguratorSubcommand for CsharpSubcommands {
    open spec fn planning(&self, environment: EnvironmentModel, is_tty: bool) -> Planning {
        match self {
            CsharpSubcommands::Init(init_args) => silent_planning(init_args@.planned(environment)),
            CsharpSubcommands::Add(add_args) => add_args@.planning(environment, is_tty),
        }
    }

    fn match_subcommand(&self, environment: &Environment, logger: &mut ConsoleLogger) -> (planned:
        Result<Plan, CommandFailure>) {
        proof {
            assert(logger@.stdout + Seq::<CommandModel>::empty() =~= logger@.stdout);
        }
        match self {
            CsharpSubcommands::Init(init_args) => report(init_args.run_command(environment)),
            CsharpSubcommands::Add(add_args) => add_args.run_command(environment, logger),
        }
    }
}

} // verus!
