//! The commands for Rust projects.

pub mod add;
pub mod init;

use vstd::prelude::*;
use crate::logging::{CommandModel, ConsoleLogger};
use crate::plan::Plan;
use crate::subcommands::{
    report,
    silent_planning,
    CommandFailure,
    ConfiguratorSubcommand,
    Environment,
    EnvironmentModel,
    Planning,
};
use self::add::RustAddCommandArgs;
use self::init::RustInitCommandArgs;

verus! {

/// Subcommands for Rust projects.
#[derive(Debug)]
pub enum RustSubcommands {
    /// Initialize a new Rust project.
    Init(RustInitCommandArgs),
    /// Add a new package to a Rust project.
    Add(RustAddCommandArgs),
}

impl ConfiguratorSubcommand for RustSubcommands {
    open spec fn planning(&self, environment: EnvironmentModel, is_tty: bool) -> Planning {
        match self {
            RustSubcommands::Init(init_args) => silent_planning(init_args@.planned(environment)),
            RustSubcommands::Add(add_args) => silent_planning(add_args@.planned(environment)),
        }
    }

    fn match_subcommand(&self, environment: &Environment, logger: &mut ConsoleLogger) -> (planned:
        Result<Plan, CommandFailure>) {
        proof {
            assert(logger@.stdout + Seq::<CommandModel>::empty() =~= logger@.stdout);
        }
        match self {
            RustSubcommands::Init(init_args) => report(init_args.run_command(environment)),
            RustSubcommands::Add(add_args) => report(add_args.run_command(environment)),
        }
    }
}

} // verus!
