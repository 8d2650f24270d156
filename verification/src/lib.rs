//! Scaffolding of editor-ready project skeletons for C# and Rust, as a
//! verified functional core.
//!
//! The library decides and never acts. A command yields a plan; a plan is
//! gone through move by move; each move says what is to be written to the
//! console and names one effect for the caller to perform: probe a path,
//! ask the user, remove, copy, read, write, run a program. The caller
//! performs the effect and comes back with the reply.
//!
//! - `text`: literal token substitution and trimming on strings.
//! - `io`: paths and the output directory of a command.
//! - `error`: the errors of the tool and how a failure is described.
//! - `logging`, `console_utils`: the console as a recorder of terminal
//!   commands, and the overwrite prompt.
//! - `json`, `vscode_ops`: JSON documents and the changes made to the
//!   editor's settings and tasks.
//! - `operation`, `plan`: the machines.
//! - `world`: a model of the files, and what the overwrite policy
//!   guarantees of them.
//! - `template_ops`, `external_procs`: the operations of the commands.
//! - `lang_options`, `subcommands`: the commands and their arguments.

pub mod console_utils;
pub mod error;
pub mod external_procs;
pub mod io;
pub mod json;
pub mod lang_options;
pub mod logging;
pub mod operation;
pub mod plan;
pub mod subcommands;
pub mod template_ops;
pub mod text;
pub mod vscode_ops;
pub mod world;
