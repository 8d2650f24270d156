//! The version control system.

use vstd::prelude::*;
use crate::external_procs::{invocation_in, invoke_in, push_argument};
use crate::logging::OutputEmoji;
use crate::operation::{
    Action,
    ActionModel,
    Announcement,
    AnnouncementModel,
    Guard,
    Operation,
    OperationModel,
    Removal,
};

verus! {

/// The operation that makes the output directory a Git repository.
pub open spec fn git_initialization(output_directory: Seq<char>) -> OperationModel {
    OperationModel {
        announcement: AnnouncementModel::Operation {
            message: "Initializing Git repository..."@,
            emoji: OutputEmoji::Package,
        },
        save_cursor: false,
        target: output_directory,
        guard: Guard::Always,
        removal: Removal::File,
        action: ActionModel::Run(invocation_in("git"@, seq!["init"@], output_directory)),
    }
}

/// Initializes a Git repository in the output directory: runs `git init`
/// there.
pub fn initialize_git_repo(output_directory: &str) -> (operation: Operation)
    ensures
        operation@ == git_initialization(output_directory@),
{
    let mut arguments: Vec<String> = Vec::new();
    push_argument(&mut arguments, "init");
    assert(arguments.deep_view() =~= seq!["init"@]);
    Operation {
        announcement: Announcement::Operation {
            message: "Initializing Git repository...".to_owned(),
            emoji: OutputEmoji::Package,
        },
        save_cursor: false,
        target: output_directory.to_owned(),
        guard: Guard::Always,
        removal: Removal::File,
        action: Action::Run(invoke_in("git", arguments, output_directory)),
    }
}

} // verus!
