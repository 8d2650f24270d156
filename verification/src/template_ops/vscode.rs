//! The editor's directory in a project.

use vstd::prelude::*;
use crate::operation::Operation;
use crate::template_ops::{create_directory, directory_creation};

verus! {

/// Creates the `.vscode` directory in the project root if it does not
/// exist.
pub fn ensure_vscode_dir_exists(output_directory: &str) -> (operation: Operation)
    ensures
        operation@ == directory_creation(output_directory@, ".vscode"@),
{
    create_directory(output_directory, ".vscode")
}

} // verus!
