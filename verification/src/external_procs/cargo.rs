//! The package manager of Rust.

use vstd::prelude::*;
use crate::external_procs::{invocation_in, invoke_in, push_argument};
use crate::io::{join_path, joined};
use crate::lang_options::CargoPackageTemplateOption;
use crate::logging::OutputEmoji;
use crate::operation::{
    Action,
    ActionModel,
    Announcement,
    AnnouncementModel,
    Guard,
    Operation,
    OperationModel,
    Removal,
};
use crate::text::join3;

verus! {

/// The operation that initializes a package: under the overwrite policy on
/// the package's directory, which is removed with all that is in it before
/// it is made again, `cargo init` is run in the output directory for that
/// directory, with the flag of the template and the edition 2021.
pub open spec fn package_initialization(
    output_directory: Seq<char>,
    package_name: Seq<char>,
    package_template: CargoPackageTemplateOption,
    force: bool,
) -> OperationModel {
    OperationModel {
        announcement: AnnouncementModel::Operation {
            message: "Initializing package for '"@ + package_name + "'... "@,
            emoji: OutputEmoji::Package,
        },
        save_cursor: true,
        target: joined(output_directory, package_name),
        guard: Guard::Overwrite { force },
        removal: Removal::Directory,
        action: ActionModel::Run(
            invocation_in(
                "cargo"@,
                seq![
                    "init"@,
                    package_template.spec_cargo_flag(),
                    "--edition"@,
                    "2021"@,
                    joined(output_directory, package_name),
                ],
                output_directory,
            ),
        ),
    }
}

/// Initializes a new package with Cargo.
pub fn initalize_package(
    output_directory: &str,
    package_name: &str,
    package_template: CargoPackageTemplateOption,
    force: bool,
) -> (operation: Operation)
    ensures
        operation@ == package_initialization(
            output_directory@,
            package_name@,
            package_template,
            force,
        ),
{
    let package_output_directory = join_path(output_directory, package_name);
    let mut arguments: Vec<String> = Vec::new();
    push_argument(&mut arguments, "init");
    push_argument(&mut arguments, package_template.cargo_flag());
    push_argument(&mut arguments, "--edition");
    push_argument(&mut arguments, "2021");
    push_argument(&mut arguments, package_output_directory.as_str());
    assert(arguments.deep_view() =~= seq![
        "init"@,
        package_template.spec_cargo_flag(),
        "--edition"@,
        "2021"@,
        joined(output_directory@, package_name@),
    ]);
    Operation {
        announcement: Announcement::Operation {
            message: join3("Initializing package for '", package_name, "'... "),
            emoji: OutputEmoji::Package,
        },
        save_cursor: true,
        target: package_output_directory,
        guard: Guard::Overwrite { force },
        removal: Removal::Directory,
        action: Action::Run(invoke_in("cargo", arguments, output_directory)),
    }
}

} // verus!
