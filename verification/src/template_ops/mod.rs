//! The materialization of bundled templates.
//!
//! A template is a file that is bundled with the tool. It is copied into a
//! project as it is, or read as text and written with a token replaced.
//! Either way the overwrite policy decides whether a file that is already
//! there gives way.

pub mod csharp;
pub mod rust;
pub mod vscode;

use vstd::prelude::*;
use crate::io::{join_path, joined};
use crate::logging::OutputEmoji;
use crate::operation::{
    Action,
    ActionModel,
    Announcement,
    AnnouncementModel,
    Effect,
    EffectModel,
    Guard,
    Operation,
    OperationModel,
    Removal,
};
use crate::text::{join2, join3};

verus! {

/// The path of a bundled template, seen from the directory of the tool.
pub open spec fn template_path(relative_template_file_path: Seq<char>) -> Seq<char> {
    "templates/"@ + relative_template_file_path
}

/// A template file and the place it is copied to.
#[derive(Debug, PartialEq, Eq)]
pub struct TemplateFile {
    /// The path to the template file, seen from the directory of the tool.
    pub template_file_path: String,
    /// The path to output the file to.
    pub output_file_path: String,
    /// The name of the output file.
    pub output_file_name: String,
    /// Whether the output file exists.
    pub output_file_exists: bool,
}

/// What a `TemplateFile` holds.
pub struct TemplateFileModel {
    pub template_file_path: Seq<char>,
    pub output_file_path: Seq<char>,
    pub output_file_name: Seq<char>,
    pub output_file_exists: bool,
}

impl View for TemplateFile {
    type V = TemplateFileModel;

    open spec fn view(&self) -> TemplateFileModel {
        TemplateFileModel {
            template_file_path: self.template_file_path@,
            output_file_path: self.output_file_path@,
            output_file_name: self.output_file_name@,
            output_file_exists: self.output_file_exists,
        }
    }
}

impl TemplateFileModel {
    /// The effects that copy the template: a file that is in the way is
    /// removed first.
    pub open spec fn copying(self) -> Seq<EffectModel> {
        (if self.output_file_exists {
            seq![EffectModel::RemoveFile { path: self.output_file_path }]
        } else {
            Seq::empty()
        }) + seq![
            EffectModel::CopyTemplate {
                template: self.template_file_path,
                to: self.output_file_path,
            },
        ]
    }
}

impl TemplateFile {
    /// The template at `relative_template_file_path` among the bundled
    /// templates, to be copied into `output_directory_path` under the name
    /// `output_file_name`, where `output_file_exists` says whether a file of
    /// that name is there already.
    pub fn new(
        relative_template_file_path: &str,
        output_directory_path: &str,
        output_file_name: &str,
        output_file_exists: bool,
    ) -> (file: Self)
        ensures
            file@ == (TemplateFileModel {
                template_file_path: template_path(relative_template_file_path@),
                output_file_path: joined(output_directory_path@, output_file_name@),
                output_file_name: output_file_name@,
                output_file_exists,
            }),
    {
        TemplateFile {
            template_file_path: join2("templates/", relative_template_file_path),
            output_file_path: join_path(output_directory_path, output_file_name),
            output_file_name: output_file_name.to_owned(),
            output_file_exists,
        }
    }

    /// The effects that copy the template file to the output directory, in
    /// the order in which they are to be performed.
    pub fn copy_file(&self) -> (effects: Vec<Effect>)
        ensures
            effects.deep_view() == self@.copying(),
    {
        let mut effects: Vec<Effect> = Vec::new();
        if self.output_file_exists {
            effects.push(Effect::RemoveFile { path: self.output_file_path.clone() });
        }
        effects.push(
            Effect::CopyTemplate {
                template: self.template_file_path.clone(),
                to: self.output_file_path.clone(),
            },
        );
        assert(effects.deep_view() =~= self@.copying());
        effects
    }
}

/// The line that announces a materialization.
pub open spec fn copying_message(output_file_name: Seq<char>, place: Seq<char>) -> Seq<char> {
    "Copying '"@ + output_file_name + "' to "@ + place + "..."@
}

/// The operation that copies a template as it is.
pub open spec fn template_copy(
    relative_template_file_path: Seq<char>,
    output_directory_path: Seq<char>,
    output_file_name: Seq<char>,
    place: Seq<char>,
    force: bool,
) -> OperationModel {
    OperationModel {
        announcement: AnnouncementModel::Operation {
            message: copying_message(output_file_name, place),
            emoji: OutputEmoji::Document,
        },
        save_cursor: false,
        target: joined(output_directory_path, output_file_name),
        guard: Guard::Overwrite { force },
        removal: Removal::File,
        action: ActionModel::CopyTemplate { template: template_path(relative_template_file_path) },
    }
}

/// The operation that writes a template with a token replaced.
pub open spec fn template_render(
    relative_template_file_path: Seq<char>,
    output_directory_path: Seq<char>,
    output_file_name: Seq<char>,
    place: Seq<char>,
    token: Seq<char>,
    value: Seq<char>,
    force: bool,
) -> OperationModel {
    OperationModel {
        announcement: AnnouncementModel::Operation {
            message: copying_message(output_file_name, place),
            emoji: OutputEmoji::Document,
        },
        save_cursor: false,
        target: joined(output_directory_path, output_file_name),
        guard: Guard::Overwrite { force },
        removal: Removal::File,
        action: ActionModel::RenderTemplate {
            template: template_path(relative_template_file_path),
            token,
            value,
        },
    }
}

/// The operation that makes a directory of a project if it is not there.
pub open spec fn directory_creation(
    output_directory: Seq<char>,
    name: Seq<char>,
) -> OperationModel {
    OperationModel {
        announcement: AnnouncementModel::Operation {
            message: "Creating '"@ + name + "' directory..."@,
            emoji: OutputEmoji::Folder,
        },
        save_cursor: false,
        target: joined(output_directory, name),
        guard: Guard::IfAbsent,
        removal: Removal::File,
        action: ActionModel::CreateDirectory,
    }
}

fn copying_line(output_file_name: &str, place: &str) -> (line: String)
    ensures
        line@ == copying_message(output_file_name@, place@),
{
    let head = join3("Copying '", output_file_name, "' to ");
    join3(head.as_str(), place, "...")
}

/// Builds the operation that copies a template as it is.
pub fn copy_template(
    relative_template_file_path: &str,
    output_directory_path: &str,
    output_file_name: &str,
    place: &str,
    force: bool,
) -> (operation: Operation)
    ensures
        operation@ == template_copy(
            relative_template_file_path@,
            output_directory_path@,
            output_file_name@,
            place@,
            force,
        ),
{
    let file = TemplateFile::new(
        relative_template_file_path,
        output_directory_path,
        output_file_name,
        false,
    );
    Operation {
        announcement: Announcement::Operation {
            message: copying_line(output_file_name, place),
            emoji: OutputEmoji::Document,
        },
        save_cursor: false,
        target: file.output_file_path,
        guard: Guard::Overwrite { force },
        removal: Removal::File,
        action: Action::CopyTemplate { template: file.template_file_path },
    }
}

/// Builds the operation that writes a template with a token replaced.
pub fn render_template(
    relative_template_file_path: &str,
    output_directory_path: &str,
    output_file_name: &str,
    place: &str,
    token: &str,
    value: &str,
    force: bool,
) -> (operation: Operation)
    ensures
        operation@ == template_render(
            relative_template_file_path@,
            output_directory_path@,
            output_file_name@,
            place@,
            token@,
            value@,
            force,
        ),
{
    let file = TemplateFile::new(
        relative_template_file_path,
        output_directory_path,
        output_file_name,
        false,
    );
    Operation {
        announcement: Announcement::Operation {
            message: copying_line(output_file_name, place),
            emoji: OutputEmoji::Document,
        },
        save_cursor: false,
        target: file.output_file_path,
        guard: Guard::Overwrite { force },
        removal: Removal::File,
        action: Action::RenderTemplate {
            template: file.template_file_path,
            token: token.to_owned(),
            value: value.to_owned(),
        },
    }
}

/// Builds the operation that makes a directory of a project if it is not
/// there.
pub fn create_directory(output_directory: &str, name: &str) -> (operation: Operation)
    ensures
        operation@ == directory_creation(output_directory@, name@),
{
    Operation {
        announcement: Announcement::Operation {
            message: join3("Creating '", name, "' directory..."),
            emoji: OutputEmoji::Folder,
        },
        save_cursor: false,
        target: join_path(output_directory, name),
        guard: Guard::IfAbsent,
        removal: Removal::File,
        action: Action::CreateDirectory,
    }
}

/// The operations that copy a template or write one with a token replaced
/// are materializations: the overwrite policy holds of them.
pub proof fn lemma_template_operations_materialize(
    relative_template_file_path: Seq<char>,
    output_directory_path: Seq<char>,
    output_file_name: Seq<char>,
    place: Seq<char>,
    token: Seq<char>,
    value: Seq<char>,
    force: bool,
)
    ensures
        template_copy(
            relative_template_file_path,
            output_directory_path,
            output_file_name,
            place,
            force,
        ).is_materialization(),
        template_render(
            relative_template_file_path,
            output_directory_path,
            output_file_name,
            place,
            token,
            value,
            force,
        ).is_materialization(),
{
}

/// One operation after another.
pub fn pair(first: Operation, second: Operation) -> (operations: Vec<Operation>)
    ensures
        operations.deep_view() == seq![first@, second@],
{
    let mut operations: Vec<Operation> = Vec::new();
    operations.push(first);
    operations.push(second);
    assert(operations.deep_view() =~= seq![first@, second@]);
    operations
}

} // verus!
