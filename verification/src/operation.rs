//! One operation of a command, as a machine that decides and never acts.
//!
//! An operation produces or changes one file or directory: it copies or
//! fills in a template, runs a program, makes a directory, or changes a JSON
//! document. Whether it may do so is a matter of its guard; the most common
//! one is the overwrite policy: a target that exists is replaced only if the
//! command was forced or the user agrees.
//!
//! The machine is driven from outside. `Operation::advance` takes the stage
//! the operation is at and the reply to the effect it asked for last, writes
//! what there is to say to the logger, and returns the next stage and the
//! next effect. The driver performs the effect and comes back with the
//! reply, until the effect is `Finished`.

use vstd::prelude::*;
use crate::logging::{
    leveled,
    operation_message,
    success_message,
    Color,
    CommandModel,
    ConsoleLogger,
    OutputEmoji,
};
use crate::text::{replaced, substitute};
use crate::vscode_ops::{JsonPatch, JsonPatchModel, PatchError, PatchErrorModel};

verus! {

/// A program to run.
#[derive(Debug, PartialEq, Eq)]
pub struct Invocation {
    /// The program's name.
    pub program: String,
    /// The arguments, in order.
    pub arguments: Vec<String>,
    /// The directory to run the program in; None for the current one.
    pub directory: Option<String>,
}

/// What an `Invocation` holds.
pub struct InvocationModel {
    pub program: Seq<char>,
    pub arguments: Seq<Seq<char>>,
    pub directory: Option<Seq<char>>,
}

impl View for Invocation {
    type V = InvocationModel;

    open spec fn view(&self) -> InvocationModel {
        InvocationModel {
            program: self.program@,
            arguments: self.arguments.deep_view(),
            directory: self.directory.deep_view(),
        }
    }
}

/// What an operation does once it may.
#[derive(Debug, PartialEq, Eq)]
pub enum Action {
    /// Copy a bundled template to the target, byte for byte.
    CopyTemplate { template: String },
    /// Write to the target the text of a bundled template, with each
    /// occurrence of `token` replaced by `value`.
    RenderTemplate { template: String, token: String, value: String },
    /// Run a program.
    Run(Invocation),
    /// Make the target directory.
    CreateDirectory,
    /// Change the JSON document that the target holds.
    Patch(JsonPatch),
}

/// What an `Action` holds.
pub enum ActionModel {
    CopyTemplate { template: Seq<char> },
    RenderTemplate { template: Seq<char>, token: Seq<char>, value: Seq<char> },
    Run(InvocationModel),
    CreateDirectory,
    Patch(JsonPatchModel),
}

impl View for Action {
    type V = ActionModel;

    open spec fn view(&self) -> ActionModel {
        match self {
            Action::CopyTemplate { template } => ActionModel::CopyTemplate { template: template@ },
            Action::RenderTemplate { template, token, value } => ActionModel::RenderTemplate {
                template: template@,
                token: token@,
                value: value@,
            },
            Action::Run(invocation) => ActionModel::Run(invocation@),
            Action::CreateDirectory => ActionModel::CreateDirectory,
            Action::Patch(patch) => ActionModel::Patch(patch@),
        }
    }
}

/// When an operation may act.
#[derive(Debug, Copy, Clone, PartialEq, Eq, Structural)]
pub enum Guard {
    /// Always.
    Always,
    /// Only if the target does not exist; otherwise nothing is done and
    /// nothing is said.
    IfAbsent,
    /// The overwrite policy: a target that does not exist is made; one that
    /// exists is removed and made again if `force` is set or the user
    /// agrees, and left as it is if the user declines.
    Overwrite { force: bool },
}

/// How a target that is overwritten is removed.
#[derive(Debug, Copy, Clone, PartialEq, Eq, Structural)]
pub enum Removal {
    /// As a file.
    File,
    /// As a directory, with all that is in it.
    Directory,
}

/// How an operation is announced.
#[derive(Debug, PartialEq, Eq)]
pub enum Announcement {
    /// Not at all, and its success is not reported either.
    Silent,
    /// As an operation line with an emoji.
    Operation { message: String, emoji: OutputEmoji },
    /// As a plain informational message.
    Info { message: String },
}

/// What an `Announcement` holds.
pub enum AnnouncementModel {
    Silent,
    Operation { message: Seq<char>, emoji: OutputEmoji },
    Info { message: Seq<char> },
}

impl View for Announcement {
    type V = AnnouncementModel;

    open spec fn view(&self) -> AnnouncementModel {
        match self {
            Announcement::Silent => AnnouncementModel::Silent,
            Announcement::Operation { message, emoji } => AnnouncementModel::Operation {
                message: message@,
                emoji: *emoji,
            },
            Announcement::Info { message } => AnnouncementModel::Info { message: message@ },
        }
    }
}

/// One operation of a command.
#[derive(Debug, PartialEq, Eq)]
pub struct Operation {
    /// How the operation is announced.
    pub announcement: Announcement,
    /// Whether the cursor position is saved behind the announcement.
    pub save_cursor: bool,
    /// The file or directory that the operation produces or changes.
    pub target: String,
    /// When the operation may act.
    pub guard: Guard,
    /// How the target is removed before it is overwritten.
    pub removal: Removal,
    /// What the operation does once it may.
    pub action: Action,
}

/// What an `Operation` holds.
pub struct OperationModel {
    pub announcement: AnnouncementModel,
    pub save_cursor: bool,
    pub target: Seq<char>,
    pub guard: Guard,
    pub removal: Removal,
    pub action: ActionModel,
}

impl View for Operation {
    type V = OperationModel;

    open spec fn view(&self) -> OperationModel {
        OperationModel {
            announcement: self.announcement@,
            save_cursor: self.save_cursor,
            target: self.target@,
            guard: self.guard,
            removal: self.removal,
            action: self.action@,
        }
    }
}

impl DeepView for Operation {
    type V = OperationModel;

    open spec fn deep_view(&self) -> OperationModel {
        self.view()
    }
}

/// What the driver is asked to do.
#[derive(Debug, PartialEq, Eq)]
pub enum Effect {
    /// Say whether the path exists. Reply: `Exists`.
    Probe { path: String },
    /// Ask the user whether to overwrite. Reply: `Answer`.
    AskOverwrite,
    /// Remove the file. Reply: `Done`.
    RemoveFile { path: String },
    /// Remove the directory and all that is in it. Reply: `Done`.
    RemoveDirectory { path: String },
    /// Make the directory. Reply: `Done`.
    CreateDirectory { path: String },
    /// Copy the bundled template to the path, byte for byte. Reply: `Done`.
    CopyTemplate { template: String, to: String },
    /// Read the bundled template as text. Reply: `Content`.
    ReadTemplate { template: String },
    /// Read the file as text. Reply: `Content`.
    ReadFile { path: String },
    /// Write the text to the file as its whole content. Reply: `Done`.
    WriteFile { path: String, content: String },
    /// Run the program and wait for it. Reply: `Done`.
    Run(Invocation),
    /// Nothing: the operation is over.
    Finished,
}

/// What an `Effect` holds.
pub enum EffectModel {
    Probe { path: Seq<char> },
    AskOverwrite,
    RemoveFile { path: Seq<char> },
    RemoveDirectory { path: Seq<char> },
    CreateDirectory { path: Seq<char> },
    CopyTemplate { template: Seq<char>, to: Seq<char> },
    ReadTemplate { template: Seq<char> },
    ReadFile { path: Seq<char> },
    WriteFile { path: Seq<char>, content: Seq<char> },
    Run(InvocationModel),
    Finished,
}

impl View for Effect {
    type V = EffectModel;

    open spec fn view(&self) -> EffectModel {
        match self {
            Effect::Probe { path } => EffectModel::Probe { path: path@ },
            Effect::AskOverwrite => EffectModel::AskOverwrite,
            Effect::RemoveFile { path } => EffectModel::RemoveFile { path: path@ },
            Effect::RemoveDirectory { path } => EffectModel::RemoveDirectory { path: path@ },
            Effect::CreateDirectory { path } => EffectModel::CreateDirectory { path: path@ },
            Effect::CopyTemplate { template, to } => EffectModel::CopyTemplate {
                template: template@,
                to: to@,
            },
            Effect::ReadTemplate { template } => EffectModel::ReadTemplate { template: template@ },
            Effect::ReadFile { path } => EffectModel::ReadFile { path: path@ },
            Effect::WriteFile { path, content } => EffectModel::WriteFile {
                path: path@,
                content: content@,
            },
            Effect::Run(invocation) => EffectModel::Run(invocation@),
            Effect::Finished => EffectModel::Finished,
        }
    }
}

impl DeepView for Effect {
    type V = EffectModel;

    open spec fn deep_view(&self) -> EffectModel {
        self.view()
    }
}

/// What the driver comes back with.
#[derive(Debug, PartialEq, Eq)]
pub enum Reply {
    /// Nothing yet: the operation is to begin.
    Begin,
    /// Whether the probed path exists.
    Exists(bool),
    /// Whether the user agreed to overwrite.
    Answer(bool),
    /// The text that was read.
    Content(String),
    /// The effect was performed.
    Done,
}

/// What a `Reply` holds.
pub enum ReplyModel {
    Begin,
    Exists(bool),
    Answer(bool),
    Content(Seq<char>),
    Done,
}

impl View for Reply {
    type V = ReplyModel;

    open spec fn view(&self) -> ReplyModel {
        match self {
            Reply::Begin => ReplyModel::Begin,
            Reply::Exists(exists) => ReplyModel::Exists(*exists),
            Reply::Answer(agreed) => ReplyModel::Answer(*agreed),
            Reply::Content(text) => ReplyModel::Content(text@),
            Reply::Done => ReplyModel::Done,
        }
    }
}

/// How an operation ended.
#[derive(Debug, PartialEq, Eq)]
pub enum Outcome {
    /// The operation did what it was for.
    Completed,
    /// The operation left the target as it was: the user declined to
    /// overwrite it, or it was there already and that was enough.
    Skipped,
    /// The JSON document could not be changed; nothing was written.
    Failed(PatchError),
    /// The driver came back with a reply that answers no effect of the stage
    /// the operation was at.
    Confused,
}

/// What an `Outcome` holds.
pub enum OutcomeModel {
    Completed,
    Skipped,
    Failed(PatchErrorModel),
    Confused,
}

impl View for Outcome {
    type V = OutcomeModel;

    open spec fn view(&self) -> OutcomeModel {
        match self {
            Outcome::Completed => OutcomeModel::Completed,
            Outcome::Skipped => OutcomeModel::Skipped,
            Outcome::Failed(error) => OutcomeModel::Failed(error@),
            Outcome::Confused => OutcomeModel::Confused,
        }
    }
}

/// Where an operation stands.
#[derive(Debug, PartialEq, Eq)]
pub enum Stage {
    /// Not begun.
    Start,
    /// Waiting to hear whether the target exists.
    Probing,
    /// Waiting for the user's answer.
    Asking,
    /// Waiting for the target to be removed.
    Removing,
    /// Waiting for the text of the template or document.
    Reading,
    /// Waiting for the work to be done.
    Working,
    /// Over.
    Finished(Outcome),
}

/// What a `Stage` holds.
pub enum StageModel {
    Start,
    Probing,
    Asking,
    Removing,
    Reading,
    Working,
    Finished(OutcomeModel),
}

impl View for Stage {
    type V = StageModel;

    open spec fn view(&self) -> StageModel {
        match self {
            Stage::Start => StageModel::Start,
            Stage::Probing => StageModel::Probing,
            Stage::Asking => StageModel::Asking,
            Stage::Removing => StageModel::Removing,
            Stage::Reading => StageModel::Reading,
            Stage::Working => StageModel::Working,
            Stage::Finished(outcome) => StageModel::Finished(outcome@),
        }
    }
}

/// One step of an operation: where it stands then, what it asks for, and
/// what it says.
pub struct Step {
    pub stage: StageModel,
    pub effect: EffectModel,
    pub output: Seq<CommandModel>,
}

/// The words said of a target that is left as it is.
pub open spec fn already_exists_message() -> Seq<char> {
    "Already exists 🟠\n"@
}

impl OperationModel {
    /// What is said when the operation is announced.
    pub open spec fn announced(self, is_tty: bool) -> Seq<CommandModel> {
        (match self.announcement {
            AnnouncementModel::Silent => Seq::empty(),
            AnnouncementModel::Operation { message, emoji } => leveled(
                is_tty,
                Color::Cyan,
                "[Info] - "@,
                operation_message(is_tty, message, emoji),
            ),
            AnnouncementModel::Info { message } => leveled(
                is_tty,
                Color::Cyan,
                "[Info] - "@,
                message,
            ),
        }) + (if self.save_cursor {
            seq![CommandModel::SavePosition]
        } else {
            Seq::empty()
        })
    }

    /// What is said when the operation has done its work.
    pub open spec fn concluded(self, is_tty: bool) -> Seq<CommandModel> {
        if self.announcement is Silent {
            Seq::empty()
        } else {
            leveled(is_tty, Color::Green, ""@, success_message(is_tty))
        }
    }

    /// What is said when the user declines to overwrite the target.
    pub open spec fn declined(is_tty: bool) -> Seq<CommandModel> {
        leveled(is_tty, Color::Yellow, "[Warning] - "@, already_exists_message())
    }

    /// The effect that removes the target.
    pub open spec fn removing(self) -> EffectModel {
        match self.removal {
            Removal::File => EffectModel::RemoveFile { path: self.target },
            Removal::Directory => EffectModel::RemoveDirectory { path: self.target },
        }
    }

    /// The step that begins the work, having said `output`.
    pub open spec fn working(self, output: Seq<CommandModel>) -> Step {
        match self.action {
            ActionModel::CopyTemplate { template } => Step {
                stage: StageModel::Working,
                effect: EffectModel::CopyTemplate { template, to: self.target },
                output,
            },
            ActionModel::RenderTemplate { template, .. } => Step {
                stage: StageModel::Reading,
                effect: EffectModel::ReadTemplate { template },
                output,
            },
            ActionModel::Run(invocation) => Step {
                stage: StageModel::Working,
                effect: EffectModel::Run(invocation),
                output,
            },
            ActionModel::CreateDirectory => Step {
                stage: StageModel::Working,
                effect: EffectModel::CreateDirectory { path: self.target },
                output,
            },
            ActionModel::Patch(_) => Step {
                stage: StageModel::Reading,
                effect: EffectModel::ReadFile { path: self.target },
                output,
            },
        }
    }

    /// The step that ends the operation with `outcome`, having said
    /// `output`.
    pub open spec fn ending(outcome: OutcomeModel, output: Seq<CommandModel>) -> Step {
        Step { stage: StageModel::Finished(outcome), effect: EffectModel::Finished, output }
    }

    /// The step taken at `stage` on `reply`.
    ///
    /// An operation begins by announcing itself, except that one which acts
    /// only if its target is absent waits to see that it is. It then finds
    /// out whether the target exists, unless it acts always. Under the
    /// overwrite policy a target that exists is removed first, after the
    /// user agreed unless the operation is forced; if the user declines the
    /// operation says so and ends. The work itself is one effect, or a read
    /// followed by a write. A change to a JSON document that fails ends the
    /// operation before anything is written. A reply that answers no effect
    /// of the stage ends the operation as confused, and an operation that is
    /// over stays so.
    pub open spec fn step(self, stage: StageModel, reply: ReplyModel, is_tty: bool) -> Step {
        match stage {
            StageModel::Start => match reply {
                ReplyModel::Begin => match self.guard {
                    Guard::Always => self.working(self.announced(is_tty)),
                    Guard::IfAbsent => Step {
                        stage: StageModel::Probing,
                        effect: EffectModel::Probe { path: self.target },
                        output: Seq::empty(),
                    },
                    Guard::Overwrite { .. } => Step {
                        stage: StageModel::Probing,
                        effect: EffectModel::Probe { path: self.target },
                        output: self.announced(is_tty),
                    },
                },
                _ => Self::ending(OutcomeModel::Confused, Seq::empty()),
            },
            StageModel::Probing => match reply {
                ReplyModel::Exists(exists) => match self.guard {
                    Guard::Always => Self::ending(OutcomeModel::Confused, Seq::empty()),
                    Guard::IfAbsent => if exists {
                        Self::ending(OutcomeModel::Skipped, Seq::empty())
                    } else {
                        self.working(self.announced(is_tty))
                    },
                    Guard::Overwrite { force } => if !exists {
                        self.working(Seq::empty())
                    } else if force {
                        Step {
                            stage: StageModel::Removing,
                            effect: self.removing(),
                            output: Seq::empty(),
                        }
                    } else {
                        Step {
                            stage: StageModel::Asking,
                            effect: EffectModel::AskOverwrite,
                            output: Seq::empty(),
                        }
                    },
                },
                _ => Self::ending(OutcomeModel::Confused, Seq::empty()),
            },
            StageModel::Asking => match reply {
                ReplyModel::Answer(agreed) => if agreed {
                    Step {
                        stage: StageModel::Removing,
                        effect: self.removing(),
                        output: Seq::empty(),
                    }
                } else {
                    Self::ending(OutcomeModel::Skipped, Self::declined(is_tty))
                },
                _ => Self::ending(OutcomeModel::Confused, Seq::empty()),
            },
            StageModel::Removing => match reply {
                ReplyModel::Done => self.working(Seq::empty()),
                _ => Self::ending(OutcomeModel::Confused, Seq::empty()),
            },
            StageModel::Reading => match reply {
                ReplyModel::Content(text) => match self.action {
                    ActionModel::RenderTemplate { token, value, .. } => Step {
                        stage: StageModel::Working,
                        effect: EffectModel::WriteFile {
                            path: self.target,
                            content: replaced(text, token, value),
                        },
                        output: Seq::empty(),
                    },
                    ActionModel::Patch(patch) => match patch.applied(text) {
                        Ok(content) => Step {
                            stage: StageModel::Working,
                            effect: EffectModel::WriteFile { path: self.target, content },
                            output: Seq::empty(),
                        },
                        Err(error) => Self::ending(OutcomeModel::Failed(error), Seq::empty()),
                    },
                    _ => Self::ending(OutcomeModel::Confused, Seq::empty()),
                },
                _ => Self::ending(OutcomeModel::Confused, Seq::empty()),
            },
            StageModel::Working => match reply {
                ReplyModel::Done => Self::ending(OutcomeModel::Completed, self.concluded(is_tty)),
                _ => Self::ending(OutcomeModel::Confused, Seq::empty()),
            },
            StageModel::Finished(outcome) => Self::ending(outcome, Seq::empty()),
        }
    }
}

/// A copy of the strings.
pub fn clone_strings(strings: &Vec<String>) -> (copy: Vec<String>)
    ensures
        copy.deep_view() == strings.deep_view(),
{
    let mut copy: Vec<String> = Vec::new();
    let mut i: usize = 0;
    while i < strings.len()
        invariant
            i <= strings.len(),
            copy@.len() == i,
            forall|j: int| 0 <= j < i ==> copy@[j]@ == strings@[j]@,
        decreases strings.len() - i,
    {
        copy.push(strings[i].clone());
        i += 1;
    }
    assert(copy.deep_view() =~= strings.deep_view());
    copy
}

impl Invocation {
    /// A copy of the invocation.
    pub fn duplicate(&self) -> (copy: Invocation)
        ensures
            copy@ == self@,
    {
        let directory = match &self.directory {
            Some(path) => Some(path.clone()),
            None => None,
        };
        Invocation {
            program: self.program.clone(),
            arguments: clone_strings(&self.arguments),
            directory,
        }
    }
}

impl Operation {
    /// Says what is said when the operation is announced.
    fn announce(&self, logger: &mut ConsoleLogger)
        ensures
            final(logger)@ == old(logger)@.out(self@.announced(old(logger).is_tty)),
    {
        match &self.announcement {
            Announcement::Silent => {},
            Announcement::Operation { message, emoji } => {
                logger.write_operation_log(message.as_str(), *emoji);
            },
            Announcement::Info { message } => {
                logger.write_info(message.clone());
            },
        }
        if self.save_cursor {
            logger.save_cursor_position();
        }
        assert(logger@.stdout =~= old(logger)@.stdout + self@.announced(old(logger).is_tty));
    }

    /// Says what is said when the operation has done its work.
    fn conclude(&self, logger: &mut ConsoleLogger)
        ensures
            final(logger)@ == old(logger)@.out(self@.concluded(old(logger).is_tty)),
    {
        match &self.announcement {
            Announcement::Silent => {
                assert(logger@.stdout =~= old(logger)@.stdout + Seq::empty());
            },
            _ => {
                logger.write_operation_success_log();
            },
        }
    }

    /// The effect that removes the target.
    fn removing(&self) -> (effect: Effect)
        ensures
            effect@ == self@.removing(),
    {
        match self.removal {
            Removal::File => Effect::RemoveFile { path: self.target.clone() },
            Removal::Directory => Effect::RemoveDirectory { path: self.target.clone() },
        }
    }

    /// The stage and effect that begin the work.
    fn working(&self) -> (next: (Stage, Effect))
        ensures
            next.0@ == self@.working(Seq::empty()).stage,
            next.1@ == self@.working(Seq::empty()).effect,
    {
        match &self.action {
            Action::CopyTemplate { template } => (
                Stage::Working,
                Effect::CopyTemplate { template: template.clone(), to: self.target.clone() },
            ),
            Action::RenderTemplate { template, .. } => (
                Stage::Reading,
                Effect::ReadTemplate { template: template.clone() },
            ),
            Action::Run(invocation) => (Stage::Working, Effect::Run(invocation.duplicate())),
            Action::CreateDirectory => (
                Stage::Working,
                Effect::CreateDirectory { path: self.target.clone() },
            ),
            Action::Patch(_) => (Stage::Reading, Effect::ReadFile { path: self.target.clone() }),
        }
    }

    /// Takes one step: given the stage the operation is at and the reply to
    /// the effect it asked for last, says what there is to say and returns
    /// the next stage and the next effect. The first step is taken at
    /// `Stage::Start` with `Reply::Begin`; the operation is over when the
    /// effect is `Effect::Finished`, and the stage then holds the outcome.
    pub fn advance(&self, stage: Stage, reply: Reply, logger: &mut ConsoleLogger) -> (next: (
        Stage,
        Effect,
    ))
        ensures
            next.0@ == self@.step(stage@, reply@, old(logger).is_tty).stage,
            next.1@ == self@.step(stage@, reply@, old(logger).is_tty).effect,
            final(logger)@ == old(logger)@.out(
                self@.step(stage@, reply@, old(logger).is_tty).output,
            ),
    {
        let ghost before = logger@;
        proof {
            assert(before.stdout + Seq::<CommandModel>::empty() =~= before.stdout);
        }
        match stage {
            Stage::Start => match reply {
                Reply::Begin => match self.guard {
                    Guard::Always => {
                        self.announce(logger);
                        self.working()
                    },
                    Guard::IfAbsent => (
                        Stage::Probing,
                        Effect::Probe { path: self.target.clone() },
                    ),
                    Guard::Overwrite { .. } => {
                        self.announce(logger);
                        (Stage::Probing, Effect::Probe { path: self.target.clone() })
                    },
                },
                _ => (Stage::Finished(Outcome::Confused), Effect::Finished),
            },
            Stage::Probing => match reply {
                Reply::Exists(exists) => match self.guard {
                    Guard::Always => (Stage::Finished(Outcome::Confused), Effect::Finished),
                    Guard::IfAbsent => {
                        if exists {
                            (Stage::Finished(Outcome::Skipped), Effect::Finished)
                        } else {
                            self.announce(logger);
                            self.working()
                        }
                    },
                    Guard::Overwrite { force } => {
                        if !exists {
                            self.working()
                        } else if force {
                            (Stage::Removing, self.removing())
                        } else {
                            (Stage::Asking, Effect::AskOverwrite)
                        }
                    },
                },
                _ => (Stage::Finished(Outcome::Confused), Effect::Finished),
            },
            Stage::Asking => match reply {
                Reply::Answer(agreed) => {
                    if agreed {
                        (Stage::Removing, self.removing())
                    } else {
                        logger.write_warning("Already exists 🟠\n".to_owned());
                        (Stage::Finished(Outcome::Skipped), Effect::Finished)
                    }
                },
                _ => (Stage::Finished(Outcome::Confused), Effect::Finished),
            },
            Stage::Removing => match reply {
                Reply::Done => self.working(),
                _ => (Stage::Finished(Outcome::Confused), Effect::Finished),
            },
            Stage::Reading => match reply {
                Reply::Content(text) => match &self.action {
                    Action::RenderTemplate { token, value, .. } => (
                        Stage::Working,
                        Effect::WriteFile {
                            path: self.target.clone(),
                            content: substitute(text.as_str(), token.as_str(), value.as_str()),
                        },
                    ),
                    Action::Patch(patch) => match patch.apply(text.as_str()) {
                        Ok(content) => (
                            Stage::Working,
                            Effect::WriteFile { path: self.target.clone(), content },
                        ),
                        Err(error) => (Stage::Finished(Outcome::Failed(error)), Effect::Finished),
                    },
                    _ => (Stage::Finished(Outcome::Confused), Effect::Finished),
                },
                _ => (Stage::Finished(Outcome::Confused), Effect::Finished),
            },
            Stage::Working => match reply {
                Reply::Done => {
                    self.conclude(logger);
                    (Stage::Finished(Outcome::Completed), Effect::Finished)
                },
                _ => (Stage::Finished(Outcome::Confused), Effect::Finished),
            },
            Stage::Finished(outcome) => (Stage::Finished(outcome), Effect::Finished),
        }
    }
}

} // verus!
