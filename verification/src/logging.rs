//! The console, as a recorder of terminal commands.
//!
//! A `ConsoleLogger` does not touch the terminal. It records, per stream, the
//! commands that show a message, and hands them out on `release`. Whether the
//! output is decorated depends on whether the stream is an interactive
//! terminal, which the logger is told when it is made.

use vstd::prelude::*;
use crate::error::{ErrorReport, ErrorReportModel};
use crate::text::{join2, join3};

verus! {

/// An emoji to use in the console.
#[derive(Debug, Copy, Clone, PartialEq, Eq, Structural)]
pub enum OutputEmoji {
    /// 🚀
    Rocket,
    /// 📄
    Document,
    /// ✅
    CheckMark,
    /// 🟠
    OrangeCircle,
    /// 📁
    Folder,
    /// 📦
    Package,
    /// 🥳
    Party,
    /// ✋
    Hand,
    /// 🛑
    Stop,
    /// 🚨
    Siren,
}

impl OutputEmoji {
    /// The emoji's text.
    pub open spec fn glyph(self) -> Seq<char> {
        match self {
            OutputEmoji::Rocket => "🚀"@,
            OutputEmoji::Document => "📄"@,
            OutputEmoji::CheckMark => "✅"@,
            OutputEmoji::OrangeCircle => "🟠"@,
            OutputEmoji::Folder => "📁"@,
            OutputEmoji::Package => "📦"@,
            OutputEmoji::Party => "🥳"@,
            OutputEmoji::Hand => "✋"@,
            OutputEmoji::Stop => "🛑"@,
            OutputEmoji::Siren => "🚨"@,
        }
    }

    /// The emoji's text.
    pub fn as_str(&self) -> (text: &'static str)
        ensures
            text@ == self.glyph(),
    {
        match self {
            OutputEmoji::Rocket => "🚀",
            OutputEmoji::Document => "📄",
            OutputEmoji::CheckMark => "✅",
            OutputEmoji::OrangeCircle => "🟠",
            OutputEmoji::Folder => "📁",
            OutputEmoji::Package => "📦",
            OutputEmoji::Party => "🥳",
            OutputEmoji::Hand => "✋",
            OutputEmoji::Stop => "🛑",
            OutputEmoji::Siren => "🚨",
        }
    }
}

/// A terminal colour.
#[derive(Debug, Copy, Clone, PartialEq, Eq, Structural)]
pub enum Color {
    Black,
    Red,
    Green,
    Yellow,
    Cyan,
    White,
    Grey,
}

/// One command for the terminal.
#[derive(Debug, PartialEq, Eq)]
pub enum ConsoleCommand {
    /// Write the text.
    Print(String),
    /// Set the colour of the text that follows.
    SetForegroundColor(Color),
    /// Set the colour behind the text that follows.
    SetBackgroundColor(Color),
    /// Show the text that follows in bold.
    SetBold,
    /// Go back to the terminal's own colours and attributes.
    ResetColor,
    /// Remember where the cursor is.
    SavePosition,
    /// Move the cursor to where it was remembered.
    RestorePosition,
    /// Clear the screen from the cursor down.
    ClearFromCursorDown,
    /// Ask the terminal to report keys unambiguously.
    PushKeyboardEnhancementFlags,
    /// Read keys as they are pressed.
    EnableRawMode,
    /// Read input line by line again.
    DisableRawMode,
}

/// What a `ConsoleCommand` holds.
pub enum CommandModel {
    Print(Seq<char>),
    SetForegroundColor(Color),
    SetBackgroundColor(Color),
    SetBold,
    ResetColor,
    SavePosition,
    RestorePosition,
    ClearFromCursorDown,
    PushKeyboardEnhancementFlags,
    EnableRawMode,
    DisableRawMode,
}

impl DeepView for ConsoleCommand {
    type V = CommandModel;

    open spec fn deep_view(&self) -> CommandModel {
        match self {
            ConsoleCommand::Print(text) => CommandModel::Print(text@),
            ConsoleCommand::SetForegroundColor(color) => CommandModel::SetForegroundColor(*color),
            ConsoleCommand::SetBackgroundColor(color) => CommandModel::SetBackgroundColor(*color),
            ConsoleCommand::SetBold => CommandModel::SetBold,
            ConsoleCommand::ResetColor => CommandModel::ResetColor,
            ConsoleCommand::SavePosition => CommandModel::SavePosition,
            ConsoleCommand::RestorePosition => CommandModel::RestorePosition,
            ConsoleCommand::ClearFromCursorDown => CommandModel::ClearFromCursorDown,
            ConsoleCommand::PushKeyboardEnhancementFlags => {
                CommandModel::PushKeyboardEnhancementFlags
            },
            ConsoleCommand::EnableRawMode => CommandModel::EnableRawMode,
            ConsoleCommand::DisableRawMode => CommandModel::DisableRawMode,
        }
    }
}

impl View for ConsoleCommand {
    type V = CommandModel;

    open spec fn view(&self) -> CommandModel {
        self.deep_view()
    }
}

/// The text in one colour, the colours reset behind it.
pub open spec fn colored(color: Color, text: Seq<char>) -> Seq<CommandModel> {
    seq![
        CommandModel::SetForegroundColor(color),
        CommandModel::Print(text),
        CommandModel::ResetColor,
    ]
}

/// A message of one level: coloured on a terminal, else plain behind the
/// level's prefix.
pub open spec fn leveled(is_tty: bool, color: Color, prefix: Seq<char>, message: Seq<char>) -> Seq<
    CommandModel,
> {
    if is_tty {
        colored(color, message)
    } else {
        seq![CommandModel::Print(prefix + message)]
    }
}

/// The header of a category of operations.
pub open spec fn category_message(is_tty: bool, name: Seq<char>) -> Seq<char> {
    if is_tty {
        OutputEmoji::Rocket.glyph() + " "@ + name + "\n"@
    } else {
        name + "\n"@
    }
}

/// The line that opens an operation.
pub open spec fn operation_message(is_tty: bool, message: Seq<char>, emoji: OutputEmoji) -> Seq<
    char,
> {
    if is_tty {
        "- "@ + emoji.glyph() + " "@ + message + " "@
    } else {
        "- "@ + message + " "@
    }
}

/// The words that close an operation.
pub open spec fn success_message(is_tty: bool) -> Seq<char> {
    if is_tty {
        "Done! "@ + OutputEmoji::CheckMark.glyph() + "\n"@
    } else {
        "Done!\n"@
    }
}

/// The line that closes an initialisation.
pub open spec fn initialized_message(is_tty: bool) -> Seq<char> {
    if is_tty {
        OutputEmoji::Party.glyph() + " VSCode project initialized!\n"@
    } else {
        "VSCode project initialized!\n"@
    }
}

/// The question put to the user before a file is overwritten.
pub open spec fn overwrite_question() -> Seq<char> {
    "✋ Overwrite? ([y]es/[n]o/[q]uit) "@
}

/// The commands that open the overwrite prompt.
pub open spec fn prompt_opening(supports_keyboard_enhancement: bool) -> Seq<CommandModel> {
    (if supports_keyboard_enhancement {
        seq![CommandModel::PushKeyboardEnhancementFlags]
    } else {
        Seq::empty()
    }) + seq![CommandModel::SavePosition] + colored(Color::Yellow, overwrite_question())
        + seq![CommandModel::EnableRawMode]
}

/// The commands that close the prompt once the user has decided.
pub open spec fn prompt_closing() -> Seq<CommandModel> {
    seq![
        CommandModel::DisableRawMode,
        CommandModel::RestorePosition,
        CommandModel::ClearFromCursorDown,
    ]
}

/// The commands that take leave of a user who quits.
pub open spec fn prompt_quitting() -> Seq<CommandModel> {
    seq![CommandModel::DisableRawMode] + colored(Color::Red, "\n\n🛑 Quitting...\n"@)
}

/// The command that leaves the prompt after a failure of the terminal: the
/// terminal is switched back from raw input, and nothing is written.
pub open spec fn prompt_failing() -> Seq<CommandModel> {
    seq![CommandModel::DisableRawMode]
}

/// The commands that put the question again after a key that is no answer.
pub open spec fn prompt_retry() -> Seq<CommandModel> {
    seq![
        CommandModel::DisableRawMode,
        CommandModel::RestorePosition,
        CommandModel::ClearFromCursorDown,
        CommandModel::SavePosition,
        CommandModel::SetForegroundColor(Color::Red),
        CommandModel::Print("🛑 Invalid input. "@),
        CommandModel::SetForegroundColor(Color::Yellow),
        CommandModel::Print(overwrite_question()),
        CommandModel::ResetColor,
        CommandModel::EnableRawMode,
    ]
}

/// Where the overwrite prompt stands.
#[derive(Debug, Copy, Clone, PartialEq, Eq, Structural)]
pub enum PromptState {
    /// The question is on the screen and no answer has come yet.
    Prompting,
    /// The user agreed to overwrite.
    Confirmed,
    /// The user refused to overwrite.
    Declined,
    /// The user asked to leave the program.
    Quit,
    /// The terminal failed while the question was open.
    Failed,
}

/// One event read from the terminal while the prompt is open.
#[derive(Debug, Copy, Clone, PartialEq, Eq, Structural)]
pub enum KeyInput {
    /// A key that stands for a character.
    Character(char),
    /// Any other key.
    OtherKey,
    /// An event that is no key press.
    OtherEvent,
    /// No event: the terminal could not be read, or what was to be written
    /// to it could not be written.
    Failure,
}

impl PromptState {
    /// The state after `input`: `y` confirms, `n` declines, `q` quits, a
    /// failure of the terminal ends the prompt as failed, and anything else
    /// leaves the question open. A prompt that is over stays as it is.
    pub open spec fn after(self, input: KeyInput) -> PromptState {
        if self == PromptState::Prompting {
            match input {
                KeyInput::Failure => PromptState::Failed,
                KeyInput::Character(c) => if c == 'y' {
                    PromptState::Confirmed
                } else if c == 'n' {
                    PromptState::Declined
                } else if c == 'q' {
                    PromptState::Quit
                } else {
                    PromptState::Prompting
                },
                _ => PromptState::Prompting,
            }
        } else {
            self
        }
    }

    /// The commands that `input` causes in this state.
    pub open spec fn response(self, input: KeyInput) -> Seq<CommandModel> {
        if self == PromptState::Prompting {
            match self.after(input) {
                PromptState::Confirmed => prompt_closing(),
                PromptState::Declined => prompt_closing(),
                PromptState::Quit => prompt_quitting(),
                PromptState::Failed => prompt_failing(),
                PromptState::Prompting => if input == KeyInput::OtherEvent {
                    Seq::empty()
                } else {
                    prompt_retry()
                },
            }
        } else {
            Seq::empty()
        }
    }

    /// The user's decision: whether to overwrite. None while the question is
    /// open, after a quit and after a failure.
    pub open spec fn spec_decision(self) -> Option<bool> {
        match self {
            PromptState::Confirmed => Some(true),
            PromptState::Declined => Some(false),
            _ => None,
        }
    }

    /// The user's decision: whether to overwrite.
    pub fn decision(&self) -> (answer: Option<bool>)
        ensures
            answer == self.spec_decision(),
    {
        match self {
            PromptState::Confirmed => Some(true),
            PromptState::Declined => Some(false),
            _ => None,
        }
    }
}

/// Whether the terminal reads keys as they are pressed after `commands`,
/// given whether it did before.
pub open spec fn raw_mode_after(commands: Seq<CommandModel>, before: bool) -> bool
    decreases commands.len(),
{
    if commands.len() == 0 {
        before
    } else {
        match commands.last() {
            CommandModel::EnableRawMode => true,
            CommandModel::DisableRawMode => false,
            _ => raw_mode_after(commands.drop_last(), before),
        }
    }
}

/// Utility for writing to the console.
#[derive(Debug)]
pub struct ConsoleLogger {
    /// Whether the standard output stream is an interactive terminal.
    pub is_tty: bool,
    /// The commands recorded for the standard output stream.
    pub stdout: Vec<ConsoleCommand>,
    /// The commands recorded for the standard error stream.
    pub stderr: Vec<ConsoleCommand>,
}

/// What a `ConsoleLogger` holds.
pub struct LoggerModel {
    pub is_tty: bool,
    pub stdout: Seq<CommandModel>,
    pub stderr: Seq<CommandModel>,
}

impl LoggerModel {
    /// The logger after `commands` were recorded for standard output.
    pub open spec fn out(self, commands: Seq<CommandModel>) -> LoggerModel {
        LoggerModel { stdout: self.stdout + commands, ..self }
    }

    /// The logger after `commands` were recorded for standard error.
    pub open spec fn err(self, commands: Seq<CommandModel>) -> LoggerModel {
        LoggerModel { stderr: self.stderr + commands, ..self }
    }

    /// The commands that show a failure on a terminal.
    pub open spec fn error_banner(report: ErrorReportModel) -> Seq<CommandModel> {
        seq![
            CommandModel::Print("\n\n"@),
            CommandModel::SetBold,
            CommandModel::SetBackgroundColor(Color::Red),
            CommandModel::SetForegroundColor(Color::White),
            CommandModel::Print("🚨 Error "@),
            CommandModel::ResetColor,
            CommandModel::SetBold,
            CommandModel::SetForegroundColor(Color::Red),
            CommandModel::SetBackgroundColor(Color::Grey),
            CommandModel::Print(" "@ + report.source.heading() + " "@),
            CommandModel::ResetColor,
        ] + (match report.source.detail() {
            Some(detail) => seq![
                CommandModel::SetBold,
                CommandModel::SetForegroundColor(Color::Red),
                CommandModel::SetBackgroundColor(Color::Black),
                CommandModel::Print(" Kind: "@ + detail + " "@),
                CommandModel::ResetColor,
            ],
            None => Seq::empty(),
        }) + colored(Color::Red, "\n\n"@ + report.message)
    }

    /// The line that shows a failure on a stream that is no terminal.
    pub open spec fn error_line(report: ErrorReportModel) -> Seq<char> {
        match report.source.detail() {
            Some(detail) => "\n[Error] - "@ + report.source.heading() + " (Kind: "@ + detail
                + "): "@ + report.message,
            None => "\n[Error] - "@ + report.source.heading() + ": "@ + report.message,
        }
    }

    /// The logger after a failure was shown.
    pub open spec fn error_extended(self, report: ErrorReportModel) -> LoggerModel {
        if self.is_tty {
            self.out(Self::error_banner(report))
        } else {
            self.err(seq![CommandModel::Print(Self::error_line(report))])
        }
    }
}

impl View for ConsoleLogger {
    type V = LoggerModel;

    open spec fn view(&self) -> LoggerModel {
        LoggerModel {
            is_tty: self.is_tty,
            stdout: self.stdout.deep_view(),
            stderr: self.stderr.deep_view(),
        }
    }
}

impl ConsoleLogger {
    /// A logger with nothing recorded.
    pub fn new(is_tty: bool) -> (logger: Self)
        ensures
            logger@ == (LoggerModel { is_tty, stdout: Seq::empty(), stderr: Seq::empty() }),
    {
        let logger = ConsoleLogger { is_tty, stdout: Vec::new(), stderr: Vec::new() };
        assert(logger.stdout.deep_view() =~= Seq::empty());
        assert(logger.stderr.deep_view() =~= Seq::empty());
        logger
    }

    /// Records one command for standard output.
    pub fn emit(&mut self, command: ConsoleCommand)
        ensures
            final(self)@ == old(self)@.out(seq![command@]),
    {
        self.stdout.push(command);
        assert(self.stdout.deep_view() =~= old(self).stdout.deep_view() + seq![command@]);
    }

    /// Records one command for standard error.
    pub fn emit_error(&mut self, command: ConsoleCommand)
        ensures
            final(self)@ == old(self)@.err(seq![command@]),
    {
        self.stderr.push(command);
        assert(self.stderr.deep_view() =~= old(self).stderr.deep_view() + seq![command@]);
    }

    /// Records the text in one colour for standard output.
    fn emit_colored(&mut self, color: Color, text: String)
        ensures
            final(self)@ == old(self)@.out(colored(color, text@)),
    {
        self.emit(ConsoleCommand::SetForegroundColor(color));
        self.emit(ConsoleCommand::Print(text));
        self.emit(ConsoleCommand::ResetColor);
        assert(self@.stdout =~= old(self)@.stdout + colored(color, text@));
    }

    /// Records a message of one level.
    fn emit_leveled(&mut self, color: Color, prefix: &str, message: String)
        ensures
            final(self)@ == old(self)@.out(leveled(old(self).is_tty, color, prefix@, message@)),
    {
        if !self.is_tty {
            self.emit(ConsoleCommand::Print(join2(prefix, message.as_str())));
        } else {
            self.emit_colored(color, message);
        }
    }

    /// Write an informational message to the console.
    pub fn write_info(&mut self, message: String)
        ensures
            final(self)@ == old(self)@.out(
                leveled(old(self).is_tty, Color::Cyan, "[Info] - "@, message@),
            ),
    {
        self.emit_leveled(Color::Cyan, "[Info] - ", message);
    }

    /// Write a success message to the console.
    pub fn write_success(&mut self, message: String)
        ensures
            final(self)@ == old(self)@.out(leveled(old(self).is_tty, Color::Green, ""@, message@)),
    {
        proof {
            reveal_strlit("");
            assert(""@ + message@ =~= message@);
        }
        if !self.is_tty {
            self.emit(ConsoleCommand::Print(message));
        } else {
            self.emit_colored(Color::Green, message);
        }
    }

    /// Write a warning message to the console.
    pub fn write_warning(&mut self, message: String)
        ensures
            final(self)@ == old(self)@.out(
                leveled(old(self).is_tty, Color::Yellow, "[Warning] - "@, message@),
            ),
    {
        self.emit_leveled(Color::Yellow, "[Warning] - ", message);
    }

    /// Write an error message to the console.
    pub fn write_error(&mut self, message: String)
        ensures
            final(self)@ == old(self)@.out(
                leveled(old(self).is_tty, Color::Red, "[Error] - "@, message@),
            ),
    {
        self.emit_leveled(Color::Red, "[Error] - ", message);
    }

    /// Write a failure to the console: a banner with the failure's source,
    /// its kind where it has one, and its message on a terminal; one line on
    /// standard error otherwise.
    pub fn write_error_extended(&mut self, report: &ErrorReport)
        ensures
            final(self)@ == old(self)@.error_extended(report@),
    {
        let heading = report.source.heading();
        let detail = report.source.detail();
        if !self.is_tty {
            let line = match detail {
                Some(kind) => {
                    let mut line = join3("\n[Error] - ", heading, " (Kind: ");
                    line = join3(line.as_str(), kind.as_str(), "): ");
                    join2(line.as_str(), report.message.as_str())
                },
                None => {
                    let line = join3("\n[Error] - ", heading, ": ");
                    join2(line.as_str(), report.message.as_str())
                },
            };
            self.emit_error(ConsoleCommand::Print(line));
            return ;
        }
        self.emit(ConsoleCommand::Print("\n\n".to_owned()));
        self.emit(ConsoleCommand::SetBold);
        self.emit(ConsoleCommand::SetBackgroundColor(Color::Red));
        self.emit(ConsoleCommand::SetForegroundColor(Color::White));
        self.emit(ConsoleCommand::Print("🚨 Error ".to_owned()));
        self.emit(ConsoleCommand::ResetColor);
        self.emit(ConsoleCommand::SetBold);
        self.emit(ConsoleCommand::SetForegroundColor(Color::Red));
        self.emit(ConsoleCommand::SetBackgroundColor(Color::Grey));
        self.emit(ConsoleCommand::Print(join3(" ", heading, " ")));
        self.emit(ConsoleCommand::ResetColor);
        let ghost head = self@.stdout;
        match detail {
            Some(kind) => {
                self.emit(ConsoleCommand::SetBold);
                self.emit(ConsoleCommand::SetForegroundColor(Color::Red));
                self.emit(ConsoleCommand::SetBackgroundColor(Color::Black));
                self.emit(ConsoleCommand::Print(join3(" Kind: ", kind.as_str(), " ")));
                self.emit(ConsoleCommand::ResetColor);
            },
            None => {},
        }
        self.emit_colored(Color::Red, join2("\n\n", report.message.as_str()));
        assert(self@.stdout =~= old(self)@.stdout + LoggerModel::error_banner(report@));
    }

    /// Manually save the current cursor position.
    pub fn save_cursor_position(&mut self)
        ensures
            final(self)@ == old(self)@.out(seq![CommandModel::SavePosition]),
    {
        self.emit(ConsoleCommand::SavePosition);
    }

    /// Manually restore the cursor position.
    pub fn restore_cursor_position(&mut self)
        ensures
            final(self)@ == old(self)@.out(seq![CommandModel::RestorePosition]),
    {
        self.emit(ConsoleCommand::RestorePosition);
    }

    /// Manually restore the cursor position and clear the screen below the
    /// cursor.
    pub fn restore_cursor_position_and_clear_below(&mut self)
        ensures
            final(self)@ == old(self)@.out(
                seq![CommandModel::RestorePosition, CommandModel::ClearFromCursorDown],
            ),
    {
        self.emit(ConsoleCommand::RestorePosition);
        self.emit(ConsoleCommand::ClearFromCursorDown);
        assert(self@.stdout =~= old(self)@.stdout + seq![
            CommandModel::RestorePosition,
            CommandModel::ClearFromCursorDown,
        ]);
    }

    /// Opens the overwrite prompt: puts the question on the screen and
    /// switches the terminal to raw input. The answer comes through
    /// `overwrite_key`, one event at a time.
    ///
    /// The question can only be put on an interactive terminal.
    pub fn ask_for_overwrite(&mut self, supports_keyboard_enhancement: bool) -> (state:
        PromptState)
        requires
            old(self).is_tty,
        ensures
            state == PromptState::Prompting,
            final(self)@ == old(self)@.out(prompt_opening(supports_keyboard_enhancement)),
    {
        if supports_keyboard_enhancement {
            self.emit(ConsoleCommand::PushKeyboardEnhancementFlags);
        }
        self.save_cursor_position();
        self.emit_colored(Color::Yellow, "✋ Overwrite? ([y]es/[n]o/[q]uit) ".to_owned());
        self.emit(ConsoleCommand::EnableRawMode);
        assert(self@.stdout =~= old(self)@.stdout + prompt_opening(supports_keyboard_enhancement));
        PromptState::Prompting
    }

    /// Takes one event while the prompt is open: `y` confirms, `n` declines,
    /// `q` quits, any other key puts the question again with a notice, and
    /// an event that is no key is passed over. A failure of the terminal
    /// ends the prompt as failed. On every way out of the prompt, the
    /// failure included, the terminal is switched back from raw input
    /// first.
    pub fn overwrite_key(&mut self, state: PromptState, input: KeyInput) -> (next: PromptState)
        ensures
            next == state.after(input),
            final(self)@ == old(self)@.out(state.response(input)),
    {
        if state != PromptState::Prompting {
            assert(self@.stdout =~= old(self)@.stdout + Seq::empty());
            return state;
        }
        let next = match input {
            KeyInput::Failure => PromptState::Failed,
            KeyInput::Character(c) => if c == 'y' {
                PromptState::Confirmed
            } else if c == 'n' {
                PromptState::Declined
            } else if c == 'q' {
                PromptState::Quit
            } else {
                PromptState::Prompting
            },
            _ => PromptState::Prompting,
        };
        match next {
            PromptState::Confirmed | PromptState::Declined => {
                self.emit(ConsoleCommand::DisableRawMode);
                self.restore_cursor_position_and_clear_below();
                assert(self@.stdout =~= old(self)@.stdout + prompt_closing());
            },
            PromptState::Quit => {
                self.emit(ConsoleCommand::DisableRawMode);
                self.emit_colored(Color::Red, "\n\n🛑 Quitting...\n".to_owned());
                assert(self@.stdout =~= old(self)@.stdout + prompt_quitting());
            },
            PromptState::Failed => {
                self.emit(ConsoleCommand::DisableRawMode);
            },
            PromptState::Prompting => {
                if input == KeyInput::OtherEvent {
                    assert(self@.stdout =~= old(self)@.stdout + Seq::empty());
                } else {
                    self.emit(ConsoleCommand::DisableRawMode);
                    self.restore_cursor_position_and_clear_below();
                    self.save_cursor_position();
                    self.emit(ConsoleCommand::SetForegroundColor(Color::Red));
                    self.emit(ConsoleCommand::Print("🛑 Invalid input. ".to_owned()));
                    self.emit(ConsoleCommand::SetForegroundColor(Color::Yellow));
                    self.emit(
                        ConsoleCommand::Print("✋ Overwrite? ([y]es/[n]o/[q]uit) ".to_owned()),
                    );
                    self.emit(ConsoleCommand::ResetColor);
                    self.emit(ConsoleCommand::EnableRawMode);
                    assert(self@.stdout =~= old(self)@.stdout + prompt_retry());
                }
            },
        }
        next
    }

    /// Write a newline to the console.
    pub fn write_newline(&mut self)
        ensures
            final(self)@ == old(self)@.out(seq![CommandModel::Print("\n"@)]),
    {
        self.emit(ConsoleCommand::Print("\n".to_owned()));
    }

    /// Writes an operation category header to the console.
    pub fn write_operation_category(&mut self, name: &str)
        ensures
            final(self)@ == old(self)@.out(
                leveled(
                    old(self).is_tty,
                    Color::Cyan,
                    "[Info] - "@,
                    category_message(old(self).is_tty, name@),
                ),
            ),
    {
        let message = if self.is_tty {
            let head = join3(OutputEmoji::Rocket.as_str(), " ", name);
            join2(head.as_str(), "\n")
        } else {
            join2(name, "\n")
        };
        self.write_info(message);
    }

    /// Writes the line that opens an operation to the console.
    pub fn write_operation_log(&mut self, message: &str, emoji: OutputEmoji)
        ensures
            final(self)@ == old(self)@.out(
                leveled(
                    old(self).is_tty,
                    Color::Cyan,
                    "[Info] - "@,
                    operation_message(old(self).is_tty, message@, emoji),
                ),
            ),
    {
        let line = if self.is_tty {
            let head = join3("- ", emoji.as_str(), " ");
            join3(head.as_str(), message, " ")
        } else {
            join3("- ", message, " ")
        };
        self.write_info(line);
    }

    /// Writes the words that close an operation to the console.
    pub fn write_operation_success_log(&mut self)
        ensures
            final(self)@ == old(self)@.out(
                leveled(old(self).is_tty, Color::Green, ""@, success_message(old(self).is_tty)),
            ),
    {
        let message = if self.is_tty {
            join3("Done! ", OutputEmoji::CheckMark.as_str(), "\n")
        } else {
            "Done!\n".to_owned()
        };
        self.write_success(message);
    }

    /// Writes the line that closes an initialisation to the console.
    pub fn write_project_initialized_log(&mut self)
        ensures
            final(self)@ == old(self)@.out(
                leveled(
                    old(self).is_tty,
                    Color::Cyan,
                    "[Info] - "@,
                    initialized_message(old(self).is_tty),
                ),
            ),
    {
        let message = if self.is_tty {
            join2(OutputEmoji::Party.as_str(), " VSCode project initialized!\n")
        } else {
            "VSCode project initialized!\n".to_owned()
        };
        self.write_info(message);
    }

    /// Hands out what was recorded, standard output first, and leaves the
    /// logger with nothing recorded.
    pub fn release(&mut self) -> (recorded: (Vec<ConsoleCommand>, Vec<ConsoleCommand>))
        ensures
            recorded.0.deep_view() == old(self)@.stdout,
            recorded.1.deep_view() == old(self)@.stderr,
            final(self)@ == (LoggerModel {
                is_tty: old(self).is_tty,
                stdout: Seq::empty(),
                stderr: Seq::empty(),
            }),
    {
        let mut out: Vec<ConsoleCommand> = Vec::new();
        let mut err: Vec<ConsoleCommand> = Vec::new();
        core::mem::swap(&mut self.stdout, &mut out);
        core::mem::swap(&mut self.stderr, &mut err);
        assert(self.stdout.deep_view() =~= Seq::empty());
        assert(self.stderr.deep_view() =~= Seq::empty());
        (out, err)
    }
}

/// Where the prompt stands after a run of events.
pub open spec fn prompt_after(inputs: Seq<KeyInput>) -> PromptState
    decreases inputs.len(),
{
    if inputs.len() == 0 {
        PromptState::Prompting
    } else {
        prompt_after(inputs.drop_last()).after(inputs.last())
    }
}

/// What the prompt writes from its opening through a run of events.
pub open spec fn prompt_output(supports_keyboard_enhancement: bool, inputs: Seq<KeyInput>) -> Seq<
    CommandModel,
>
    decreases inputs.len(),
{
    if inputs.len() == 0 {
        prompt_opening(supports_keyboard_enhancement)
    } else {
        prompt_output(supports_keyboard_enhancement, inputs.drop_last()) + prompt_after(
            inputs.drop_last(),
        ).response(inputs.last())
    }
}

/// The mode of the terminal after two runs of commands is its mode after
/// the second, begun in the mode after the first.
pub proof fn lemma_raw_mode_after_both(
    first: Seq<CommandModel>,
    second: Seq<CommandModel>,
    before: bool,
)
    ensures
        raw_mode_after(first + second, before) == raw_mode_after(
            second,
            raw_mode_after(first, before),
        ),
    decreases second.len(),
{
    if second.len() == 0 {
        assert(first + second =~= first);
    } else {
        assert((first + second).last() == second.last());
        assert((first + second).drop_last() =~= first + second.drop_last());
        lemma_raw_mode_after_both(first, second.drop_last(), before);
    }
}

/// One event keeps the terminal in step with the prompt: if the terminal
/// reads keys as they are pressed exactly while the prompt is open, it
/// does so after the event too.
pub proof fn lemma_raw_mode_follows_prompt(state: PromptState, input: KeyInput, before: bool)
    requires
        before == (state == PromptState::Prompting),
    ensures
        raw_mode_after(state.response(input), before) == (state.after(input)
            == PromptState::Prompting),
{
    reveal_with_fuel(raw_mode_after, 4);
    if state == PromptState::Prompting {
        match state.after(input) {
            PromptState::Confirmed => {
                assert(prompt_closing().drop_last().drop_last() =~= seq![
                    CommandModel::DisableRawMode,
                ]);
            },
            PromptState::Declined => {
                assert(prompt_closing().drop_last().drop_last() =~= seq![
                    CommandModel::DisableRawMode,
                ]);
            },
            PromptState::Quit => {
                assert(prompt_quitting().drop_last().drop_last().drop_last() =~= seq![
                    CommandModel::DisableRawMode,
                ]);
            },
            PromptState::Failed => {},
            PromptState::Prompting => {},
        }
    }
}

/// A failure of the terminal ends the prompt, whatever came before: the
/// prompt is no longer open behind it.
pub proof fn lemma_failure_ends_prompt(inputs: Seq<KeyInput>)
    ensures
        prompt_after(inputs.push(KeyInput::Failure)) != PromptState::Prompting,
{
    assert(inputs.push(KeyInput::Failure).drop_last() =~= inputs);
}

/// From its opening on, whatever the events, the terminal reads keys as
/// they are pressed exactly while the prompt is open: on every way out of
/// the prompt, the quit and the failure of the terminal included, the
/// terminal is switched back.
pub proof fn lemma_raw_mode_is_scoped(
    supports_keyboard_enhancement: bool,
    inputs: Seq<KeyInput>,
    before: bool,
)
    ensures
        raw_mode_after(prompt_output(supports_keyboard_enhancement, inputs), before) == (
        prompt_after(inputs) == PromptState::Prompting),
    decreases inputs.len(),
{
    if inputs.len() == 0 {
    } else {
        let head = inputs.drop_last();
        lemma_raw_mode_is_scoped(supports_keyboard_enhancement, head, before);
        lemma_raw_mode_after_both(
            prompt_output(supports_keyboard_enhancement, head),
            prompt_after(head).response(inputs.last()),
            before,
        );
        lemma_raw_mode_follows_prompt(
            prompt_after(head),
            inputs.last(),
            prompt_after(head) == PromptState::Prompting,
        );
    }
}

/// However the prompt is left, the terminal no longer reads keys as they
/// are pressed: not after an answer, not after a quit, and not after a
/// failure of the terminal, whatever events came before.
pub proof fn lemma_raw_mode_off_when_left(
    supports_keyboard_enhancement: bool,
    inputs: Seq<KeyInput>,
    before: bool,
)
    ensures
        prompt_after(inputs) != PromptState::Prompting ==> !raw_mode_after(
            prompt_output(supports_keyboard_enhancement, inputs),
            before,
        ),
        !raw_mode_after(
            prompt_output(supports_keyboard_enhancement, inputs.push(KeyInput::Failure)),
            before,
        ),
{
    lemma_raw_mode_is_scoped(supports_keyboard_enhancement, inputs, before);
    lemma_raw_mode_is_scoped(supports_keyboard_enhancement, inputs.push(KeyInput::Failure), before);
    lemma_failure_ends_prompt(inputs);
}

/// A decision, once taken, stays: the events behind it change nothing.
pub proof fn lemma_decision_stays(state: PromptState, inputs: Seq<KeyInput>)
    requires
        state != PromptState::Prompting,
    ensures
        prompt_after(inputs) == state ==> forall|input: KeyInput|
            prompt_after(inputs.push(input)) == state,
{
    assert forall|input: KeyInput| prompt_after(inputs) == state implies prompt_after(
        inputs.push(input),
    ) == state by {
        assert(inputs.push(input).drop_last() =~= inputs);
    }
}

} // verus!
