//! The console that strips emojis from what it writes to a stream that is
//! no terminal.
//!
//! The emojis are found with a regular expression of `regex_lite`: a class
//! of the ten emojis that the tool uses.

use vstd::prelude::*;
use crate::error::{ErrorReport, ErrorReportModel};
use crate::logging::{
    colored,
    leveled,
    prompt_opening,
    Color,
    CommandModel,
    ConsoleCommand,
    ConsoleLogger,
    KeyInput,
    LoggerModel,
    OutputEmoji,
    PromptState,
};
use crate::text::{chars_of, join2, join3, text_of_range};

verus! {

/// A compiled regular expression of `regex_lite`.
#[verifier::external_type_specification]
#[verifier::external_body]
pub struct ExRegex(regex_lite::Regex);

/// What `regex_lite::Regex::new` makes of a pattern: the regular
/// expression, or nothing where the pattern is refused.
pub uninterp spec fn compiled_pattern(pattern: Seq<char>) -> Option<regex_lite::Regex>;

/// What `Regex::replace_all` makes of a haystack for the regular
/// expression of a pattern: the haystack with each match replaced.
pub uninterp spec fn replaced_matches(
    pattern: Seq<char>,
    haystack: Seq<char>,
    replacement: Seq<char>,
) -> Seq<char>;

/// Calls `regex_lite::Regex::new`. The contract claims only that the
/// outcome is a function of the pattern.
#[verifier::external_body]
fn compile_pattern(pattern: &str) -> (compiled: Option<regex_lite::Regex>)
    ensures
        compiled == compiled_pattern(pattern@),
{
    regex_lite::Regex::new(pattern).ok()
}

/// Calls `Regex::replace_all`. The contract claims only that the outcome
/// is a function of the pattern that the regular expression was compiled
/// from, of the haystack and of the replacement.
#[verifier::external_body]
fn replace_matches(regex: &regex_lite::Regex, haystack: &str, replacement: &str) -> (replaced:
    String)
    ensures
        forall|pattern: Seq<char>|
            compiled_pattern(pattern) == Some(*regex) ==> replaced@ == #[trigger] replaced_matches(
                pattern,
                haystack@,
                replacement@,
            ),
{
    regex.replace_all(haystack, replacement).into_owned()
}

/// Whether the character is white space in the sense of Unicode.
pub open spec fn is_whitespace(c: char) -> bool {
    let code = c as u32;
    ||| 0x0009 <= code <= 0x000D
    ||| code == 0x0020
    ||| code == 0x0085
    ||| code == 0x00A0
    ||| code == 0x1680
    ||| 0x2000 <= code <= 0x200A
    ||| code == 0x2028
    ||| code == 0x2029
    ||| code == 0x202F
    ||| code == 0x205F
    ||| code == 0x3000
}

/// The text without the white space at its start.
pub open spec fn without_leading_whitespace(text: Seq<char>) -> Seq<char>
    decreases text.len(),
{
    if text.len() > 0 && is_whitespace(text[0]) {
        without_leading_whitespace(text.skip(1))
    } else {
        text
    }
}

/// Whether the character is white space in the sense of Unicode.
pub fn whitespace(c: char) -> (white: bool)
    ensures
        white == is_whitespace(c),
{
    let code = c as u32;
    (0x0009 <= code && code <= 0x000D) || code == 0x0020 || code == 0x0085 || code == 0x00A0
        || code == 0x1680 || (0x2000 <= code && code <= 0x200A) || code == 0x2028 || code
        == 0x2029 || code == 0x202F || code == 0x205F || code == 0x3000
}

/// The text without the white space at its start, as `str::trim_start`
/// gives it.
pub fn trim_start(text: &str) -> (trimmed: String)
    ensures
        trimmed@ == without_leading_whitespace(text@),
{
    let chars = chars_of(text);
    let mut start: usize = 0;
    assert(chars@.skip(0) == chars@);
    while start < chars.len() && whitespace(chars[start])
        invariant
            start <= chars.len(),
            without_leading_whitespace(chars@.skip(start as int)) == without_leading_whitespace(
                chars@,
            ),
        decreases chars.len() - start,
    {
        assert(chars@.skip(start as int).skip(1) == chars@.skip(start + 1));
        start += 1;
    }
    let trimmed = text_of_range(&chars, start, chars.len());
    assert(chars@.subrange(start as int, chars@.len() as int) == chars@.skip(start as int));
    trimmed
}

/// The pattern that matches one emoji of the tool: the class of the ten
/// emojis.
pub open spec fn emoji_class() -> Seq<char> {
    "["@ + OutputEmoji::Rocket.glyph() + OutputEmoji::Document.glyph()
        + OutputEmoji::CheckMark.glyph() + OutputEmoji::OrangeCircle.glyph()
        + OutputEmoji::Folder.glyph() + OutputEmoji::Package.glyph() + OutputEmoji::Party.glyph()
        + OutputEmoji::Hand.glyph() + OutputEmoji::Stop.glyph() + OutputEmoji::Siren.glyph()
        + "]"@
}

/// The pattern that matches one emoji of the tool.
pub fn emoji_pattern() -> (pattern: String)
    ensures
        pattern@ == emoji_class(),
{
    let mut pattern = join3("[", OutputEmoji::Rocket.as_str(), OutputEmoji::Document.as_str());
    pattern = join3(
        pattern.as_str(),
        OutputEmoji::CheckMark.as_str(),
        OutputEmoji::OrangeCircle.as_str(),
    );
    pattern = join3(pattern.as_str(), OutputEmoji::Folder.as_str(), OutputEmoji::Package.as_str());
    pattern = join3(pattern.as_str(), OutputEmoji::Party.as_str(), OutputEmoji::Hand.as_str());
    pattern = join3(pattern.as_str(), OutputEmoji::Stop.as_str(), OutputEmoji::Siren.as_str());
    join2(pattern.as_str(), "]")
}

/// The regular expression that matches one emoji of the tool.
pub struct EmojiPattern {
    regex: regex_lite::Regex,
}

impl EmojiPattern {
    /// The regular expression is the one of the class of the emojis.
    #[verifier::type_invariant]
    spec fn holds_emoji_class(self) -> bool {
        compiled_pattern(emoji_class()) == Some(self.regex)
    }

    /// The regular expression of the emojis.
    ///
    /// None where `regex_lite` refuses the pattern.
    pub fn new() -> (pattern: Option<Self>)
        ensures
            pattern is Some <==> compiled_pattern(emoji_class()) is Some,
    {
        let pattern = emoji_pattern();
        match compile_pattern(pattern.as_str()) {
            Some(regex) => Some(EmojiPattern { regex }),
            None => None,
        }
    }

    /// The message without the emojis.
    pub fn remove(&self, message: &str) -> (removed: String)
        ensures
            removed@ == replaced_matches(emoji_class(), message@, ""@),
    {
        proof {
            use_type_invariant(self);
        }
        replace_matches(&self.regex, message, "")
    }
}

/// Utility for writing to the console, without emojis where the console is
/// no terminal.
pub struct ConsoleUtils {
    logger: ConsoleLogger,
    unicode_remove_regex: EmojiPattern,
}

/// The message as it is written to a stream that is no terminal: without
/// emojis, and then without white space at its start.
pub open spec fn plain(message: Seq<char>) -> Seq<char> {
    without_leading_whitespace(replaced_matches(emoji_class(), message, ""@))
}

/// A message of one level: coloured on a terminal, else plain behind the
/// level's prefix.
pub open spec fn sanitized(
    is_tty: bool,
    color: Color,
    prefix: Seq<char>,
    message: Seq<char>,
) -> Seq<
    CommandModel,
> {
    leveled(
        is_tty,
        color,
        prefix,
        if is_tty {
            message
        } else {
            plain(message)
        },
    )
}

/// The line that shows a failure on a stream that is no terminal.
pub open spec fn error_line(report: ErrorReportModel) -> Seq<char> {
    match report.source.detail() {
        Some(detail) => "[Error] - "@ + report.source.heading() + " (Kind: "@ + detail + "): "@
            + report.message,
        None => "[Error] - "@ + report.source.heading() + ": "@ + report.message,
    }
}

/// The console after a failure was shown: on a terminal the banner of the
/// failure, without the empty lines before it; one line on standard error
/// otherwise.
pub open spec fn error_extended(console: LoggerModel, report: ErrorReportModel) -> LoggerModel {
    if console.is_tty {
        console.out(LoggerModel::error_banner(report).skip(1))
    } else {
        console.err(seq![CommandModel::Print(error_line(report))])
    }
}

impl View for ConsoleUtils {
    type V = LoggerModel;

    closed spec fn view(&self) -> LoggerModel {
        self.logger@
    }
}

impl ConsoleUtils {
    /// A console with nothing recorded.
    ///
    /// None where `regex_lite` refuses the pattern of the emojis.
    pub fn new(is_tty: bool) -> (console: Option<Self>)
        ensures
            console is Some <==> compiled_pattern(emoji_class()) is Some,
            console matches Some(made) ==> made@ == (LoggerModel {
                is_tty,
                stdout: Seq::empty(),
                stderr: Seq::empty(),
            }),
    {
        match EmojiPattern::new() {
            Some(pattern) => Some(
                ConsoleUtils { logger: ConsoleLogger::new(is_tty), unicode_remove_regex: pattern },
            ),
            None => None,
        }
    }

    /// Whether the console is an interactive terminal.
    pub fn is_tty(&self) -> (is_tty: bool)
        ensures
            is_tty == self@.is_tty,
    {
        self.logger.is_tty
    }

    /// Remove emojis from a message.
    pub fn remove_emojis(&self, message: &str) -> (removed: String)
        ensures
            removed@ == replaced_matches(emoji_class(), message@, ""@),
    {
        self.unicode_remove_regex.remove(message)
    }

    /// Records a message of one level.
    fn write_leveled(&mut self, color: Color, prefix: &str, message: String)
        ensures
            final(self)@ == old(self)@.out(sanitized(old(self)@.is_tty, color, prefix@, message@)),
    {
        if !self.logger.is_tty {
            let message_noemojis = self.remove_emojis(message.as_str());
            let message_noemojis = trim_start(message_noemojis.as_str());
            self.logger.emit(ConsoleCommand::Print(join2(prefix, message_noemojis.as_str())));
        } else {
            self.logger.emit(ConsoleCommand::SetForegroundColor(color));
            self.logger.emit(ConsoleCommand::Print(message));
            self.logger.emit(ConsoleCommand::ResetColor);
            assert(self@.stdout =~= old(self)@.stdout + colored(color, message@));
        }
    }

    /// Write an informational message to the console.
    pub fn write_info(&mut self, message: String)
        ensures
            final(self)@ == old(self)@.out(
                sanitized(old(self)@.is_tty, Color::Cyan, "[Info] - "@, message@),
            ),
    {
        self.write_leveled(Color::Cyan, "[Info] - ", message);
    }

    /// Write a success message to the console.
    pub fn write_success(&mut self, message: String)
        ensures
            final(self)@ == old(self)@.out(
                sanitized(old(self)@.is_tty, Color::Green, ""@, message@),
            ),
    {
        self.write_leveled(Color::Green, "", message);
    }

    /// Write a warning message to the console.
    pub fn write_warning(&mut self, message: String)
        ensures
            final(self)@ == old(self)@.out(
                sanitized(old(self)@.is_tty, Color::Yellow, "[Warning] - "@, message@),
            ),
    {
        self.write_leveled(Color::Yellow, "[Warning] - ", message);
    }

    /// Write an error message to the console.
    pub fn write_error(&mut self, message: String)
        ensures
            final(self)@ == old(self)@.out(
                sanitized(old(self)@.is_tty, Color::Red, "[Error] - "@, message@),
            ),
    {
        self.write_leveled(Color::Red, "[Error] - ", message);
    }

    /// Write a failure to the console: a banner with the failure's source,
    /// its kind where it has one, and its message on a terminal; one line on
    /// standard error otherwise.
    pub fn write_error_extended(&mut self, report: &ErrorReport)
        ensures
            final(self)@ == error_extended(old(self)@, report@),
    {
        let heading = report.source.heading();
        let detail = report.source.detail();
        if !self.logger.is_tty {
            let line = match detail {
                Some(kind) => {
                    let mut line = join3("[Error] - ", heading, " (Kind: ");
                    line = join3(line.as_str(), kind.as_str(), "): ");
                    join2(line.as_str(), report.message.as_str())
                },
                None => {
                    let line = join3("[Error] - ", heading, ": ");
                    join2(line.as_str(), report.message.as_str())
                },
            };
            self.logger.emit_error(ConsoleCommand::Print(line));
            return ;
        }
        self.logger.emit(ConsoleCommand::SetBold);
        self.logger.emit(ConsoleCommand::SetBackgroundColor(Color::Red));
        self.logger.emit(ConsoleCommand::SetForegroundColor(Color::White));
        self.logger.emit(ConsoleCommand::Print("🚨 Error ".to_owned()));
        self.logger.emit(ConsoleCommand::ResetColor);
        self.logger.emit(ConsoleCommand::SetBold);
        self.logger.emit(ConsoleCommand::SetForegroundColor(Color::Red));
        self.logger.emit(ConsoleCommand::SetBackgroundColor(Color::Grey));
        self.logger.emit(ConsoleCommand::Print(join3(" ", heading, " ")));
        self.logger.emit(ConsoleCommand::ResetColor);
        match detail {
            Some(kind) => {
                self.logger.emit(ConsoleCommand::SetBold);
                self.logger.emit(ConsoleCommand::SetForegroundColor(Color::Red));
                self.logger.emit(ConsoleCommand::SetBackgroundColor(Color::Black));
                self.logger.emit(ConsoleCommand::Print(join3(" Kind: ", kind.as_str(), " ")));
                self.logger.emit(ConsoleCommand::ResetColor);
            },
            None => {},
        }
        self.logger.emit(ConsoleCommand::SetForegroundColor(Color::Red));
        self.logger.emit(ConsoleCommand::Print(join2("\n\n", report.message.as_str())));
        self.logger.emit(ConsoleCommand::ResetColor);
        assert(self@.stdout =~= old(self)@.stdout + LoggerModel::error_banner(report@).skip(1));
    }

    /// Manually save the current cursor position.
    pub fn save_cursor_position(&mut self)
        ensures
            final(self)@ == old(self)@.out(seq![CommandModel::SavePosition]),
    {
        self.logger.save_cursor_position();
    }

    /// Manually restore the cursor position.
    pub fn restore_cursor_position(&mut self)
        ensures
            final(self)@ == old(self)@.out(seq![CommandModel::RestorePosition]),
    {
        self.logger.restore_cursor_position();
    }

    /// Manually restore the cursor position and clear the screen below the
    /// cursor.
    pub fn restore_cursor_position_and_clear_below(&mut self)
        ensures
            final(self)@ == old(self)@.out(
                seq![CommandModel::RestorePosition, CommandModel::ClearFromCursorDown],
            ),
    {
        self.logger.restore_cursor_position_and_clear_below();
    }

    /// Opens the overwrite prompt, as `ConsoleLogger::ask_for_overwrite`
    /// does.
    ///
    /// The question can only be put on an interactive terminal.
    pub fn ask_for_overwrite(&mut self, supports_keyboard_enhancement: bool) -> (state:
        PromptState)
        requires
            old(self)@.is_tty,
        ensures
            state == PromptState::Prompting,
            final(self)@ == old(self)@.out(prompt_opening(supports_keyboard_enhancement)),
    {
        self.logger.ask_for_overwrite(supports_keyboard_enhancement)
    }

    /// Takes one event while the prompt is open, as
    /// `ConsoleLogger::overwrite_key` does.
    pub fn overwrite_key(&mut self, state: PromptState, input: KeyInput) -> (next: PromptState)
        ensures
            next == state.after(input),
            final(self)@ == old(self)@.out(state.response(input)),
    {
        self.logger.overwrite_key(state, input)
    }

    /// Hands out what was recorded, standard output first, and leaves the
    /// console with nothing recorded.
    pub fn release(&mut self) -> (recorded: (Vec<ConsoleCommand>, Vec<ConsoleCommand>))
        ensures
            recorded.0.deep_view() == old(self)@.stdout,
            recorded.1.deep_view() == old(self)@.stderr,
            final(self)@ == (LoggerModel {
                is_tty: old(self)@.is_tty,
                stdout: Seq::empty(),
                stderr: Seq::empty(),
            }),
    {
        self.logger.release()
    }
}

} // verus!
