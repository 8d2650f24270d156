use vscodeconfigurator::console_utils::{emoji_pattern, trim_start, whitespace, ConsoleUtils};
use vscodeconfigurator::error::{CliErrorKind, ErrorReport, ErrorSource};
use vscodeconfigurator::logging::{Color, ConsoleCommand, KeyInput, PromptState};

fn print(text: &str) -> ConsoleCommand {
    ConsoleCommand::Print(text.to_string())
}

fn colored(color: Color, text: &str) -> Vec<ConsoleCommand> {
    vec![ConsoleCommand::SetForegroundColor(color), print(text), ConsoleCommand::ResetColor]
}

#[test]
fn emoji_pattern_is_the_class_of_the_emojis() {
    assert_eq!(emoji_pattern(), "[🚀📄✅🟠📁📦🥳✋🛑🚨]");
}

#[test]
fn remove_emojis_removes_only_the_emojis() {
    let console = ConsoleUtils::new(false).unwrap();
    assert_eq!(console.remove_emojis("🚀 Launch ✅ done 🟠"), " Launch  done ");
    assert_eq!(console.remove_emojis("no emojis [here]"), "no emojis [here]");
    assert_eq!(console.remove_emojis("🚀📄✅🟠📁📦🥳✋🛑🚨"), "");
    assert_eq!(console.remove_emojis("other 😀 stays"), "other 😀 stays");
    assert_eq!(console.remove_emojis(""), "");
}

#[test]
fn whitespace_and_trim_start_agree_with_std() {
    for c in ['\t', '\n', '\u{000B}', '\u{000C}', '\r', ' ', '\u{0085}', '\u{00A0}', '\u{1680}',
        '\u{2000}', '\u{200A}', '\u{2028}', '\u{2029}', '\u{202F}', '\u{205F}', '\u{3000}', 'a',
        '0', '\u{200B}', '\u{0008}', '\u{000E}', '🚀']
    {
        assert_eq!(whitespace(c), c.is_whitespace());
    }
    for text in ["  a b ", "\t\n x", "x  ", "", "   ", "\u{3000}\u{00A0}é "] {
        assert_eq!(trim_start(text), text.trim_start());
    }
}

#[test]
fn plain_console_strips_emojis_and_leading_space() {
    let mut console = ConsoleUtils::new(false).unwrap();
    assert!(!console.is_tty());
    console.write_info("🚀 Launching".to_string());
    console.write_success("✅ Done!\n".to_string());
    console.write_warning("Already exists 🟠\n".to_string());
    console.write_error("🛑 Stop".to_string());
    let (out, err) = console.release();
    assert_eq!(
        out,
        vec![
            print("[Info] - Launching"),
            print("Done!\n"),
            print("[Warning] - Already exists \n"),
            print("[Error] - Stop"),
        ]
    );
    assert!(err.is_empty());
}

#[test]
fn decorated_console_keeps_the_message() {
    let mut console = ConsoleUtils::new(true).unwrap();
    assert!(console.is_tty());
    console.write_info("🚀 Launching".to_string());
    console.write_success(" ✅ Done!\n".to_string());
    console.write_warning("careful".to_string());
    console.write_error("🛑 Stop".to_string());
    let mut expected = colored(Color::Cyan, "🚀 Launching");
    expected.extend(colored(Color::Green, " ✅ Done!\n"));
    expected.extend(colored(Color::Yellow, "careful"));
    expected.extend(colored(Color::Red, "🛑 Stop"));
    assert_eq!(console.release().0, expected);
}

#[test]
fn console_error_extended_plain() {
    let mut console = ConsoleUtils::new(false).unwrap();
    console.write_error_extended(&ErrorReport {
        source: ErrorSource::Internal(CliErrorKind::NoSubcommandProvided),
        message: "No subcommand provided.".to_string(),
    });
    console.write_error_extended(&ErrorReport {
        source: ErrorSource::Unknown,
        message: "what".to_string(),
    });
    let (out, err) = console.release();
    assert!(out.is_empty());
    assert_eq!(
        err,
        vec![
            print("[Error] - Internal error (Kind: NoSubcommandProvided): No subcommand provided."),
            print("[Error] - Unknown error: what"),
        ]
    );
}

#[test]
fn console_error_extended_decorated() {
    let mut console = ConsoleUtils::new(true).unwrap();
    console.write_error_extended(&ErrorReport {
        source: ErrorSource::Io("not found".to_string()),
        message: "No such file".to_string(),
    });
    assert_eq!(
        console.release().0,
        vec![
            ConsoleCommand::SetBold,
            ConsoleCommand::SetBackgroundColor(Color::Red),
            ConsoleCommand::SetForegroundColor(Color::White),
            print("🚨 Error "),
            ConsoleCommand::ResetColor,
            ConsoleCommand::SetBold,
            ConsoleCommand::SetForegroundColor(Color::Red),
            ConsoleCommand::SetBackgroundColor(Color::Grey),
            print(" I/O error "),
            ConsoleCommand::ResetColor,
            ConsoleCommand::SetBold,
            ConsoleCommand::SetForegroundColor(Color::Red),
            ConsoleCommand::SetBackgroundColor(Color::Black),
            print(" Kind: not found "),
            ConsoleCommand::ResetColor,
            ConsoleCommand::SetForegroundColor(Color::Red),
            print("\n\nNo such file"),
            ConsoleCommand::ResetColor,
        ]
    );
}

#[test]
fn console_cursor_prompt_and_release() {
    let mut console = ConsoleUtils::new(true).unwrap();
    console.save_cursor_position();
    console.restore_cursor_position();
    console.restore_cursor_position_and_clear_below();
    let (out, err) = console.release();
    assert_eq!(
        out,
        vec![
            ConsoleCommand::SavePosition,
            ConsoleCommand::RestorePosition,
            ConsoleCommand::RestorePosition,
            ConsoleCommand::ClearFromCursorDown,
        ]
    );
    assert!(err.is_empty());
    let state = console.ask_for_overwrite(false);
    assert_eq!(state, PromptState::Prompting);
    assert_eq!(console.release().0.len(), 5);
    let next = console.overwrite_key(state, KeyInput::Character('y'));
    assert_eq!(next, PromptState::Confirmed);
    assert_eq!(console.release().0.len(), 3);
    assert!(console.release().0.is_empty());
    console.write_info("still works 🚀".to_string());
    assert_eq!(console.release().0, colored(Color::Cyan, "still works 🚀"));
}
