use vscodeconfigurator::error::{
    CliError, CliErrorKind, ErrorReport, ErrorSource, JsonErrorCategory,
};
use vscodeconfigurator::logging::{
    Color, ConsoleCommand, ConsoleLogger, KeyInput, OutputEmoji, PromptState,
};

fn print(text: &str) -> ConsoleCommand {
    ConsoleCommand::Print(text.to_string())
}

fn colored(color: Color, text: &str) -> Vec<ConsoleCommand> {
    vec![ConsoleCommand::SetForegroundColor(color), print(text), ConsoleCommand::ResetColor]
}

#[test]
fn new_logger_has_nothing_recorded() {
    let logger = ConsoleLogger::new(true);
    assert!(logger.is_tty);
    assert!(logger.stdout.is_empty());
    assert!(logger.stderr.is_empty());
    assert!(!ConsoleLogger::new(false).is_tty);
}

#[test]
fn write_info_plain_and_decorated() {
    let mut plain = ConsoleLogger::new(false);
    plain.write_info("hello".to_string());
    assert_eq!(plain.stdout, vec![print("[Info] - hello")]);
    let mut decorated = ConsoleLogger::new(true);
    decorated.write_info("hello".to_string());
    assert_eq!(decorated.stdout, colored(Color::Cyan, "hello"));
    assert!(decorated.stderr.is_empty());
}

#[test]
fn write_success_plain_and_decorated() {
    let mut plain = ConsoleLogger::new(false);
    plain.write_success("fine".to_string());
    assert_eq!(plain.stdout, vec![print("fine")]);
    let mut decorated = ConsoleLogger::new(true);
    decorated.write_success("fine".to_string());
    assert_eq!(decorated.stdout, colored(Color::Green, "fine"));
}

#[test]
fn write_warning_plain_and_decorated() {
    let mut plain = ConsoleLogger::new(false);
    plain.write_warning("careful".to_string());
    assert_eq!(plain.stdout, vec![print("[Warning] - careful")]);
    let mut decorated = ConsoleLogger::new(true);
    decorated.write_warning("careful".to_string());
    assert_eq!(decorated.stdout, colored(Color::Yellow, "careful"));
}

#[test]
fn write_error_plain_and_decorated() {
    let mut plain = ConsoleLogger::new(false);
    plain.write_error("broken".to_string());
    assert_eq!(plain.stdout, vec![print("[Error] - broken")]);
    let mut decorated = ConsoleLogger::new(true);
    decorated.write_error("broken".to_string());
    assert_eq!(decorated.stdout, colored(Color::Red, "broken"));
}

#[test]
fn messages_are_recorded_in_order() {
    let mut logger = ConsoleLogger::new(false);
    logger.write_info("one".to_string());
    logger.write_newline();
    logger.write_success("two".to_string());
    assert_eq!(logger.stdout, vec![print("[Info] - one"), print("\n"), print("two")]);
}

#[test]
fn operation_category_plain_and_decorated() {
    let mut plain = ConsoleLogger::new(false);
    plain.write_operation_category("Installing dependencies");
    assert_eq!(plain.stdout, vec![print("[Info] - Installing dependencies\n")]);
    let mut decorated = ConsoleLogger::new(true);
    decorated.write_operation_category("Installing dependencies");
    assert_eq!(decorated.stdout, colored(Color::Cyan, "🚀 Installing dependencies\n"));
}

#[test]
fn operation_log_plain_and_decorated() {
    let mut plain = ConsoleLogger::new(false);
    plain.write_operation_log("Adding package to tasks.json...", OutputEmoji::Document);
    assert_eq!(plain.stdout, vec![print("[Info] - - Adding package to tasks.json... ")]);
    let mut decorated = ConsoleLogger::new(true);
    decorated.write_operation_log("Adding package to tasks.json...", OutputEmoji::Document);
    assert_eq!(decorated.stdout, colored(Color::Cyan, "- 📄 Adding package to tasks.json... "));
}

#[test]
fn operation_success_log_plain_and_decorated() {
    let mut plain = ConsoleLogger::new(false);
    plain.write_operation_success_log();
    assert_eq!(plain.stdout, vec![print("Done!\n")]);
    let mut decorated = ConsoleLogger::new(true);
    decorated.write_operation_success_log();
    assert_eq!(decorated.stdout, colored(Color::Green, "Done! ✅\n"));
}

#[test]
fn operation_line_has_the_uniform_format() {
    let mut plain = ConsoleLogger::new(false);
    plain.write_operation_log("Copying '.gitignore' to project root...", OutputEmoji::Document);
    plain.write_operation_success_log();
    let text: String = plain
        .stdout
        .iter()
        .map(|command| match command {
            ConsoleCommand::Print(text) => text.clone(),
            _ => String::new(),
        })
        .collect();
    assert_eq!(text, "[Info] - - Copying '.gitignore' to project root... Done!\n");
}

#[test]
fn project_initialized_log_plain_and_decorated() {
    let mut plain = ConsoleLogger::new(false);
    plain.write_project_initialized_log();
    assert_eq!(plain.stdout, vec![print("[Info] - VSCode project initialized!\n")]);
    let mut decorated = ConsoleLogger::new(true);
    decorated.write_project_initialized_log();
    assert_eq!(decorated.stdout, colored(Color::Cyan, "🥳 VSCode project initialized!\n"));
}

#[test]
fn emoji_texts() {
    assert_eq!(OutputEmoji::Rocket.as_str(), "🚀");
    assert_eq!(OutputEmoji::Document.as_str(), "📄");
    assert_eq!(OutputEmoji::CheckMark.as_str(), "✅");
    assert_eq!(OutputEmoji::OrangeCircle.as_str(), "🟠");
    assert_eq!(OutputEmoji::Folder.as_str(), "📁");
    assert_eq!(OutputEmoji::Package.as_str(), "📦");
    assert_eq!(OutputEmoji::Party.as_str(), "🥳");
    assert_eq!(OutputEmoji::Hand.as_str(), "✋");
    assert_eq!(OutputEmoji::Stop.as_str(), "🛑");
    assert_eq!(OutputEmoji::Siren.as_str(), "🚨");
}

#[test]
fn cursor_commands() {
    let mut logger = ConsoleLogger::new(false);
    logger.save_cursor_position();
    logger.restore_cursor_position();
    logger.restore_cursor_position_and_clear_below();
    assert_eq!(
        logger.stdout,
        vec![
            ConsoleCommand::SavePosition,
            ConsoleCommand::RestorePosition,
            ConsoleCommand::RestorePosition,
            ConsoleCommand::ClearFromCursorDown,
        ]
    );
}

#[test]
fn release_hands_out_and_empties() {
    let mut logger = ConsoleLogger::new(false);
    logger.write_info("one".to_string());
    logger.emit_error(print("oops"));
    let (out, err) = logger.release();
    assert_eq!(out, vec![print("[Info] - one")]);
    assert_eq!(err, vec![print("oops")]);
    assert!(logger.stdout.is_empty());
    assert!(logger.stderr.is_empty());
    assert!(!logger.is_tty);
    let (out, err) = logger.release();
    assert!(out.is_empty());
    assert!(err.is_empty());
}

#[test]
fn error_extended_plain_with_kind() {
    let mut logger = ConsoleLogger::new(false);
    let error = CliError::new("No subcommand provided.", CliErrorKind::NoSubcommandProvided);
    logger.write_error_extended(&ErrorReport::from_cli_error(&error));
    assert!(logger.stdout.is_empty());
    assert_eq!(
        logger.stderr,
        vec![print("\n[Error] - Internal error (Kind: NoSubcommandProvided): No subcommand provided.")]
    );
}

#[test]
fn error_extended_plain_without_kind() {
    let mut logger = ConsoleLogger::new(false);
    let report = ErrorReport { source: ErrorSource::Unknown, message: "prefix not found".to_string() };
    logger.write_error_extended(&report);
    assert_eq!(logger.stderr, vec![print("\n[Error] - Unknown error: prefix not found")]);
    let mut parser = ConsoleLogger::new(false);
    parser.write_error_extended(&ErrorReport {
        source: ErrorSource::ArgumentParser,
        message: "bad flag".to_string(),
    });
    assert_eq!(parser.stderr, vec![print("\n[Error] - CLI Argument Parser error: bad flag")]);
}

#[test]
fn error_extended_plain_io_and_json() {
    let mut logger = ConsoleLogger::new(false);
    logger.write_error_extended(&ErrorReport {
        source: ErrorSource::Io("permission denied".to_string()),
        message: "Permission denied (os error 13)".to_string(),
    });
    logger.write_error_extended(&ErrorReport {
        source: ErrorSource::Json(JsonErrorCategory::Syntax),
        message: "expected value at line 1 column 1".to_string(),
    });
    assert_eq!(
        logger.stderr,
        vec![
            print("\n[Error] - I/O error (Kind: permission denied): Permission denied (os error 13)"),
            print("\n[Error] - JSON parsing error (Kind: Syntax error): expected value at line 1 column 1"),
        ]
    );
}

#[test]
fn error_extended_decorated_with_kind() {
    let mut logger = ConsoleLogger::new(true);
    logger.write_error_extended(&ErrorReport {
        source: ErrorSource::Internal(CliErrorKind::UnableToParseSolutionName),
        message: "The solution name could not be determined.".to_string(),
    });
    assert!(logger.stderr.is_empty());
    assert_eq!(
        logger.stdout,
        vec![
            print("\n\n"),
            ConsoleCommand::SetBold,
            ConsoleCommand::SetBackgroundColor(Color::Red),
            ConsoleCommand::SetForegroundColor(Color::White),
            print("🚨 Error "),
            ConsoleCommand::ResetColor,
            ConsoleCommand::SetBold,
            ConsoleCommand::SetForegroundColor(Color::Red),
            ConsoleCommand::SetBackgroundColor(Color::Grey),
            print(" Internal error "),
            ConsoleCommand::ResetColor,
            ConsoleCommand::SetBold,
            ConsoleCommand::SetForegroundColor(Color::Red),
            ConsoleCommand::SetBackgroundColor(Color::Black),
            print(" Kind: UnableToParseSolutionName "),
            ConsoleCommand::ResetColor,
            ConsoleCommand::SetForegroundColor(Color::Red),
            print("\n\nThe solution name could not be determined."),
            ConsoleCommand::ResetColor,
        ]
    );
}

#[test]
fn error_extended_decorated_without_kind() {
    let mut logger = ConsoleLogger::new(true);
    logger.write_error_extended(&ErrorReport {
        source: ErrorSource::Unknown,
        message: "what".to_string(),
    });
    assert_eq!(logger.stdout.len(), 14);
    assert_eq!(logger.stdout[9], print(" Unknown error "));
    assert_eq!(logger.stdout[12], print("\n\nwhat"));
}

#[test]
fn error_source_headings_and_details() {
    assert_eq!(ErrorSource::Io("k".to_string()).heading(), "I/O error");
    assert_eq!(ErrorSource::ArgumentParser.heading(), "CLI Argument Parser error");
    assert_eq!(ErrorSource::Json(JsonErrorCategory::Eof).heading(), "JSON parsing error");
    assert_eq!(ErrorSource::Internal(CliErrorKind::UnknownError).heading(), "Internal error");
    assert_eq!(ErrorSource::Unknown.heading(), "Unknown error");
    assert_eq!(ErrorSource::Io("k".to_string()).detail(), Some("k".to_string()));
    assert_eq!(ErrorSource::ArgumentParser.detail(), None);
    assert_eq!(ErrorSource::Json(JsonErrorCategory::Io).detail(), Some("I/O error".to_string()));
    assert_eq!(ErrorSource::Json(JsonErrorCategory::Data).detail(), Some("Data error".to_string()));
    assert_eq!(
        ErrorSource::Json(JsonErrorCategory::Eof).detail(),
        Some("End of file error".to_string())
    );
    assert_eq!(
        ErrorSource::Internal(CliErrorKind::FilePathDoesNotExist).detail(),
        Some("FilePathDoesNotExist".to_string())
    );
    assert_eq!(ErrorSource::Unknown.detail(), None);
}

#[test]
fn cli_error_new_and_kind_names() {
    let error = CliError::new("No subcommand provided.", CliErrorKind::NoSubcommandProvided);
    assert_eq!(error.message, "No subcommand provided.");
    assert_eq!(error.kind, CliErrorKind::NoSubcommandProvided);
    assert_eq!(error.to_text(), "No subcommand provided.");
    assert_eq!(CliErrorKind::NoSubcommandProvided.name(), "NoSubcommandProvided");
    assert_eq!(CliErrorKind::UnableToParseSolutionName.name(), "UnableToParseSolutionName");
    assert_eq!(CliErrorKind::FilePathDoesNotExist.name(), "FilePathDoesNotExist");
    assert_eq!(CliErrorKind::UnsupportedOperatingSystem.name(), "UnsupportedOperatingSystem");
    assert_eq!(CliErrorKind::OutputDirectoryDoesNotExist.name(), "OutputDirectoryDoesNotExist");
    assert_eq!(CliErrorKind::UnknownError.name(), "UnknownError");
}

fn opening(supports: bool) -> Vec<ConsoleCommand> {
    let mut commands = Vec::new();
    if supports {
        commands.push(ConsoleCommand::PushKeyboardEnhancementFlags);
    }
    commands.push(ConsoleCommand::SavePosition);
    commands.extend(colored(Color::Yellow, "✋ Overwrite? ([y]es/[n]o/[q]uit) "));
    commands.push(ConsoleCommand::EnableRawMode);
    commands
}

#[test]
fn prompt_opens_with_question_and_raw_mode() {
    let mut logger = ConsoleLogger::new(true);
    let state = logger.ask_for_overwrite(false);
    assert_eq!(state, PromptState::Prompting);
    assert_eq!(logger.stdout, opening(false));
    let mut enhanced = ConsoleLogger::new(true);
    assert_eq!(enhanced.ask_for_overwrite(true), PromptState::Prompting);
    assert_eq!(enhanced.stdout, opening(true));
}

#[test]
fn prompt_confirms_on_y() {
    let mut logger = ConsoleLogger::new(true);
    let state = logger.ask_for_overwrite(false);
    logger.release();
    let next = logger.overwrite_key(state, KeyInput::Character('y'));
    assert_eq!(next, PromptState::Confirmed);
    assert_eq!(next.decision(), Some(true));
    assert_eq!(
        logger.stdout,
        vec![
            ConsoleCommand::DisableRawMode,
            ConsoleCommand::RestorePosition,
            ConsoleCommand::ClearFromCursorDown,
        ]
    );
}

#[test]
fn prompt_declines_on_n() {
    let mut logger = ConsoleLogger::new(true);
    let state = logger.ask_for_overwrite(false);
    logger.release();
    let next = logger.overwrite_key(state, KeyInput::Character('n'));
    assert_eq!(next, PromptState::Declined);
    assert_eq!(next.decision(), Some(false));
    assert_eq!(
        logger.stdout,
        vec![
            ConsoleCommand::DisableRawMode,
            ConsoleCommand::RestorePosition,
            ConsoleCommand::ClearFromCursorDown,
        ]
    );
}

#[test]
fn prompt_quits_on_q() {
    let mut logger = ConsoleLogger::new(true);
    let state = logger.ask_for_overwrite(false);
    logger.release();
    let next = logger.overwrite_key(state, KeyInput::Character('q'));
    assert_eq!(next, PromptState::Quit);
    assert_eq!(next.decision(), None);
    let mut expected = vec![ConsoleCommand::DisableRawMode];
    expected.extend(colored(Color::Red, "\n\n🛑 Quitting...\n"));
    assert_eq!(logger.stdout, expected);
}

#[test]
fn prompt_asks_again_on_another_key() {
    let mut logger = ConsoleLogger::new(true);
    let state = logger.ask_for_overwrite(false);
    logger.release();
    for input in [KeyInput::Character('x'), KeyInput::Character('Y'), KeyInput::OtherKey] {
        let next = logger.overwrite_key(state, input);
        assert_eq!(next, PromptState::Prompting);
        assert_eq!(next.decision(), None);
        let (out, _) = logger.release();
        assert_eq!(
            out,
            vec![
                ConsoleCommand::DisableRawMode,
                ConsoleCommand::RestorePosition,
                ConsoleCommand::ClearFromCursorDown,
                ConsoleCommand::SavePosition,
                ConsoleCommand::SetForegroundColor(Color::Red),
                print("🛑 Invalid input. "),
                ConsoleCommand::SetForegroundColor(Color::Yellow),
                print("✋ Overwrite? ([y]es/[n]o/[q]uit) "),
                ConsoleCommand::ResetColor,
                ConsoleCommand::EnableRawMode,
            ]
        );
    }
}

#[test]
fn prompt_passes_over_events_that_are_no_keys() {
    let mut logger = ConsoleLogger::new(true);
    let state = logger.ask_for_overwrite(false);
    logger.release();
    assert_eq!(logger.overwrite_key(state, KeyInput::OtherEvent), PromptState::Prompting);
    assert!(logger.stdout.is_empty());
}

#[test]
fn prompt_fails_on_a_failure_of_the_terminal() {
    let mut logger = ConsoleLogger::new(true);
    let state = logger.ask_for_overwrite(false);
    logger.release();
    let next = logger.overwrite_key(state, KeyInput::Failure);
    assert_eq!(next, PromptState::Failed);
    assert_eq!(next.decision(), None);
    assert_eq!(logger.stdout, vec![ConsoleCommand::DisableRawMode]);
}

#[test]
fn prompt_failure_after_retries_leaves_raw_mode_off() {
    let mut logger = ConsoleLogger::new(true);
    let mut state = logger.ask_for_overwrite(true);
    for input in [KeyInput::Character('x'), KeyInput::OtherEvent, KeyInput::OtherKey, KeyInput::Failure] {
        state = logger.overwrite_key(state, input);
    }
    assert_eq!(state, PromptState::Failed);
    let raw: Vec<bool> = logger
        .stdout
        .iter()
        .filter_map(|command| match command {
            ConsoleCommand::EnableRawMode => Some(true),
            ConsoleCommand::DisableRawMode => Some(false),
            _ => None,
        })
        .collect();
    assert_eq!(raw, vec![true, false, true, false, true, false]);
}

#[test]
fn prompt_decision_stays() {
    let mut logger = ConsoleLogger::new(true);
    for decided in
        [PromptState::Confirmed, PromptState::Declined, PromptState::Quit, PromptState::Failed]
    {
        for input in [
            KeyInput::Character('y'),
            KeyInput::Character('n'),
            KeyInput::OtherKey,
            KeyInput::Failure,
        ] {
            assert_eq!(logger.overwrite_key(decided, input), decided);
        }
    }
    assert!(logger.stdout.is_empty());
}

#[test]
fn prompt_retry_then_answer() {
    let mut logger = ConsoleLogger::new(true);
    let mut state = logger.ask_for_overwrite(true);
    for key in ['a', 'b', 'n'] {
        state = logger.overwrite_key(state, KeyInput::Character(key));
    }
    assert_eq!(state, PromptState::Declined);
    let raw: Vec<bool> = logger
        .stdout
        .iter()
        .filter_map(|command| match command {
            ConsoleCommand::EnableRawMode => Some(true),
            ConsoleCommand::DisableRawMode => Some(false),
            _ => None,
        })
        .collect();
    assert_eq!(raw, vec![true, false, true, false, true, false]);
}
