//! The errors a command can end with, and how a failure is described to the
//! console.

use vstd::prelude::*;

verus! {

/// The kind of error that stopped a command.
#[derive(Debug, Copy, Clone, PartialEq, Eq, Structural)]
pub enum CliErrorKind {
    /// No subcommand was provided.
    NoSubcommandProvided,
    /// The solution name could not be parsed.
    UnableToParseSolutionName,
    /// The file path does not exist.
    FilePathDoesNotExist,
    /// The operating system is not supported.
    UnsupportedOperatingSystem,
    /// The output directory does not exist.
    OutputDirectoryDoesNotExist,
    /// Unknown error.
    UnknownError,
}

impl CliErrorKind {
    /// The kind's name, as it is shown to the user.
    pub open spec fn spec_name(self) -> Seq<char> {
        match self {
            CliErrorKind::NoSubcommandProvided => "NoSubcommandProvided"@,
            CliErrorKind::UnableToParseSolutionName => "UnableToParseSolutionName"@,
            CliErrorKind::FilePathDoesNotExist => "FilePathDoesNotExist"@,
            CliErrorKind::UnsupportedOperatingSystem => "UnsupportedOperatingSystem"@,
            CliErrorKind::OutputDirectoryDoesNotExist => "OutputDirectoryDoesNotExist"@,
            CliErrorKind::UnknownError => "UnknownError"@,
        }
    }

    /// The kind's name, as it is shown to the user.
    pub fn name(&self) -> (name: &'static str)
        ensures
            name@ == self.spec_name(),
    {
        match self {
            CliErrorKind::NoSubcommandProvided => "NoSubcommandProvided",
            CliErrorKind::UnableToParseSolutionName => "UnableToParseSolutionName",
            CliErrorKind::FilePathDoesNotExist => "FilePathDoesNotExist",
            CliErrorKind::UnsupportedOperatingSystem => "UnsupportedOperatingSystem",
            CliErrorKind::OutputDirectoryDoesNotExist => "OutputDirectoryDoesNotExist",
            CliErrorKind::UnknownError => "UnknownError",
        }
    }
}

/// An error that occurred during the execution of a command.
#[derive(Debug)]
pub struct CliError {
    /// The error message.
    pub message: String,
    /// The kind of error.
    pub kind: CliErrorKind,
}

/// What a `CliError` holds.
pub struct CliErrorModel {
    pub message: Seq<char>,
    pub kind: CliErrorKind,
}

impl View for CliError {
    type V = CliErrorModel;

    open spec fn view(&self) -> CliErrorModel {
        CliErrorModel { message: self.message@, kind: self.kind }
    }
}

impl CliError {
    /// An error of the given kind with the given message.
    pub fn new(message: &str, kind: CliErrorKind) -> (error: Self)
        ensures
            error@ == (CliErrorModel { message: message@, kind }),
    {
        Self { message: message.to_owned(), kind }
    }

    /// The text shown for this error: its message.
    pub fn to_text(&self) -> (text: String)
        ensures
            text@ == self@.message,
    {
        self.message.clone()
    }
}

/// How a JSON text failed to parse.
#[derive(Debug, Copy, Clone, PartialEq, Eq, Structural)]
pub enum JsonErrorCategory {
    /// A failure to read or write bytes.
    Io,
    /// The text is not syntactically valid JSON.
    Syntax,
    /// The data is semantically incorrect.
    Data,
    /// The text ended too early.
    Eof,
}

impl JsonErrorCategory {
    /// The category's description, as it is shown to the user.
    pub open spec fn spec_description(self) -> Seq<char> {
        match self {
            JsonErrorCategory::Io => "I/O error"@,
            JsonErrorCategory::Syntax => "Syntax error"@,
            JsonErrorCategory::Data => "Data error"@,
            JsonErrorCategory::Eof => "End of file error"@,
        }
    }

    /// The category's description, as it is shown to the user.
    pub fn description(&self) -> (text: &'static str)
        ensures
            text@ == self.spec_description(),
    {
        match self {
            JsonErrorCategory::Io => "I/O error",
            JsonErrorCategory::Syntax => "Syntax error",
            JsonErrorCategory::Data => "Data error",
            JsonErrorCategory::Eof => "End of file error",
        }
    }
}

/// Where a failure came from.
#[derive(Debug)]
pub enum ErrorSource {
    /// An input or output operation failed; the text describes how.
    Io(String),
    /// The command line could not be parsed.
    ArgumentParser,
    /// A JSON text could not be parsed.
    Json(JsonErrorCategory),
    /// The tool itself reported the error.
    Internal(CliErrorKind),
    /// Anything else.
    Unknown,
}

/// What an `ErrorSource` holds.
pub enum ErrorSourceModel {
    Io(Seq<char>),
    ArgumentParser,
    Json(JsonErrorCategory),
    Internal(CliErrorKind),
    Unknown,
}

impl View for ErrorSource {
    type V = ErrorSourceModel;

    open spec fn view(&self) -> ErrorSourceModel {
        match self {
            ErrorSource::Io(kind) => ErrorSourceModel::Io(kind@),
            ErrorSource::ArgumentParser => ErrorSourceModel::ArgumentParser,
            ErrorSource::Json(category) => ErrorSourceModel::Json(*category),
            ErrorSource::Internal(kind) => ErrorSourceModel::Internal(*kind),
            ErrorSource::Unknown => ErrorSourceModel::Unknown,
        }
    }
}

impl ErrorSourceModel {
    /// The heading under which a failure from this source is shown.
    pub open spec fn heading(self) -> Seq<char> {
        match self {
            ErrorSourceModel::Io(_) => "I/O error"@,
            ErrorSourceModel::ArgumentParser => "CLI Argument Parser error"@,
            ErrorSourceModel::Json(_) => "JSON parsing error"@,
            ErrorSourceModel::Internal(_) => "Internal error"@,
            ErrorSourceModel::Unknown => "Unknown error"@,
        }
    }

    /// The kind shown beside the heading, where the source has one.
    pub open spec fn detail(self) -> Option<Seq<char>> {
        match self {
            ErrorSourceModel::Io(kind) => Some(kind),
            ErrorSourceModel::ArgumentParser => None,
            ErrorSourceModel::Json(category) => Some(category.spec_description()),
            ErrorSourceModel::Internal(kind) => Some(kind.spec_name()),
            ErrorSourceModel::Unknown => None,
        }
    }
}

impl ErrorSource {
    /// The heading under which a failure from this source is shown.
    pub fn heading(&self) -> (text: &'static str)
        ensures
            text@ == self@.heading(),
    {
        match self {
            ErrorSource::Io(_) => "I/O error",
            ErrorSource::ArgumentParser => "CLI Argument Parser error",
            ErrorSource::Json(_) => "JSON parsing error",
            ErrorSource::Internal(_) => "Internal error",
            ErrorSource::Unknown => "Unknown error",
        }
    }

    /// The kind shown beside the heading, where the source has one.
    pub fn detail(&self) -> (text: Option<String>)
        ensures
            match self@.detail() {
                Some(expected) => text matches Some(t) && t@ == expected,
                None => text is None,
            },
    {
        match self {
            ErrorSource::Io(kind) => Some(kind.clone()),
            ErrorSource::ArgumentParser => None,
            ErrorSource::Json(category) => Some(category.description().to_owned()),
            ErrorSource::Internal(kind) => Some(kind.name().to_owned()),
            ErrorSource::Unknown => None,
        }
    }
}

/// A failure as the console shows it: where it came from and what it says.
#[derive(Debug)]
pub struct ErrorReport {
    /// Where the failure came from.
    pub source: ErrorSource,
    /// The failure's own message.
    pub message: String,
}

/// What an `ErrorReport` holds.
pub struct ErrorReportModel {
    pub source: ErrorSourceModel,
    pub message: Seq<char>,
}

impl View for ErrorReport {
    type V = ErrorReportModel;

    open spec fn view(&self) -> ErrorReportModel {
        ErrorReportModel { source: self.source@, message: self.message@ }
    }
}

impl ErrorReport {
    /// The report of an error that the tool itself raised.
    pub fn from_cli_error(error: &CliError) -> (report: Self)
        ensures
            report@ == (ErrorReportModel {
                source: ErrorSourceModel::Internal(error@.kind),
                message: error@.message,
            }),
    {
        ErrorReport {
            source: ErrorSource::Internal(error.kind),
            message: error.message.clone(),
        }
    }
}

} // verus!
