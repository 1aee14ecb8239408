//! The commands of the command line tool, and how verbose it is.
use vstd::prelude::*;

verus! {

/// A command of the command line tool, with its arguments.
#[derive(Debug, PartialEq)]
pub enum Command {
    /// Compile exams or questions.
    Compile { exam_or_question_paths: Vec<String>, scorm: bool, zip: bool, no_minification: bool },
    /// Check exams or questions.
    Check { exam_or_question_paths: Vec<String> },
    /// Watch a path.
    Watch { path: String, only_check: bool },
    /// Format exams or questions.
    Fmt { exam_or_question_paths: Vec<String> },
    /// Import a Numbas exam file.
    Import { exam_path: String, question: bool },
    /// Create a rumbas project in the current folder.
    Init { summative: bool },
    /// Update the repository to the next version of rumbas.
    UpdateRepo,
    /// Export exams or questions as one yaml each.
    Export { exam_or_question_paths: Vec<String> },
    /// Write the json schemas.
    Schema,
    /// Write a shell completion file for the named shell.
    GenerateShellCompletion { shell: String },
    /// Write the files of an editor for the Numbas LTI provider.
    EditorOutput { output_path: String, url_prefix: String },
}

impl Command {
    /// Whether the command can run in a repository written for an older version of rumbas:
    /// updating it, creating a project, and writing shell completions.
    pub fn can_execute_in_old_version(&self) -> (r: bool)
        ensures
            r == (*self is UpdateRepo || *self is Init || *self is GenerateShellCompletion),
    {
        match self {
            Command::UpdateRepo => true,
            Command::Init { .. } => true,
            Command::GenerateShellCompletion { .. } => true,
            _ => false,
        }
    }
}

/// How much is logged.
#[derive(Debug, PartialEq, Eq, Structural)]
pub enum LogLevel {
    Off,
    Error,
    Warn,
    Info,
    Debug,
}

/// The level of logging for the command line flags: nothing when quiet; otherwise errors for one
/// `-v`, warnings for two, information for none or three, and everything for four or more.
pub open spec fn log_level_spec(quiet: bool, verbose: u8) -> LogLevel {
    if quiet {
        LogLevel::Off
    } else if verbose == 1 {
        LogLevel::Error
    } else if verbose == 2 {
        LogLevel::Warn
    } else if verbose == 0 || verbose == 3 {
        LogLevel::Info
    } else {
        LogLevel::Debug
    }
}

/// The level of logging for the command line flags.
pub fn log_level(quiet: bool, verbose: u8) -> (r: LogLevel)
    ensures
        r == log_level_spec(quiet, verbose),
{
    if quiet {
        LogLevel::Off
    } else if verbose == 1 {
        LogLevel::Error
    } else if verbose == 2 {
        LogLevel::Warn
    } else if verbose == 0 || verbose == 3 {
        LogLevel::Info
    } else {
        LogLevel::Debug
    }
}

} // verus!
