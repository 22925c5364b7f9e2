//! The errors that the application reports.

use crate::text::concat;
use vstd::prelude::*;

verus! {

/// AV1Converter application error
#[derive(Debug, Clone)]
pub enum AppError {
    /// File I/O error
    Io { path: String, operation: String, message: String },
    /// Video analysis failed
    Analysis(String),
    /// Configuration error
    Config(String),
    /// VMAF calculation failed
    Vmaf(String),
    /// Required dependency missing
    DependencyMissing(String),
    /// JSON parsing error
    Parse { context: String, message: String },
    /// Command execution failed
    CommandExecution(String),
    /// Quality search failed
    AbAv1(String),
    /// The encoded file could not be checked
    Validation(String),
}

impl AppError {
    /// The sentence that describes the error.
    pub open spec fn text(&self) -> Seq<char> {
        match *self {
            AppError::Io { path, operation, message } => "I/O error during '"@ + operation@
                + "' on '"@ + path@ + "': "@ + message@,
            AppError::Analysis(msg) => "Video analysis failed: "@ + msg@,
            AppError::Config(msg) => "Configuration error: "@ + msg@,
            AppError::Vmaf(msg) => "VMAF calculation failed: "@ + msg@,
            AppError::DependencyMissing(dep) => "Required dependency missing: "@ + dep@,
            AppError::Parse { context, message } => "Parse error in "@ + context@ + ": "@
                + message@,
            AppError::CommandExecution(msg) => "Command execution failed: "@ + msg@,
            AppError::AbAv1(msg) => "Quality search failed: "@ + msg@,
            AppError::Validation(msg) => "Validation failed: "@ + msg@,
        }
    }

    /// Describes the error in one sentence.
    pub fn message(&self) -> (s: String)
        ensures
            s@ == self.text(),
    {
        match self {
            AppError::Io { path, operation, message } => {
                let mut s = "I/O error during '".to_string();
                s.append(operation.as_str());
                s.append("' on '");
                s.append(path.as_str());
                s.append("': ");
                s.append(message.as_str());
                s
            },
            AppError::Analysis(msg) => concat("Video analysis failed: ", msg.as_str()),
            AppError::Config(msg) => concat("Configuration error: ", msg.as_str()),
            AppError::Vmaf(msg) => concat("VMAF calculation failed: ", msg.as_str()),
            AppError::DependencyMissing(dep) => concat(
                "Required dependency missing: ",
                dep.as_str(),
            ),
            AppError::Parse { context, message } => {
                let mut s = "Parse error in ".to_string();
                s.append(context.as_str());
                s.append(": ");
                s.append(message.as_str());
                s
            },
            AppError::CommandExecution(msg) => concat("Command execution failed: ", msg.as_str()),
            AppError::AbAv1(msg) => concat("Quality search failed: ", msg.as_str()),
            AppError::Validation(msg) => concat("Validation failed: ", msg.as_str()),
        }
    }
}

} // verus!
