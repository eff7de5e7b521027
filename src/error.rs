//! Errors that end an execution before it yields a result.
use vstd::prelude::*;
use crate::status::ExecutionStatus;
use crate::text::text_concat;

verus! {

/// Why an execution could not produce a result.
#[derive(Debug, Clone)]
pub enum ExecError {
    /// No container image serves this language and version.
    UnsupportedRuntime { language: String, version: String },
    /// The process backend knows no interpreter for this language.
    UnsupportedLanguage { language: String },
    /// The isolation backend failed to set up the sandbox.
    Backend { message: String },
}

impl ExecError {
    /// Every error of this kind is an environment setup failure.
    pub fn status(&self) -> (r: ExecutionStatus)
        ensures
            r == ExecutionStatus::SystemError,
    {
        ExecutionStatus::SystemError
    }

    /// The human-readable description of the error.
    pub fn message(&self) -> (r: String)
        ensures
            r@ == self.message_spec(),
    {
        match self {
            ExecError::UnsupportedRuntime { language, version } => {
                let mut s = text_concat("Unsupported language or version: ", language.as_str());
                s.append(" ");
                s.append(version.as_str());
                s
            },
            ExecError::UnsupportedLanguage { language } => text_concat(
                "Unsupported language: ",
                language.as_str(),
            ),
            ExecError::Backend { message } => message.clone(),
        }
    }

    pub open spec fn message_spec(&self) -> Seq<char> {
        match self {
            ExecError::UnsupportedRuntime { language, version } => "Unsupported language or version: "@
                + language@ + " "@ + version@,
            ExecError::UnsupportedLanguage { language } => "Unsupported language: "@ + language@,
            ExecError::Backend { message } => message@,
        }
    }
}

} // verus!
