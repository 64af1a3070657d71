//! The error taxonomy of the orchestration engine.

use vstd::prelude::*;
use vstd::string::StringExecFns;

use crate::command::{CommandLine, CommandLineView};

verus! {

/// Why an orchestration step failed.
///
/// Structural failures (detection, missing command, invalid name) are never
/// retried; `RetryExhausted` wraps the last execution failure after the
/// attempt budget is spent; `CacheIoFailure` reports a freshness-cache write
/// that could not be persisted.
#[derive(Debug)]
pub enum SetupError {
    /// No supported package manager found for the host.
    DetectionFailure { message: String },
    /// A command referenced by a recipe is absent from the search path.
    CommandNotFound { command: String },
    /// A resolved per-manager name is empty or contains whitespace.
    InvalidPackageName { name: String },
    /// A declarative recipe table is malformed: an empty package list,
    /// inconsistent manager types, or an invalid package name.
    InvalidRecipe { message: String },
    /// The attempt budget was spent on a failing command; carries the
    /// attempt count, the command, and the captured output of the last run.
    RetryExhausted { attempts: u32, command: CommandLine, detail: String },
    /// A freshness-cache entry could not be written.
    CacheIoFailure { path: String },
}

/// The mathematical value of a `SetupError`.
#[verifier::ext_equal]
pub enum SetupErrorView {
    DetectionFailure { message: Seq<char> },
    CommandNotFound { command: Seq<char> },
    InvalidPackageName { name: Seq<char> },
    InvalidRecipe { message: Seq<char> },
    RetryExhausted { attempts: u32, command: CommandLineView, detail: Seq<char> },
    CacheIoFailure { path: Seq<char> },
}

impl View for SetupError {
    type V = SetupErrorView;

    open spec fn view(&self) -> SetupErrorView {
        match self {
            SetupError::DetectionFailure { message } => SetupErrorView::DetectionFailure {
                message: message@,
            },
            SetupError::CommandNotFound { command } => SetupErrorView::CommandNotFound {
                command: command@,
            },
            SetupError::InvalidPackageName { name } => SetupErrorView::InvalidPackageName {
                name: name@,
            },
            SetupError::InvalidRecipe { message } => SetupErrorView::InvalidRecipe {
                message: message@,
            },
            SetupError::RetryExhausted { attempts, command, detail } => {
                SetupErrorView::RetryExhausted {
                    attempts: *attempts,
                    command: command@,
                    detail: detail@,
                }
            },
            SetupError::CacheIoFailure { path } => SetupErrorView::CacheIoFailure { path: path@ },
        }
    }
}

impl SetupError {
    /// A short human-readable description of the error.
    pub fn describe(&self) -> (r: String)
        ensures
            match self@ {
                SetupErrorView::DetectionFailure { message } => r@ == message,
                SetupErrorView::CommandNotFound { command } => r@ == "required command not found: "@
                    + command,
                SetupErrorView::InvalidPackageName { name } => r@
                    == "invalid package name (empty or contains whitespace): "@ + name,
                SetupErrorView::InvalidRecipe { message } => r@ == "invalid recipe: "@ + message,
                SetupErrorView::RetryExhausted { attempts, command, detail } => r@
                    == "exceeded maximum retry attempts running "@ + command.program + ": "@
                    + detail,
                SetupErrorView::CacheIoFailure { path } => r@ == "cannot write cache entry: "@
                    + path,
            },
    {
        match self {
            SetupError::DetectionFailure { message } => message.clone(),
            SetupError::CommandNotFound { command } => {
                let mut s = String::from_str("required command not found: ");
                s.append(command.as_str());
                s
            },
            SetupError::InvalidPackageName { name } => {
                let mut s = String::from_str("invalid package name (empty or contains whitespace): ");
                s.append(name.as_str());
                s
            },
            SetupError::InvalidRecipe { message } => {
                let mut s = String::from_str("invalid recipe: ");
                s.append(message.as_str());
                s
            },
            SetupError::RetryExhausted { attempts: _, command, detail } => {
                let mut s = String::from_str("exceeded maximum retry attempts running ");
                s.append(command.program.as_str());
                s.append(": ");
                s.append(detail.as_str());
                s
            },
            SetupError::CacheIoFailure { path } => {
                let mut s = String::from_str("cannot write cache entry: ");
                s.append(path.as_str());
                s
            },
        }
    }
}

} // verus!
