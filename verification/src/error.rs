//! Errors that the controller and the smart-plug backend report.

use vstd::prelude::*;
use vstd::string::*;
use crate::text::{decimal, decimal_string, signed_decimal, signed_decimal_string};

verus! {

/// The two requests that the smart-plug tool serves.
#[derive(Debug, Clone, Copy, PartialEq, Eq, Structural)]
pub enum MiotOp {
    /// Read a property.
    GetProp,
    /// Write a property.
    SetProp,
}

impl MiotOp {
    /// The word by which the tool is asked for the request.
    pub open spec fn word(self) -> Seq<char> {
        match self {
            MiotOp::GetProp => "get"@,
            MiotOp::SetProp => "set"@,
        }
    }

    /// The word by which the tool is asked for the request.
    pub fn as_str(self) -> (r: &'static str)
        ensures
            r@ == self.word(),
    {
        match self {
            MiotOp::GetProp => "get",
            MiotOp::SetProp => "set",
        }
    }
}

/// Why an action or a request failed.
#[derive(Debug, PartialEq, Eq)]
pub enum AtxError {
    /// The action is bound to the smart plug, and no smart-plug backend is live.
    MiotNotInitialized,
    /// The power key is bound to a local driver, and no power executor is live.
    PowerNotConfigured,
    /// The reset key is bound to a local driver, and no reset executor is live.
    ResetNotConfigured,
    /// The tool could not be started.
    SpawnFailed {
        /// The tool that was to run.
        command: String,
        /// What the system said.
        reason: String,
    },
    /// The tool did not end within the time allowed, and was killed.
    Timeout {
        /// The request that was made.
        op: MiotOp,
        /// The time allowed, in seconds.
        secs: u64,
    },
    /// Waiting for the tool failed.
    WaitFailed {
        /// The request that was made.
        op: MiotOp,
        /// What the system said.
        reason: String,
    },
    /// A read ended with a status other than 0.
    GetFailed {
        /// The exit code; -1 where the tool ended without one.
        exit_code: i32,
        /// What the tool wrote to its standard output, trimmed.
        stdout: String,
        /// What the tool wrote to its standard error, trimmed.
        stderr: String,
    },
    /// A write ended with a status other than 0.
    SetFailed {
        /// The property that was to be written.
        prop: String,
        /// The value that was to be written.
        value: String,
        /// The exit code; -1 where the tool ended without one.
        exit_code: i32,
        /// What the tool wrote to its standard output, trimmed.
        stdout: String,
        /// What the tool wrote to its standard error, trimmed.
        stderr: String,
    },
    /// A read ended with status 0, and no line of its output carries a value.
    NoValue {
        /// What the tool wrote to its standard output, trimmed.
        stdout: String,
    },
}

impl AtxError {
    /// The backend that the action is bound to is absent.
    pub open spec fn not_configured(&self) -> bool {
        self is MiotNotInitialized || self is PowerNotConfigured || self is ResetNotConfigured
    }

    /// Whether the error says that the backend of the action is absent.
    #[verifier::when_used_as_spec(not_configured)]
    pub fn is_not_configured(&self) -> (b: bool)
        ensures
            b == self.not_configured(),
    {
        match self {
            AtxError::MiotNotInitialized => true,
            AtxError::PowerNotConfigured => true,
            AtxError::ResetNotConfigured => true,
            _ => false,
        }
    }

    /// The error in words.
    pub open spec fn text(&self) -> Seq<char> {
        match self {
            AtxError::MiotNotInitialized => "MiIoT backend not initialized"@,
            AtxError::PowerNotConfigured => "Power button not configured"@,
            AtxError::ResetNotConfigured => "Reset button not configured"@,
            AtxError::SpawnFailed { command, reason } => "Failed to spawn '"@ + command@ + "': "@
                + reason@ + ". Is mijiaAPI installed and in PATH?"@,
            AtxError::Timeout { op, secs } => "mijiaAPI "@ + op.word() + " timed out after "@
                + decimal(*secs as nat) + "s"@,
            AtxError::WaitFailed { op, reason } => "mijiaAPI "@ + op.word() + " wait failed: "@
                + reason@,
            AtxError::GetFailed { exit_code, stdout, stderr } => "mijiaAPI get failed (exit "@
                + signed_decimal(*exit_code as int) + "): stdout="@ + stdout@ + ", stderr="@
                + stderr@,
            AtxError::SetFailed { prop, value, exit_code, stdout, stderr } => "mijiaAPI set "@
                + prop@ + "="@ + value@ + " failed (exit "@ + signed_decimal(*exit_code as int)
                + "): stdout="@ + stdout@ + ", stderr="@ + stderr@,
            AtxError::NoValue { stdout } => "Could not parse MiIoT output: '"@ + stdout@ + "'"@,
        }
    }

    /// The error in words, for a log or a caller.
    pub fn message(&self) -> (r: String)
        ensures
            r@ == self.text(),
    {
        match self {
            AtxError::MiotNotInitialized => "MiIoT backend not initialized".to_owned(),
            AtxError::PowerNotConfigured => "Power button not configured".to_owned(),
            AtxError::ResetNotConfigured => "Reset button not configured".to_owned(),
            AtxError::SpawnFailed { command, reason } => {
                let mut r = "Failed to spawn '".to_owned();
                r.append(command.as_str());
                r.append("': ");
                r.append(reason.as_str());
                r.append(". Is mijiaAPI installed and in PATH?");
                r
            },
            AtxError::Timeout { op, secs } => {
                let mut r = "mijiaAPI ".to_owned();
                r.append(op.as_str());
                r.append(" timed out after ");
                r.append(decimal_string(*secs).as_str());
                r.append("s");
                r
            },
            AtxError::WaitFailed { op, reason } => {
                let mut r = "mijiaAPI ".to_owned();
                r.append(op.as_str());
                r.append(" wait failed: ");
                r.append(reason.as_str());
                r
            },
            AtxError::GetFailed { exit_code, stdout, stderr } => {
                let mut r = "mijiaAPI get failed (exit ".to_owned();
                r.append(signed_decimal_string(*exit_code).as_str());
                r.append("): stdout=");
                r.append(stdout.as_str());
                r.append(", stderr=");
                r.append(stderr.as_str());
                r
            },
            AtxError::SetFailed { prop, value, exit_code, stdout, stderr } => {
                let mut r = "mijiaAPI set ".to_owned();
                r.append(prop.as_str());
                r.append("=");
                r.append(value.as_str());
                r.append(" failed (exit ");
                r.append(signed_decimal_string(*exit_code).as_str());
                r.append("): stdout=");
                r.append(stdout.as_str());
                r.append(", stderr=");
                r.append(stderr.as_str());
                r
            },
            AtxError::NoValue { stdout } => {
                let mut r = "Could not parse MiIoT output: '".to_owned();
                r.append(stdout.as_str());
                r.append("'");
                r
            },
        }
    }
}

} // verus!
