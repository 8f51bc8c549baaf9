//! The decisions of the command runner. The caller spawns the process,
//! drains its two streams on two readers, sleeps and polls; what to do after
//! each poll and what to make of the outcome is decided here.

use vstd::prelude::*;
use vstd::string::*;
use crate::analyzer::decimal::{decimal_digits, push_decimal};

verus! {

/// How long the caller sleeps between two polls, in milliseconds.
pub const POLL_INTERVAL_MS: u64 = 20;

/// How many characters of the error stream a failure message shows.
pub const STDERR_PREVIEW_CHARS: usize = 500;

/// What the caller does after a poll.
#[derive(Debug, Clone, Copy, PartialEq, Eq, Structural)]
pub enum RunnerAction {
    /// Sleep for the poll interval, then poll again.
    Wait,
    /// Kill the process, wait for it to exit, join both readers, and fail
    /// with a timeout.
    Kill,
    /// The process has exited: join both readers and conclude.
    Collect,
}

/// A process that has exited is collected, whenever that is noticed; one
/// that still runs is killed once more time has passed than the timeout
/// allows, and waited for until then.
pub open spec fn action_after_poll(exited: bool, elapsed_ms: u64, timeout_ms: u64) -> RunnerAction {
    if exited {
        RunnerAction::Collect
    } else if elapsed_ms > timeout_ms {
        RunnerAction::Kill
    } else {
        RunnerAction::Wait
    }
}

/// What to do after a poll that found the process exited or not, after
/// `elapsed_ms` of a run that may take `timeout_ms`.
pub fn next_action(exited: bool, elapsed_ms: u64, timeout_ms: u64) -> (action: RunnerAction)
    ensures
        action == action_after_poll(exited, elapsed_ms, timeout_ms),
{
    if exited {
        RunnerAction::Collect
    } else if elapsed_ms > timeout_ms {
        RunnerAction::Kill
    } else {
        RunnerAction::Wait
    }
}

/// What a finished process left behind.
#[derive(Debug, PartialEq, Eq)]
pub struct CommandOutput {
    pub success: bool,
    pub status: String,
    pub stdout: String,
    pub stderr: String,
}

/// Why a command gave no usable output.
#[derive(Debug, PartialEq, Eq)]
pub enum CommandError {
    /// The process could not be started.
    Spawn { reason: String },
    /// A stream of the process could not be captured.
    Capture { reason: String },
    /// The process ran longer than allowed and was killed.
    Timeout { timeout_ms: u64 },
    /// A reader of one of the streams failed or crashed.
    Reader,
    /// The process exited with a failure status.
    Exit { status: String, stderr_preview: String },
}

/// The first `limit` characters of `text`, or all of it if it is shorter.
pub open spec fn preview_of(text: Seq<char>, limit: int) -> Seq<char> {
    if text.len() <= limit {
        text
    } else {
        text.take(limit)
    }
}

impl CommandError {
    /// The machine-readable code of the error.
    pub open spec fn code(self) -> Seq<char> {
        match self {
            CommandError::Spawn { .. } => "E_SPAWN"@,
            CommandError::Capture { .. } => "E_CAPTURE"@,
            CommandError::Timeout { .. } => "E_TIMEOUT"@,
            CommandError::Reader => "E_READER"@,
            CommandError::Exit { .. } => "E_EXIT"@,
        }
    }

    /// What follows the code in the message.
    pub open spec fn detail(self) -> Seq<char> {
        match self {
            CommandError::Spawn { reason } => "could not start the command: "@ + reason@,
            CommandError::Capture { reason } => "could not capture the command's output: "@
                + reason@,
            CommandError::Timeout { timeout_ms } => "command timed out after "@ + decimal_digits(
                timeout_ms as nat,
            ) + " ms"@,
            CommandError::Reader => "a reader of the command's output failed"@,
            CommandError::Exit { status, stderr_preview } => "command failed with status: "@
                + status@ + ". Stderr: "@ + stderr_preview@,
        }
    }

    /// The message: the code, a colon and a space, and the detail.
    pub open spec fn message_text(self) -> Seq<char> {
        self.code() + ": "@ + self.detail()
    }

    /// The machine-readable code of the error.
    pub fn error_code(&self) -> (code: &'static str)
        ensures
            code@ == self.code(),
    {
        match self {
            CommandError::Spawn { .. } => "E_SPAWN",
            CommandError::Capture { .. } => "E_CAPTURE",
            CommandError::Timeout { .. } => "E_TIMEOUT",
            CommandError::Reader => "E_READER",
            CommandError::Exit { .. } => "E_EXIT",
        }
    }

    /// The message of the error, which begins with its code.
    pub fn message(&self) -> (text: String)
        ensures
            text@ == self.message_text(),
    {
        let mut text = self.error_code().to_owned();
        text.append(": ");
        match self {
            CommandError::Spawn { reason } => {
                text.append("could not start the command: ");
                text.append(reason.as_str());
            },
            CommandError::Capture { reason } => {
                text.append("could not capture the command's output: ");
                text.append(reason.as_str());
            },
            CommandError::Timeout { timeout_ms } => {
                text.append("command timed out after ");
                push_decimal(&mut text, *timeout_ms);
                text.append(" ms");
            },
            CommandError::Reader => {
                text.append("a reader of the command's output failed");
            },
            CommandError::Exit { status, stderr_preview } => {
                text.append("command failed with status: ");
                text.append(status.as_str());
                text.append(". Stderr: ");
                text.append(stderr_preview.as_str());
            },
        }
        assert(text@ =~= self.message_text());
        text
    }
}

/// The first `limit` characters of `text`.
pub fn preview(text: &str, limit: usize) -> (shown: String)
    ensures
        shown@ == preview_of(text@, limit as int),
{
    let length = text.unicode_len();
    if length <= limit {
        text.to_owned()
    } else {
        let shown = text.substring_char(0, limit).to_owned();
        assert(text@.subrange(0, limit as int) == text@.take(limit as int));
        shown
    }
}

/// The outcome of a run whose process exited and whose readers were
/// joined: a reader that failed (its buffer is `None`) fails the run; else
/// the output is handed on as it is, whatever the exit status.
pub fn conclude(success: bool, status: String, stdout: Option<String>, stderr: Option<String>) -> (outcome:
    Result<CommandOutput, CommandError>)
    ensures
        match outcome {
            Ok(output) => stdout == Some(output.stdout) && stderr == Some(output.stderr)
                && output.success == success && output.status == status,
            Err(error) => (stdout is None || stderr is None) && error == CommandError::Reader,
        },
{
    match stdout {
        Some(out) => match stderr {
            Some(err) => Ok(CommandOutput { success, status, stdout: out, stderr: err }),
            None => Err(CommandError::Reader),
        },
        None => Err(CommandError::Reader),
    }
}

/// The outcome of a run that was killed for taking too long, once the
/// process was waited for and the readers joined: a timeout, unless a
/// reader failed, which is reported as such.
pub fn conclude_timeout(timeout_ms: u64, stdout: Option<String>, stderr: Option<String>) -> (error:
    CommandError)
    ensures
        error == (if stdout is None || stderr is None {
            CommandError::Reader
        } else {
            CommandError::Timeout { timeout_ms }
        }),
{
    if stdout.is_none() || stderr.is_none() {
        CommandError::Reader
    } else {
        CommandError::Timeout { timeout_ms }
    }
}

/// The error stream of a command that succeeded; for one that failed, an
/// error with its exit status and the start of its error stream.
pub fn stderr_of_success(output: CommandOutput) -> (report: Result<String, CommandError>)
    ensures
        match report {
            Ok(text) => output.success && text == output.stderr,
            Err(error) => !output.success && (error matches CommandError::Exit {
                status,
                stderr_preview,
            } && status == output.status && stderr_preview@ == preview_of(
                output.stderr@,
                STDERR_PREVIEW_CHARS as int,
            )),
        },
{
    if output.success {
        Ok(output.stderr)
    } else {
        let stderr_preview = preview(output.stderr.as_str(), STDERR_PREVIEW_CHARS);
        Err(CommandError::Exit { status: output.status, stderr_preview })
    }
}

} // verus!
