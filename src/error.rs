//! The ways a recording request can fail, and the message each one shows.
use crate::text::{decimal, decimal_string};
use vstd::prelude::*;

verus! {

/// What the encoder was needed for when it could not be found.
#[derive(PartialEq, Eq, Structural, Clone, Copy, Debug)]
pub enum ToolUse {
    ScreenRecording,
    WebcamRecording,
    DeviceListing,
}

/// The step of a file export that failed.
#[derive(PartialEq, Eq, Structural, Clone, Copy, Debug)]
pub enum ExportStep {
    Read,
    Create,
    Write,
    Sync,
}

/// A failed request. Text fields hold what the operating system or the
/// encoder reported.
#[derive(Debug, PartialEq, Eq)]
pub enum RecorderError {
    /// The encoder cannot be launched at all.
    ToolUnavailable(ToolUse),
    /// The default output path cannot be written as text.
    PathUnavailable,
    /// The encoder process could not be started.
    LaunchFailed(String),
    /// The encoder stopped during its startup window; `stderr` is what it
    /// wrote to its diagnostic stream, possibly nothing.
    ExitedImmediately { status: String, stderr: String },
    /// Whether the encoder was still running could not be found out.
    StatusCheckFailed(String),
    /// No active session has this identifier.
    SessionNotFound(u32),
    /// The stopped encoder left an empty file.
    EmptyOutput { stderr: String },
    /// The stopped encoder left no file. `exit` is its exit status, or why
    /// waiting for it failed.
    MissingOutput { path: String, exit: Result<String, String>, stderr: String },
    /// The encoder could not be run to list devices.
    ListingFailed(String),
    /// A step of a file export failed.
    ExportFailed { step: ExportStep, cause: String },
}

pub open spec fn tool_use_text(u: ToolUse) -> Seq<char> {
    match u {
        ToolUse::ScreenRecording => "use screen recording"@,
        ToolUse::WebcamRecording => "use webcam recording"@,
        ToolUse::DeviceListing => "list audio devices"@,
    }
}

pub open spec fn export_step_text(s: ExportStep) -> Seq<char> {
    match s {
        ExportStep::Read => "Failed to read source file: "@,
        ExportStep::Create => "Failed to create destination file: "@,
        ExportStep::Write => "Failed to write to destination: "@,
        ExportStep::Sync => "Failed to sync file: "@,
    }
}

/// How the exit of a stopped encoder that left no file is described.
pub open spec fn exit_details(exit: Result<String, String>, stderr: Seq<char>) -> Seq<char> {
    match exit {
        Ok(status) => "Process exited with status: "@ + status@ + if stderr.len() == 0 {
            Seq::empty()
        } else {
            "\nFFmpeg stderr output:\n"@ + stderr
        },
        Err(e) => "Failed to wait for process: "@ + e@,
    }
}

/// The message shown for `e`.
pub open spec fn error_message(e: RecorderError) -> Seq<char> {
    match e {
        RecorderError::ToolUnavailable(u) => "FFmpeg is not installed or not found in PATH. Please install FFmpeg to "@
            + tool_use_text(u) + "."@,
        RecorderError::PathUnavailable => "Failed to create temp file path"@,
        RecorderError::LaunchFailed(cause) => "Failed to start FFmpeg process: "@ + cause@
            + ". Make sure FFmpeg is installed and available in PATH."@,
        RecorderError::ExitedImmediately { status, stderr } => "FFmpeg exited immediately with status "@
            + status@ + if stderr@.len() == 0 {
            Seq::empty()
        } else {
            ". Error output: "@ + stderr@
        },
        RecorderError::StatusCheckFailed(cause) => "Failed to check FFmpeg process status: "@
            + cause@,
        RecorderError::SessionNotFound(id) => "Recording process with ID "@ + decimal(id as nat)
            + " not found"@,
        RecorderError::EmptyOutput { stderr } => "Recording file exists but is empty (0 bytes). FFmpeg may have failed to record. Stderr: "@
            + if stderr@.len() == 0 {
            "No error output"@
        } else {
            stderr@
        },
        RecorderError::MissingOutput { path, exit, stderr } => "Recording file not found at '"@
            + path@ + "'.\n"@ + exit_details(exit, stderr@),
        RecorderError::ListingFailed(cause) => "Failed to run FFmpeg: "@ + cause@,
        RecorderError::ExportFailed { step, cause } => export_step_text(step) + cause@,
    }
}

fn tool_use_str(u: ToolUse) -> (r: &'static str)
    ensures
        r@ == tool_use_text(u),
{
    match u {
        ToolUse::ScreenRecording => "use screen recording",
        ToolUse::WebcamRecording => "use webcam recording",
        ToolUse::DeviceListing => "list audio devices",
    }
}

fn export_step_str(s: ExportStep) -> (r: &'static str)
    ensures
        r@ == export_step_text(s),
{
    match s {
        ExportStep::Read => "Failed to read source file: ",
        ExportStep::Create => "Failed to create destination file: ",
        ExportStep::Write => "Failed to write to destination: ",
        ExportStep::Sync => "Failed to sync file: ",
    }
}

impl RecorderError {
    /// The message shown for this error.
    pub fn message(&self) -> (r: String)
        ensures
            r@ == error_message(*self),
    {
        match self {
            RecorderError::ToolUnavailable(u) => {
                let mut m = String::from_str(
                    "FFmpeg is not installed or not found in PATH. Please install FFmpeg to ",
                );
                m.append(tool_use_str(*u));
                m.append(".");
                m
            },
            RecorderError::PathUnavailable => String::from_str("Failed to create temp file path"),
            RecorderError::LaunchFailed(cause) => {
                let mut m = String::from_str("Failed to start FFmpeg process: ");
                m.append(cause.as_str());
                m.append(". Make sure FFmpeg is installed and available in PATH.");
                m
            },
            RecorderError::ExitedImmediately { status, stderr } => {
                let mut m = String::from_str("FFmpeg exited immediately with status ");
                m.append(status.as_str());
                if stderr.as_str().is_empty() {
                    assert(m@ + Seq::<char>::empty() =~= m@);
                } else {
                    let ghost before = m@;
                    m.append(". Error output: ");
                    m.append(stderr.as_str());
                    assert(m@ =~= before + (". Error output: "@ + stderr@));
                }
                m
            },
            RecorderError::StatusCheckFailed(cause) => {
                let mut m = String::from_str("Failed to check FFmpeg process status: ");
                m.append(cause.as_str());
                m
            },
            RecorderError::SessionNotFound(id) => {
                let mut m = String::from_str("Recording process with ID ");
                let d = decimal_string(*id as u64);
                m.append(d.as_str());
                m.append(" not found");
                m
            },
            RecorderError::EmptyOutput { stderr } => {
                let mut m = String::from_str(
                    "Recording file exists but is empty (0 bytes). FFmpeg may have failed to record. Stderr: ",
                );
                if stderr.as_str().is_empty() {
                    m.append("No error output");
                } else {
                    m.append(stderr.as_str());
                }
                m
            },
            RecorderError::MissingOutput { path, exit, stderr } => {
                let mut m = String::from_str("Recording file not found at '");
                m.append(path.as_str());
                m.append("'.\n");
                let ghost head = m@;
                match exit {
                    Ok(status) => {
                        m.append("Process exited with status: ");
                        m.append(status.as_str());
                        if !stderr.as_str().is_empty() {
                            let ghost mid = m@;
                            m.append("\nFFmpeg stderr output:\n");
                            m.append(stderr.as_str());
                            assert(m@ =~= mid + ("\nFFmpeg stderr output:\n"@ + stderr@));
                        } else {
                            assert(m@ + Seq::<char>::empty() =~= m@);
                        }
                    },
                    Err(e) => {
                        m.append("Failed to wait for process: ");
                        m.append(e.as_str());
                    },
                }
                assert(m@ =~= head + exit_details(*exit, stderr@));
                m
            },
            RecorderError::ListingFailed(cause) => {
                let mut m = String::from_str("Failed to run FFmpeg: ");
                m.append(cause.as_str());
                m
            },
            RecorderError::ExportFailed { step, cause } => {
                let mut m = String::from_str(export_step_str(*step));
                m.append(cause.as_str());
                m
            },
        }
    }
}

} // verus!
