//! The names under which the library's events travel to the user interface
//! and to remote listeners.

use crate::monitor::{FailureReason, MonitorAction, Outcome, Stream};
use vstd::prelude::*;

verus! {

pub const EVT_UPDATE_MEDIA_INFO: &'static str = "update-media-info";

pub const EVT_DOWNLOAD_PROGRESS: &'static str = "download-progress";

pub const EVT_DOWNLOAD_COMPLETE: &'static str = "download-complete";

pub const EVT_DOWNLOAD_ERROR: &'static str = "download-error";

pub const EVT_DOWNLOAD_ERROR_DETAIL: &'static str = "download-error-detail";

pub const EVT_DOWNLOAD_INVOKE_ACK: &'static str = "download-invoke-ack";

pub const EVT_DOWNLOAD_CANCELLED: &'static str = "download-cancelled";

pub const EVT_DOWNLOAD_STARTED: &'static str = "download-started";

pub const EVT_DOWNLOAD_QUEUED: &'static str = "download-queued";

pub const EVT_YTDLP_STDERR: &'static str = "yt-dlp-stderr";

pub const EVT_STARTUP_ERROR: &'static str = "startup-error";

pub const EVT_DOWNLOAD_EXEC: &'static str = "download-exec";

pub const EVT_DOWNLOAD_RAW: &'static str = "download-raw";

pub const EVT_DOWNLOAD_INVOKE: &'static str = "download-invoke";

/// The name under which an action's event travels; `Kill` sends none.
pub fn action_event(action: MonitorAction) -> (name: Option<&'static str>)
    ensures
        action is Kill <==> name is None,
        action is EmitProgress ==> name == Some(EVT_DOWNLOAD_PROGRESS),
        action is EmitDiagnostic ==> name == Some(EVT_YTDLP_STDERR),
        action is EmitRaw ==> name == Some(EVT_DOWNLOAD_RAW),
{
    match action {
        MonitorAction::Kill => None,
        MonitorAction::EmitProgress { progress } => Some(EVT_DOWNLOAD_PROGRESS),
        MonitorAction::EmitDiagnostic => Some(EVT_YTDLP_STDERR),
        MonitorAction::EmitRaw { stream } => Some(EVT_DOWNLOAD_RAW),
    }
}

/// The name of the one terminal event of a job.
pub fn outcome_event(outcome: Outcome) -> (name: &'static str)
    ensures
        name == match outcome {
            Outcome::Cancelled => EVT_DOWNLOAD_CANCELLED,
            Outcome::Completed => EVT_DOWNLOAD_COMPLETE,
            Outcome::Failed { reason } => EVT_DOWNLOAD_ERROR,
        },
{
    match outcome {
        Outcome::Cancelled => EVT_DOWNLOAD_CANCELLED,
        Outcome::Completed => EVT_DOWNLOAD_COMPLETE,
        Outcome::Failed { reason } => EVT_DOWNLOAD_ERROR,
    }
}

/// The tag of a stream in raw output events.
pub fn stream_name(stream: Stream) -> (name: &'static str)
    ensures
        name@ == match stream {
            Stream::Stdout => "stdout"@,
            Stream::Stderr => "stderr"@,
        },
{
    match stream {
        Stream::Stdout => "stdout",
        Stream::Stderr => "stderr",
    }
}

/// What is said of a failure in the diagnostic that goes with it.
pub fn failure_text(reason: FailureReason) -> (text: &'static str)
    ensures
        text@ == match reason {
            FailureReason::SpawnFailed => "spawn yt-dlp failed"@,
            FailureReason::StdoutUnavailable => "yt-dlp stdout unavailable"@,
            FailureReason::StderrUnavailable => "yt-dlp stderr unavailable"@,
            FailureReason::ExitStatus => "yt-dlp exited with error status"@,
            FailureReason::WaitFailed => "yt-dlp wait failed"@,
        },
{
    match reason {
        FailureReason::SpawnFailed => "spawn yt-dlp failed",
        FailureReason::StdoutUnavailable => "yt-dlp stdout unavailable",
        FailureReason::StderrUnavailable => "yt-dlp stderr unavailable",
        FailureReason::ExitStatus => "yt-dlp exited with error status",
        FailureReason::WaitFailed => "yt-dlp wait failed",
    }
}

} // verus!
