//! The errors of the downloader, with a stable code for each that a user
//! interface can act on.
//!
//! Codes begin with `E_VAL_` for input that the user can correct, `E_IO_`
//! for the file system, `E_DL_` for downloads, `E_NET_` for the network,
//! `E_Q_` for the queue and `E_INT_` for faults of the program itself.

use crate::json::{json_quote, json_string_literal};
use crate::text::{decimal_string, decimal_text};
use vstd::prelude::*;
use vstd::string::StringExecFns;

verus! {

/// The JSON object of a frontend error, from its members as JSON values.
pub open spec fn frontend_json_text(code: Seq<char>, message: Seq<char>, retryable: bool) -> Seq<
    char,
> {
    "{\"code\":"@ + code + ",\"message\":"@ + message + ",\"retryable\":"@ + (if retryable {
        "true"@
    } else {
        "false"@
    }) + "}"@
}

/// Writes the JSON object of a frontend error; `code` and `message` are
/// JSON strings already, quotes included.
pub fn frame_frontend_json(code: &str, message: &str, retryable: bool) -> (s: String)
    ensures
        s@ == frontend_json_text(code@, message@, retryable),
{
    let mut s = String::from_str("{\"code\":");
    s.append(code);
    s.append(",\"message\":");
    s.append(message);
    s.append(",\"retryable\":");
    if retryable {
        s.append("true");
    } else {
        s.append("false");
    }
    s.append("}");
    s
}

/// A stable, machine-readable name of a kind of failure.
#[derive(Debug, Clone, Copy, PartialEq, Eq, Hash, Structural)]
pub enum ErrorCode {
    EValInvalidUrl,
    EValInvalidSettings,
    EValInvalidPath,
    EValInvalidMediaIdx,
    EIoReadFailed,
    EIoWriteFailed,
    EIoNotFound,
    EIoPermissionDenied,
    EDlSpawnFailed,
    EDlProcessFailed,
    EDlCancelled,
    EDlTimeout,
    EDlOutputUnavailable,
    ENetConnectionFailed,
    ENetTimeout,
    ENetRateLimited,
    EQueueFull,
    EQueueDuplicate,
    EQueueNotFound,
    EInternal,
    EIntSerializeFailed,
    EIntLockPoisoned,
}

impl ErrorCode {
    /// Whether trying again may help.
    pub open spec fn retryable(self) -> bool {
        self is ENetConnectionFailed || self is ENetTimeout || self is ENetRateLimited
            || self is EDlTimeout || self is EDlProcessFailed
    }

    /// The code as text.
    pub open spec fn text(self) -> Seq<char> {
        match self {
            ErrorCode::EValInvalidUrl => "E_VAL_INVALID_URL"@,
            ErrorCode::EValInvalidSettings => "E_VAL_INVALID_SETTINGS"@,
            ErrorCode::EValInvalidPath => "E_VAL_INVALID_PATH"@,
            ErrorCode::EValInvalidMediaIdx => "E_VAL_INVALID_MEDIA_IDX"@,
            ErrorCode::EIoReadFailed => "E_IO_READ_FAILED"@,
            ErrorCode::EIoWriteFailed => "E_IO_WRITE_FAILED"@,
            ErrorCode::EIoNotFound => "E_IO_NOT_FOUND"@,
            ErrorCode::EIoPermissionDenied => "E_IO_PERMISSION_DENIED"@,
            ErrorCode::EDlSpawnFailed => "E_DL_SPAWN_FAILED"@,
            ErrorCode::EDlProcessFailed => "E_DL_PROCESS_FAILED"@,
            ErrorCode::EDlCancelled => "E_DL_CANCELLED"@,
            ErrorCode::EDlTimeout => "E_DL_TIMEOUT"@,
            ErrorCode::EDlOutputUnavailable => "E_DL_OUTPUT_UNAVAILABLE"@,
            ErrorCode::ENetConnectionFailed => "E_NET_CONNECTION_FAILED"@,
            ErrorCode::ENetTimeout => "E_NET_TIMEOUT"@,
            ErrorCode::ENetRateLimited => "E_NET_RATE_LIMITED"@,
            ErrorCode::EQueueFull => "E_Q_FULL"@,
            ErrorCode::EQueueDuplicate => "E_Q_DUPLICATE"@,
            ErrorCode::EQueueNotFound => "E_Q_NOT_FOUND"@,
            ErrorCode::EInternal => "E_INTERNAL"@,
            ErrorCode::EIntSerializeFailed => "E_INT_SERIALIZE_FAILED"@,
            ErrorCode::EIntLockPoisoned => "E_INT_LOCK_POISONED"@,
        }
    }

    /// Whether trying again may help: so for network failures, timeouts
    /// and a failed worker process.
    pub fn is_retryable(&self) -> (r: bool)
        ensures
            r == self.retryable(),
    {
        match self {
            ErrorCode::ENetConnectionFailed => true,
            ErrorCode::ENetTimeout => true,
            ErrorCode::ENetRateLimited => true,
            ErrorCode::EDlTimeout => true,
            ErrorCode::EDlProcessFailed => true,
            _ => false,
        }
    }

    /// The code as text, such as `E_VAL_INVALID_URL`.
    pub fn as_str(&self) -> (s: &'static str)
        ensures
            s@ == self.text(),
    {
        match self {
            ErrorCode::EValInvalidUrl => "E_VAL_INVALID_URL",
            ErrorCode::EValInvalidSettings => "E_VAL_INVALID_SETTINGS",
            ErrorCode::EValInvalidPath => "E_VAL_INVALID_PATH",
            ErrorCode::EValInvalidMediaIdx => "E_VAL_INVALID_MEDIA_IDX",
            ErrorCode::EIoReadFailed => "E_IO_READ_FAILED",
            ErrorCode::EIoWriteFailed => "E_IO_WRITE_FAILED",
            ErrorCode::EIoNotFound => "E_IO_NOT_FOUND",
            ErrorCode::EIoPermissionDenied => "E_IO_PERMISSION_DENIED",
            ErrorCode::EDlSpawnFailed => "E_DL_SPAWN_FAILED",
            ErrorCode::EDlProcessFailed => "E_DL_PROCESS_FAILED",
            ErrorCode::EDlCancelled => "E_DL_CANCELLED",
            ErrorCode::EDlTimeout => "E_DL_TIMEOUT",
            ErrorCode::EDlOutputUnavailable => "E_DL_OUTPUT_UNAVAILABLE",
            ErrorCode::ENetConnectionFailed => "E_NET_CONNECTION_FAILED",
            ErrorCode::ENetTimeout => "E_NET_TIMEOUT",
            ErrorCode::ENetRateLimited => "E_NET_RATE_LIMITED",
            ErrorCode::EQueueFull => "E_Q_FULL",
            ErrorCode::EQueueDuplicate => "E_Q_DUPLICATE",
            ErrorCode::EQueueNotFound => "E_Q_NOT_FOUND",
            ErrorCode::EInternal => "E_INTERNAL",
            ErrorCode::EIntSerializeFailed => "E_INT_SERIALIZE_FAILED",
            ErrorCode::EIntLockPoisoned => "E_INT_LOCK_POISONED",
        }
    }
}

/// Which input failed validation.
#[derive(Debug, Clone, Copy, PartialEq, Eq, Structural)]
pub enum ValidationKind {
    InvalidUrl,
    InvalidSettings,
    InvalidPath,
    InvalidMediaIdx,
}

impl ValidationKind {
    pub open spec fn name_text(self) -> Seq<char> {
        match self {
            ValidationKind::InvalidUrl => "InvalidUrl"@,
            ValidationKind::InvalidSettings => "InvalidSettings"@,
            ValidationKind::InvalidPath => "InvalidPath"@,
            ValidationKind::InvalidMediaIdx => "InvalidMediaIdx"@,
        }
    }

    pub open spec fn code(self) -> ErrorCode {
        match self {
            ValidationKind::InvalidUrl => ErrorCode::EValInvalidUrl,
            ValidationKind::InvalidSettings => ErrorCode::EValInvalidSettings,
            ValidationKind::InvalidPath => ErrorCode::EValInvalidPath,
            ValidationKind::InvalidMediaIdx => ErrorCode::EValInvalidMediaIdx,
        }
    }

    /// The kind's name as it stands in messages.
    pub fn name(&self) -> (s: &'static str)
        ensures
            s@ == self.name_text(),
    {
        match self {
            ValidationKind::InvalidUrl => "InvalidUrl",
            ValidationKind::InvalidSettings => "InvalidSettings",
            ValidationKind::InvalidPath => "InvalidPath",
            ValidationKind::InvalidMediaIdx => "InvalidMediaIdx",
        }
    }
}

/// What went wrong at the queue.
#[derive(Debug, Clone, Copy, PartialEq, Eq, Structural)]
pub enum QueueErrorKind {
    Duplicate,
    Full,
    NotFound,
}

impl QueueErrorKind {
    pub open spec fn name_text(self) -> Seq<char> {
        match self {
            QueueErrorKind::Duplicate => "Duplicate"@,
            QueueErrorKind::Full => "Full"@,
            QueueErrorKind::NotFound => "NotFound"@,
        }
    }

    pub open spec fn code(self) -> ErrorCode {
        match self {
            QueueErrorKind::Duplicate => ErrorCode::EQueueDuplicate,
            QueueErrorKind::Full => ErrorCode::EQueueFull,
            QueueErrorKind::NotFound => ErrorCode::EQueueNotFound,
        }
    }

    /// The kind's name as it stands in messages.
    pub fn name(&self) -> (s: &'static str)
        ensures
            s@ == self.name_text(),
    {
        match self {
            QueueErrorKind::Duplicate => "Duplicate",
            QueueErrorKind::Full => "Full",
            QueueErrorKind::NotFound => "NotFound",
        }
    }
}

/// What the file system said, as far as the code of an error depends on it.
#[derive(Debug, Clone, Copy, PartialEq, Eq, Structural)]
pub enum IoFailure {
    NotFound,
    PermissionDenied,
    Other,
}

impl IoFailure {
    pub open spec fn code(self) -> ErrorCode {
        match self {
            IoFailure::NotFound => ErrorCode::EIoNotFound,
            IoFailure::PermissionDenied => ErrorCode::EIoPermissionDenied,
            IoFailure::Other => ErrorCode::EIoWriteFailed,
        }
    }
}

/// The cause of a file system error: its kind and what it said.
#[derive(Debug)]
pub struct IoSource {
    pub kind: IoFailure,
    pub message: String,
}

impl IoSource {
    pub fn new(kind: IoFailure, message: &str) -> (r: Self)
        ensures
            r.kind == kind,
            r.message@ == message@,
    {
        IoSource { kind, message: message.to_owned() }
    }
}

/// An error of the downloader.
#[derive(Debug)]
#[allow(inconsistent_fields)]
pub enum DownloaderError {
    Validation { kind: ValidationKind, message: String },
    Io { context: String, source: IoSource },
    Download { media_idx: i32, reason: String },
    Queue { kind: QueueErrorKind, message: String },
    Network { url: String, message: String },
    Internal { message: String },
}

/// An error as the user interface receives it.
#[derive(Debug)]
pub struct FrontendError {
    /// The machine-readable code, such as `E_VAL_INVALID_URL`.
    pub code: &'static str,
    /// The message for a human reader.
    pub message: String,
    /// Whether trying again may help.
    pub retryable: bool,
}

/// The content of a downloader error.
#[allow(inconsistent_fields)]
pub enum ErrorView {
    Validation { kind: ValidationKind, message: Seq<char> },
    Io { context: Seq<char>, kind: IoFailure, message: Seq<char> },
    Download { media_idx: i32, reason: Seq<char> },
    Queue { kind: QueueErrorKind, message: Seq<char> },
    Network { url: Seq<char>, message: Seq<char> },
    Internal { message: Seq<char> },
}

impl View for DownloaderError {
    type V = ErrorView;

    open spec fn view(&self) -> ErrorView {
        match self {
            DownloaderError::Validation { kind, message } => ErrorView::Validation {
                kind: *kind,
                message: message@,
            },
            DownloaderError::Io { context, source } => ErrorView::Io {
                context: context@,
                kind: source.kind,
                message: source.message@,
            },
            DownloaderError::Download { media_idx, reason } => ErrorView::Download {
                media_idx: *media_idx,
                reason: reason@,
            },
            DownloaderError::Queue { kind, message } => ErrorView::Queue {
                kind: *kind,
                message: message@,
            },
            DownloaderError::Network { url, message } => ErrorView::Network {
                url: url@,
                message: message@,
            },
            DownloaderError::Internal { message } => ErrorView::Internal { message: message@ },
        }
    }
}

/// The content of an error as the user interface receives it.
pub struct FrontendErrorView {
    pub code: Seq<char>,
    pub message: Seq<char>,
    pub retryable: bool,
}

impl View for FrontendError {
    type V = FrontendErrorView;

    open spec fn view(&self) -> FrontendErrorView {
        FrontendErrorView { code: self.code@, message: self.message@, retryable: self.retryable }
    }
}

impl ErrorView {
    /// The error's message.
    pub open spec fn display_text(self) -> Seq<char> {
        match self {
            ErrorView::Validation { kind, message } => "validation error ("@ + kind.name_text()
                + "): "@ + message,
            ErrorView::Io { context, kind, message } => "io error in "@ + context + ": "@
                + message,
            ErrorView::Download { media_idx, reason } => "download failed for media "@
                + decimal_text(media_idx as int) + ": "@ + reason,
            ErrorView::Queue { kind, message } => "queue error ("@ + kind.name_text() + "): "@
                + message,
            ErrorView::Network { url, message } => "network error for "@ + url + ": "@ + message,
            ErrorView::Internal { message } => "internal error: "@ + message,
        }
    }

    /// The code under which the error is reported.
    pub open spec fn code(self) -> ErrorCode {
        match self {
            ErrorView::Validation { kind, message } => kind.code(),
            ErrorView::Io { context, kind, message } => kind.code(),
            ErrorView::Download { media_idx, reason } => ErrorCode::EDlProcessFailed,
            ErrorView::Queue { kind, message } => kind.code(),
            ErrorView::Network { url, message } => ErrorCode::ENetConnectionFailed,
            ErrorView::Internal { message } => ErrorCode::EInternal,
        }
    }

    /// Whether trying again may help: so for download and network errors.
    pub open spec fn retryable(self) -> bool {
        self is Download || self is Network
    }

    /// The error as JSON: the object of its code, its message and whether
    /// trying again may help; the plain message where the code or the
    /// message does not serialize.
    pub open spec fn frontend_json(self) -> Seq<char> {
        match json_string_literal(self.code().text()) {
            Some(code) => match json_string_literal(self.display_text()) {
                Some(message) => frontend_json_text(code, message, self.retryable()),
                None => self.display_text(),
            },
            None => self.display_text(),
        }
    }

    /// The error as the user interface receives it.
    pub open spec fn frontend(self) -> FrontendErrorView {
        FrontendErrorView {
            code: self.code().text(),
            message: self.display_text(),
            retryable: self.retryable(),
        }
    }
}

impl Clone for FrontendError {
    fn clone(&self) -> (r: Self)
        ensures
            r == *self,
    {
        FrontendError { code: self.code, message: self.message.clone(), retryable: self.retryable }
    }
}

impl DownloaderError {
    /// The error's message.
    pub fn to_string(&self) -> (s: String)
        ensures
            s@ == self@.display_text(),
    {
        match self {
            DownloaderError::Validation { kind, message } => {
                let mut s = String::from_str("validation error (");
                s.append(kind.name());
                s.append("): ");
                s.append(message.as_str());
                s
            },
            DownloaderError::Io { context, source } => {
                let mut s = String::from_str("io error in ");
                s.append(context.as_str());
                s.append(": ");
                s.append(source.message.as_str());
                s
            },
            DownloaderError::Download { media_idx, reason } => {
                let mut s = String::from_str("download failed for media ");
                let idx = decimal_string(*media_idx);
                s.append(idx.as_str());
                s.append(": ");
                s.append(reason.as_str());
                s
            },
            DownloaderError::Queue { kind, message } => {
                let mut s = String::from_str("queue error (");
                s.append(kind.name());
                s.append("): ");
                s.append(message.as_str());
                s
            },
            DownloaderError::Network { url, message } => {
                let mut s = String::from_str("network error for ");
                s.append(url.as_str());
                s.append(": ");
                s.append(message.as_str());
                s
            },
            DownloaderError::Internal { message } => {
                let mut s = String::from_str("internal error: ");
                s.append(message.as_str());
                s
            },
        }
    }

    /// The code under which the error is reported.
    pub fn error_code(&self) -> (c: ErrorCode)
        ensures
            c == self@.code(),
    {
        match self {
            DownloaderError::Validation { kind, message } => match kind {
                ValidationKind::InvalidUrl => ErrorCode::EValInvalidUrl,
                ValidationKind::InvalidSettings => ErrorCode::EValInvalidSettings,
                ValidationKind::InvalidPath => ErrorCode::EValInvalidPath,
                ValidationKind::InvalidMediaIdx => ErrorCode::EValInvalidMediaIdx,
            },
            DownloaderError::Io { context, source } => match source.kind {
                IoFailure::NotFound => ErrorCode::EIoNotFound,
                IoFailure::PermissionDenied => ErrorCode::EIoPermissionDenied,
                IoFailure::Other => ErrorCode::EIoWriteFailed,
            },
            DownloaderError::Download { media_idx, reason } => ErrorCode::EDlProcessFailed,
            DownloaderError::Queue { kind, message } => match kind {
                QueueErrorKind::Duplicate => ErrorCode::EQueueDuplicate,
                QueueErrorKind::Full => ErrorCode::EQueueFull,
                QueueErrorKind::NotFound => ErrorCode::EQueueNotFound,
            },
            DownloaderError::Network { url, message } => ErrorCode::ENetConnectionFailed,
            DownloaderError::Internal { message } => ErrorCode::EInternal,
        }
    }

    /// The error as the user interface receives it: its code, its message,
    /// and whether trying again may help, which is so for download and
    /// network errors only.
    pub fn to_frontend_error(&self) -> (fe: FrontendError)
        ensures
            fe@ == self@.frontend(),
    {
        let retryable = match self {
            DownloaderError::Download { media_idx, reason } => true,
            DownloaderError::Network { url, message } => true,
            _ => false,
        };
        FrontendError { code: self.error_code().as_str(), message: self.to_string(), retryable }
    }

    /// The error as JSON for the user interface: an object with the members
    /// `code`, `message` and `retryable`. Should a member not serialize, the
    /// plain message is returned in its place.
    pub fn to_frontend_json(&self) -> (s: String)
        ensures
            s@ == self@.frontend_json(),
    {
        let fe = self.to_frontend_error();
        match json_quote(fe.code) {
            Ok(code) => match json_quote(fe.message.as_str()) {
                Ok(message) => frame_frontend_json(code.as_str(), message.as_str(), fe.retryable),
                Err(_) => fe.message,
            },
            Err(_) => fe.message,
        }
    }

    /// An error for a URL that failed validation.
    pub fn invalid_url(message: &str) -> (e: Self)
        ensures
            e@ == (ErrorView::Validation { kind: ValidationKind::InvalidUrl, message: message@ }),
    {
        DownloaderError::Validation { kind: ValidationKind::InvalidUrl, message: message.to_owned() }
    }

    /// An error for settings that failed validation.
    pub fn invalid_settings(message: &str) -> (e: Self)
        ensures
            e@ == (ErrorView::Validation { kind: ValidationKind::InvalidSettings, message: message@ }),
    {
        DownloaderError::Validation {
            kind: ValidationKind::InvalidSettings,
            message: message.to_owned(),
        }
    }

    /// An error for a path that failed validation.
    pub fn invalid_path(message: &str) -> (e: Self)
        ensures
            e@ == (ErrorView::Validation { kind: ValidationKind::InvalidPath, message: message@ }),
    {
        DownloaderError::Validation {
            kind: ValidationKind::InvalidPath,
            message: message.to_owned(),
        }
    }

    /// An error for a media index that failed validation.
    pub fn invalid_media_idx(message: &str) -> (e: Self)
        ensures
            e@ == (ErrorView::Validation { kind: ValidationKind::InvalidMediaIdx, message: message@ }),
    {
        DownloaderError::Validation {
            kind: ValidationKind::InvalidMediaIdx,
            message: message.to_owned(),
        }
    }

    /// A file system error, with what was being done when it came.
    pub fn io(context: &str, source: IoSource) -> (e: Self)
        ensures
            e@ == (ErrorView::Io {
                context: context@,
                kind: source.kind,
                message: source.message@,
            }),
    {
        DownloaderError::Io { context: context.to_owned(), source }
    }

    /// A failed download.
    pub fn download(media_idx: i32, reason: &str) -> (e: Self)
        ensures
            e@ == (ErrorView::Download { media_idx, reason: reason@ }),
    {
        DownloaderError::Download { media_idx, reason: reason.to_owned() }
    }

    /// A queue error of no closer kind; it counts as `NotFound`.
    pub fn queue(message: &str) -> (e: Self)
        ensures
            e@ == (ErrorView::Queue { kind: QueueErrorKind::NotFound, message: message@ }),
    {
        DownloaderError::Queue { kind: QueueErrorKind::NotFound, message: message.to_owned() }
    }

    /// An error for an entry that the queue already holds.
    pub fn queue_duplicate(message: &str) -> (e: Self)
        ensures
            e@ == (ErrorView::Queue { kind: QueueErrorKind::Duplicate, message: message@ }),
    {
        DownloaderError::Queue { kind: QueueErrorKind::Duplicate, message: message.to_owned() }
    }

    /// An error for a queue that is full.
    pub fn queue_full(message: &str) -> (e: Self)
        ensures
            e@ == (ErrorView::Queue { kind: QueueErrorKind::Full, message: message@ }),
    {
        DownloaderError::Queue { kind: QueueErrorKind::Full, message: message.to_owned() }
    }

    /// An error for an entry that the queue does not hold.
    pub fn queue_not_found(message: &str) -> (e: Self)
        ensures
            e@ == (ErrorView::Queue { kind: QueueErrorKind::NotFound, message: message@ }),
    {
        DownloaderError::Queue { kind: QueueErrorKind::NotFound, message: message.to_owned() }
    }

    /// A network error for a URL.
    pub fn network(url: &str, message: &str) -> (e: Self)
        ensures
            e@ == (ErrorView::Network { url: url@, message: message@ }),
    {
        DownloaderError::Network { url: url.to_owned(), message: message.to_owned() }
    }

    /// A fault of the program itself.
    pub fn internal(message: &str) -> (e: Self)
        ensures
            e@ == (ErrorView::Internal { message: message@ }),
    {
        DownloaderError::Internal { message: message.to_owned() }
    }
}

impl From<DownloaderError> for String {
    fn from(err: DownloaderError) -> (s: String) {
        err.to_string()
    }
}

impl vstd::std_specs::convert::FromSpecImpl<DownloaderError> for String {
    open spec fn obeys_from_spec() -> bool {
        false
    }

    open spec fn from_spec(err: DownloaderError) -> String {
        arbitrary()
    }
}

/// No two codes share their text.
pub proof fn law_codes_are_distinct(a: ErrorCode, b: ErrorCode)
    requires
        a != b,
    ensures
        a.text() != b.text(),
{
    reveal_strlit("E_VAL_INVALID_URL");
    reveal_strlit("E_VAL_INVALID_SETTINGS");
    reveal_strlit("E_VAL_INVALID_PATH");
    reveal_strlit("E_VAL_INVALID_MEDIA_IDX");
    reveal_strlit("E_IO_READ_FAILED");
    reveal_strlit("E_IO_WRITE_FAILED");
    reveal_strlit("E_IO_NOT_FOUND");
    reveal_strlit("E_IO_PERMISSION_DENIED");
    reveal_strlit("E_DL_SPAWN_FAILED");
    reveal_strlit("E_DL_PROCESS_FAILED");
    reveal_strlit("E_DL_CANCELLED");
    reveal_strlit("E_DL_TIMEOUT");
    reveal_strlit("E_DL_OUTPUT_UNAVAILABLE");
    reveal_strlit("E_NET_CONNECTION_FAILED");
    reveal_strlit("E_NET_TIMEOUT");
    reveal_strlit("E_NET_RATE_LIMITED");
    reveal_strlit("E_Q_FULL");
    reveal_strlit("E_Q_DUPLICATE");
    reveal_strlit("E_Q_NOT_FOUND");
    reveal_strlit("E_INTERNAL");
    reveal_strlit("E_INT_SERIALIZE_FAILED");
    reveal_strlit("E_INT_LOCK_POISONED");
    if a.text() == b.text() {
        assert(a.text().len() == b.text().len());
        assert(a.text()[2] == b.text()[2]);
        assert(a.text()[4] == b.text()[4]);
    }
}

} // verus!
