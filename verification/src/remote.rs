//! The remote control's answers: what a command from a remote client
//! calls for, and the texts of the replies.

use crate::download_queue::QueueStatus;
use crate::json::{
    json_quote, json_string_literal, parse, parsed, quoted_or_null, text_of, text_value,
    value_text, write_value,
};
use crate::text::{decimal_digits, opt_text, text_eq, unsigned_decimal_string};
use vstd::prelude::*;
use vstd::string::StringExecFns;

verus! {

pub const EVT_REMOTE_ADD_URL: &'static str = "remote-add-url";

pub const EVT_REMOTE_START: &'static str = "remote-start-downloads";

pub const EVT_REMOTE_CANCEL: &'static str = "remote-cancel-downloads";

pub const EVT_REMOTE_CLEAR_LIST: &'static str = "remote-clear-list";

pub const EVT_REMOTE_SET_DOWNLOAD_DIR: &'static str = "remote-set-download-dir";

pub const EVT_REMOTE_RECV: &'static str = "remote-recv";

pub const EVT_DEBUG_ECHO: &'static str = "debug-echo";

pub const EVT_DEBUG_SNAPSHOT: &'static str = "debug-snapshot";

/// A command of a remote client.
#[derive(Debug)]
pub struct RemoteCommand {
    pub action: String,
    /// An address, a script or a window's label, as the action takes it.
    pub url: Option<String>,
    pub path: Option<String>,
    pub media_idx: Option<i32>,
}

/// The content of a command.
pub struct CommandView {
    pub action: Seq<char>,
    pub url: Option<Seq<char>>,
    pub path: Option<Seq<char>>,
    pub media_idx: Option<i32>,
}

impl View for RemoteCommand {
    type V = CommandView;

    open spec fn view(&self) -> CommandView {
        CommandView {
            action: self.action@,
            url: opt_text(self.url),
            path: opt_text(self.path),
            media_idx: self.media_idx,
        }
    }
}

/// What a command asks for.
#[derive(Debug, Clone, Copy, PartialEq, Eq, Structural)]
pub enum RemoteAction {
    AddUrl,
    StartDownloads,
    CancelAll,
    ClearList,
    SetDownloadDir,
    Status,
    DebugEcho,
    RunJs,
    RunJsCapture,
    RunJsGetResult,
    InspectWindow,
    StartDownloadDirect,
    Unknown,
}

impl RemoteAction {
    /// The action that a name stands for.
    pub open spec fn named(name: Seq<char>) -> RemoteAction {
        if name == "addUrl"@ {
            RemoteAction::AddUrl
        } else if name == "startDownloads"@ {
            RemoteAction::StartDownloads
        } else if name == "cancelAll"@ {
            RemoteAction::CancelAll
        } else if name == "clearList"@ {
            RemoteAction::ClearList
        } else if name == "setDownloadDir"@ {
            RemoteAction::SetDownloadDir
        } else if name == "status"@ {
            RemoteAction::Status
        } else if name == "debugEcho"@ {
            RemoteAction::DebugEcho
        } else if name == "runJs"@ {
            RemoteAction::RunJs
        } else if name == "runJsCapture"@ {
            RemoteAction::RunJsCapture
        } else if name == "runJsGetResult"@ {
            RemoteAction::RunJsGetResult
        } else if name == "inspectWindow"@ {
            RemoteAction::InspectWindow
        } else if name == "startDownloadDirect"@ {
            RemoteAction::StartDownloadDirect
        } else {
            RemoteAction::Unknown
        }
    }

    /// The action's name; none for `Unknown`.
    pub open spec fn name_text(self) -> Seq<char> {
        match self {
            RemoteAction::AddUrl => "addUrl"@,
            RemoteAction::StartDownloads => "startDownloads"@,
            RemoteAction::CancelAll => "cancelAll"@,
            RemoteAction::ClearList => "clearList"@,
            RemoteAction::SetDownloadDir => "setDownloadDir"@,
            RemoteAction::Status => "status"@,
            RemoteAction::DebugEcho => "debugEcho"@,
            RemoteAction::RunJs => "runJs"@,
            RemoteAction::RunJsCapture => "runJsCapture"@,
            RemoteAction::RunJsGetResult => "runJsGetResult"@,
            RemoteAction::InspectWindow => "inspectWindow"@,
            RemoteAction::StartDownloadDirect => "startDownloadDirect"@,
            RemoteAction::Unknown => ""@,
        }
    }

    /// Reads an action from its name; names are told apart by case.
    pub fn parse(name: &str) -> (a: RemoteAction)
        ensures
            a == RemoteAction::named(name@),
    {
        if text_eq(name, "addUrl") {
            RemoteAction::AddUrl
        } else if text_eq(name, "startDownloads") {
            RemoteAction::StartDownloads
        } else if text_eq(name, "cancelAll") {
            RemoteAction::CancelAll
        } else if text_eq(name, "clearList") {
            RemoteAction::ClearList
        } else if text_eq(name, "setDownloadDir") {
            RemoteAction::SetDownloadDir
        } else if text_eq(name, "status") {
            RemoteAction::Status
        } else if text_eq(name, "debugEcho") {
            RemoteAction::DebugEcho
        } else if text_eq(name, "runJs") {
            RemoteAction::RunJs
        } else if text_eq(name, "runJsCapture") {
            RemoteAction::RunJsCapture
        } else if text_eq(name, "runJsGetResult") {
            RemoteAction::RunJsGetResult
        } else if text_eq(name, "inspectWindow") {
            RemoteAction::InspectWindow
        } else if text_eq(name, "startDownloadDirect") {
            RemoteAction::StartDownloadDirect
        } else {
            RemoteAction::Unknown
        }
    }

    /// The action's name.
    pub fn name(&self) -> (s: &'static str)
        ensures
            s@ == self.name_text(),
    {
        match self {
            RemoteAction::AddUrl => "addUrl",
            RemoteAction::StartDownloads => "startDownloads",
            RemoteAction::CancelAll => "cancelAll",
            RemoteAction::ClearList => "clearList",
            RemoteAction::SetDownloadDir => "setDownloadDir",
            RemoteAction::Status => "status",
            RemoteAction::DebugEcho => "debugEcho",
            RemoteAction::RunJs => "runJs",
            RemoteAction::RunJsCapture => "runJsCapture",
            RemoteAction::RunJsGetResult => "runJsGetResult",
            RemoteAction::InspectWindow => "inspectWindow",
            RemoteAction::StartDownloadDirect => "startDownloadDirect",
            RemoteAction::Unknown => "",
        }
    }
}

/// One thing to do in answer to a command.
#[derive(Debug)]
pub enum RemoteStep {
    /// Send an event to the user interface, with a text or with nothing.
    Emit { event: &'static str, payload: Option<String> },
    /// Send a text back to the client.
    Reply { text: String },
}

/// The content of a step.
pub enum RemoteStepView {
    Emit { event: Seq<char>, payload: Option<Seq<char>> },
    Reply { text: Seq<char> },
}

impl View for RemoteStep {
    type V = RemoteStepView;

    open spec fn view(&self) -> RemoteStepView {
        match self {
            RemoteStep::Emit { event, payload } => RemoteStepView::Emit {
                event: event@,
                payload: opt_text(*payload),
            },
            RemoteStep::Reply { text } => RemoteStepView::Reply { text: text@ },
        }
    }
}

/// The contents of steps.
pub open spec fn step_views(steps: Seq<RemoteStep>) -> Seq<RemoteStepView> {
    Seq::new(steps.len(), |i: int| steps[i]@)
}

/// What the remote control does about a command.
#[derive(Debug)]
pub enum RemotePlan {
    /// Do these in order.
    Steps { steps: Vec<RemoteStep> },
    /// The action needs the webview or the window system; `argument` is
    /// what the command gave it to work on.
    Delegate { action: RemoteAction, argument: Option<String> },
}

/// The reply that an action went through.
pub open spec fn ok_reply_text(action: Seq<char>) -> Seq<char> {
    "{\"ok\":true,\"action\":\""@ + action + "\"}"@
}

/// The reply that an action failed.
pub open spec fn failure_reply_text(action: Seq<char>, error: Seq<char>) -> Seq<char> {
    "{\"ok\":false,\"action\":\""@ + action + "\",\"error\":\""@ + error + "\"}"@
}

/// The note to the client that a command was received.
pub open spec fn received_text(what: Seq<char>) -> Seq<char> {
    "{\"event\":\"remote-recv\",\"payload\":\""@ + what + "\"}"@
}

/// The reply to a question for the queue's status.
pub open spec fn status_reply_text(queued: nat, active: nat, max: nat) -> Seq<char> {
    "{\"ok\":true,\"action\":\"status\",\"queued\":"@ + decimal_digits(queued) + ",\"active\":"@
        + decimal_digits(active) + ",\"max\":"@ + decimal_digits(max) + "}"@
}

/// The reply that an action went through.
pub fn ok_reply(action: RemoteAction) -> (s: String)
    ensures
        s@ == ok_reply_text(action.name_text()),
{
    let mut s = String::from_str("{\"ok\":true,\"action\":\"");
    s.append(action.name());
    s.append("\"}");
    s
}

/// The reply that an action failed, with what went wrong. The error is
/// put between the quotes as it is.
pub fn failure_reply(action: RemoteAction, error: &str) -> (s: String)
    ensures
        s@ == failure_reply_text(action.name_text(), error@),
{
    let mut s = String::from_str("{\"ok\":false,\"action\":\"");
    s.append(action.name());
    s.append("\",\"error\":\"");
    s.append(error);
    s.append("\"}");
    s
}

/// The note to the client that a command was received: the action's name
/// and, after a space, its argument, if it has one.
pub fn received_note(action: RemoteAction, argument: Option<&str>) -> (s: String)
    ensures
        s@ == received_text(
            match argument {
                Some(a) => action.name_text() + " "@ + a@,
                None => action.name_text(),
            },
        ),
{
    let mut s = String::from_str("{\"event\":\"remote-recv\",\"payload\":\"");
    s.append(action.name());
    match argument {
        Some(a) => {
            s.append(" ");
            s.append(a);
        },
        None => {},
    }
    s.append("\"}");
    s
}

/// The reply to a question for the queue's status.
pub fn status_reply(status: QueueStatus) -> (s: String)
    ensures
        s@ == status_reply_text(
            status.queued as nat,
            status.active as nat,
            status.max_concurrent as nat,
        ),
{
    let mut s = String::from_str("{\"ok\":true,\"action\":\"status\",\"queued\":");
    let queued = unsigned_decimal_string(status.queued as u128);
    s.append(queued.as_str());
    s.append(",\"active\":");
    let active = unsigned_decimal_string(status.active as u128);
    s.append(active.as_str());
    s.append(",\"max\":");
    let max = unsigned_decimal_string(status.max_concurrent as u128);
    s.append(max.as_str());
    s.append("}");
    s
}

/// The reply to text that is no command; `detail` is what the parser said.
pub fn bad_command_reply(detail: &str) -> (s: String)
    ensures
        s@ == "{\"ok\":false,\"error\":\"bad command: "@ + detail@ + "\"}"@,
{
    let mut s = String::from_str("{\"ok\":false,\"error\":\"bad command: ");
    s.append(detail);
    s.append("\"}");
    s
}

/// The steps of an action that only tells the user interface something:
/// the event, the reply that it went through, the note of receipt.
pub open spec fn told(action: RemoteAction, event: Seq<char>, argument: Option<Seq<char>>) -> Seq<
    RemoteStepView,
> {
    seq![
        RemoteStepView::Emit { event, payload: argument },
        RemoteStepView::Reply { text: ok_reply_text(action.name_text()) },
        RemoteStepView::Reply {
            text: received_text(
                match argument {
                    Some(a) => action.name_text() + " "@ + a,
                    None => action.name_text(),
                },
            ),
        },
    ]
}

/// The one step of a refusal.
pub open spec fn refused(text: Seq<char>) -> Seq<RemoteStepView> {
    seq![RemoteStepView::Reply { text }]
}

/// The directory that a `setDownloadDir` command names: its path, else
/// its address.
pub open spec fn named_directory(cmd: CommandView) -> Option<Seq<char>> {
    if cmd.path is Some {
        cmd.path
    } else {
        cmd.url
    }
}

/// What is missing where a command comes without its argument.
pub open spec fn missing_argument(action: RemoteAction) -> Seq<char> {
    match action {
        RemoteAction::InspectWindow => "label required"@,
        RemoteAction::StartDownloadDirect => "url required"@,
        _ => "script required"@,
    }
}

/// The steps that answer a command, where steps alone answer it.
pub open spec fn steps_of(cmd: CommandView, status: QueueStatus) -> Option<Seq<RemoteStepView>> {
    match RemoteAction::named(cmd.action) {
        RemoteAction::AddUrl => Some(
            match cmd.url {
                Some(url) => told(RemoteAction::AddUrl, EVT_REMOTE_ADD_URL@, Some(url)),
                None => refused("{\"ok\":false,\"error\":\"url required\",\"action\":\"addUrl\"}"@),
            },
        ),
        RemoteAction::StartDownloads => Some(
            told(RemoteAction::StartDownloads, EVT_REMOTE_START@, None),
        ),
        RemoteAction::CancelAll => Some(told(RemoteAction::CancelAll, EVT_REMOTE_CANCEL@, None)),
        RemoteAction::ClearList => Some(told(RemoteAction::ClearList, EVT_REMOTE_CLEAR_LIST@, None)),
        RemoteAction::SetDownloadDir => Some(
            match named_directory(cmd) {
                Some(dir) => told(
                    RemoteAction::SetDownloadDir,
                    EVT_REMOTE_SET_DOWNLOAD_DIR@,
                    Some(dir),
                ),
                None => refused(failure_reply_text("setDownloadDir"@, "path required"@)),
            },
        ),
        RemoteAction::Status => Some(
            seq![
                RemoteStepView::Reply {
                    text: status_reply_text(
                        status.queued as nat,
                        status.active as nat,
                        status.max_concurrent as nat,
                    ),
                },
                RemoteStepView::Reply { text: received_text("status"@) },
            ],
        ),
        RemoteAction::Unknown => Some(refused("{\"ok\":false,\"error\":\"unknown action\"}"@)),
        RemoteAction::DebugEcho => None,
        action => if cmd.url is None {
            Some(refused(failure_reply_text(action.name_text(), missing_argument(action))))
        } else {
            None
        },
    }
}

fn tell(action: RemoteAction, event: &'static str, argument: Option<String>) -> (steps: Vec<
    RemoteStep,
>)
    ensures
        step_views(steps@) == told(action, event@, opt_text(argument)),
{
    let ok = ok_reply(action);
    let note = match &argument {
        Some(a) => received_note(action, Some(a.as_str())),
        None => received_note(action, None),
    };
    let mut steps: Vec<RemoteStep> = Vec::new();
    steps.push(RemoteStep::Emit { event, payload: argument });
    steps.push(RemoteStep::Reply { text: ok });
    steps.push(RemoteStep::Reply { text: note });
    steps
}

fn refuse(text: String) -> (steps: Vec<RemoteStep>)
    ensures
        step_views(steps@) == refused(text@),
{
    let mut steps: Vec<RemoteStep> = Vec::new();
    steps.push(RemoteStep::Reply { text });
    steps
}

/// Decides what to do about a command. The actions that only tell the
/// user interface something, the question for the status, an unknown
/// action and a command without its argument are answered in steps; the
/// others are handed on with their argument.
pub fn plan(cmd: RemoteCommand, status: QueueStatus) -> (p: RemotePlan)
    ensures
        match p {
            RemotePlan::Steps { steps } => steps_of(cmd@, status) == Some(step_views(steps@)),
            RemotePlan::Delegate { action, argument } => steps_of(cmd@, status) is None && action
                == RemoteAction::named(cmd@.action) && opt_text(argument) == cmd@.url,
        },
{
    let action = RemoteAction::parse(cmd.action.as_str());
    match action {
        RemoteAction::AddUrl => match cmd.url {
            Some(url) => RemotePlan::Steps {
                steps: tell(RemoteAction::AddUrl, EVT_REMOTE_ADD_URL, Some(url)),
            },
            None => RemotePlan::Steps {
                steps: refuse(
                    String::from_str("{\"ok\":false,\"error\":\"url required\",\"action\":\"addUrl\"}"),
                ),
            },
        },
        RemoteAction::StartDownloads => RemotePlan::Steps {
            steps: tell(RemoteAction::StartDownloads, EVT_REMOTE_START, None),
        },
        RemoteAction::CancelAll => RemotePlan::Steps {
            steps: tell(RemoteAction::CancelAll, EVT_REMOTE_CANCEL, None),
        },
        RemoteAction::ClearList => RemotePlan::Steps {
            steps: tell(RemoteAction::ClearList, EVT_REMOTE_CLEAR_LIST, None),
        },
        RemoteAction::SetDownloadDir => {
            let dir = match cmd.path {
                Some(path) => Some(path),
                None => cmd.url,
            };
            match dir {
                Some(dir) => RemotePlan::Steps {
                    steps: tell(
                        RemoteAction::SetDownloadDir,
                        EVT_REMOTE_SET_DOWNLOAD_DIR,
                        Some(dir),
                    ),
                },
                None => RemotePlan::Steps {
                    steps: refuse(failure_reply(RemoteAction::SetDownloadDir, "path required")),
                },
            }
        },
        RemoteAction::Status => {
            let mut steps: Vec<RemoteStep> = Vec::new();
            steps.push(RemoteStep::Reply { text: status_reply(status) });
            steps.push(RemoteStep::Reply { text: received_note(RemoteAction::Status, None) });
            RemotePlan::Steps { steps }
        },
        RemoteAction::Unknown => RemotePlan::Steps {
            steps: refuse(String::from_str("{\"ok\":false,\"error\":\"unknown action\"}")),
        },
        RemoteAction::DebugEcho => RemotePlan::Delegate { action, argument: cmd.url },
        _ => {
            if cmd.url.is_none() {
                let error = match action {
                    RemoteAction::InspectWindow => "label required",
                    RemoteAction::StartDownloadDirect => "url required",
                    _ => "script required",
                };
                RemotePlan::Steps { steps: refuse(failure_reply(action, error)) }
            } else {
                RemotePlan::Delegate { action, argument: cmd.url }
            }
        },
    }
}

/// The message that carries an event to remote clients, from its
/// members as JSON values.
pub open spec fn event_message_text(event: Seq<char>, payload: Seq<char>) -> Seq<char> {
    "{\"event\":"@ + event + ",\"payload\":"@ + payload + "}"@
}

/// Writes the message that carries an event to remote clients; `event`
/// and `payload` are JSON values already.
pub fn frame_event_message(event: &str, payload: &str) -> (s: String)
    ensures
        s@ == event_message_text(event@, payload@),
{
    let mut s = String::from_str("{\"event\":");
    s.append(event);
    s.append(",\"payload\":");
    s.append(payload);
    s.append("}");
    s
}

/// The message that carries the event `event` with the payload `payload`
/// to remote clients; nothing where the name or the payload does not
/// serialize.
pub open spec fn event_message_of(event: Seq<char>, payload: serde_json::Value) -> Option<
    Seq<char>,
> {
    match json_string_literal(event) {
        Some(name) => match value_text(payload) {
            Some(body) => Some(event_message_text(name, body)),
            None => None,
        },
        None => None,
    }
}

/// Writes the message that carries the event `event` with the payload
/// `payload` to remote clients. Fails where, and only where, the name or
/// the payload does not serialize.
pub fn remote_event_message(event: &str, payload: &serde_json::Value) -> (r: Result<
    String,
    serde_json::Error,
>)
    ensures
        match r {
            Ok(s) => event_message_of(event@, *payload) == Some(s@),
            Err(_) => event_message_of(event@, *payload) is None,
        },
{
    let name = match json_quote(event) {
        Ok(q) => q,
        Err(e) => {
            return Err(e);
        },
    };
    let body = match write_value(payload) {
        Ok(b) => b,
        Err(e) => {
            return Err(e);
        },
    };
    Ok(frame_event_message(name.as_str(), body.as_str()))
}

/// The payload that text from the webview stands for: the JSON value it
/// writes, or, where it is no JSON, the text itself as a JSON string.
pub fn payload_of(data: &str) -> (v: serde_json::Value)
    ensures
        match parsed(data@) {
            Some(value) => v == value,
            None => text_of(v) == Some(data@),
        },
{
    match parse(data) {
        Ok(v) => v,
        Err(_) => text_value(data),
    }
}

/// The text of an optional string slice.
pub open spec fn opt_str(member: Option<&str>) -> Option<Seq<char>> {
    match member {
        Some(m) => Some(m@),
        None => None,
    }
}

/// The greeting to a client that has connected; nothing where the setting
/// or the environment does not serialize.
pub open spec fn hello_of(
    pid: nat,
    timestamp: nat,
    debug_fallback: bool,
    harness_setting: Option<Seq<char>>,
    environment: Option<Seq<char>>,
) -> Option<Seq<char>> {
    match quoted_or_null(harness_setting) {
        Some(setting) => match quoted_or_null(environment) {
            Some(env) => Some(hello_text(debug_fallback, setting, pid, env, timestamp)),
            None => None,
        },
        None => None,
    }
}

/// The greeting to a client that has connected, from its members as JSON values.
pub open spec fn hello_text(
    debug_fallback: bool,
    harness_setting: Seq<char>,
    pid: nat,
    environment: Seq<char>,
    timestamp: nat,
) -> Seq<char> {
    "{\"event\":\"remote-hello\",\"payload\":{\"debugFallback\":"@ + (if debug_fallback {
        "true"@
    } else {
        "false"@
    }) + ",\"enableRemoteHarnessEnv\":"@ + harness_setting + ",\"pid\":"@ + decimal_digits(pid)
        + ",\"tauriEnv\":"@ + environment + ",\"ts\":"@ + decimal_digits(timestamp) + "}}"@
}

/// Writes the greeting to a client that has connected; the setting and
/// the environment are JSON values already.
pub fn frame_hello(
    debug_fallback: bool,
    harness_setting: &str,
    pid: u32,
    environment: &str,
    timestamp: u128,
) -> (s: String)
    ensures
        s@ == hello_text(
            debug_fallback,
            harness_setting@,
            pid as nat,
            environment@,
            timestamp as nat,
        ),
{
    let mut s = String::from_str("{\"event\":\"remote-hello\",\"payload\":{\"debugFallback\":");
    if debug_fallback {
        s.append("true");
    } else {
        s.append("false");
    }
    s.append(",\"enableRemoteHarnessEnv\":");
    s.append(harness_setting);
    s.append(",\"pid\":");
    let pid_text = unsigned_decimal_string(pid as u128);
    s.append(pid_text.as_str());
    s.append(",\"tauriEnv\":");
    s.append(environment);
    s.append(",\"ts\":");
    let stamp = unsigned_decimal_string(timestamp);
    s.append(stamp.as_str());
    s.append("}}");
    s
}

/// The JSON text of an optional text: the quoted text, or `null` where
/// there is none. Fails where, and only where, the text does not serialize.
fn quote_or_null(member: Option<&str>) -> (r: Result<String, serde_json::Error>)
    ensures
        match r {
            Ok(s) => quoted_or_null(opt_str(member)) == Some(s@),
            Err(_) => quoted_or_null(opt_str(member)) is None,
        },
{
    match member {
        Some(m) => json_quote(m),
        None => Ok(String::from_str("null")),
    }
}

/// Writes the greeting to a client that has connected: the process, the
/// time, whether this is a debug build, and the two settings of the
/// environment that decide on the remote control. Fails where, and only
/// where, one of the two settings is there and does not serialize.
pub fn build_remote_hello(
    pid: u32,
    timestamp: u128,
    debug_fallback: bool,
    harness_setting: Option<&str>,
    environment: Option<&str>,
) -> (r: Result<String, serde_json::Error>)
    ensures
        match r {
            Ok(s) => hello_of(
                pid as nat,
                timestamp as nat,
                debug_fallback,
                opt_str(harness_setting),
                opt_str(environment),
            ) == Some(s@),
            Err(_) => hello_of(
                pid as nat,
                timestamp as nat,
                debug_fallback,
                opt_str(harness_setting),
                opt_str(environment),
            ) is None,
        },
{
    let setting = match quote_or_null(harness_setting) {
        Ok(q) => q,
        Err(e) => {
            return Err(e);
        },
    };
    let env = match quote_or_null(environment) {
        Ok(q) => q,
        Err(e) => {
            return Err(e);
        },
    };
    Ok(frame_hello(debug_fallback, setting.as_str(), pid, env.as_str(), timestamp))
}

/// Whether the remote control is started: if the setting is there, when
/// it is `1`; else in a debug build.
pub fn remote_enabled(setting: Option<&str>, debug_build: bool) -> (r: bool)
    ensures
        r == match setting {
            Some(v) => v@ == "1"@,
            None => debug_build,
        },
{
    match setting {
        Some(v) => text_eq(v, "1"),
        None => debug_build,
    }
}

} // verus!
