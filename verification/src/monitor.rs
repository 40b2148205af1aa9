//! The decisions of a process monitor: what to do on each event of one
//! worker process, when the run is over, and how it ended.
//!
//! The caller spawns the process, waits for whichever event comes first
//! and hands it in; the monitor answers with the actions to perform.

use crate::cancellation::{CancelHandle, CancellationRegistry};
use crate::download_queue::DownloadQueue;
use crate::progress::{
    is_important, parse_progress_percent, progress_of, should_emit_stderr, FULL_PROGRESS,
};
use crate::text::lowercase_of;
use vstd::prelude::*;

verus! {

/// Milliseconds between two polls of the cancellation flag.
pub const CANCELLATION_POLL_INTERVAL_MS: u64 = 100;

/// Milliseconds that pass before progress below 100 % is reported again.
pub const PROGRESS_DEBOUNCE_MS: u64 = 100;

/// One of the two output streams of a worker process.
#[derive(Debug, Clone, Copy, PartialEq, Eq, Structural)]
pub enum Stream {
    Stdout,
    Stderr,
}

/// How waiting for the process ended.
#[derive(Debug, Clone, Copy, PartialEq, Eq, Structural)]
pub enum ExitReport {
    /// The process exited with success.
    Success,
    /// The process exited with another status.
    Failure,
    /// Waiting itself failed: there is no exit status.
    WaitFailed,
}

/// What can happen while a worker process runs.
#[derive(Debug)]
pub enum MonitorEvent {
    /// The poll interval passed; `requested` is the cancellation flag.
    CancelPoll { requested: bool },
    /// A stream delivered a line at the time `now_ms`.
    Line { stream: Stream, line: String, now_ms: u64 },
    /// A stream reached its end, or reading it failed.
    Closed { stream: Stream },
    /// Waiting for the process returned.
    Exited { report: ExitReport },
}

/// The content of an event.
pub enum EventView {
    CancelPoll { requested: bool },
    Line { stream: Stream, line: Seq<char>, now_ms: u64 },
    Closed { stream: Stream },
    Exited { report: ExitReport },
}

impl View for MonitorEvent {
    type V = EventView;

    open spec fn view(&self) -> EventView {
        match self {
            MonitorEvent::CancelPoll { requested } => EventView::CancelPoll {
                requested: *requested,
            },
            MonitorEvent::Line { stream, line, now_ms } => EventView::Line {
                stream: *stream,
                line: line@,
                now_ms: *now_ms,
            },
            MonitorEvent::Closed { stream } => EventView::Closed { stream: *stream },
            MonitorEvent::Exited { report } => EventView::Exited { report: *report },
        }
    }
}

/// What the caller is to do in answer to an event. The line meant is the
/// one of the event.
#[derive(Debug, Clone, Copy, PartialEq, Eq, Structural)]
pub enum MonitorAction {
    /// Ask the process to terminate, by force.
    Kill,
    /// Report progress, in thousandths of a percent.
    EmitProgress { progress: u32 },
    /// Report the line as a diagnostic and hand it to the log.
    EmitDiagnostic,
    /// Pass the line on as it is, tagged with its stream.
    EmitRaw { stream: Stream },
}

/// Why a job failed.
#[derive(Debug, Clone, Copy, PartialEq, Eq, Structural)]
pub enum FailureReason {
    /// The process could not be started.
    SpawnFailed,
    /// The process started without an output stream to read.
    StdoutUnavailable,
    /// The process started without an error stream to read.
    StderrUnavailable,
    /// The process exited with a status other than success.
    ExitStatus,
    /// Waiting for the process failed.
    WaitFailed,
}

/// The one terminal outcome of a job.
#[derive(Debug, Clone, Copy, PartialEq, Eq, Structural)]
pub enum Outcome {
    Cancelled,
    Completed,
    Failed { reason: FailureReason },
}

/// What a monitor knows of its run.
#[derive(Debug, Clone, Copy, PartialEq, Eq, Structural)]
pub struct MonitorState {
    /// Whether the cancellation flag was seen set.
    pub cancelled: bool,
    pub stdout_done: bool,
    pub stderr_done: bool,
    /// How the process exited, once it has.
    pub exit: Option<ExitReport>,
    /// When progress was last reported.
    pub last_progress_ms: u64,
}

/// Whether progress read at `now_ms` is reported: always when it is full,
/// else when the debounce interval has passed since the last report.
pub open spec fn progress_due(state: MonitorState, progress: u32, now_ms: u64) -> bool {
    progress >= FULL_PROGRESS || now_ms - state.last_progress_ms >= PROGRESS_DEBOUNCE_MS
}

/// The progress that a line makes the monitor report, if any.
pub open spec fn reported_progress(state: MonitorState, line: Seq<char>, now_ms: u64) -> Option<
    u32,
> {
    match progress_of(line) {
        Some(p) => if progress_due(state, p, now_ms) {
            Some(p)
        } else {
            None
        },
        None => None,
    }
}

impl MonitorState {
    /// The state at the start of a run.
    pub open spec fn initial(now_ms: u64) -> MonitorState {
        MonitorState {
            cancelled: false,
            stdout_done: false,
            stderr_done: false,
            exit: None,
            last_progress_ms: now_ms,
        }
    }

    pub open spec fn stream_done(self, stream: Stream) -> bool {
        match stream {
            Stream::Stdout => self.stdout_done,
            Stream::Stderr => self.stderr_done,
        }
    }

    /// The run is over: the process has exited and both streams are at their end.
    pub open spec fn finished(self) -> bool {
        self.exit is Some && self.stdout_done && self.stderr_done
    }

    /// The state after an event. The time of the last progress report
    /// moves on when a line brings one; a stream's end and the exit of the
    /// process are taken down, the exit only the first time.
    pub open spec fn next(self, event: EventView) -> MonitorState {
        match event {
            EventView::CancelPoll { requested } => MonitorState {
                cancelled: self.cancelled || requested,
                ..self
            },
            EventView::Line { stream, line, now_ms } => if !self.stream_done(stream)
                && reported_progress(self, line, now_ms) is Some {
                MonitorState { last_progress_ms: now_ms, ..self }
            } else {
                self
            },
            EventView::Closed { stream } => match stream {
                Stream::Stdout => MonitorState { stdout_done: true, ..self },
                Stream::Stderr => MonitorState { stderr_done: true, ..self },
            },
            EventView::Exited { report } => if self.exit is None {
                MonitorState { exit: Some(report), ..self }
            } else {
                self
            },
        }
    }

    /// The actions that an event calls for, in the order to perform them.
    /// A line of a stream that has ended calls for none.
    pub open spec fn actions(self, event: EventView) -> Seq<MonitorAction> {
        match event {
            EventView::CancelPoll { requested } => if requested {
                seq![MonitorAction::Kill]
            } else {
                Seq::empty()
            },
            EventView::Line { stream, line, now_ms } => if self.stream_done(stream) {
                Seq::empty()
            } else {
                match reported_progress(self, line, now_ms) {
                    Some(p) => seq![
                        MonitorAction::EmitProgress { progress: p },
                        MonitorAction::EmitRaw { stream },
                    ],
                    None => if stream == Stream::Stderr && is_important(lowercase_of(line)) {
                        seq![MonitorAction::EmitDiagnostic, MonitorAction::EmitRaw { stream }]
                    } else {
                        seq![MonitorAction::EmitRaw { stream }]
                    },
                }
            },
            EventView::Closed { stream } => Seq::empty(),
            EventView::Exited { report } => Seq::empty(),
        }
    }

    /// How a run ended: cancelled if the flag was ever seen set, whatever
    /// the exit status; else completed on an exit with success, failed on
    /// another exit, and failed too where there is no exit status.
    pub open spec fn outcome(self) -> Outcome {
        if self.cancelled {
            Outcome::Cancelled
        } else {
            match self.exit {
                Some(ExitReport::Success) => Outcome::Completed,
                Some(ExitReport::Failure) => Outcome::Failed { reason: FailureReason::ExitStatus },
                _ => Outcome::Failed { reason: FailureReason::WaitFailed },
            }
        }
    }

    /// Begins a run at the time `now_ms`. The caller reports progress 0 at
    /// once, before the process has printed anything.
    pub fn start(now_ms: u64) -> (r: (MonitorState, MonitorAction))
        ensures
            r.0 == MonitorState::initial(now_ms),
            r.1 == (MonitorAction::EmitProgress { progress: 0 }),
    {
        (
            MonitorState {
                cancelled: false,
                stdout_done: false,
                stderr_done: false,
                exit: None,
                last_progress_ms: now_ms,
            },
            MonitorAction::EmitProgress { progress: 0 },
        )
    }

    /// Whether the run is over.
    pub fn is_finished(&self) -> (r: bool)
        ensures
            r == self.finished(),
    {
        self.exit.is_some() && self.stdout_done && self.stderr_done
    }

    /// Whether progress read at `now_ms` is to be reported.
    pub fn is_progress_due(&self, progress: u32, now_ms: u64) -> (r: bool)
        ensures
            r == progress_due(*self, progress, now_ms),
    {
        if progress >= FULL_PROGRESS {
            true
        } else if now_ms < self.last_progress_ms {
            false
        } else {
            now_ms - self.last_progress_ms >= PROGRESS_DEBOUNCE_MS
        }
    }

    /// Takes in one event and returns the actions it calls for.
    pub fn on_event(&mut self, event: &MonitorEvent) -> (acts: Vec<MonitorAction>)
        ensures
            *final(self) == old(self).next(event@),
            acts@ == old(self).actions(event@),
    {
        let mut acts: Vec<MonitorAction> = Vec::new();
        match event {
            MonitorEvent::CancelPoll { requested } => {
                if *requested {
                    self.cancelled = true;
                    acts.push(MonitorAction::Kill);
                }
            },
            MonitorEvent::Line { stream, line, now_ms } => {
                let done = match stream {
                    Stream::Stdout => self.stdout_done,
                    Stream::Stderr => self.stderr_done,
                };
                if !done {
                    let mut progress_emitted = false;
                    match parse_progress_percent(line.as_str()) {
                        Some(p) => {
                            if self.is_progress_due(p, *now_ms) {
                                acts.push(MonitorAction::EmitProgress { progress: p });
                                self.last_progress_ms = *now_ms;
                                progress_emitted = true;
                            }
                        },
                        None => {},
                    }
                    if !progress_emitted {
                        let is_stderr = match stream {
                            Stream::Stdout => false,
                            Stream::Stderr => true,
                        };
                        if is_stderr && should_emit_stderr(line.as_str()) {
                            acts.push(MonitorAction::EmitDiagnostic);
                        }
                    }
                    acts.push(MonitorAction::EmitRaw { stream: *stream });
                }
            },
            MonitorEvent::Closed { stream } => {
                match stream {
                    Stream::Stdout => {
                        self.stdout_done = true;
                    },
                    Stream::Stderr => {
                        self.stderr_done = true;
                    },
                }
            },
            MonitorEvent::Exited { report } => {
                if self.exit.is_none() {
                    self.exit = Some(*report);
                }
            },
        }
        acts
    }

    /// The terminal outcome of a run, asked for once the run is over.
    pub fn classify(&self) -> (o: Outcome)
        ensures
            o == self.outcome(),
    {
        if self.cancelled {
            Outcome::Cancelled
        } else {
            match self.exit {
                Some(ExitReport::Success) => Outcome::Completed,
                Some(ExitReport::Failure) => Outcome::Failed { reason: FailureReason::ExitStatus },
                _ => Outcome::Failed { reason: FailureReason::WaitFailed },
            }
        }
    }
}

/// The queue once the job `media_idx` has ended with `outcome`.
pub open spec fn queue_after(
    q: crate::download_queue::QueueView,
    media_idx: i32,
    outcome: Outcome,
) -> crate::download_queue::QueueView {
    match outcome {
        Outcome::Cancelled => q.cancel(media_idx),
        _ => q.finish(media_idx),
    }
}

/// Books the terminal outcome of the job behind `handle`: its cancellation
/// flag is removed and the queue drops the job. Says whether the queue still
/// tracked it. The caller then reports the outcome and wakes the pump,
/// whatever the outcome is.
pub fn settle(
    queue: &mut DownloadQueue,
    registry: &mut CancellationRegistry,
    handle: CancelHandle,
    outcome: Outcome,
) -> (found: bool)
    requires
        old(queue).wf(),
    ensures
        final(queue).wf(),
        final(queue)@ == queue_after(old(queue)@, handle.media_idx, outcome),
        final(registry)@ == old(registry)@.remove(handle.media_idx),
        !final(queue)@.is_running(handle.media_idx),
        found == match outcome {
            Outcome::Cancelled => old(queue)@.tracks(handle.media_idx),
            _ => old(queue)@.is_running(handle.media_idx),
        },
        old(queue)@.within_capacity() ==> final(queue)@.within_capacity(),
{
    registry.unregister(handle.media_idx);
    match outcome {
        Outcome::Cancelled => queue.cancel(handle.media_idx),
        Outcome::Completed => queue.complete(handle.media_idx),
        Outcome::Failed { reason } => queue.fail(handle.media_idx),
    }
}

/// The state after the events `events`, taken in order from `state`.
pub open spec fn run(state: MonitorState, events: Seq<EventView>) -> MonitorState
    decreases events.len(),
{
    if events.len() == 0 {
        state
    } else {
        run(state, events.drop_last()).next(events.last())
    }
}

/// Once the cancellation flag was seen set, the outcome is `Cancelled`,
/// whatever comes after it: also an exit with success.
pub proof fn law_cancellation_wins(state: MonitorState, events: Seq<EventView>, i: int)
    requires
        0 <= i < events.len(),
        events[i] == (EventView::CancelPoll { requested: true }),
    ensures
        run(state, events).cancelled,
        run(state, events).outcome() == Outcome::Cancelled,
    decreases events.len(),
{
    if i < events.len() - 1 {
        law_cancellation_wins(state, events.drop_last(), i);
    }
}

/// The exit of the process is recorded once: a later report changes nothing.
pub proof fn law_exit_recorded_once(state: MonitorState, first: ExitReport, second: ExitReport)
    requires
        state.exit is None,
    ensures
        state.next(EventView::Exited { report: first }).next(
            EventView::Exited { report: second },
        ).exit == Some(first),
{
}

/// A line whose progress value is `N/A`, alone or with more behind it,
/// brings no progress report; nor does a line without a progress value.
pub proof fn law_not_available_brings_no_progress(
    state: MonitorState,
    stream: Stream,
    line: Seq<char>,
    now_ms: u64,
    progress: u32,
)
    requires
        crate::progress::progress_field(line) matches Some(field)
            ==> crate::text::starts_with_text(field, crate::progress::not_available()),
    ensures
        !state.actions(EventView::Line { stream, line, now_ms }).contains(
            MonitorAction::EmitProgress { progress },
        ),
{
    crate::progress::law_not_available_reports_nothing(line);
}

/// Every progress report carries at most `FULL_PROGRESS`.
pub proof fn law_reported_progress_is_clamped(
    state: MonitorState,
    event: EventView,
    progress: u32,
)
    requires
        state.actions(event).contains(MonitorAction::EmitProgress { progress }),
    ensures
        progress <= FULL_PROGRESS,
{
}

} // verus!
