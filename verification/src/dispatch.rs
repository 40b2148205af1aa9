//! The dispatch loop's decisions: which job the pump hands to a monitor
//! next, and what the supervisor does when the pump dies.

use crate::download_queue::{DownloadQueue, QueueView, QueuedDownload};
use vstd::arithmetic::power2::{lemma2_to64, pow2};
use vstd::prelude::*;

verus! {

/// How often the supervisor restarts the pump before it gives up.
pub const MAX_RESTARTS: u32 = 5;

/// Milliseconds that the supervisor waits before the first restart.
pub const BASE_BACKOFF_MS: u64 = 1000;

/// The number of doublings after which the wait grows no more.
pub const MAX_BACKOFF_DOUBLINGS: u32 = 10;

/// What the pump does next.
#[derive(Debug)]
pub enum PumpDecision {
    /// Hand this job to a fresh monitor, then ask again.
    Dispatch { job: QueuedDownload },
    /// No room or no work: wait for the next notification.
    Idle,
}

/// The queue as the pump's step leaves it: a job whose settings could not
/// be read is dropped as failed, then the next job is started if one can be.
pub open spec fn after_pump_step(q: QueueView, rejected: Option<i32>) -> QueueView {
    before_start(q, rejected).start_next()
}

/// The queue once the rejected job, if any, is dropped as failed.
pub open spec fn before_start(q: QueueView, rejected: Option<i32>) -> QueueView {
    match rejected {
        Some(id) => q.finish(id),
        None => q,
    }
}

/// One step of the pump's drain. `rejected` names the job that the last
/// step dispatched where it could not be started: it is dropped as failed.
/// Then the oldest pending job is handed out if fewer jobs run than the
/// limit allows.
pub fn pump_step(queue: &mut DownloadQueue, rejected: Option<i32>) -> (decision: PumpDecision)
    requires
        old(queue).wf(),
    ensures
        final(queue).wf(),
        final(queue)@ == after_pump_step(old(queue)@, rejected),
        match decision {
            PumpDecision::Dispatch { job } => before_start(old(queue)@, rejected).next_started()
                == Some(job@),
            PumpDecision::Idle => before_start(old(queue)@, rejected).next_started() is None
                && !final(queue)@.can_start(),
        },
        old(queue)@.within_capacity() ==> final(queue)@.within_capacity(),
{
    match rejected {
        Some(id) => {
            queue.fail(id);
        },
        None => {},
    }
    match queue.next_to_start() {
        Some(job) => PumpDecision::Dispatch { job },
        None => PumpDecision::Idle,
    }
}

/// The pump goes idle only when nothing can start: no job is pending, or as
/// many run as the limit allows. While a job can start, a step dispatches
/// the oldest pending one.
pub proof fn law_pump_drains(q: QueueView)
    requires
        q.valid(),
    ensures
        q.next_started() is None <==> (q.pending.len() == 0 || q.running.len()
            >= q.max_concurrent),
        q.next_started() is Some ==> q.start_next().pending.len() == q.pending.len() - 1
            && q.start_next().running.len() == q.running.len() + 1,
{
}

/// Where the supervisor stands.
#[derive(Debug, Clone, Copy, PartialEq, Eq, Structural)]
pub struct Supervisor {
    /// How many times the pump was restarted.
    pub restarts: u32,
    /// Whether the supervisor has given up.
    pub down: bool,
}

/// What the supervisor does when the pump has ended.
#[derive(Debug, Clone, Copy, PartialEq, Eq, Structural)]
pub enum SupervisorAction {
    /// Wait this long, then start the pump again.
    Restart { backoff_ms: u64 },
    /// Report once that dispatch is down for good, and stop.
    ReportDown,
    /// Already down: nothing more.
    Nothing,
}

/// The wait before restart number `restarts + 1`: the base wait, doubled
/// with each restart so far, up to `MAX_BACKOFF_DOUBLINGS` doublings.
pub open spec fn backoff_after(restarts: nat) -> nat {
    let doublings = if restarts < MAX_BACKOFF_DOUBLINGS {
        restarts
    } else {
        MAX_BACKOFF_DOUBLINGS as nat
    };
    BASE_BACKOFF_MS as nat * pow2(doublings)
}

impl Supervisor {
    pub open spec fn initial() -> Supervisor {
        Supervisor { restarts: 0, down: false }
    }

    /// The action on the pump's end.
    pub open spec fn action(self) -> SupervisorAction {
        if self.down {
            SupervisorAction::Nothing
        } else if self.restarts >= MAX_RESTARTS {
            SupervisorAction::ReportDown
        } else {
            SupervisorAction::Restart { backoff_ms: backoff_after(self.restarts as nat) as u64 }
        }
    }

    /// The supervisor after the pump's end.
    pub open spec fn next(self) -> Supervisor {
        if self.down {
            self
        } else if self.restarts >= MAX_RESTARTS {
            Supervisor { down: true, ..self }
        } else {
            Supervisor { restarts: (self.restarts + 1) as u32, ..self }
        }
    }

    /// A supervisor that has restarted nothing yet.
    pub fn new() -> (s: Supervisor)
        ensures
            s == Supervisor::initial(),
    {
        Supervisor { restarts: 0, down: false }
    }

    /// Decides what to do now that the pump has ended, however it ended.
    pub fn on_pump_exit(&mut self) -> (action: SupervisorAction)
        ensures
            action == old(self).action(),
            *final(self) == old(self).next(),
    {
        if self.down {
            SupervisorAction::Nothing
        } else if self.restarts >= MAX_RESTARTS {
            self.down = true;
            SupervisorAction::ReportDown
        } else {
            let backoff_ms = backoff_ms(self.restarts);
            self.restarts = self.restarts + 1;
            SupervisorAction::Restart { backoff_ms }
        }
    }
}

/// The wait in milliseconds before restart number `restarts + 1`.
pub fn backoff_ms(restarts: u32) -> (ms: u64)
    ensures
        ms == backoff_after(restarts as nat),
        BASE_BACKOFF_MS <= ms <= BASE_BACKOFF_MS * 1024,
{
    let doublings = if restarts < MAX_BACKOFF_DOUBLINGS {
        restarts
    } else {
        MAX_BACKOFF_DOUBLINGS
    };
    let mut ms: u64 = BASE_BACKOFF_MS;
    let mut i: u32 = 0;
    proof {
        lemma2_to64();
    }
    while i < doublings
        invariant
            i <= doublings <= 10,
            ms == BASE_BACKOFF_MS * pow2(i as nat),
            pow2(i as nat) <= pow2(doublings as nat) <= 1024,
        decreases doublings - i,
    {
        proof {
            lemma2_to64();
        }
        ms = ms * 2;
        i = i + 1;
    }
    ms
}

/// The supervisor after the pump has ended `n` times.
pub open spec fn after_exits(s: Supervisor, n: nat) -> Supervisor
    decreases n,
{
    if n == 0 {
        s
    } else {
        after_exits(s, (n - 1) as nat).next()
    }
}

/// However often the pump dies, it is restarted at most `MAX_RESTARTS`
/// times and the supervisor reports at most once that dispatch is down:
/// exit number `n` from the start is answered with a restart while `n` is
/// at most `MAX_RESTARTS`, with the report at `MAX_RESTARTS + 1`, and with
/// nothing after that.
pub proof fn law_restarts_are_bounded(n: nat)
    ensures
        after_exits(Supervisor::initial(), n).restarts == if n <= MAX_RESTARTS {
            n
        } else {
            MAX_RESTARTS as nat
        },
        after_exits(Supervisor::initial(), n).down == (n > MAX_RESTARTS),
        after_exits(Supervisor::initial(), n).action() is Restart <==> n < MAX_RESTARTS,
        after_exits(Supervisor::initial(), n).action() is ReportDown <==> n == MAX_RESTARTS,
        after_exits(Supervisor::initial(), n).action() is Nothing <==> n > MAX_RESTARTS,
    decreases n,
{
    if n > 0 {
        law_restarts_are_bounded((n - 1) as nat);
    }
}

/// The wait doubles from one restart to the next until it stops growing.
pub proof fn law_backoff_doubles(restarts: nat)
    ensures
        backoff_after(0) == BASE_BACKOFF_MS,
        restarts < MAX_BACKOFF_DOUBLINGS ==> backoff_after(restarts + 1) == 2 * backoff_after(
            restarts,
        ),
        restarts >= MAX_BACKOFF_DOUBLINGS ==> backoff_after(restarts) == BASE_BACKOFF_MS * 1024,
{
    lemma2_to64();
}

} // verus!
