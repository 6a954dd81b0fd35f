//! The decisions of a printer's worker: which job to print next, what a
//! command changes, and what a new counter reading means.
use std::collections::VecDeque;
use vstd::prelude::*;

use crate::jobs::options::{merged, JobOptions, JobOptionsUpdate, Update};
use crate::printers::queue::task::WorkerCommand;

verus! {

/// The jobs of a session: those waiting (with the options changed for their
/// print), the one printing (with whether it is kept afterwards), and whether
/// the client has left.
pub struct WorkerSession {
    to_print: VecDeque<(u32, Option<JobOptionsUpdate>)>,
    printing: Option<(u32, bool)>,
    hungup: bool,
}

pub struct WorkerSessionView {
    pub to_print: Seq<(u32, Option<JobOptionsUpdate>)>,
    pub printing: Option<(u32, bool)>,
    pub hungup: bool,
}

impl View for WorkerSession {
    type V = WorkerSessionView;

    closed spec fn view(&self) -> WorkerSessionView {
        WorkerSessionView {
            to_print: self.to_print@,
            printing: self.printing,
            hungup: self.hungup,
        }
    }
}

/// What the worker does after a command.
#[derive(Debug, Clone, Copy, PartialEq, Eq, Structural)]
pub enum CommandEffect {
    /// End the session.
    Stop,
    /// Restart the timeout.
    RefreshTimeout,
    Continue,
}

/// What the worker does next.
#[derive(Debug)]
pub enum Step {
    /// Read the counters of the job being printed.
    Poll,
    /// Load this job and send it to the printer, with these options changed.
    Fetch(u32, Option<JobOptionsUpdate>),
    /// End the session: the client left and nothing is waiting.
    Stop,
    /// Wait for commands.
    Idle,
}

/// What the worker does after the counters were read for the printing job.
#[derive(Debug, Clone, Copy, PartialEq, Eq, Structural)]
pub enum PollEffect {
    /// The printer counted nothing new.
    Nothing,
    /// End the session: the credit is used up.
    Stop,
    /// The job is done and is deleted.
    DeleteJob(u32),
    /// The job is done and is kept.
    KeepJob(u32),
    /// The job is still printing; restart the timeout.
    RefreshTimeout,
}

/// The session after a command, and what the worker does.
pub open spec fn after_command(v: WorkerSessionView, command: WorkerCommand) -> (
    WorkerSessionView,
    CommandEffect,
) {
    match command {
        WorkerCommand::Cancel => (v, CommandEffect::Stop),
        WorkerCommand::HeartBeat => (v, CommandEffect::RefreshTimeout),
        WorkerCommand::Hungup => (WorkerSessionView { hungup: true, ..v }, CommandEffect::Continue),
        WorkerCommand::Print(id, options) => (
            WorkerSessionView { to_print: v.to_print.push((id, options)), ..v },
            CommandEffect::Continue,
        ),
    }
}

/// The session after choosing the next step, and that step: poll while a
/// job prints, otherwise take the first waiting job, otherwise stop once the
/// client has left.
pub open spec fn after_next_step(v: WorkerSessionView) -> (WorkerSessionView, Step) {
    if v.printing is Some {
        (v, Step::Poll)
    } else if v.to_print.len() > 0 {
        (
            WorkerSessionView { to_print: v.to_print.drop_first(), ..v },
            Step::Fetch(v.to_print[0].0, v.to_print[0].1),
        )
    } else if v.hungup {
        (v, Step::Stop)
    } else {
        (v, Step::Idle)
    }
}

/// The session after a counter reading of the printing job: nothing happens
/// unless the printer counted new pages; then a used up credit ends the
/// session, a finished job leaves the printing slot, and otherwise the
/// timeout restarts.
pub open spec fn after_poll(
    v: WorkerSessionView,
    updated: bool,
    not_enough_credit: bool,
    finished: bool,
) -> (WorkerSessionView, PollEffect) {
    if !updated {
        (v, PollEffect::Nothing)
    } else if not_enough_credit {
        (v, PollEffect::Stop)
    } else if finished {
        match v.printing {
            Some((id, keep)) => (
                WorkerSessionView { printing: None, ..v },
                if keep {
                    PollEffect::KeepJob(id)
                } else {
                    PollEffect::DeleteJob(id)
                },
            ),
            None => (v, PollEffect::Nothing),
        }
    } else {
        (v, PollEffect::RefreshTimeout)
    }
}

/// What fetching a job came to.
#[derive(Debug, Clone, Copy, PartialEq, Eq, Structural)]
pub enum FetchOutcome {
    /// The user has no job with that id.
    NotFound,
    /// The printer's counters could not be read before printing.
    NoCounter,
    /// The credit does not pay for a page of the job.
    ShortOfCredit,
    /// The printer did not take the job.
    PrintFailed,
    /// The job went to the printer; whether it is kept afterwards.
    Sent(bool),
}

/// What the worker does after fetching a job.
#[derive(Debug, Clone, Copy, PartialEq, Eq, Structural)]
pub enum FetchEffect {
    Continue,
    /// End the session.
    Stop,
    /// The job prints; restart the timeout.
    RefreshTimeout,
}

/// The session after fetching a job, and what the worker does: a missing job
/// is skipped; without counters the job goes back to the front of the queue
/// and the session ends; a short credit or a failed print ends the session;
/// a job sent to the printer takes the printing slot.
pub open spec fn after_fetch(
    v: WorkerSessionView,
    job_id: u32,
    options: Option<JobOptionsUpdate>,
    outcome: FetchOutcome,
) -> (WorkerSessionView, FetchEffect) {
    match outcome {
        FetchOutcome::NotFound => (v, FetchEffect::Continue),
        FetchOutcome::NoCounter => (
            WorkerSessionView { to_print: seq![(job_id, options)] + v.to_print, ..v },
            FetchEffect::Stop,
        ),
        FetchOutcome::ShortOfCredit => (v, FetchEffect::Stop),
        FetchOutcome::PrintFailed => (v, FetchEffect::Stop),
        FetchOutcome::Sent(keep) => (
            WorkerSessionView { printing: Some((job_id, keep)), ..v },
            FetchEffect::RefreshTimeout,
        ),
    }
}

impl WorkerSession {
    /// A session with nothing to print.
    pub fn new() -> (res: WorkerSession)
        ensures
            res@.to_print.len() == 0,
            res@.printing is None,
            !res@.hungup,
    {
        WorkerSession { to_print: VecDeque::new(), printing: None, hungup: false }
    }

    pub fn apply_command(&mut self, command: WorkerCommand) -> (res: CommandEffect)
        ensures
            (final(self)@, res) == after_command(old(self)@, command),
    {
        match command {
            WorkerCommand::Cancel => CommandEffect::Stop,
            WorkerCommand::HeartBeat => CommandEffect::RefreshTimeout,
            WorkerCommand::Hungup => {
                self.hungup = true;
                CommandEffect::Continue
            },
            WorkerCommand::Print(id, options) => {
                self.to_print.push_back((id, options));
                CommandEffect::Continue
            },
        }
    }

    pub fn next_step(&mut self) -> (res: Step)
        ensures
            (final(self)@, res) == after_next_step(old(self)@),
    {
        if self.printing.is_some() {
            return Step::Poll;
        }
        match self.to_print.pop_front() {
            Some((id, options)) => Step::Fetch(id, options),
            None => {
                if self.hungup {
                    Step::Stop
                } else {
                    Step::Idle
                }
            },
        }
    }

    pub fn after_poll(&mut self, updated: bool, not_enough_credit: bool, finished: bool) -> (res:
        PollEffect)
        ensures
            (final(self)@, res) == after_poll(old(self)@, updated, not_enough_credit, finished),
    {
        if !updated {
            return PollEffect::Nothing;
        }
        if not_enough_credit {
            return PollEffect::Stop;
        }
        if finished {
            match self.printing {
                Some((id, keep)) => {
                    self.printing = None;
                    if keep {
                        PollEffect::KeepJob(id)
                    } else {
                        PollEffect::DeleteJob(id)
                    }
                },
                None => PollEffect::Nothing,
            }
        } else {
            PollEffect::RefreshTimeout
        }
    }

    /// What became of fetching the job `job_id` (taken with `options` from
    /// the front of the queue), and what the worker does next.
    pub fn after_fetch(
        &mut self,
        job_id: u32,
        options: Option<JobOptionsUpdate>,
        outcome: FetchOutcome,
    ) -> (res: FetchEffect)
        ensures
            (final(self)@, res) == after_fetch(old(self)@, job_id, options, outcome),
    {
        match outcome {
            FetchOutcome::NotFound => FetchEffect::Continue,
            FetchOutcome::NoCounter => {
                self.to_print.push_front((job_id, options));
                FetchEffect::Stop
            },
            FetchOutcome::ShortOfCredit => FetchEffect::Stop,
            FetchOutcome::PrintFailed => FetchEffect::Stop,
            FetchOutcome::Sent(keep) => {
                self.printing = Some((job_id, keep));
                FetchEffect::RefreshTimeout
            },
        }
    }
}

/// The options a job is printed with: its own, with the options sent with the
/// print command changed.
pub fn options_for_print(options: JobOptions, update: Option<JobOptionsUpdate>) -> (res: JobOptions)
    ensures
        res == match update {
            Some(u) => merged(options, u),
            None => options,
        },
{
    let mut options = options;
    if let Some(u) = update {
        options.merge(u);
    }
    options
}

/// What the worker does after its session ended, one step at a time.
#[derive(Debug, Clone, Copy, PartialEq, Eq, Structural)]
pub enum Closing {
    /// Clear the printer's queue, in case it holds more than was expected.
    ClearQueue,
    /// Wait this many milliseconds for the printer to settle.
    Settle(u64),
    /// Read the counters once more and account them.
    ReadCounters,
    /// Write what is charged to the journal.
    Finish,
    /// Nothing more to do.
    Done,
}

/// The closing steps: the queue is cleared four times, the printer gets three
/// seconds, the counters are read four times, and the charge is written.
pub open spec fn closing_step(taken: nat) -> Closing {
    if taken < 4 {
        Closing::ClearQueue
    } else if taken == 4 {
        Closing::Settle(3000)
    } else if taken < 9 {
        Closing::ReadCounters
    } else if taken == 9 {
        Closing::Finish
    } else {
        Closing::Done
    }
}

/// How far the closing of a session has come.
pub struct SessionEnd {
    taken: u8,
}

impl View for SessionEnd {
    type V = nat;

    closed spec fn view(&self) -> nat {
        self.taken as nat
    }
}

impl SessionEnd {
    /// Closing that has not begun.
    pub fn new() -> (res: SessionEnd)
        ensures
            res@ == 0,
    {
        SessionEnd { taken: 0 }
    }

    /// The next closing step.
    pub fn next(&mut self) -> (res: Closing)
        ensures
            res == closing_step(old(self)@),
            final(self)@ == if old(self)@ < 10 {
                old(self)@ + 1
            } else {
                old(self)@
            },
    {
        let step = if self.taken < 4 {
            Closing::ClearQueue
        } else if self.taken == 4 {
            Closing::Settle(3000)
        } else if self.taken < 9 {
            Closing::ReadCounters
        } else if self.taken == 9 {
            Closing::Finish
        } else {
            Closing::Done
        };
        if self.taken < 10 {
            self.taken = self.taken + 1;
        }
        step
    }
}

/// Jobs are printed in the order their print commands arrive: on a session
/// with nothing waiting and nothing printing, `Print(a, oa)` then
/// `Print(b, ob)` make the next two steps fetch `a` with `oa`, then `b` with
/// `ob`.
pub proof fn lemma_print_order(
    v: WorkerSessionView,
    a: u32,
    oa: Option<JobOptionsUpdate>,
    b: u32,
    ob: Option<JobOptionsUpdate>,
)
    requires
        v.to_print.len() == 0,
        v.printing is None,
    ensures
        ({
            let v1 = after_command(v, WorkerCommand::Print(a, oa)).0;
            let v2 = after_command(v1, WorkerCommand::Print(b, ob)).0;
            let (v3, first) = after_next_step(v2);
            let (v4, second) = after_next_step(v3);
            first == Step::Fetch(a, oa) && second == Step::Fetch(b, ob) && v4.to_print.len() == 0
        }),
{
    let v1 = after_command(v, WorkerCommand::Print(a, oa)).0;
    let v2 = after_command(v1, WorkerCommand::Print(b, ob)).0;
    assert(v2.to_print =~= seq![(a, oa), (b, ob)]);
    let v3 = after_next_step(v2).0;
    assert(v3.to_print =~= seq![(b, ob)]);
}

} // verus!
