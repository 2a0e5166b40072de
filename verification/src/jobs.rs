//! Control of the two periodic jobs. Each job is a loop that the owner
//! starts with `spawn` and ends with `stop`; between the two it runs one
//! tick of its work whenever its timer fires. The loop itself, its timer
//! and its shutdown signal belong to the caller: this module decides what
//! the loop does next.

use crate::notification::{DispatchOutcome, NotificationAlert};
use crate::repository::check::{alerts_after_scan, evaluated_table};
use crate::repository::queue::{
    alert_views, batch_claimed, batch_positions, delivered_of, dispatch_view, outcome_views,
    outcomes_recorded, released_by,
};
use crate::repository::{Repository, ALERT_BATCH_SIZE};
use vstd::prelude::*;

verus! {

/// Seconds between two ticks of a job.
pub const POLL_INTERVAL: u64 = 5;

/// Seconds that one tick of a job may take. A tick that takes longer is
/// abandoned with its transaction, and the next tick starts afresh.
pub const TICK_TIMEOUT: u64 = 60;

/// Seconds that the dispatch of one alert may take. A dispatch that takes
/// longer counts as failed.
pub const DISPATCH_TIMEOUT: u64 = 10;

/// Where a job's loop stands.
#[derive(Clone, Copy, Debug, PartialEq, Eq, Structural)]
pub enum JobState {
    /// Not started, or stopped and joined.
    Idle,
    /// The loop is waiting for its timer or for the shutdown signal.
    Running,
}

/// What wakes a job's loop.
#[derive(Clone, Copy, Debug, PartialEq, Eq, Structural)]
pub enum JobEvent {
    /// The timer fired.
    Tick,
    /// The owner asked the loop to end.
    Shutdown,
}

/// What a job's loop does after an event.
#[derive(Clone, Copy, Debug, PartialEq, Eq, Structural)]
pub enum JobAction {
    /// Run one tick of the job's work, then wait again.
    RunTick,
    /// Leave the loop.
    Exit,
}

/// What the owner does to end a job.
#[derive(Clone, Copy, Debug, PartialEq, Eq, Structural)]
pub enum StopAction {
    /// Send the shutdown signal and wait for the loop to end.
    SignalAndJoin,
    /// There is no loop to end.
    Nothing,
}

/// A job's loop after `event`: a tick runs the work only while the loop
/// runs, and a shutdown ends the loop.
pub open spec fn job_step(state: JobState, event: JobEvent) -> (JobState, JobAction) {
    match (state, event) {
        (JobState::Running, JobEvent::Tick) => (JobState::Running, JobAction::RunTick),
        _ => (JobState::Idle, JobAction::Exit),
    }
}

/// The state of a loop after a sequence of events, the oldest first.
pub open spec fn job_run(state: JobState, events: Seq<JobEvent>) -> JobState
    decreases events.len(),
{
    if events.len() == 0 {
        state
    } else {
        job_step(job_run(state, events.drop_last()), events.last()).0
    }
}

/// Once a shutdown was asked for, the loop runs no tick again, whatever
/// follows.
pub proof fn lemma_no_tick_after_shutdown(state: JobState, events: Seq<JobEvent>, i: int)
    requires
        0 <= i < events.len(),
        events[i] == JobEvent::Shutdown,
    ensures
        job_run(state, events) == JobState::Idle,
        forall|e: JobEvent| job_step(job_run(state, events), e).1 == JobAction::Exit,
    decreases events.len(),
{
    if i < events.len() - 1 {
        assert(events.drop_last()[i] == events[i]);
        lemma_no_tick_after_shutdown(state, events.drop_last(), i);
    }
}

/// The loop of one job.
#[derive(Clone, Copy, Debug)]
pub struct JobControl {
    pub state: JobState,
}

impl JobControl {
    pub fn new() -> (r: Self)
        ensures
            r.state == JobState::Idle,
    {
        JobControl { state: JobState::Idle }
    }

    /// Starts the loop. The result is the number of seconds between two
    /// ticks.
    pub fn spawn(&mut self) -> (interval: u64)
        ensures
            final(self).state == JobState::Running,
            interval == POLL_INTERVAL,
    {
        self.state = JobState::Running;
        POLL_INTERVAL
    }

    /// Decides what the loop does after `event`.
    pub fn next(&mut self, event: JobEvent) -> (action: JobAction)
        ensures
            (final(self).state, action) == job_step(old(self).state, event),
    {
        match (self.state, event) {
            (JobState::Running, JobEvent::Tick) => JobAction::RunTick,
            _ => {
                self.state = JobState::Idle;
                JobAction::Exit
            },
        }
    }

    /// Decides what the owner does to end the loop: a running loop is
    /// signalled and joined, and a second `stop` finds nothing to do.
    pub fn stop(&mut self) -> (action: StopAction)
        ensures
            final(self).state == JobState::Idle,
            action == if old(self).state == JobState::Running {
                StopAction::SignalAndJoin
            } else {
                StopAction::Nothing
            },
    {
        match self.state {
            JobState::Running => {
                self.state = JobState::Idle;
                StopAction::SignalAndJoin
            },
            JobState::Idle => StopAction::Nothing,
        }
    }
}

/// The overdue detector as a job.
#[derive(Clone, Copy, Debug)]
pub struct EnqueueAlerts {
    pub control: JobControl,
}

impl EnqueueAlerts {
    /// A detector that is not started yet.
    pub fn with_repository() -> (r: Self)
        ensures
            r.control.state == JobState::Idle,
    {
        EnqueueAlerts { control: JobControl::new() }
    }

    /// Starts the detector; see [`JobControl::spawn`].
    pub fn spawn(&mut self) -> (interval: u64)
        ensures
            final(self).control.state == JobState::Running,
            interval == POLL_INTERVAL,
    {
        self.control.spawn()
    }

    /// Ends the detector; see [`JobControl::stop`].
    pub fn stop(&mut self) -> (action: StopAction)
        ensures
            final(self).control.state == JobState::Idle,
            action == if old(self).control.state == JobState::Running {
                StopAction::SignalAndJoin
            } else {
                StopAction::Nothing
            },
    {
        self.control.stop()
    }

    /// Handles one event of the detector's loop at `now`: a tick of a
    /// running detector runs one scan of `repository`, and anything else
    /// ends the loop and leaves the repository alone.
    pub fn on_event(&mut self, event: JobEvent, repository: &mut Repository, now: i64) -> (action: JobAction)
        requires
            old(repository).wf(),
        ensures
            final(repository).wf(),
            (final(self).control.state, action) == job_step(old(self).control.state, event),
            action == JobAction::Exit ==> *final(repository) == *old(repository),
            action == JobAction::RunTick ==> {
                &&& final(repository).check@ == evaluated_table(old(repository).check@, now)
                &&& final(repository).notification.channels() == old(repository).notification.channels()
                &&& final(repository).notification.alerts() == alerts_after_scan(
                    old(repository).check@,
                    old(repository).notification.channels(),
                    old(repository).notification.alerts(),
                    now,
                )
            },
    {
        let action = self.control.next(event);
        match action {
            JobAction::RunTick => {
                enqueue_overdue_ping_alerts(repository, now);
            },
            JobAction::Exit => {},
        }
        action
    }
}

/// One tick of the overdue detector at `now`; see
/// [`Repository::enqueue_alerts_for_overdue_pings`].
pub fn enqueue_overdue_ping_alerts(repository: &mut Repository, now: i64) -> (raised: usize)
    requires
        old(repository).wf(),
    ensures
        final(repository).wf(),
        final(repository).check@ == evaluated_table(old(repository).check@, now),
        final(repository).notification.channels() == old(repository).notification.channels(),
        final(repository).notification.alerts() == alerts_after_scan(
            old(repository).check@,
            old(repository).notification.channels(),
            old(repository).notification.alerts(),
            now,
        ),
        raised == final(repository).notification.alerts().len() - old(repository).notification.alerts().len(),
{
    repository.enqueue_alerts_for_overdue_pings(now)
}

/// The delivery worker as a job. A tick of it has two halves, with the
/// dispatch of the claimed alerts between them.
#[derive(Clone, Copy, Debug)]
pub struct SendAlerts {
    pub control: JobControl,
    /// Name under which the worker takes row locks.
    pub worker: u64,
}

impl SendAlerts {
    /// A delivery worker that is not started yet.
    pub fn with_repository(worker: u64) -> (r: Self)
        ensures
            r.control.state == JobState::Idle,
            r.worker == worker,
    {
        SendAlerts { control: JobControl::new(), worker }
    }

    /// Starts the worker; see [`JobControl::spawn`].
    pub fn spawn(&mut self) -> (interval: u64)
        ensures
            final(self).control.state == JobState::Running,
            final(self).worker == old(self).worker,
            interval == POLL_INTERVAL,
    {
        self.control.spawn()
    }

    /// Ends the worker; see [`JobControl::stop`].
    pub fn stop(&mut self) -> (action: StopAction)
        ensures
            final(self).control.state == JobState::Idle,
            final(self).worker == old(self).worker,
            action == if old(self).control.state == JobState::Running {
                StopAction::SignalAndJoin
            } else {
                StopAction::Nothing
            },
    {
        self.control.stop()
    }

    /// Handles one event of the worker's loop. On a tick of a running
    /// worker the result holds the batch that the worker claimed and has to
    /// dispatch; anything else ends the loop and claims nothing.
    pub fn on_event(&mut self, event: JobEvent, repository: &mut Repository) -> (r: (
        JobAction,
        Vec<NotificationAlert>,
    ))
        requires
            old(repository).wf(),
        ensures
            final(repository).wf(),
            final(self).worker == old(self).worker,
            (final(self).control.state, r.0) == job_step(old(self).control.state, event),
            r.0 == JobAction::Exit ==> *final(repository) == *old(repository) && r.1@.len() == 0,
            r.0 == JobAction::RunTick ==> {
                &&& final(repository).check == old(repository).check
                &&& final(repository).notification.channels() == old(repository).notification.channels()
                &&& batch_claimed(
                    old(repository).notification.alerts(),
                    final(repository).notification.alerts(),
                    batch_positions(r.1@),
                    old(self).worker,
                    ALERT_BATCH_SIZE as int,
                    old(repository).notification.channels(),
                    old(repository).check@,
                )
                &&& forall|p: int|
                    0 <= p < r.1@.len() ==> (#[trigger] r.1@[p])@ == dispatch_view(
                        old(repository).notification.alerts()[r.1@[p].id as int],
                        old(repository).notification.channels(),
                        old(repository).check@,
                    )
            },
    {
        let action = self.control.next(event);
        match action {
            JobAction::RunTick => {
                let batch = repository.claim_alert_batch(self.worker, ALERT_BATCH_SIZE);
                (action, batch)
            },
            JobAction::Exit => (action, Vec::new()),
        }
    }

    /// Second half of a tick; see [`send_alerts`].
    pub fn finish_tick(&self, repository: &mut Repository, outcomes: Vec<DispatchOutcome>, now: i64) -> (sent: Vec<
        NotificationAlert,
    >)
        requires
            old(repository).wf(),
        ensures
            final(repository).wf(),
            final(repository).check == old(repository).check,
            final(repository).notification.channels() == old(repository).notification.channels(),
            final(repository).notification.alerts() == released_by(
                outcomes_recorded(old(repository).notification.alerts(), outcome_views(outcomes@), now),
                self.worker,
            ),
            alert_views(sent@) == delivered_of(outcome_views(outcomes@)),
    {
        send_alerts(repository, self.worker, outcomes, now)
    }
}

/// Second half of a delivery tick at `now`: records what the notifier
/// reported for the batch of `worker` and ends the worker's transaction;
/// see [`Repository::send_alert_batch`].
pub fn send_alerts(repository: &mut Repository, worker: u64, outcomes: Vec<DispatchOutcome>, now: i64) -> (sent: Vec<
    NotificationAlert,
>)
    requires
        old(repository).wf(),
    ensures
        final(repository).wf(),
        final(repository).check == old(repository).check,
        final(repository).notification.channels() == old(repository).notification.channels(),
        final(repository).notification.alerts() == released_by(
            outcomes_recorded(old(repository).notification.alerts(), outcome_views(outcomes@), now),
            worker,
        ),
        alert_views(sent@) == delivered_of(outcome_views(outcomes@)),
{
    repository.send_alert_batch(worker, outcomes, now)
}

} // verus!
