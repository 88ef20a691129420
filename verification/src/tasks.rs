//! The tasks of a listener.
//!
//! A [`TaskGroup`] takes tasks until it is closed, and hands them to a [`Supervisor`]
//! that runs them. Closing waits for the running tasks up to a deadline; those that are
//! still running by then are aborted. A [`Shutdown`] does the same to the listeners
//! themselves, all within one grace period.
use vstd::prelude::*;

verus! {

/// What becomes of a task.
#[derive(Debug, Clone, Copy, PartialEq, Eq, Structural)]
pub enum SpawnAction {
    /// The task is dropped without having run.
    Drop,
    /// A supervisor is started, and the task is sent to it.
    StartSupervisor,
    /// The task is sent to the supervisor.
    Send,
}

/// How a group is closed.
#[derive(Debug, Clone, Copy, PartialEq, Eq, Structural)]
pub enum CloseAction {
    /// There is nothing to wait for.
    Return,
    /// The supervisor is told to shut down, and its completion is awaited.
    Shutdown,
}

/// A group of tasks. It is one value that all who spawn share: a copy would not learn that
/// the group was closed.
#[derive(Debug, PartialEq, Eq, Structural)]
pub struct TaskGroup {
    /// Whether the group takes no more tasks.
    pub closed: bool,
    /// Whether there is a supervisor.
    pub supervised: bool,
}

impl Default for TaskGroup {
    fn default() -> (r: Self)
        ensures
            r == (TaskGroup { closed: false, supervised: false }),
    {
        TaskGroup { closed: false, supervised: false }
    }
}

impl TaskGroup {
    /// Takes a task. One that comes after the group was closed does not run.
    pub fn spawn(&mut self) -> (r: SpawnAction)
        ensures
            final(self).closed == old(self).closed,
            if old(self).closed {
                r is Drop && *final(self) == *old(self)
            } else if old(self).supervised {
                r is Send && *final(self) == *old(self)
            } else {
                r is StartSupervisor && final(self).supervised
            },
    {
        if self.closed {
            return SpawnAction::Drop;
        }
        if self.supervised {
            return SpawnAction::Send;
        }
        self.supervised = true;
        SpawnAction::StartSupervisor
    }

    /// Closes the group. Only the first to close it waits, and only for a supervisor.
    pub fn close_and_wait_until(&mut self) -> (r: CloseAction)
        ensures
            final(self).closed,
            final(self).supervised == old(self).supervised,
            r is Shutdown <==> !old(self).closed && old(self).supervised,
    {
        if self.closed {
            return CloseAction::Return;
        }
        self.closed = true;
        if self.supervised {
            CloseAction::Shutdown
        } else {
            CloseAction::Return
        }
    }
}

/// How far a supervisor has come.
#[derive(Debug, Clone, Copy, PartialEq, Eq, Structural)]
pub enum SupervisorStage {
    /// Tasks are taken and run.
    Running,
    /// No more tasks are taken; the running ones may end by themselves.
    Draining,
    /// The running tasks have been aborted.
    Aborting,
    /// The supervisor is gone.
    Over,
}

/// What a supervisor is told.
#[derive(Debug, Clone, Copy, PartialEq, Eq, Structural)]
pub enum SupervisorEvent {
    /// A task came.
    Spawn,
    /// The group was closed.
    Shutdown,
    /// Nobody can send tasks any more.
    Disconnected,
    /// A task ended.
    TaskEnded,
    /// The deadline has passed.
    DeadlinePassed,
}

/// What a supervisor does next.
#[derive(Debug, Clone, Copy, PartialEq, Eq, Structural)]
pub enum SupervisorAction {
    /// Await a task, or the end of one.
    Wait,
    /// Start the task that came, and await the next.
    StartTask,
    /// Take no more tasks, and await the end of one up to the deadline.
    CloseAndDrain,
    /// Take no more tasks and tell that all have ended.
    CloseAndComplete,
    /// Await the end of a task up to the deadline.
    Drain,
    /// Abort all tasks, and await the end of one.
    Abort,
    /// Await the end of an aborted task.
    JoinAborted,
    /// Tell that all tasks have ended.
    Complete,
    /// Stop; tasks that are still running are dropped.
    Stop,
}

/// A supervisor.
#[derive(Debug, PartialEq, Eq, Structural)]
pub struct Supervisor {
    pub stage: SupervisorStage,
    /// The tasks that are running.
    pub running: u64,
}

impl Supervisor {
    /// Whether a supervisor waits for an event.
    pub open spec fn awaits(self, event: SupervisorEvent) -> bool {
        match self.stage {
            SupervisorStage::Running => match event {
                SupervisorEvent::Spawn => self.running < u64::MAX,
                SupervisorEvent::TaskEnded => self.running > 0,
                SupervisorEvent::DeadlinePassed => false,
                _ => true,
            },
            SupervisorStage::Draining => self.running > 0 && (event is TaskEnded
                || event is DeadlinePassed),
            SupervisorStage::Aborting => self.running > 0 && event is TaskEnded,
            SupervisorStage::Over => false,
        }
    }

    /// The supervisor after an event, and what it does next.
    pub open spec fn next(self, event: SupervisorEvent) -> (Supervisor, SupervisorAction) {
        let fewer = (self.running - 1) as u64;
        match (self.stage, event) {
            (SupervisorStage::Running, SupervisorEvent::Spawn) => (
                Supervisor { running: (self.running + 1) as u64, ..self },
                SupervisorAction::StartTask,
            ),
            (SupervisorStage::Running, SupervisorEvent::TaskEnded) => (
                Supervisor { running: fewer, ..self },
                SupervisorAction::Wait,
            ),
            (SupervisorStage::Running, SupervisorEvent::Shutdown) => if self.running == 0 {
                (
                    Supervisor { stage: SupervisorStage::Over, ..self },
                    SupervisorAction::CloseAndComplete,
                )
            } else {
                (
                    Supervisor { stage: SupervisorStage::Draining, ..self },
                    SupervisorAction::CloseAndDrain,
                )
            },
            (SupervisorStage::Running, _) => (
                Supervisor { stage: SupervisorStage::Over, ..self },
                SupervisorAction::Stop,
            ),
            (SupervisorStage::Draining, SupervisorEvent::DeadlinePassed) => (
                Supervisor { stage: SupervisorStage::Aborting, ..self },
                SupervisorAction::Abort,
            ),
            _ => if fewer == 0 {
                (
                    Supervisor { stage: SupervisorStage::Over, running: 0 },
                    SupervisorAction::Complete,
                )
            } else {
                (
                    Supervisor { running: fewer, ..self },
                    if self.stage is Draining {
                        SupervisorAction::Drain
                    } else {
                        SupervisorAction::JoinAborted
                    },
                )
            },
        }
    }

    /// A supervisor without tasks.
    pub fn new() -> (r: Self)
        ensures
            r == (Supervisor { stage: SupervisorStage::Running, running: 0 }),
    {
        Supervisor { stage: SupervisorStage::Running, running: 0 }
    }

    /// Takes an event, and tells what to do next.
    pub fn step(&mut self, event: SupervisorEvent) -> (r: SupervisorAction)
        requires
            old(self).awaits(event),
        ensures
            (*final(self), r) == old(self).next(event),
    {
        match self.stage {
            SupervisorStage::Running => match event {
                SupervisorEvent::Spawn => {
                    self.running = self.running + 1;
                    SupervisorAction::StartTask
                },
                SupervisorEvent::TaskEnded => {
                    self.running = self.running - 1;
                    SupervisorAction::Wait
                },
                SupervisorEvent::Shutdown => {
                    if self.running == 0 {
                        self.stage = SupervisorStage::Over;
                        SupervisorAction::CloseAndComplete
                    } else {
                        self.stage = SupervisorStage::Draining;
                        SupervisorAction::CloseAndDrain
                    }
                },
                _ => {
                    self.stage = SupervisorStage::Over;
                    SupervisorAction::Stop
                },
            },
            _ => {
                if self.stage == SupervisorStage::Draining && event
                    == SupervisorEvent::DeadlinePassed {
                    self.stage = SupervisorStage::Aborting;
                    return SupervisorAction::Abort;
                }
                self.running = self.running - 1;
                if self.running == 0 {
                    self.stage = SupervisorStage::Over;
                    SupervisorAction::Complete
                } else if self.stage == SupervisorStage::Draining {
                    SupervisorAction::Drain
                } else {
                    SupervisorAction::JoinAborted
                }
            },
        }
    }
}

/// Whoever closes a group is told only when none of its tasks is running any more.
pub proof fn completion_means_no_task_runs(supervisor: Supervisor, event: SupervisorEvent)
    requires
        supervisor.awaits(event),
    ensures
        ({
            let (after, action) = supervisor.next(event);
            action is Complete || action is CloseAndComplete ==> after.running == 0
        }),
{
}

/// Once a supervisor was told to shut down, it starts no task; and once the deadline
/// has passed, every task that is left has been aborted.
pub proof fn shutdown_is_final(supervisor: Supervisor, event: SupervisorEvent)
    requires
        supervisor.awaits(event),
        supervisor.stage is Draining || supervisor.stage is Aborting || event is Shutdown,
    ensures
        ({
            let (after, action) = supervisor.next(event);
            &&& !(action is StartTask)
            &&& !(after.stage is Running)
            &&& event is DeadlinePassed ==> action is Abort && after.stage is Aborting
        }),
{
}

/// How far the end of the listeners has come.
#[derive(Debug, Clone, Copy, PartialEq, Eq, Structural)]
pub enum ShutdownStage {
    /// The task groups of the listeners are being closed.
    Closing,
    /// The first task that is left is awaited up to the deadline.
    Joining,
    /// The first task that is left has been aborted, and its end is awaited.
    Aborting,
    /// No task is left.
    Over,
}

/// What came of the last step.
#[derive(Debug, Clone, Copy, PartialEq, Eq, Structural)]
pub enum ShutdownEvent {
    /// All task groups are closed.
    Closed,
    /// The task that was awaited has ended.
    Ended,
    /// The deadline has passed, and the task that was awaited has not ended.
    DeadlinePassed,
}

/// What is to be done next.
#[derive(Debug, Clone, Copy, PartialEq, Eq, Structural)]
pub enum ShutdownAction {
    /// Await the end of the next task, up to the deadline.
    Join,
    /// Abort the task that was awaited, and await its end.
    Abort,
    /// No task is left.
    Done,
}

/// The end of the listeners. There is one deadline for all of them, which is set when it
/// begins: so many seconds later. Up to it the task groups are closed first, and then
/// the listener tasks are joined one by one; what has not ended by then is aborted.
#[derive(Debug, PartialEq, Eq, Structural)]
pub struct Shutdown {
    pub stage: ShutdownStage,
    /// The listener tasks that have not been joined.
    pub left: usize,
    /// The time from the beginning to the deadline, in seconds.
    pub grace_seconds: u64,
}

impl Shutdown {
    /// Whether an event can come at this stage.
    pub open spec fn awaits(self, event: ShutdownEvent) -> bool {
        match self.stage {
            ShutdownStage::Closing => event is Closed,
            ShutdownStage::Joining => self.left > 0 && (event is Ended || event is DeadlinePassed),
            ShutdownStage::Aborting => self.left > 0 && event is Ended,
            ShutdownStage::Over => false,
        }
    }

    /// The state in which so many tasks are left to be joined, and what it asks for.
    pub open spec fn with_left(self, left: usize) -> (Shutdown, ShutdownAction) {
        if left == 0 {
            (Shutdown { stage: ShutdownStage::Over, left, ..self }, ShutdownAction::Done)
        } else {
            (Shutdown { stage: ShutdownStage::Joining, left, ..self }, ShutdownAction::Join)
        }
    }

    /// The state after an event, and what is to be done next.
    pub open spec fn next(self, event: ShutdownEvent) -> (Shutdown, ShutdownAction) {
        match event {
            ShutdownEvent::Closed => self.with_left(self.left),
            ShutdownEvent::Ended => self.with_left((self.left - 1) as usize),
            ShutdownEvent::DeadlinePassed => (
                Shutdown { stage: ShutdownStage::Aborting, ..self },
                ShutdownAction::Abort,
            ),
        }
    }

    /// The beginning of the end of so many listener tasks: their task groups are to be
    /// closed.
    pub fn new(tasks: usize, grace_seconds: u64) -> (r: Self)
        ensures
            r == (Shutdown { stage: ShutdownStage::Closing, left: tasks, grace_seconds }),
    {
        Shutdown { stage: ShutdownStage::Closing, left: tasks, grace_seconds }
    }

    /// Takes what came of the last step, and tells the next one.
    pub fn step(&mut self, event: ShutdownEvent) -> (r: ShutdownAction)
        requires
            old(self).awaits(event),
        ensures
            (*final(self), r) == old(self).next(event),
    {
        match event {
            ShutdownEvent::Closed => {},
            ShutdownEvent::Ended => {
                self.left = self.left - 1;
            },
            ShutdownEvent::DeadlinePassed => {
                self.stage = ShutdownStage::Aborting;
                return ShutdownAction::Abort;
            },
        }
        if self.left == 0 {
            self.stage = ShutdownStage::Over;
            ShutdownAction::Done
        } else {
            self.stage = ShutdownStage::Joining;
            ShutdownAction::Join
        }
    }

    /// The state after some events, one by one.
    pub open spec fn after(self, events: Seq<ShutdownEvent>) -> Shutdown
        decreases events.len(),
    {
        if events.len() == 0 {
            self
        } else {
            self.after(events.drop_last()).next(events.last()).0
        }
    }

    /// Whether some events can come, one by one.
    pub open spec fn takes(self, events: Seq<ShutdownEvent>) -> bool
        decreases events.len(),
    {
        events.len() == 0 || (self.takes(events.drop_last()) && self.after(
            events.drop_last(),
        ).awaits(events.last()))
    }
}

/// How often an event is among others.
pub open spec fn occurrences(events: Seq<ShutdownEvent>, event: ShutdownEvent) -> nat
    decreases events.len(),
{
    if events.len() == 0 {
        0
    } else {
        occurrences(events.drop_last(), event) + if events.last() == event {
            1nat
        } else {
            0
        }
    }
}

/// The end is done only when no listener task is left, and a task is aborted only when the
/// deadline has passed: the one that was set in the beginning, which no step moves.
pub proof fn tasks_are_aborted_after_the_deadline(shutdown: Shutdown, event: ShutdownEvent)
    requires
        shutdown.awaits(event),
    ensures
        ({
            let (after, action) = shutdown.next(event);
            &&& action is Done <==> after.stage is Over
            &&& action is Done ==> after.left == 0
            &&& action is Abort <==> event is DeadlinePassed
            &&& action is Abort ==> after.stage is Aborting && after.left == shutdown.left
            &&& after.left < shutdown.left <==> event is Ended
            &&& after.grace_seconds == shutdown.grace_seconds
        }),
{
}

/// Whatever the tasks do, the end comes: each task is joined once, after it ended by
/// itself or was aborted; each is aborted at most once; and while the end is not there,
/// there is something to wait for. Tasks that ignore that they were told to stop are
/// aborted, so that no more than two events are awaited for each.
pub proof fn every_task_is_joined(tasks: usize, grace_seconds: u64, events: Seq<ShutdownEvent>)
    requires
        (Shutdown { stage: ShutdownStage::Closing, left: tasks, grace_seconds }).takes(events),
    ensures
        ({
            let begun = Shutdown { stage: ShutdownStage::Closing, left: tasks, grace_seconds };
            let after = begun.after(events);
            let joined = occurrences(events, ShutdownEvent::Ended);
            let aborted = occurrences(events, ShutdownEvent::DeadlinePassed);
            &&& joined + after.left == tasks
            &&& aborted <= tasks
            &&& events.len() <= 2 * tasks + 1
            &&& after.grace_seconds == grace_seconds
            &&& after.stage is Over ==> joined == tasks
            &&& !(after.stage is Over) ==> after.awaits(ShutdownEvent::Closed) || after.awaits(
                ShutdownEvent::Ended,
            )
        }),
{
    lemma_events_of_an_end(tasks, grace_seconds, events);
}

/// What the events of an end amount to at each stage.
proof fn lemma_events_of_an_end(tasks: usize, grace_seconds: u64, events: Seq<ShutdownEvent>)
    requires
        (Shutdown { stage: ShutdownStage::Closing, left: tasks, grace_seconds }).takes(events),
    ensures
        ({
            let begun = Shutdown { stage: ShutdownStage::Closing, left: tasks, grace_seconds };
            let after = begun.after(events);
            let joined = occurrences(events, ShutdownEvent::Ended);
            let aborted = occurrences(events, ShutdownEvent::DeadlinePassed);
            &&& joined + after.left == tasks
            &&& after.grace_seconds == grace_seconds
            &&& match after.stage {
                ShutdownStage::Closing => events.len() == 0 && joined == 0 && aborted == 0,
                ShutdownStage::Joining => after.left > 0 && aborted <= joined && events.len()
                    == 1 + joined + aborted,
                ShutdownStage::Aborting => after.left > 0 && aborted <= joined + 1 && events.len()
                    == 1 + joined + aborted,
                ShutdownStage::Over => after.left == 0 && aborted <= joined && events.len() == 1
                    + joined + aborted,
            }
        }),
    decreases events.len(),
{
    if events.len() > 0 {
        lemma_events_of_an_end(tasks, grace_seconds, events.drop_last());
    }
}

/// While a supervisor runs, it starts every task that comes and counts it, and counts out
/// every one that ended. Told to shut down, it waits for what is running, or is done at once
/// where nothing is; nothing ends a supervisor that is draining but the end of its last
/// task, and nothing but the deadline makes it abort.
pub proof fn tasks_are_counted_in_and_out(supervisor: Supervisor, event: SupervisorEvent)
    requires
        supervisor.awaits(event),
    ensures
        ({
            let (after, action) = supervisor.next(event);
            let running = supervisor.stage is Running;
            &&& running && event is Spawn ==> action is StartTask && after.running
                == supervisor.running + 1 && after.stage is Running
            &&& event is TaskEnded ==> after.running == supervisor.running - 1
            &&& running && event is TaskEnded ==> action is Wait && after.stage is Running
            &&& running && event is Shutdown && supervisor.running > 0 ==> action is CloseAndDrain
                && after.stage is Draining && after.running == supervisor.running
            &&& running && event is Shutdown && supervisor.running == 0 ==> action
                is CloseAndComplete && after.stage is Over
            &&& running && event is Disconnected ==> action is Stop && after.stage is Over
            &&& action is Abort <==> event is DeadlinePassed
            &&& event is DeadlinePassed ==> after.running == supervisor.running
            &&& supervisor.stage is Draining && event is TaskEnded && supervisor.running > 1
                ==> action is Drain && after.stage is Draining
            &&& supervisor.stage is Aborting && event is TaskEnded && supervisor.running > 1
                ==> action is JoinAborted && after.stage is Aborting
            &&& !running && event is TaskEnded && supervisor.running == 1 ==> action is Complete
                && after.stage is Over
        }),
{
}

/// What a supervisor waits for: tasks and a shutdown while it runs, the end of a task or the
/// deadline while it drains, and the end of a task once it has aborted them.
pub proof fn supervisors_await_what_can_come(supervisor: Supervisor)
    ensures
        supervisor.stage is Running && supervisor.running < u64::MAX ==> supervisor.awaits(
            SupervisorEvent::Spawn,
        ),
        supervisor.stage is Running ==> supervisor.awaits(SupervisorEvent::Shutdown)
            && supervisor.awaits(SupervisorEvent::Disconnected),
        supervisor.stage is Draining && supervisor.running > 0 ==> supervisor.awaits(
            SupervisorEvent::TaskEnded,
        ) && supervisor.awaits(SupervisorEvent::DeadlinePassed),
        !(supervisor.stage is Over) && supervisor.running > 0 ==> supervisor.awaits(
            SupervisorEvent::TaskEnded,
        ),
{
}

/// A shutdown joins one task after the other, from the moment at which the groups are
/// closed: after each that ended the next one is joined, and it is done as soon as none is
/// left. It waits for both the end of a task and the deadline while it joins.
pub proof fn tasks_are_joined_one_by_one(shutdown: Shutdown)
    ensures
        shutdown.stage is Closing ==> shutdown.awaits(ShutdownEvent::Closed),
        shutdown.stage is Joining && shutdown.left > 0 ==> shutdown.awaits(ShutdownEvent::Ended)
            && shutdown.awaits(ShutdownEvent::DeadlinePassed),
        shutdown.stage is Aborting && shutdown.left > 0 ==> shutdown.awaits(ShutdownEvent::Ended),
        shutdown.left == 0 ==> shutdown.next(ShutdownEvent::Closed).1 is Done,
        shutdown.left > 0 ==> shutdown.next(ShutdownEvent::Closed).1 is Join && shutdown.next(
            ShutdownEvent::Closed,
        ).0.left == shutdown.left,
        shutdown.left == 1 ==> shutdown.next(ShutdownEvent::Ended).1 is Done,
        shutdown.left > 1 ==> shutdown.next(ShutdownEvent::Ended).1 is Join && shutdown.next(
            ShutdownEvent::Ended,
        ).0.left == shutdown.left - 1,
{
}

} // verus!
