use dns_ingress::tasks::{
    CloseAction, Shutdown, ShutdownAction, ShutdownEvent, SpawnAction, Supervisor,
    SupervisorAction, SupervisorEvent, TaskGroup,
};

#[test]
fn shutdown_aborts_children_that_ignore_cancellation() {
    let mut tasks = TaskGroup::default();
    let mut supervisor = Supervisor::new();
    assert_eq!(tasks.spawn(), SpawnAction::StartSupervisor);
    assert_eq!(supervisor.step(SupervisorEvent::Spawn), SupervisorAction::StartTask);

    assert_eq!(tasks.close_and_wait_until(), CloseAction::Shutdown);
    assert_eq!(supervisor.step(SupervisorEvent::Shutdown), SupervisorAction::CloseAndDrain);
    assert_eq!(supervisor.step(SupervisorEvent::DeadlinePassed), SupervisorAction::Abort);
    assert_eq!(supervisor.step(SupervisorEvent::TaskEnded), SupervisorAction::Complete);
}

#[test]
fn spawn_after_close_is_dropped_without_running() {
    let mut tasks = TaskGroup::default();
    assert_eq!(tasks.close_and_wait_until(), CloseAction::Return);
    assert_eq!(tasks.spawn(), SpawnAction::Drop);
    assert_eq!(tasks.close_and_wait_until(), CloseAction::Return);
}

#[test]
fn tasks_may_end_by_themselves() {
    let mut tasks = TaskGroup::default();
    let mut supervisor = Supervisor::new();
    assert_eq!(tasks.spawn(), SpawnAction::StartSupervisor);
    assert_eq!(tasks.spawn(), SpawnAction::Send);
    supervisor.step(SupervisorEvent::Spawn);
    supervisor.step(SupervisorEvent::Spawn);
    assert_eq!(supervisor.step(SupervisorEvent::TaskEnded), SupervisorAction::Wait);
    supervisor.step(SupervisorEvent::Spawn);
    assert_eq!(supervisor.step(SupervisorEvent::Shutdown), SupervisorAction::CloseAndDrain);
    assert_eq!(supervisor.step(SupervisorEvent::TaskEnded), SupervisorAction::Drain);
    assert_eq!(supervisor.step(SupervisorEvent::TaskEnded), SupervisorAction::Complete);
}

#[test]
fn supervisors_without_tasks_complete_at_once() {
    let mut supervisor = Supervisor::new();
    assert_eq!(supervisor.step(SupervisorEvent::Shutdown), SupervisorAction::CloseAndComplete);
    let mut supervisor = Supervisor::new();
    supervisor.step(SupervisorEvent::Spawn);
    assert_eq!(supervisor.step(SupervisorEvent::Disconnected), SupervisorAction::Stop);
    let mut supervisor = Supervisor::new();
    supervisor.step(SupervisorEvent::Spawn);
    supervisor.step(SupervisorEvent::Spawn);
    supervisor.step(SupervisorEvent::Shutdown);
    supervisor.step(SupervisorEvent::DeadlinePassed);
    assert_eq!(supervisor.step(SupervisorEvent::TaskEnded), SupervisorAction::JoinAborted);
    assert_eq!(supervisor.step(SupervisorEvent::TaskEnded), SupervisorAction::Complete);
}

#[test]
fn listeners_that_outlast_the_deadline_are_aborted() {
    let mut shutdown = Shutdown::new(3, 10);
    assert_eq!(shutdown.step(ShutdownEvent::Closed), ShutdownAction::Join);
    assert_eq!(shutdown.step(ShutdownEvent::Ended), ShutdownAction::Join);
    assert_eq!(shutdown.step(ShutdownEvent::DeadlinePassed), ShutdownAction::Abort);
    assert_eq!(shutdown.left, 2);
    assert_eq!(shutdown.step(ShutdownEvent::Ended), ShutdownAction::Join);
    assert_eq!(shutdown.step(ShutdownEvent::DeadlinePassed), ShutdownAction::Abort);
    assert_eq!(shutdown.step(ShutdownEvent::Ended), ShutdownAction::Done);
    assert_eq!((shutdown.left, shutdown.grace_seconds), (0, 10));
    assert_eq!(Shutdown::new(0, 10).step(ShutdownEvent::Closed), ShutdownAction::Done);
}
