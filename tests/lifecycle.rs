use libcontainer::lifecycle::{start, transition, ContainerStatus, InvalidStateTransition, Operation};

#[test]
fn start_only_from_created() {
    assert_eq!(start(ContainerStatus::Created), Ok(ContainerStatus::Running));
    assert_eq!(
        start(ContainerStatus::Creating),
        Err(InvalidStateTransition { from: ContainerStatus::Creating, to: ContainerStatus::Running })
    );
    assert_eq!(
        start(ContainerStatus::Stopped),
        Err(InvalidStateTransition { from: ContainerStatus::Stopped, to: ContainerStatus::Running })
    );
    assert!(start(ContainerStatus::Running).is_err());
    assert!(start(ContainerStatus::Paused).is_err());
    assert!(start(ContainerStatus::Deleted).is_err());
}

#[test]
fn full_lifecycle() {
    let mut s = ContainerStatus::Creating;
    for op in [Operation::FinishCreate, Operation::Start, Operation::Pause, Operation::Resume, Operation::Stop] {
        s = transition(s, op).unwrap();
    }
    assert_eq!(s, ContainerStatus::Stopped);
    assert_eq!(transition(s, Operation::Delete { force: false }), Ok(ContainerStatus::Deleted));
}

#[test]
fn delete_running_needs_force() {
    assert_eq!(
        transition(ContainerStatus::Running, Operation::Delete { force: false }),
        Err(InvalidStateTransition { from: ContainerStatus::Running, to: ContainerStatus::Deleted })
    );
    assert_eq!(
        transition(ContainerStatus::Running, Operation::Delete { force: true }),
        Ok(ContainerStatus::Deleted)
    );
}

#[test]
fn deleted_is_terminal_and_paused_only_resumes() {
    for op in [
        Operation::FinishCreate,
        Operation::Start,
        Operation::Pause,
        Operation::Resume,
        Operation::Stop,
        Operation::Delete { force: true },
    ] {
        assert!(transition(ContainerStatus::Deleted, op).is_err());
    }
    assert_eq!(transition(ContainerStatus::Paused, Operation::Resume), Ok(ContainerStatus::Running));
    assert!(transition(ContainerStatus::Paused, Operation::Stop).is_err());
    assert!(transition(ContainerStatus::Paused, Operation::Start).is_err());
}
