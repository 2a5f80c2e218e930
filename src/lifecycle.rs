use vstd::prelude::*;

verus! {

/// The persisted states a container passes through.
#[derive(Debug, Clone, Copy, PartialEq, Eq, Structural)]
pub enum ContainerStatus {
    Creating,
    Created,
    Running,
    Paused,
    Stopped,
    Deleted,
}

/// A lifecycle operation attempted in a state that does not allow it.
#[derive(Debug, Clone, Copy, PartialEq, Eq, Structural)]
pub struct InvalidStateTransition {
    pub from: ContainerStatus,
    pub to: ContainerStatus,
}

/// An operation that moves a container from one state to another.
#[derive(Debug, Clone, Copy, PartialEq, Eq, Structural)]
pub enum Operation {
    /// Creation finished: the container exists and waits for `Start`.
    FinishCreate,
    Start,
    Pause,
    Resume,
    /// The workload exited or was killed.
    Stop,
    /// Remove the container; `force` also removes a running or paused one.
    Delete { force: bool },
}

/// The legal transition table: the state `op` leads to from `from`, or
/// `None` when `op` is not allowed there.
pub open spec fn next_status(from: ContainerStatus, op: Operation) -> Option<ContainerStatus> {
    match (from, op) {
        (ContainerStatus::Creating, Operation::FinishCreate) => Some(ContainerStatus::Created),
        (ContainerStatus::Created, Operation::Start) => Some(ContainerStatus::Running),
        (ContainerStatus::Running, Operation::Pause) => Some(ContainerStatus::Paused),
        (ContainerStatus::Paused, Operation::Resume) => Some(ContainerStatus::Running),
        (ContainerStatus::Created, Operation::Stop) => Some(ContainerStatus::Stopped),
        (ContainerStatus::Running, Operation::Stop) => Some(ContainerStatus::Stopped),
        (ContainerStatus::Created, Operation::Delete { .. }) => Some(ContainerStatus::Deleted),
        (ContainerStatus::Stopped, Operation::Delete { .. }) => Some(ContainerStatus::Deleted),
        (ContainerStatus::Running, Operation::Delete { force: true }) => Some(ContainerStatus::Deleted),
        (ContainerStatus::Paused, Operation::Delete { force: true }) => Some(ContainerStatus::Deleted),
        _ => None,
    }
}

/// The state that `op` aims at.
pub open spec fn target_of(op: Operation) -> ContainerStatus {
    match op {
        Operation::FinishCreate => ContainerStatus::Created,
        Operation::Start => ContainerStatus::Running,
        Operation::Pause => ContainerStatus::Paused,
        Operation::Resume => ContainerStatus::Running,
        Operation::Stop => ContainerStatus::Stopped,
        Operation::Delete { .. } => ContainerStatus::Deleted,
    }
}

/// What `transition` returns.
pub open spec fn transition_result(from: ContainerStatus, op: Operation) -> Result<
    ContainerStatus,
    InvalidStateTransition,
> {
    match next_status(from, op) {
        Some(to) => Ok(to),
        None => Err(InvalidStateTransition { from, to: target_of(op) }),
    }
}

/// Checks `op` against the state `from`, before anything is done to the
/// system, and gives the state it leads to.
pub fn transition(from: ContainerStatus, op: Operation) -> (r: Result<ContainerStatus, InvalidStateTransition>)
    ensures
        r == transition_result(from, op),
{
    let to = match op {
        Operation::FinishCreate => ContainerStatus::Created,
        Operation::Start => ContainerStatus::Running,
        Operation::Pause => ContainerStatus::Paused,
        Operation::Resume => ContainerStatus::Running,
        Operation::Stop => ContainerStatus::Stopped,
        Operation::Delete { .. } => ContainerStatus::Deleted,
    };
    let legal = match (from, op) {
        (ContainerStatus::Creating, Operation::FinishCreate) => true,
        (ContainerStatus::Created, Operation::Start) => true,
        (ContainerStatus::Running, Operation::Pause) => true,
        (ContainerStatus::Paused, Operation::Resume) => true,
        (ContainerStatus::Created, Operation::Stop) => true,
        (ContainerStatus::Running, Operation::Stop) => true,
        (ContainerStatus::Created, Operation::Delete { .. }) => true,
        (ContainerStatus::Stopped, Operation::Delete { .. }) => true,
        (ContainerStatus::Running, Operation::Delete { force }) => force,
        (ContainerStatus::Paused, Operation::Delete { force }) => force,
        _ => false,
    };
    if legal {
        Ok(to)
    } else {
        Err(InvalidStateTransition { from, to })
    }
}

/// Checks that a container in `from` may be started: only a `Created` one
/// may, and it becomes `Running`.
pub fn start(from: ContainerStatus) -> (r: Result<ContainerStatus, InvalidStateTransition>)
    ensures
        r == transition_result(from, Operation::Start),
        from == ContainerStatus::Created ==> r == Ok::<ContainerStatus, InvalidStateTransition>(
            ContainerStatus::Running,
        ),
        from != ContainerStatus::Created ==> r == Err::<ContainerStatus, InvalidStateTransition>(
            InvalidStateTransition { from, to: ContainerStatus::Running },
        ),
{
    transition(from, Operation::Start)
}

/// `Deleted` is terminal, and a paused container only ever goes back to
/// `Running` or is force-deleted.
pub proof fn lemma_terminal_and_paused(op: Operation)
    ensures
        next_status(ContainerStatus::Deleted, op) is None,
        next_status(ContainerStatus::Paused, op) is Some ==> next_status(ContainerStatus::Paused, op)
            == Some(ContainerStatus::Running) || op == (Operation::Delete { force: true }),
{
}

/// `start` succeeds exactly from `Created`, and then leads to `Running`;
/// from `Creating` and `Stopped` it is refused.
pub proof fn lemma_start_only_from_created(from: ContainerStatus)
    ensures
        transition_result(from, Operation::Start) is Ok <==> from == ContainerStatus::Created,
        transition_result(ContainerStatus::Created, Operation::Start) == Ok::<
            ContainerStatus,
            InvalidStateTransition,
        >(ContainerStatus::Running),
        transition_result(ContainerStatus::Creating, Operation::Start) is Err,
        transition_result(ContainerStatus::Stopped, Operation::Start) is Err,
{
}

} // verus!
