use vstd::prelude::*;

use crate::args::{opened_only, opt_fd, same_open, ContainerArgs, ContainerType};
use crate::channel::{NotifyChannel, Phase, SyncError};
use crate::fd::{count_open, FdTable, IoError};

verus! {

/// Why the workload could not be launched.
#[derive(Debug, Clone, Copy, PartialEq, Eq, Structural)]
pub enum ExecError {
    NotFound,
    PermissionDenied,
    InvalidArgs,
}

/// The single failure that a construction reports.
#[derive(Debug, Clone, Copy, PartialEq, Eq, Structural)]
pub enum ConstructionError {
    Io(IoError),
    Sync(SyncError),
    /// Namespace, cgroup or rootfs setup failed in the new process.
    Setup,
    Exec(ExecError),
}

/// A step of the construction that both sides can observe.
#[derive(Debug, Clone, Copy, PartialEq, Eq, Structural)]
pub enum Event {
    /// The creator saw the new process finish its setup.
    SetupObserved,
    /// The new process received the go signal.
    ProceedDelivered,
    /// A tenant told the running container that it joined.
    ExecNotified,
    /// The executor was called.
    ExecutorInvoked,
}

/// What the collaborators around the core did in one construction: whether
/// setup succeeded, whether the creator let the process go on, and what the
/// executor returned.
#[derive(Debug, Clone, Copy)]
pub struct Outcomes {
    pub setup_ok: bool,
    pub parent_accepts: bool,
    pub exec_result: Result<(), ExecError>,
}

/// The events of a successful construction.
pub open spec fn expected_trace(init: bool) -> Seq<Event> {
    if init {
        seq![Event::SetupObserved, Event::ProceedDelivered, Event::ExecutorInvoked]
    } else {
        seq![Event::SetupObserved, Event::ProceedDelivered, Event::ExecNotified, Event::ExecutorInvoked]
    }
}

/// What `start` returns once the child's handles were duplicated.
pub open spec fn start_result(init: bool, o: Outcomes) -> Result<Seq<Event>, ConstructionError> {
    if !o.setup_ok {
        Err(ConstructionError::Setup)
    } else if !o.parent_accepts {
        Err(ConstructionError::Sync(SyncError::PeerClosed))
    } else {
        match o.exec_result {
            Err(e) => Err(ConstructionError::Exec(e)),
            Ok(()) => Ok(expected_trace(init)),
        }
    }
}

/// Closes every handle of `args`, which were opened on top of `base`.
fn release_handles(args: ContainerArgs, table: &mut FdTable, Ghost(base): Ghost<Seq<Option<u64>>>)
    requires
        old(table).wf(),
        args.distinct_handles(),
        opened_only(base, old(table)@, args.handles()),
    ensures
        final(table).wf(),
        final(table).limit() == old(table).limit(),
        same_open(base, final(table)@),
        count_open(final(table)@) + args.handle_count() == count_open(old(table)@),
{
    let ghost h = args.handles();
    let ghost n = args.notify_listener.fd();
    proof {
        assert(h.contains(n));
        crate::args::lemma_release_new(base, table@, h, n);
    }
    let ContainerArgs { container_type, console_socket, notify_listener, .. } = args;
    notify_listener.release(table);
    let ghost h1 = h.remove(n);
    match console_socket {
        Some(c) => {
            proof {
                assert(h1.contains(c.fd()));
                crate::args::lemma_release_new(base, table@, h1, c.fd());
            }
            c.release(table);
        },
        None => {},
    }
    let ghost h2 = match opt_fd(console_socket) {
        Some(c) => h1.remove(c),
        None => h1,
    };
    match container_type {
        ContainerType::TenantContainer { exec_notify_fd } => {
            proof {
                assert(h2.contains(exec_notify_fd.fd()));
                crate::args::lemma_release_new(base, table@, h2, exec_notify_fd.fd());
                assert(h2.remove(exec_notify_fd.fd()) =~= Set::empty());
            }
            exec_notify_fd.release(table);
        },
        ContainerType::InitContainer => {
            proof {
                assert(h2 =~= Set::empty());
            }
        },
    }
}

/// The mathematical value of a construction result.
pub open spec fn result_view(r: Result<Vec<Event>, ConstructionError>) -> Result<Seq<Event>, ConstructionError> {
    match r {
        Ok(v) => Ok(v@),
        Err(e) => Err(e),
    }
}

/// Runs one construction against the descriptor table: duplicates the
/// parameters for the new process, lets it signal that setup is complete,
/// waits for the creator's go signal, notifies the running container when
/// the process is a tenant, and then calls the executor once. Every handle
/// duplicated for the new process is closed again on every path, so the
/// table ends with the same open descriptors it started with.
pub fn start(args: &ContainerArgs, table: &mut FdTable, outcomes: Outcomes) -> (r: Result<
    Vec<Event>,
    ConstructionError,
>)
    requires
        old(table).wf(),
        args.wf(old(table)@),
    ensures
        final(table).wf(),
        final(table).limit() == old(table).limit(),
        same_open(old(table)@, final(table)@),
        count_open(final(table)@) == count_open(old(table)@),
        count_open(old(table)@) + args.handle_count() > old(table).limit() ==> r == Err::<
            Vec<Event>,
            ConstructionError,
        >(ConstructionError::Io(IoError::TooManyOpenFiles)),
        count_open(old(table)@) + args.handle_count() <= old(table).limit() ==> result_view(r)
            == start_result(args.is_init(), outcomes),
{
    let ghost t0 = table@;
    let child = match args.try_clone(table) {
        Ok(c) => c,
        Err(e) => return Err(ConstructionError::Io(e)),
    };
    let mut channel = NotifyChannel::listen();
    let mut trace: Vec<Event> = Vec::new();
    if !outcomes.setup_ok {
        channel.close();
        release_handles(child, table, Ghost(t0));
        return Err(ConstructionError::Setup);
    }
    // the new process reports that its setup is done; the creator waits for it
    if let Err(e) = channel.signal_ready(Phase::SetupComplete) {
        release_handles(child, table, Ghost(t0));
        return Err(ConstructionError::Sync(e));
    }
    if let Err(e) = channel.wait_ready(Phase::SetupComplete) {
        release_handles(child, table, Ghost(t0));
        return Err(ConstructionError::Sync(e));
    }
    trace.push(Event::SetupObserved);
    if !outcomes.parent_accepts {
        channel.close();
    } else if let Err(e) = channel.signal_ready(Phase::Proceed) {
        release_handles(child, table, Ghost(t0));
        return Err(ConstructionError::Sync(e));
    }
    // the new process waits for the go signal
    if let Err(e) = channel.wait_ready(Phase::Proceed) {
        release_handles(child, table, Ghost(t0));
        return Err(ConstructionError::Sync(e));
    }
    trace.push(Event::ProceedDelivered);
    if let ContainerType::TenantContainer { exec_notify_fd } = &child.container_type {
        assert(child.handles().contains(exec_notify_fd.fd()));
        if let Err(e) = table.write(exec_notify_fd) {
            release_handles(child, table, Ghost(t0));
            return Err(ConstructionError::Io(e));
        }
        trace.push(Event::ExecNotified);
    }
    trace.push(Event::ExecutorInvoked);
    release_handles(child, table, Ghost(t0));
    match outcomes.exec_result {
        Err(e) => Err(ConstructionError::Exec(e)),
        Ok(()) => {
            proof {
                assert(trace@ =~= expected_trace(args.is_init()));
            }
            Ok(trace)
        },
    }
}

} // verus!
