use std::rc::Rc;
use vstd::prelude::*;

use crate::fd::{count_open, duplicated, released, slot_open, FdTable, IoError, MyOwnedFd};
use crate::lifecycle::ContainerStatus;

verus! {

/// oci_spec::runtime::Spec, the validated runtime specification. It is only
/// carried and shared here, never read, so nothing is assumed of its contents.
#[verifier::external_type_specification]
#[verifier::external_body]
pub struct ExSpec(oci_spec::runtime::Spec);

/// Whether the parameters construct a container's first process or a process
/// that joins one already running.
#[derive(Debug)]
pub enum ContainerType {
    InitContainer,
    /// `exec_notify_fd` tells the running container that the new process
    /// has joined.
    TenantContainer { exec_notify_fd: MyOwnedFd },
}

/// Which operating-system-call interface the process uses.
#[derive(Debug, Clone, Copy, PartialEq, Eq, Structural)]
pub enum SyscallType {
    Linux,
    Test,
}

/// The strategy that runs the workload inside the new process.
#[derive(Debug, Clone, Copy, PartialEq, Eq, Structural)]
pub enum Executor {
    /// Replaces the process image with the configured program.
    Default,
    /// Records the call and returns.
    Stub,
    /// A strategy registered under this number.
    Custom(u32),
}

/// How the container's processes are placed into cgroups.
#[derive(Debug)]
pub struct CgroupConfig {
    pub cgroup_path: String,
    pub systemd_cgroup: bool,
    pub container_name: String,
}

/// One range of ids mapped from the container onto the host.
#[derive(Debug, Clone, Copy, PartialEq, Eq, Structural)]
pub struct IdMapping {
    pub container_id: u32,
    pub host_id: u32,
    pub size: u32,
}

/// The user namespace to create for the container.
#[derive(Debug)]
pub struct UserNamespaceConfig {
    pub uid_mappings: Vec<IdMapping>,
    pub gid_mappings: Vec<IdMapping>,
    pub privileged: bool,
}

/// The persisted record of a container that already exists.
#[derive(Debug)]
pub struct Container {
    pub id: String,
    pub status: ContainerStatus,
}

/// Everything needed to construct one container process.
#[derive(Debug)]
pub struct ContainerArgs {
    /// Indicates if an init or a tenant container should be created
    pub container_type: ContainerType,
    /// Interface to operating system primitives
    pub syscall: SyscallType,
    /// OCI compliant runtime spec, shared read-only by every copy
    pub spec: Rc<oci_spec::runtime::Spec>,
    /// Root filesystem of the container
    pub rootfs: String,
    /// Socket to communicate the file descriptor of the pty
    pub console_socket: Option<MyOwnedFd>,
    /// The socket on which container start is communicated
    pub notify_listener: MyOwnedFd,
    /// File descriptors preserved/passed to the container init process.
    pub preserve_fds: i32,
    /// Container state, shared read-only by every copy
    pub container: Option<Rc<Container>>,
    /// Options for new namespace creation, shared read-only by every copy
    pub user_ns_config: Option<Rc<UserNamespaceConfig>>,
    /// Cgroup Manager Config, shared read-only by every copy
    pub cgroup_config: Rc<CgroupConfig>,
    /// If the container is to be run in detached mode
    pub detached: bool,
    /// Manage the functions that actually run on the container
    pub executor: Executor,
}

/// The descriptor held in an optional handle, if any.
pub open spec fn opt_fd(h: Option<MyOwnedFd>) -> Option<int> {
    match h {
        Some(f) => Some(f.fd()),
        None => None,
    }
}

/// `after` differs from `before` only by the open descriptors `fds`, each of
/// which was closed in `before`.
pub open spec fn opened_only(before: Seq<Option<u64>>, after: Seq<Option<u64>>, fds: Set<int>) -> bool {
    &&& forall|j: int| #[trigger] slot_open(before, j) ==> slot_open(after, j) && after[j] == before[j]
    &&& forall|j: int| #[trigger] slot_open(after, j) && !slot_open(before, j) ==> fds.contains(j)
    &&& forall|j: int| #[trigger] fds.contains(j) ==> slot_open(after, j) && !slot_open(before, j)
}

/// The same descriptors are open in `a` and `b`, on the same files.
pub open spec fn same_open(a: Seq<Option<u64>>, b: Seq<Option<u64>>) -> bool {
    opened_only(a, b, Set::empty())
}

impl ContainerType {
    pub open spec fn exec_notify(&self) -> Option<int> {
        match self {
            ContainerType::InitContainer => None,
            ContainerType::TenantContainer { exec_notify_fd } => Some(exec_notify_fd.fd()),
        }
    }
}

impl ContainerArgs {
    /// The descriptors these parameters own.
    pub open spec fn handles(&self) -> Set<int> {
        let base = set![self.notify_listener.fd()];
        let with_console = match opt_fd(self.console_socket) {
            Some(c) => base.insert(c),
            None => base,
        };
        match self.container_type.exec_notify() {
            Some(e) => with_console.insert(e),
            None => with_console,
        }
    }

    /// How many descriptors these parameters own.
    pub open spec fn handle_count(&self) -> nat {
        1 + (if self.console_socket is Some { 1nat } else { 0nat }) + (if self.container_type is TenantContainer {
            1nat
        } else {
            0nat
        })
    }

    /// No two fields own the same descriptor.
    pub open spec fn distinct_handles(&self) -> bool {
        let n = self.notify_listener.fd();
        &&& opt_fd(self.console_socket) != Some(n)
        &&& self.container_type.exec_notify() != Some(n)
        &&& opt_fd(self.console_socket) is Some && self.container_type.exec_notify() is Some
            ==> opt_fd(self.console_socket) != self.container_type.exec_notify()
    }

    /// Every handle is open in `t`.
    pub open spec fn wf(&self, t: Seq<Option<u64>>) -> bool {
        &&& self.preserve_fds >= 0
        &&& forall|j: int| #[trigger] self.handles().contains(j) ==> slot_open(t, j)
    }

    pub open spec fn is_init(&self) -> bool {
        self.container_type is InitContainer
    }

    pub open spec fn is_tenant_with_handle(&self, t: Seq<Option<u64>>) -> bool {
        match self.container_type.exec_notify() {
            Some(e) => slot_open(t, e),
            None => false,
        }
    }

    /// Same shared parts as `o`: spec, configuration, state and settings.
    pub open spec fn shares_with(&self, o: &ContainerArgs) -> bool {
        &&& self.syscall == o.syscall
        &&& self.spec == o.spec
        &&& self.rootfs@ == o.rootfs@
        &&& self.preserve_fds == o.preserve_fds
        &&& self.container == o.container
        &&& self.user_ns_config == o.user_ns_config
        &&& self.cgroup_config == o.cgroup_config
        &&& self.detached == o.detached
        &&& self.executor == o.executor
        &&& self.container_type is InitContainer <==> o.container_type is InitContainer
        &&& self.console_socket is Some <==> o.console_socket is Some
    }

    /// Assembles the parameters; no handle is touched.
    pub fn new(
        container_type: ContainerType,
        syscall: SyscallType,
        spec: Rc<oci_spec::runtime::Spec>,
        rootfs: String,
        console_socket: Option<MyOwnedFd>,
        notify_listener: MyOwnedFd,
        preserve_fds: i32,
        container: Option<Rc<Container>>,
        user_ns_config: Option<Rc<UserNamespaceConfig>>,
        cgroup_config: Rc<CgroupConfig>,
        detached: bool,
        executor: Executor,
    ) -> (r: ContainerArgs)
        ensures
            r.container_type == container_type,
            r.syscall == syscall,
            r.spec == spec,
            r.rootfs == rootfs,
            r.console_socket == console_socket,
            r.notify_listener == notify_listener,
            r.preserve_fds == preserve_fds,
            r.container == container,
            r.user_ns_config == user_ns_config,
            r.cgroup_config == cgroup_config,
            r.detached == detached,
            r.executor == executor,
    {
        ContainerArgs {
            container_type,
            syscall,
            spec,
            rootfs,
            console_socket,
            notify_listener,
            preserve_fds,
            container,
            user_ns_config,
            cgroup_config,
            detached,
            executor,
        }
    }

    /// The lowest descriptor that must be closed before exec: everything
    /// past the standard streams and the `preserve_fds` that follow them.
    pub fn first_fd_to_close(&self) -> (r: usize)
        requires
            self.preserve_fds >= 0,
        ensures
            r == 3 + self.preserve_fds,
    {
        3 + self.preserve_fds as usize
    }

    /// Whether these parameters construct the container's first process.
    pub fn is_init_container(&self) -> (r: bool)
        ensures
            r == self.is_init(),
    {
        match self.container_type {
            ContainerType::InitContainer => true,
            ContainerType::TenantContainer { .. } => false,
        }
    }
}

/// A duplication opens exactly the new descriptor, on the original's file.
proof fn lemma_dup_opens(before: Seq<Option<u64>>, o: int, after: Seq<Option<u64>>, d: int)
    requires
        duplicated(before, o, after, d),
    ensures
        opened_only(before, after, set![d]),
        after[d] == before[o],
{
    assert forall|j: int| #[trigger] slot_open(after, j) && !slot_open(before, j) implies set![d].contains(j) by {
        if j != d {
            assert(after[j] == before[j]);
        }
    }
}

/// Closing one of the newly opened descriptors takes it out of the set.
pub(crate) proof fn lemma_release_new(before: Seq<Option<u64>>, mid: Seq<Option<u64>>, fds: Set<int>, d: int)
    requires
        opened_only(before, mid, fds),
        fds.contains(d),
    ensures
        opened_only(before, released(mid, d), fds.remove(d)),
{
    let after = released(mid, d);
    assert forall|j: int| #[trigger] slot_open(before, j) implies slot_open(after, j) && after[j] == before[j] by {
        assert(slot_open(mid, j));
    }
    assert forall|j: int| #[trigger] slot_open(after, j) && !slot_open(before, j) implies fds.remove(d).contains(j) by {
        assert(slot_open(mid, j));
    }
    assert forall|j: int| #[trigger] fds.remove(d).contains(j) implies slot_open(after, j) && !slot_open(before, j) by {
        assert(fds.contains(j));
    }
}

/// Two steps that each open only new descriptors open their union.
proof fn lemma_opened_trans(
    a: Seq<Option<u64>>,
    b: Seq<Option<u64>>,
    c: Seq<Option<u64>>,
    f: Set<int>,
    g: Set<int>,
)
    requires
        opened_only(a, b, f),
        opened_only(b, c, g),
    ensures
        opened_only(a, c, f.union(g)),
{
    assert forall|j: int| #[trigger] slot_open(a, j) implies slot_open(c, j) && c[j] == a[j] by {
        assert(slot_open(b, j));
    }
    assert forall|j: int| #[trigger] slot_open(c, j) && !slot_open(a, j) implies f.union(g).contains(j) by {
        if !slot_open(b, j) {
            assert(g.contains(j));
        } else {
            assert(f.contains(j));
        }
    }
    assert forall|j: int| #[trigger] f.union(g).contains(j) implies slot_open(c, j) && !slot_open(a, j) by {
        if f.contains(j) {
            assert(slot_open(b, j));
            assert(!slot_open(a, j));
        } else {
            assert(g.contains(j));
            assert(!slot_open(b, j));
        }
    }
}

/// Parameters whose handles are open are either for an init process or for a
/// tenant whose exec-notify handle is open: never both, never neither.
pub proof fn lemma_exactly_one_variant(a: &ContainerArgs, t: Seq<Option<u64>>)
    requires
        a.wf(t),
    ensures
        a.is_init() != a.is_tenant_with_handle(t),
{
    if let Some(e) = a.container_type.exec_notify() {
        assert(a.handles().contains(e));
    }
}

impl ContainerArgs {
    /// Copies the parameters for the forked child. Each owned handle is
    /// duplicated into a descriptor of its own; the spec, the cgroup
    /// configuration, the user namespace options and the container state are
    /// shared, not copied. When a duplication fails, the duplicates made so
    /// far are closed again and the table is left as it was.
    pub fn try_clone(&self, table: &mut FdTable) -> (r: Result<ContainerArgs, IoError>)
        requires
            old(table).wf(),
            self.wf(old(table)@),
        ensures
            final(table).wf(),
            final(table).limit() == old(table).limit(),
            r is Ok <==> count_open(old(table)@) + self.handle_count() <= old(table).limit(),
            r is Err ==> r == Err::<ContainerArgs, IoError>(IoError::TooManyOpenFiles)
                && same_open(old(table)@, final(table)@)
                && count_open(final(table)@) == count_open(old(table)@),
            r is Ok ==> ({
                let c = r->Ok_0;
                &&& c.shares_with(self)
                &&& c.distinct_handles()
                &&& c.wf(final(table)@)
                &&& self.wf(final(table)@)
                &&& opened_only(old(table)@, final(table)@, c.handles())
                &&& count_open(final(table)@) == count_open(old(table)@) + self.handle_count()
                &&& final(table)@[c.notify_listener.fd()] == old(table)@[self.notify_listener.fd()]
                &&& c.console_socket is Some ==> final(table)@[opt_fd(c.console_socket)->Some_0]
                    == old(table)@[opt_fd(self.console_socket)->Some_0]
                &&& c.container_type is TenantContainer ==> final(table)@[c.container_type.exec_notify()->Some_0]
                    == old(table)@[self.container_type.exec_notify()->Some_0]
            }),
    {
        let ghost t0 = table@;
        assert(self.handles().contains(self.notify_listener.fd()));
        let notify = match self.notify_listener.try_clone(table) {
            Ok(d) => d,
            Err(e) => {
                proof {
                    assert(opened_only(t0, table@, Set::empty()));
                }
                return Err(e);
            },
        };
        let ghost t1 = table@;
        proof {
            lemma_dup_opens(t0, self.notify_listener.fd(), t1, notify.fd());
            assert(set![notify.fd()] == Set::<int>::empty().insert(notify.fd()));
        }
        let console = match &self.console_socket {
            None => None,
            Some(c) => {
                assert(self.handles().contains(c.fd()));
                match c.try_clone(table) {
                    Ok(d) => Some(d),
                    Err(e) => {
                        proof {
                            lemma_release_new(t0, t1, set![notify.fd()], notify.fd());
                            assert(set![notify.fd()].remove(notify.fd()) =~= Set::empty());
                        }
                        notify.release(table);
                        return Err(e);
                    },
                }
            },
        };
        let ghost t2 = table@;
        let ghost f2 = match opt_fd(console) {
            Some(d) => set![notify.fd(), d],
            None => set![notify.fd()],
        };
        proof {
            if let Some(d) = opt_fd(console) {
                let o = opt_fd(self.console_socket)->Some_0;
                lemma_dup_opens(t1, o, t2, d);
                lemma_opened_trans(t0, t1, t2, set![notify.fd()], set![d]);
                assert(set![notify.fd()].union(set![d]) =~= f2);
            }
        }
        let container_type = match &self.container_type {
            ContainerType::InitContainer => ContainerType::InitContainer,
            ContainerType::TenantContainer { exec_notify_fd } => {
                assert(self.handles().contains(exec_notify_fd.fd()));
                match exec_notify_fd.try_clone(table) {
                    Ok(d) => ContainerType::TenantContainer { exec_notify_fd: d },
                    Err(e) => {
                        let ghost t3 = table@;
                        proof {
                            lemma_release_new(t0, t3, f2, notify.fd());
                        }
                        notify.release(table);
                        match console {
                            Some(d) => {
                                proof {
                                    let t4 = table@;
                                    lemma_release_new(t0, t4, f2.remove(notify.fd()), d.fd());
                                    assert(f2.remove(notify.fd()).remove(d.fd()) =~= Set::empty());
                                }
                                d.release(table);
                            },
                            None => {
                                proof {
                                    assert(f2.remove(notify.fd()) =~= Set::empty());
                                }
                            },
                        }
                        return Err(e);
                    },
                }
            },
        };
        let ghost t3 = table@;
        let ghost f3 = match container_type.exec_notify() {
            Some(e) => f2.insert(e),
            None => f2,
        };
        proof {
            if let Some(e) = container_type.exec_notify() {
                let o = self.container_type.exec_notify()->Some_0;
                lemma_dup_opens(t2, o, t3, e);
                lemma_opened_trans(t0, t2, t3, f2, set![e]);
                assert(f2.union(set![e]) =~= f3);
            }
        }
        let c = ContainerArgs {
            container_type,
            syscall: self.syscall,
            spec: Rc::clone(&self.spec),
            rootfs: self.rootfs.clone(),
            console_socket: console,
            notify_listener: notify,
            preserve_fds: self.preserve_fds,
            container: match &self.container {
                Some(s) => Some(Rc::clone(s)),
                None => None,
            },
            user_ns_config: match &self.user_ns_config {
                Some(u) => Some(Rc::clone(u)),
                None => None,
            },
            cgroup_config: Rc::clone(&self.cgroup_config),
            detached: self.detached,
            executor: self.executor,
        };
        proof {
            assert(c.handles() =~= f3);
        }
        Ok(c)
    }
}

} // verus!
