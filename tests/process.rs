use std::rc::Rc;

use libcontainer::args::{CgroupConfig, ContainerArgs, ContainerType, Executor, SyscallType};
use libcontainer::channel::SyncError;
use libcontainer::fd::{FdTable, IoError, MyOwnedFd};
use libcontainer::process::{start, ConstructionError, Event, ExecError, Outcomes};

fn build(table: &mut FdTable, tenant: bool, console: bool) -> ContainerArgs {
    let notify = table.open(100).unwrap();
    let console_socket: Option<MyOwnedFd> = if console { Some(table.open(101).unwrap()) } else { None };
    let container_type = if tenant {
        ContainerType::TenantContainer { exec_notify_fd: table.open(102).unwrap() }
    } else {
        ContainerType::InitContainer
    };
    ContainerArgs::new(
        container_type,
        SyscallType::Test,
        Rc::new(oci_spec::runtime::Spec::default()),
        "/run/rootfs".to_string(),
        console_socket,
        notify,
        0,
        None,
        None,
        Rc::new(CgroupConfig {
            cgroup_path: "/sys/fs/cgroup/demo".to_string(),
            systemd_cgroup: false,
            container_name: "demo".to_string(),
        }),
        false,
        Executor::Stub,
    )
}

fn all_ok() -> Outcomes {
    Outcomes { setup_ok: true, parent_accepts: true, exec_result: Ok(()) }
}

#[test]
fn init_construction_end_to_end() {
    let mut table = FdTable::new(64);
    let args = build(&mut table, false, false);
    assert_eq!(args.preserve_fds, 0);
    let before = table.open_count();
    let trace = start(&args, &mut table, all_ok()).unwrap();
    assert_eq!(trace, vec![Event::SetupObserved, Event::ProceedDelivered, Event::ExecutorInvoked]);
    assert_eq!(trace.iter().filter(|e| **e == Event::ExecutorInvoked).count(), 1);
    assert_eq!(table.open_count(), before);
}

#[test]
fn tenant_construction_notifies_after_handshake() {
    let mut table = FdTable::new(64);
    let args = build(&mut table, true, true);
    let before = table.open_count();
    let trace = start(&args, &mut table, all_ok()).unwrap();
    assert_eq!(
        trace,
        vec![Event::SetupObserved, Event::ProceedDelivered, Event::ExecNotified, Event::ExecutorInvoked]
    );
    assert_eq!(table.open_count(), before);
}

#[test]
fn setup_failure_is_reported() {
    let mut table = FdTable::new(64);
    let args = build(&mut table, false, true);
    let before = table.open_count();
    let o = Outcomes { setup_ok: false, parent_accepts: true, exec_result: Ok(()) };
    assert_eq!(start(&args, &mut table, o), Err(ConstructionError::Setup));
    assert_eq!(table.open_count(), before);
}

#[test]
fn parent_abort_is_peer_closed() {
    let mut table = FdTable::new(64);
    let args = build(&mut table, true, false);
    let before = table.open_count();
    let o = Outcomes { setup_ok: true, parent_accepts: false, exec_result: Ok(()) };
    assert_eq!(start(&args, &mut table, o), Err(ConstructionError::Sync(SyncError::PeerClosed)));
    assert_eq!(table.open_count(), before);
}

#[test]
fn executor_failure_is_reported() {
    let mut table = FdTable::new(64);
    let args = build(&mut table, false, false);
    let before = table.open_count();
    let o = Outcomes { setup_ok: true, parent_accepts: true, exec_result: Err(ExecError::NotFound) };
    assert_eq!(start(&args, &mut table, o), Err(ConstructionError::Exec(ExecError::NotFound)));
    assert_eq!(table.open_count(), before);
}

#[test]
fn exhausted_table_fails_without_leaks() {
    let mut table = FdTable::new(4);
    let args = build(&mut table, true, true);
    assert_eq!(table.open_count(), 3);
    assert_eq!(start(&args, &mut table, all_ok()), Err(ConstructionError::Io(IoError::TooManyOpenFiles)));
    assert_eq!(table.open_count(), 3);
}

#[test]
fn exactly_one_variant() {
    let mut table = FdTable::new(64);
    let init = build(&mut table, false, false);
    let tenant = build(&mut table, true, false);
    assert!(init.is_init_container());
    assert!(!tenant.is_init_container());
    match &tenant.container_type {
        ContainerType::TenantContainer { exec_notify_fd } => assert_eq!(table.write(exec_notify_fd), Ok(())),
        ContainerType::InitContainer => panic!("tenant parameters without a handle"),
    }
}

#[test]
fn clone_duplicates_handles_and_shares_spec() {
    let mut table = FdTable::new(64);
    let args = build(&mut table, true, true);
    let copy = args.try_clone(&mut table).unwrap();
    assert!(Rc::ptr_eq(&args.spec, &copy.spec));
    assert!(Rc::ptr_eq(&args.cgroup_config, &copy.cgroup_config));
    assert_ne!(args.notify_listener.raw(), copy.notify_listener.raw());
    assert_eq!(table.file_of(&copy.notify_listener), Some(100));
    assert_eq!(table.file_of(copy.console_socket.as_ref().unwrap()), Some(101));
    assert_eq!(table.open_count(), 6);
    assert_eq!(copy.rootfs, "/run/rootfs");
}

#[test]
fn failed_clone_releases_partial_duplicates() {
    let mut table = FdTable::new(5);
    let args = build(&mut table, true, true);
    assert!(args.try_clone(&mut table).is_err());
    assert_eq!(table.open_count(), 3);
}

#[test]
fn first_descriptor_to_close() {
    let mut table = FdTable::new(64);
    let mut args = build(&mut table, false, false);
    assert_eq!(args.first_fd_to_close(), 3);
    args.preserve_fds = 2;
    assert_eq!(args.first_fd_to_close(), 5);
}
