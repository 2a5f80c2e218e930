use libcontainer::features::features;

#[test]
fn reported_features() {
    let f = features();
    assert_eq!(f.oci_version_min, "1.0.0");
    assert_eq!(f.oci_version_max, "1.1.0");
    assert_eq!(
        f.hooks,
        vec!["prestart", "createRuntime", "createContainer", "startContainer", "poststart", "poststop"]
    );
    assert_eq!(f.mount_options.len(), 33);
    assert_eq!(f.mount_options[0], "async");
    assert_eq!(f.mount_options[32], "unbindable");
    assert_eq!(f.linux.namespaces, vec!["cgroup", "ipc", "mount", "network", "pid", "user", "uts"]);
    assert_eq!(f.linux.capabilities, vec!["CAP_CHOWN"]);
    assert!(f.linux.cgroup.v1 && f.linux.cgroup.v2 && f.linux.cgroup.systemd);
    assert!(f.linux.cgroup.systemduser && f.linux.cgroup.rdma);
    assert!(f.linux.seccomp.enabled);
    assert_eq!(f.linux.seccomp.actions.len(), 9);
    assert_eq!(f.linux.seccomp.operators.len(), 7);
    assert_eq!(f.linux.seccomp.archs.len(), 17);
    assert_eq!(f.linux.seccomp.archs[16], "SCMP_ARCH_X86_64");
    assert_eq!(f.linux.seccomp.known_flags, f.linux.seccomp.supported_flags);
    assert!(f.linux.apparmor.enabled && f.linux.selinux.enabled && f.linux.inet_rdt.enabled);
}
