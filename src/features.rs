use vstd::prelude::*;

verus! {

/// The cgroup drivers and controllers supported.
#[derive(Debug, Clone, Copy, PartialEq, Eq, Structural)]
pub struct Cgroup {
    pub v1: bool,
    pub v2: bool,
    pub systemd: bool,
    pub systemduser: bool,
    pub rdma: bool,
}

/// What seccomp filtering supports.
#[derive(Debug)]
pub struct Seccomp {
    pub enabled: bool,
    pub actions: Vec<String>,
    pub operators: Vec<String>,
    pub archs: Vec<String>,
    pub known_flags: Vec<String>,
    pub supported_flags: Vec<String>,
}

/// Whether AppArmor profiles are supported.
#[derive(Debug, Clone, Copy, PartialEq, Eq, Structural)]
pub struct Apparmor {
    pub enabled: bool,
}

/// Whether SELinux labels are supported.
#[derive(Debug, Clone, Copy, PartialEq, Eq, Structural)]
pub struct Selinux {
    pub enabled: bool,
}

/// Whether Intel RDT is supported.
#[derive(Debug, Clone, Copy, PartialEq, Eq, Structural)]
pub struct InetRdt {
    pub enabled: bool,
}

/// The Linux-specific features.
#[derive(Debug)]
pub struct Linux {
    pub namespaces: Vec<String>,
    pub capabilities: Vec<String>,
    pub cgroup: Cgroup,
    pub seccomp: Seccomp,
    pub apparmor: Apparmor,
    pub selinux: Selinux,
    pub inet_rdt: InetRdt,
}

/// The features this runtime reports: the runtime-spec versions it accepts,
/// the hooks and mount options it knows, and its Linux support.
#[derive(Debug)]
pub struct FeaturesConfig {
    pub oci_version_min: String,
    pub oci_version_max: String,
    pub hooks: Vec<String>,
    pub mount_options: Vec<String>,
    pub linux: Linux,
}

/// The text of each string of `v`.
pub open spec fn texts(v: Seq<String>) -> Seq<Seq<char>> {
    v.map_values(|s: String| s@)
}

/// The hooks supported, in the order they run.
pub open spec fn hook_names() -> Seq<Seq<char>> {
    seq![
        "prestart"@,
        "createRuntime"@,
        "createContainer"@,
        "startContainer"@,
        "poststart"@,
        "poststop"@,
    ]
}

/// The mount options recognised.
pub open spec fn mount_option_names() -> Seq<Seq<char>> {
    seq![
        "async"@,
        "atime"@,
        "bind"@,
        "defaults"@,
        "dev"@,
        "diratime"@,
        "dirsync"@,
        "exec"@,
        "mand"@,
        "noatime"@,
        "nodiratime"@,
        "nodev"@,
        "noexec"@,
        "nomand"@,
        "norelatime"@,
        "nostrictatime"@,
        "nosuid"@,
        "private"@,
        "rbind"@,
        "relatime"@,
        "remount"@,
        "ro"@,
        "rprivate"@,
        "rshared"@,
        "rslave"@,
        "runbindable"@,
        "rw"@,
        "suid"@,
        "sync"@,
        "shared"@,
        "slave"@,
        "strictatime"@,
        "unbindable"@,
    ]
}

/// The namespaces a container can have.
pub open spec fn namespace_names() -> Seq<Seq<char>> {
    seq![
        "cgroup"@,
        "ipc"@,
        "mount"@,
        "network"@,
        "pid"@,
        "user"@,
        "uts"@,
    ]
}

/// The capabilities reported.
pub open spec fn capability_names() -> Seq<Seq<char>> {
    seq![
        "CAP_CHOWN"@,
    ]
}

/// The seccomp actions supported.
pub open spec fn seccomp_action_names() -> Seq<Seq<char>> {
    seq![
        "SCMP_ACT_ALLOW"@,
        "SCMP_ACT_ERRNO"@,
        "SCMP_ACT_KILL"@,
        "SCMP_ACT_KILL_PROCESS"@,
        "SCMP_ACT_KILL_THREAD"@,
        "SCMP_ACT_LOG"@,
        "SCMP_ACT_NOTIFY"@,
        "SCMP_ACT_TRACE"@,
        "SCMP_ACT_TRAP"@,
    ]
}

/// The seccomp comparison operators supported.
pub open spec fn seccomp_operator_names() -> Seq<Seq<char>> {
    seq![
        "SCMP_CMP_EQ"@,
        "SCMP_CMP_GE"@,
        "SCMP_CMP_GT"@,
        "SCMP_CMP_LE"@,
        "SCMP_CMP_LT"@,
        "SCMP_CMP_MASKED_EQ"@,
        "SCMP_CMP_NE"@,
    ]
}

/// The seccomp architectures supported.
pub open spec fn seccomp_arch_names() -> Seq<Seq<char>> {
    seq![
        "SCMP_ARCH_AARCH64"@,
        "SCMP_ARCH_ARM"@,
        "SCMP_ARCH_MIPS"@,
        "SCMP_ARCH_MIPS64"@,
        "SCMP_ARCH_MIPS64N32"@,
        "SCMP_ARCH_MIPSEL"@,
        "SCMP_ARCH_MIPSEL64"@,
        "SCMP_ARCH_MIPSEL64N32"@,
        "SCMP_ARCH_PPC"@,
        "SCMP_ARCH_PPC64"@,
        "SCMP_ARCH_PPC64LE"@,
        "SCMP_ARCH_RISCV64"@,
        "SCMP_ARCH_S390"@,
        "SCMP_ARCH_S390X"@,
        "SCMP_ARCH_X32"@,
        "SCMP_ARCH_X86"@,
        "SCMP_ARCH_X86_64"@,
    ]
}

/// The seccomp filter flags known and supported.
pub open spec fn seccomp_flag_names() -> Seq<Seq<char>> {
    seq![
        "SECCOMP_FILTER_FLAG_TSYNC"@,
        "SECCOMP_FILTER_FLAG_SPEC_ALLOW"@,
        "SECCOMP_FILTER_FLAG_LOG"@,
    ]
}

/// Owned copies of `items`, in order.
fn owned(items: Vec<&str>) -> (r: Vec<String>)
    ensures
        r@.len() == items@.len(),
        forall|k: int| 0 <= k < items@.len() ==> #[trigger] r@[k]@ == items@[k]@,
{
    let mut out: Vec<String> = Vec::new();
    let mut i: usize = 0;
    while i < items.len()
        invariant
            0 <= i <= items@.len(),
            out@.len() == i,
            forall|k: int| 0 <= k < i ==> #[trigger] out@[k]@ == items@[k]@,
        decreases items@.len() - i,
    {
        out.push(items[i].to_owned());
        i = i + 1;
    }
    out
}

/// The feature report of this runtime.
pub fn features() -> (r: FeaturesConfig)
    ensures
        r.oci_version_min@ == "1.0.0"@,
        r.oci_version_max@ == "1.1.0"@,
        texts(r.hooks@) == hook_names(),
        texts(r.mount_options@) == mount_option_names(),
        texts(r.linux.namespaces@) == namespace_names(),
        texts(r.linux.capabilities@) == capability_names(),
        r.linux.cgroup == (Cgroup { v1: true, v2: true, systemd: true, systemduser: true, rdma: true }),
        r.linux.seccomp.enabled,
        texts(r.linux.seccomp.actions@) == seccomp_action_names(),
        texts(r.linux.seccomp.operators@) == seccomp_operator_names(),
        texts(r.linux.seccomp.archs@) == seccomp_arch_names(),
        texts(r.linux.seccomp.known_flags@) == seccomp_flag_names(),
        texts(r.linux.seccomp.supported_flags@) == seccomp_flag_names(),
        r.linux.apparmor.enabled,
        r.linux.selinux.enabled,
        r.linux.inet_rdt.enabled,
{
    let hooks = owned(vec![
        "prestart",
        "createRuntime",
        "createContainer",
        "startContainer",
        "poststart",
        "poststop",
    ]);
    assert(texts(hooks@) =~= hook_names());
    let mount_options = owned(vec![
        "async",
        "atime",
        "bind",
        "defaults",
        "dev",
        "diratime",
        "dirsync",
        "exec",
        "mand",
        "noatime",
        "nodiratime",
        "nodev",
        "noexec",
        "nomand",
        "norelatime",
        "nostrictatime",
        "nosuid",
        "private",
        "rbind",
        "relatime",
        "remount",
        "ro",
        "rprivate",
        "rshared",
        "rslave",
        "runbindable",
        "rw",
        "suid",
        "sync",
        "shared",
        "slave",
        "strictatime",
        "unbindable",
    ]);
    assert(texts(mount_options@) =~= mount_option_names());
    let namespaces = owned(vec![
        "cgroup",
        "ipc",
        "mount",
        "network",
        "pid",
        "user",
        "uts",
    ]);
    assert(texts(namespaces@) =~= namespace_names());
    let capabilities = owned(vec![
        "CAP_CHOWN",
    ]);
    assert(texts(capabilities@) =~= capability_names());
    let actions = owned(vec![
        "SCMP_ACT_ALLOW",
        "SCMP_ACT_ERRNO",
        "SCMP_ACT_KILL",
        "SCMP_ACT_KILL_PROCESS",
        "SCMP_ACT_KILL_THREAD",
        "SCMP_ACT_LOG",
        "SCMP_ACT_NOTIFY",
        "SCMP_ACT_TRACE",
        "SCMP_ACT_TRAP",
    ]);
    assert(texts(actions@) =~= seccomp_action_names());
    let operators = owned(vec![
        "SCMP_CMP_EQ",
        "SCMP_CMP_GE",
        "SCMP_CMP_GT",
        "SCMP_CMP_LE",
        "SCMP_CMP_LT",
        "SCMP_CMP_MASKED_EQ",
        "SCMP_CMP_NE",
    ]);
    assert(texts(operators@) =~= seccomp_operator_names());
    let archs = owned(vec![
        "SCMP_ARCH_AARCH64",
        "SCMP_ARCH_ARM",
        "SCMP_ARCH_MIPS",
        "SCMP_ARCH_MIPS64",
        "SCMP_ARCH_MIPS64N32",
        "SCMP_ARCH_MIPSEL",
        "SCMP_ARCH_MIPSEL64",
        "SCMP_ARCH_MIPSEL64N32",
        "SCMP_ARCH_PPC",
        "SCMP_ARCH_PPC64",
        "SCMP_ARCH_PPC64LE",
        "SCMP_ARCH_RISCV64",
        "SCMP_ARCH_S390",
        "SCMP_ARCH_S390X",
        "SCMP_ARCH_X32",
        "SCMP_ARCH_X86",
        "SCMP_ARCH_X86_64",
    ]);
    assert(texts(archs@) =~= seccomp_arch_names());
    let known_flags = owned(vec![
        "SECCOMP_FILTER_FLAG_TSYNC",
        "SECCOMP_FILTER_FLAG_SPEC_ALLOW",
        "SECCOMP_FILTER_FLAG_LOG",
    ]);
    assert(texts(known_flags@) =~= seccomp_flag_names());
    let supported_flags = owned(vec![
        "SECCOMP_FILTER_FLAG_TSYNC",
        "SECCOMP_FILTER_FLAG_SPEC_ALLOW",
        "SECCOMP_FILTER_FLAG_LOG",
    ]);
    assert(texts(supported_flags@) =~= seccomp_flag_names());
    FeaturesConfig {
        oci_version_min: "1.0.0".to_owned(),
        oci_version_max: "1.1.0".to_owned(),
        hooks,
        mount_options,
        linux: Linux {
            namespaces,
            capabilities,
            cgroup: Cgroup { v1: true, v2: true, systemd: true, systemduser: true, rdma: true },
            seccomp: Seccomp { enabled: true, actions, operators, archs, known_flags, supported_flags },
            apparmor: Apparmor { enabled: true },
            selinux: Selinux { enabled: true },
            inet_rdt: InetRdt { enabled: true },
        },
    }
}

} // verus!
