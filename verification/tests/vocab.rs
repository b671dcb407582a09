//! The fixed string vocabularies: exact matching, round-trips, and the
//! distinct rejection of unsupported versus unrecognized values.

use conty::Capability;
use conty::ConfigField;
use conty::ContainerStatus;
use conty::DeviceType;
use conty::NamespaceType;
use conty::OCIError;
use conty::ResourceLimitType;
use conty::SeccompAction;
use conty::SeccompArch;
use conty::SeccompOperator;

#[test]
fn namespace_roundtrip() {
    let kinds = [
        NamespaceType::Pid,
        NamespaceType::Network,
        NamespaceType::Mount,
        NamespaceType::IPC,
        NamespaceType::UTS,
        NamespaceType::Cgroup,
        NamespaceType::User,
    ];
    for k in kinds {
        assert_eq!(NamespaceType::from_str(k.name()), Ok(k));
    }
}

#[test]
fn namespace_names_exact() {
    assert_eq!(NamespaceType::Pid.name(), "pid");
    assert_eq!(NamespaceType::Network.name(), "network");
    assert_eq!(NamespaceType::Mount.name(), "mount");
    assert_eq!(NamespaceType::IPC.name(), "ipc");
    assert_eq!(NamespaceType::UTS.name(), "uts");
    assert_eq!(NamespaceType::Cgroup.name(), "cgroup");
    assert_eq!(NamespaceType::User.name(), "user");
}

#[test]
fn namespace_net_alias_accepted() {
    assert_eq!(NamespaceType::from_str("net"), Ok(NamespaceType::Network));
}

#[test]
fn namespace_bogus_rejected_time_distinct() {
    let bogus = NamespaceType::from_str("bogus");
    assert_eq!(bogus, Err(OCIError::InvalidValue(ConfigField::NamespaceKind)));
    let time = NamespaceType::from_str("time");
    assert_eq!(
        time,
        Err(OCIError::UnsupportedValue(ConfigField::NamespaceKind))
    );
    // recognised-but-unsupported is distinguishable from unrecognized
    assert_ne!(bogus, time);
}

#[test]
fn namespace_matching_is_case_sensitive() {
    assert_eq!(
        NamespaceType::from_str("PID"),
        Err(OCIError::InvalidValue(ConfigField::NamespaceKind))
    );
    assert_eq!(
        NamespaceType::from_str(" pid"),
        Err(OCIError::InvalidValue(ConfigField::NamespaceKind))
    );
}

#[test]
fn capability_roundtrip() {
    let caps = [
        Capability::Chown,
        Capability::DacOverride,
        Capability::DacReadSearch,
        Capability::FileOwner,
        Capability::FileSetId,
        Capability::Kill,
        Capability::SetGid,
        Capability::SetUid,
        Capability::SetProcCap,
        Capability::LinuxImmutable,
        Capability::NetBindService,
        Capability::NetBroadcast,
        Capability::NetAdmin,
        Capability::NetRaw,
        Capability::IPCLock,
        Capability::IPCOwner,
        Capability::SysModule,
        Capability::SysRawIO,
        Capability::SysChroot,
        Capability::SysPtrace,
        Capability::SysPacct,
        Capability::SysAdmin,
        Capability::SysBoot,
        Capability::SysNice,
        Capability::SysResource,
        Capability::SysTime,
        Capability::SysTTYConfig,
        Capability::Mknod,
        Capability::Lease,
        Capability::AuditWrite,
        Capability::AuditControl,
        Capability::SetFileCap,
        Capability::MACOverride,
        Capability::MACAdmin,
        Capability::Syslog,
        Capability::WakeAlarm,
        Capability::BlockSuspend,
        Capability::AuditRead,
        Capability::PerformanceMonitoring,
        Capability::BPF,
        Capability::CheckpointRestore,
    ];
    assert_eq!(caps.len(), 41);
    for c in caps {
        assert_eq!(Capability::from_str(c.name()), c);
    }
}

#[test]
fn capability_unknown_sentinel() {
    assert_eq!(Capability::from_str("CAP_NOT_A_THING"), Capability::Unknown);
    assert_eq!(Capability::from_str(""), Capability::Unknown);
    // case-sensitive: a lowercased known name is not recognised
    assert_eq!(Capability::from_str("cap_chown"), Capability::Unknown);
}

#[test]
fn capability_exact_names() {
    assert_eq!(Capability::Chown.name(), "CAP_CHOWN");
    assert_eq!(Capability::SysAdmin.name(), "CAP_SYS_ADMIN");
    assert_eq!(Capability::CheckpointRestore.name(), "CAP_CHECKPOINT_RESTORE");
}

#[test]
fn capability_list_maps_each_name() {
    let names = vec![
        String::from("CAP_CHOWN"),
        String::from("CAP_MADE_UP"),
        String::from("CAP_SYS_ADMIN"),
    ];
    let caps = conty::parse_capability_list(&names);
    assert_eq!(
        caps,
        vec![Capability::Chown, Capability::Unknown, Capability::SysAdmin]
    );
}

#[test]
fn namespace_list_parses_in_order() {
    let entries = vec![
        (String::from("pid"), None),
        (String::from("network"), Some(String::from("/proc/1/ns/net"))),
    ];
    let parsed = conty::parse_namespace_list(&entries).unwrap();
    assert_eq!(parsed.len(), 2);
    assert_eq!(parsed[0].typ, NamespaceType::Pid);
    assert_eq!(parsed[0].path, None);
    assert_eq!(parsed[1].typ, NamespaceType::Network);
    assert_eq!(parsed[1].path.as_deref(), Some("/proc/1/ns/net"));
}

#[test]
fn namespace_list_surfaces_first_error() {
    let entries = vec![
        (String::from("pid"), None),
        (String::from("time"), None),
        (String::from("bogus"), None),
    ];
    // the unsupported "time" entry comes first, so its distinct error wins
    assert!(matches!(
        conty::parse_namespace_list(&entries),
        Err(OCIError::UnsupportedValue(ConfigField::NamespaceKind))
    ));
}

#[test]
fn status_roundtrip() {
    let statuses = [
        ContainerStatus::Creating,
        ContainerStatus::Created,
        ContainerStatus::Running,
        ContainerStatus::Stopped,
    ];
    for s in statuses {
        assert_eq!(ContainerStatus::from_str(s.name()), Ok(s));
    }
    assert_eq!(
        ContainerStatus::from_str("paused"),
        Err(OCIError::InvalidValue(ConfigField::ContainerStatus))
    );
}

#[test]
fn resource_limit_roundtrip() {
    let kinds = [
        ResourceLimitType::CPU,
        ResourceLimitType::FileSize,
        ResourceLimitType::Data,
        ResourceLimitType::Stack,
        ResourceLimitType::Core,
        ResourceLimitType::RSS,
        ResourceLimitType::NProc,
        ResourceLimitType::NOFiles,
        ResourceLimitType::MemLock,
        ResourceLimitType::AddressSpace,
        ResourceLimitType::Locks,
        ResourceLimitType::SigPending,
        ResourceLimitType::MsgQueue,
        ResourceLimitType::Nice,
        ResourceLimitType::RealtimePrio,
        ResourceLimitType::Realtime,
    ];
    for k in kinds {
        assert_eq!(ResourceLimitType::from_str(k.name()), Ok(k));
    }
    assert_eq!(
        ResourceLimitType::from_str("RLIMIT_BOGUS"),
        Err(OCIError::InvalidValue(ConfigField::ResourceLimitKind))
    );
}

#[test]
fn resource_limit_raw_values_match_kernel() {
    assert_eq!(ResourceLimitType::CPU.raw(), libc::RLIMIT_CPU as u32);
    assert_eq!(ResourceLimitType::FileSize.raw(), libc::RLIMIT_FSIZE as u32);
    assert_eq!(ResourceLimitType::Data.raw(), libc::RLIMIT_DATA as u32);
    assert_eq!(ResourceLimitType::Stack.raw(), libc::RLIMIT_STACK as u32);
    assert_eq!(ResourceLimitType::Core.raw(), libc::RLIMIT_CORE as u32);
    assert_eq!(ResourceLimitType::RSS.raw(), libc::RLIMIT_RSS as u32);
    assert_eq!(ResourceLimitType::NProc.raw(), libc::RLIMIT_NPROC as u32);
    assert_eq!(ResourceLimitType::NOFiles.raw(), libc::RLIMIT_NOFILE as u32);
    assert_eq!(ResourceLimitType::MemLock.raw(), libc::RLIMIT_MEMLOCK as u32);
    assert_eq!(ResourceLimitType::AddressSpace.raw(), libc::RLIMIT_AS as u32);
    assert_eq!(ResourceLimitType::Locks.raw(), libc::RLIMIT_LOCKS as u32);
    assert_eq!(
        ResourceLimitType::SigPending.raw(),
        libc::RLIMIT_SIGPENDING as u32
    );
    assert_eq!(
        ResourceLimitType::MsgQueue.raw(),
        libc::RLIMIT_MSGQUEUE as u32
    );
    assert_eq!(ResourceLimitType::Nice.raw(), libc::RLIMIT_NICE as u32);
    assert_eq!(
        ResourceLimitType::RealtimePrio.raw(),
        libc::RLIMIT_RTPRIO as u32
    );
    assert_eq!(ResourceLimitType::Realtime.raw(), libc::RLIMIT_RTTIME as u32);
}

#[test]
fn seccomp_action_roundtrip() {
    let actions = [
        SeccompAction::Kill,
        SeccompAction::KillProcess,
        SeccompAction::KillThread,
        SeccompAction::Trap,
        SeccompAction::Errno,
        SeccompAction::Trace,
        SeccompAction::Allow,
        SeccompAction::Log,
        SeccompAction::Notify,
    ];
    for a in actions {
        assert_eq!(SeccompAction::from_str(a.name()), Ok(a));
    }
    assert_eq!(
        SeccompAction::from_str("SCMP_ACT_BOGUS"),
        Err(OCIError::InvalidValue(ConfigField::SeccompAction))
    );
}

#[test]
fn seccomp_arch_roundtrip() {
    let arches = [
        SeccompArch::X86,
        SeccompArch::X86_64,
        SeccompArch::X32,
        SeccompArch::ARM,
        SeccompArch::AARCH64,
        SeccompArch::MIPS,
        SeccompArch::MIPS64,
        SeccompArch::MIPS64N32,
        SeccompArch::MIPSEL,
        SeccompArch::MIPSEL64,
        SeccompArch::MIPSEL64N32,
        SeccompArch::PPC,
        SeccompArch::PPC64,
        SeccompArch::PPC64LE,
        SeccompArch::S390,
        SeccompArch::S390X,
        SeccompArch::PARISC,
        SeccompArch::PARISC64,
        SeccompArch::RISCV64,
    ];
    for a in arches {
        assert_eq!(SeccompArch::from_str(a.name()), Ok(a));
    }
    assert_eq!(
        SeccompArch::from_str("SCMP_ARCH_VAX"),
        Err(OCIError::InvalidValue(ConfigField::SeccompArch))
    );
}

#[test]
fn seccomp_operator_roundtrip() {
    let ops = [
        SeccompOperator::NotEqual,
        SeccompOperator::LessThan,
        SeccompOperator::LessEqual,
        SeccompOperator::Equal,
        SeccompOperator::GreaterEqual,
        SeccompOperator::GreaterThan,
        SeccompOperator::MaskedEqual,
    ];
    for o in ops {
        assert_eq!(SeccompOperator::from_str(o.name()), Ok(o));
    }
    assert_eq!(
        SeccompOperator::from_str("SCMP_CMP_APPROX"),
        Err(OCIError::InvalidValue(ConfigField::SeccompOperator))
    );
}

#[test]
fn device_type_roundtrip() {
    let kinds = [
        DeviceType::Char,
        DeviceType::Block,
        DeviceType::U,
        DeviceType::Pipe,
    ];
    for k in kinds {
        assert_eq!(DeviceType::from_str(k.name()), Ok(k));
    }
    assert_eq!(DeviceType::Char.name(), "c");
    assert_eq!(DeviceType::Block.name(), "b");
    assert_eq!(DeviceType::U.name(), "u");
    assert_eq!(DeviceType::Pipe.name(), "p");
    assert_eq!(
        DeviceType::from_str("d"),
        Err(OCIError::InvalidValue(ConfigField::DeviceKind))
    );
}
