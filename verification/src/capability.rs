//! Process capabilities: the closed vocabulary of capability names and the
//! capability sets a process declares. A string outside the vocabulary is
//! not rejected but mapped to the explicit `Unknown` sentinel, as a runtime
//! should not fail merely because a configuration names a capability it does
//! not know.

use vstd::prelude::*;

use crate::strutil::str_eq;

verus! {

/// A named process capability, or the `Unknown` sentinel for a name outside
/// the fixed vocabulary.
#[derive(Clone, Copy, Debug, PartialEq, Eq, Structural)]
pub enum Capability {
    Chown,
    DacOverride,
    DacReadSearch,
    FileOwner,
    FileSetId,
    Kill,
    SetGid,
    SetUid,
    SetProcCap,
    LinuxImmutable,
    NetBindService,
    NetBroadcast,
    NetAdmin,
    NetRaw,
    IPCLock,
    IPCOwner,
    SysModule,
    SysRawIO,
    SysChroot,
    SysPtrace,
    SysPacct,
    SysAdmin,
    SysBoot,
    SysNice,
    SysResource,
    SysTime,
    SysTTYConfig,
    Mknod,
    Lease,
    AuditWrite,
    AuditControl,
    SetFileCap,
    MACOverride,
    MACAdmin,
    Syslog,
    WakeAlarm,
    BlockSuspend,
    AuditRead,
    PerformanceMonitoring,
    BPF,
    CheckpointRestore,
    Unknown,
}

impl Capability {
    pub open spec fn spec_parse(s: Seq<char>) -> Capability {
        if s == "CAP_CHOWN"@ {
            Capability::Chown
        } else if s == "CAP_DAC_OVERRIDE"@ {
            Capability::DacOverride
        } else if s == "CAP_DAC_READ_SEARCH"@ {
            Capability::DacReadSearch
        } else if s == "CAP_FOWNER"@ {
            Capability::FileOwner
        } else if s == "CAP_FSETID"@ {
            Capability::FileSetId
        } else if s == "CAP_KILL"@ {
            Capability::Kill
        } else if s == "CAP_SETGID"@ {
            Capability::SetGid
        } else if s == "CAP_SETUID"@ {
            Capability::SetUid
        } else if s == "CAP_SETPCAP"@ {
            Capability::SetProcCap
        } else if s == "CAP_LINUX_IMMUTABLE"@ {
            Capability::LinuxImmutable
        } else if s == "CAP_NET_BIND_SERVICE"@ {
            Capability::NetBindService
        } else if s == "CAP_NET_BROADCAST"@ {
            Capability::NetBroadcast
        } else if s == "CAP_NET_ADMIN"@ {
            Capability::NetAdmin
        } else if s == "CAP_NET_RAW"@ {
            Capability::NetRaw
        } else if s == "CAP_IPC_LOCK"@ {
            Capability::IPCLock
        } else if s == "CAP_IPC_OWNER"@ {
            Capability::IPCOwner
        } else if s == "CAP_SYS_MODULE"@ {
            Capability::SysModule
        } else if s == "CAP_SYS_RAWIO"@ {
            Capability::SysRawIO
        } else if s == "CAP_SYS_CHROOT"@ {
            Capability::SysChroot
        } else if s == "CAP_SYS_PTRACE"@ {
            Capability::SysPtrace
        } else if s == "CAP_SYS_PACCT"@ {
            Capability::SysPacct
        } else if s == "CAP_SYS_ADMIN"@ {
            Capability::SysAdmin
        } else if s == "CAP_SYS_BOOT"@ {
            Capability::SysBoot
        } else if s == "CAP_SYS_NICE"@ {
            Capability::SysNice
        } else if s == "CAP_SYS_RESOURCE"@ {
            Capability::SysResource
        } else if s == "CAP_SYS_TIME"@ {
            Capability::SysTime
        } else if s == "CAP_SYS_TTY_CONFIG"@ {
            Capability::SysTTYConfig
        } else if s == "CAP_MKNOD"@ {
            Capability::Mknod
        } else if s == "CAP_LEASE"@ {
            Capability::Lease
        } else if s == "CAP_AUDIT_WRITE"@ {
            Capability::AuditWrite
        } else if s == "CAP_AUDIT_CONTROL"@ {
            Capability::AuditControl
        } else if s == "CAP_SETFCAP"@ {
            Capability::SetFileCap
        } else if s == "CAP_MAC_OVERRIDE"@ {
            Capability::MACOverride
        } else if s == "CAP_MAC_ADMIN"@ {
            Capability::MACAdmin
        } else if s == "CAP_SYSLOG"@ {
            Capability::Syslog
        } else if s == "CAP_WAKE_ALARM"@ {
            Capability::WakeAlarm
        } else if s == "CAP_BLOCK_SUSPEND"@ {
            Capability::BlockSuspend
        } else if s == "CAP_AUDIT_READ"@ {
            Capability::AuditRead
        } else if s == "CAP_PERFMON"@ {
            Capability::PerformanceMonitoring
        } else if s == "CAP_BPF"@ {
            Capability::BPF
        } else if s == "CAP_CHECKPOINT_RESTORE"@ {
            Capability::CheckpointRestore
        } else {
            Capability::Unknown
        }
    }

    pub fn from_str(s: &str) -> (r: Capability)
        ensures
            r == Self::spec_parse(s@),
    {
        if str_eq(s, "CAP_CHOWN") {
            Capability::Chown
        } else if str_eq(s, "CAP_DAC_OVERRIDE") {
            Capability::DacOverride
        } else if str_eq(s, "CAP_DAC_READ_SEARCH") {
            Capability::DacReadSearch
        } else if str_eq(s, "CAP_FOWNER") {
            Capability::FileOwner
        } else if str_eq(s, "CAP_FSETID") {
            Capability::FileSetId
        } else if str_eq(s, "CAP_KILL") {
            Capability::Kill
        } else if str_eq(s, "CAP_SETGID") {
            Capability::SetGid
        } else if str_eq(s, "CAP_SETUID") {
            Capability::SetUid
        } else if str_eq(s, "CAP_SETPCAP") {
            Capability::SetProcCap
        } else if str_eq(s, "CAP_LINUX_IMMUTABLE") {
            Capability::LinuxImmutable
        } else if str_eq(s, "CAP_NET_BIND_SERVICE") {
            Capability::NetBindService
        } else if str_eq(s, "CAP_NET_BROADCAST") {
            Capability::NetBroadcast
        } else if str_eq(s, "CAP_NET_ADMIN") {
            Capability::NetAdmin
        } else if str_eq(s, "CAP_NET_RAW") {
            Capability::NetRaw
        } else if str_eq(s, "CAP_IPC_LOCK") {
            Capability::IPCLock
        } else if str_eq(s, "CAP_IPC_OWNER") {
            Capability::IPCOwner
        } else if str_eq(s, "CAP_SYS_MODULE") {
            Capability::SysModule
        } else if str_eq(s, "CAP_SYS_RAWIO") {
            Capability::SysRawIO
        } else if str_eq(s, "CAP_SYS_CHROOT") {
            Capability::SysChroot
        } else if str_eq(s, "CAP_SYS_PTRACE") {
            Capability::SysPtrace
        } else if str_eq(s, "CAP_SYS_PACCT") {
            Capability::SysPacct
        } else if str_eq(s, "CAP_SYS_ADMIN") {
            Capability::SysAdmin
        } else if str_eq(s, "CAP_SYS_BOOT") {
            Capability::SysBoot
        } else if str_eq(s, "CAP_SYS_NICE") {
            Capability::SysNice
        } else if str_eq(s, "CAP_SYS_RESOURCE") {
            Capability::SysResource
        } else if str_eq(s, "CAP_SYS_TIME") {
            Capability::SysTime
        } else if str_eq(s, "CAP_SYS_TTY_CONFIG") {
            Capability::SysTTYConfig
        } else if str_eq(s, "CAP_MKNOD") {
            Capability::Mknod
        } else if str_eq(s, "CAP_LEASE") {
            Capability::Lease
        } else if str_eq(s, "CAP_AUDIT_WRITE") {
            Capability::AuditWrite
        } else if str_eq(s, "CAP_AUDIT_CONTROL") {
            Capability::AuditControl
        } else if str_eq(s, "CAP_SETFCAP") {
            Capability::SetFileCap
        } else if str_eq(s, "CAP_MAC_OVERRIDE") {
            Capability::MACOverride
        } else if str_eq(s, "CAP_MAC_ADMIN") {
            Capability::MACAdmin
        } else if str_eq(s, "CAP_SYSLOG") {
            Capability::Syslog
        } else if str_eq(s, "CAP_WAKE_ALARM") {
            Capability::WakeAlarm
        } else if str_eq(s, "CAP_BLOCK_SUSPEND") {
            Capability::BlockSuspend
        } else if str_eq(s, "CAP_AUDIT_READ") {
            Capability::AuditRead
        } else if str_eq(s, "CAP_PERFMON") {
            Capability::PerformanceMonitoring
        } else if str_eq(s, "CAP_BPF") {
            Capability::BPF
        } else if str_eq(s, "CAP_CHECKPOINT_RESTORE") {
            Capability::CheckpointRestore
        } else {
            Capability::Unknown
        }
    }

    pub open spec fn spec_name(self) -> Seq<char> {
        match self {
            Capability::Chown => "CAP_CHOWN"@,
            Capability::DacOverride => "CAP_DAC_OVERRIDE"@,
            Capability::DacReadSearch => "CAP_DAC_READ_SEARCH"@,
            Capability::FileOwner => "CAP_FOWNER"@,
            Capability::FileSetId => "CAP_FSETID"@,
            Capability::Kill => "CAP_KILL"@,
            Capability::SetGid => "CAP_SETGID"@,
            Capability::SetUid => "CAP_SETUID"@,
            Capability::SetProcCap => "CAP_SETPCAP"@,
            Capability::LinuxImmutable => "CAP_LINUX_IMMUTABLE"@,
            Capability::NetBindService => "CAP_NET_BIND_SERVICE"@,
            Capability::NetBroadcast => "CAP_NET_BROADCAST"@,
            Capability::NetAdmin => "CAP_NET_ADMIN"@,
            Capability::NetRaw => "CAP_NET_RAW"@,
            Capability::IPCLock => "CAP_IPC_LOCK"@,
            Capability::IPCOwner => "CAP_IPC_OWNER"@,
            Capability::SysModule => "CAP_SYS_MODULE"@,
            Capability::SysRawIO => "CAP_SYS_RAWIO"@,
            Capability::SysChroot => "CAP_SYS_CHROOT"@,
            Capability::SysPtrace => "CAP_SYS_PTRACE"@,
            Capability::SysPacct => "CAP_SYS_PACCT"@,
            Capability::SysAdmin => "CAP_SYS_ADMIN"@,
            Capability::SysBoot => "CAP_SYS_BOOT"@,
            Capability::SysNice => "CAP_SYS_NICE"@,
            Capability::SysResource => "CAP_SYS_RESOURCE"@,
            Capability::SysTime => "CAP_SYS_TIME"@,
            Capability::SysTTYConfig => "CAP_SYS_TTY_CONFIG"@,
            Capability::Mknod => "CAP_MKNOD"@,
            Capability::Lease => "CAP_LEASE"@,
            Capability::AuditWrite => "CAP_AUDIT_WRITE"@,
            Capability::AuditControl => "CAP_AUDIT_CONTROL"@,
            Capability::SetFileCap => "CAP_SETFCAP"@,
            Capability::MACOverride => "CAP_MAC_OVERRIDE"@,
            Capability::MACAdmin => "CAP_MAC_ADMIN"@,
            Capability::Syslog => "CAP_SYSLOG"@,
            Capability::WakeAlarm => "CAP_WAKE_ALARM"@,
            Capability::BlockSuspend => "CAP_BLOCK_SUSPEND"@,
            Capability::AuditRead => "CAP_AUDIT_READ"@,
            Capability::PerformanceMonitoring => "CAP_PERFMON"@,
            Capability::BPF => "CAP_BPF"@,
            Capability::CheckpointRestore => "CAP_CHECKPOINT_RESTORE"@,
            Capability::Unknown => Seq::<char>::empty(),
        }
    }

    pub fn name(self) -> (r: &'static str)
        requires
            !(self is Unknown),
        ensures
            r@ == self.spec_name(),
    {
        match self {
            Capability::Chown => "CAP_CHOWN",
            Capability::DacOverride => "CAP_DAC_OVERRIDE",
            Capability::DacReadSearch => "CAP_DAC_READ_SEARCH",
            Capability::FileOwner => "CAP_FOWNER",
            Capability::FileSetId => "CAP_FSETID",
            Capability::Kill => "CAP_KILL",
            Capability::SetGid => "CAP_SETGID",
            Capability::SetUid => "CAP_SETUID",
            Capability::SetProcCap => "CAP_SETPCAP",
            Capability::LinuxImmutable => "CAP_LINUX_IMMUTABLE",
            Capability::NetBindService => "CAP_NET_BIND_SERVICE",
            Capability::NetBroadcast => "CAP_NET_BROADCAST",
            Capability::NetAdmin => "CAP_NET_ADMIN",
            Capability::NetRaw => "CAP_NET_RAW",
            Capability::IPCLock => "CAP_IPC_LOCK",
            Capability::IPCOwner => "CAP_IPC_OWNER",
            Capability::SysModule => "CAP_SYS_MODULE",
            Capability::SysRawIO => "CAP_SYS_RAWIO",
            Capability::SysChroot => "CAP_SYS_CHROOT",
            Capability::SysPtrace => "CAP_SYS_PTRACE",
            Capability::SysPacct => "CAP_SYS_PACCT",
            Capability::SysAdmin => "CAP_SYS_ADMIN",
            Capability::SysBoot => "CAP_SYS_BOOT",
            Capability::SysNice => "CAP_SYS_NICE",
            Capability::SysResource => "CAP_SYS_RESOURCE",
            Capability::SysTime => "CAP_SYS_TIME",
            Capability::SysTTYConfig => "CAP_SYS_TTY_CONFIG",
            Capability::Mknod => "CAP_MKNOD",
            Capability::Lease => "CAP_LEASE",
            Capability::AuditWrite => "CAP_AUDIT_WRITE",
            Capability::AuditControl => "CAP_AUDIT_CONTROL",
            Capability::SetFileCap => "CAP_SETFCAP",
            Capability::MACOverride => "CAP_MAC_OVERRIDE",
            Capability::MACAdmin => "CAP_MAC_ADMIN",
            Capability::Syslog => "CAP_SYSLOG",
            Capability::WakeAlarm => "CAP_WAKE_ALARM",
            Capability::BlockSuspend => "CAP_BLOCK_SUSPEND",
            Capability::AuditRead => "CAP_AUDIT_READ",
            Capability::PerformanceMonitoring => "CAP_PERFMON",
            Capability::BPF => "CAP_BPF",
            Capability::CheckpointRestore => "CAP_CHECKPOINT_RESTORE",
            Capability::Unknown => {
                proof {
                    reveal_strlit("");
                }
                ""
            },
        }
    }
}

/// Parsing the canonical name of any known capability gives that capability
/// back; the `Unknown` sentinel has no name of its own.
pub proof fn lemma_capability_name_roundtrip(t: Capability)
    requires
        !(t is Unknown),
    ensures
        Capability::spec_parse(t.spec_name()) == t,
{
    reveal_strlit("CAP_CHOWN");
    reveal_strlit("CAP_DAC_OVERRIDE");
    reveal_strlit("CAP_DAC_READ_SEARCH");
    reveal_strlit("CAP_FOWNER");
    reveal_strlit("CAP_FSETID");
    reveal_strlit("CAP_KILL");
    reveal_strlit("CAP_SETGID");
    reveal_strlit("CAP_SETUID");
    reveal_strlit("CAP_SETPCAP");
    reveal_strlit("CAP_LINUX_IMMUTABLE");
    reveal_strlit("CAP_NET_BIND_SERVICE");
    reveal_strlit("CAP_NET_BROADCAST");
    reveal_strlit("CAP_NET_ADMIN");
    reveal_strlit("CAP_NET_RAW");
    reveal_strlit("CAP_IPC_LOCK");
    reveal_strlit("CAP_IPC_OWNER");
    reveal_strlit("CAP_SYS_MODULE");
    reveal_strlit("CAP_SYS_RAWIO");
    reveal_strlit("CAP_SYS_CHROOT");
    reveal_strlit("CAP_SYS_PTRACE");
    reveal_strlit("CAP_SYS_PACCT");
    reveal_strlit("CAP_SYS_ADMIN");
    reveal_strlit("CAP_SYS_BOOT");
    reveal_strlit("CAP_SYS_NICE");
    reveal_strlit("CAP_SYS_RESOURCE");
    reveal_strlit("CAP_SYS_TIME");
    reveal_strlit("CAP_SYS_TTY_CONFIG");
    reveal_strlit("CAP_MKNOD");
    reveal_strlit("CAP_LEASE");
    reveal_strlit("CAP_AUDIT_WRITE");
    reveal_strlit("CAP_AUDIT_CONTROL");
    reveal_strlit("CAP_SETFCAP");
    reveal_strlit("CAP_MAC_OVERRIDE");
    reveal_strlit("CAP_MAC_ADMIN");
    reveal_strlit("CAP_SYSLOG");
    reveal_strlit("CAP_WAKE_ALARM");
    reveal_strlit("CAP_BLOCK_SUSPEND");
    reveal_strlit("CAP_AUDIT_READ");
    reveal_strlit("CAP_PERFMON");
    reveal_strlit("CAP_BPF");
    reveal_strlit("CAP_CHECKPOINT_RESTORE");
    assert("CAP_CHOWN"@.len() == 9);
    assert("CAP_DAC_OVERRIDE"@.len() == 16);
    assert("CAP_DAC_READ_SEARCH"@.len() == 19);
    assert("CAP_FOWNER"@.len() == 10);
    assert("CAP_FSETID"@.len() == 10);
    assert("CAP_KILL"@.len() == 8);
    assert("CAP_SETGID"@.len() == 10);
    assert("CAP_SETUID"@.len() == 10);
    assert("CAP_SETPCAP"@.len() == 11);
    assert("CAP_LINUX_IMMUTABLE"@.len() == 19);
    assert("CAP_NET_BIND_SERVICE"@.len() == 20);
    assert("CAP_NET_BROADCAST"@.len() == 17);
    assert("CAP_NET_ADMIN"@.len() == 13);
    assert("CAP_NET_RAW"@.len() == 11);
    assert("CAP_IPC_LOCK"@.len() == 12);
    assert("CAP_IPC_OWNER"@.len() == 13);
    assert("CAP_SYS_MODULE"@.len() == 14);
    assert("CAP_SYS_RAWIO"@.len() == 13);
    assert("CAP_SYS_CHROOT"@.len() == 14);
    assert("CAP_SYS_PTRACE"@.len() == 14);
    assert("CAP_SYS_PACCT"@.len() == 13);
    assert("CAP_SYS_ADMIN"@.len() == 13);
    assert("CAP_SYS_BOOT"@.len() == 12);
    assert("CAP_SYS_NICE"@.len() == 12);
    assert("CAP_SYS_RESOURCE"@.len() == 16);
    assert("CAP_SYS_TIME"@.len() == 12);
    assert("CAP_SYS_TTY_CONFIG"@.len() == 18);
    assert("CAP_MKNOD"@.len() == 9);
    assert("CAP_LEASE"@.len() == 9);
    assert("CAP_AUDIT_WRITE"@.len() == 15);
    assert("CAP_AUDIT_CONTROL"@.len() == 17);
    assert("CAP_SETFCAP"@.len() == 11);
    assert("CAP_MAC_OVERRIDE"@.len() == 16);
    assert("CAP_MAC_ADMIN"@.len() == 13);
    assert("CAP_SYSLOG"@.len() == 10);
    assert("CAP_WAKE_ALARM"@.len() == 14);
    assert("CAP_BLOCK_SUSPEND"@.len() == 17);
    assert("CAP_AUDIT_READ"@.len() == 14);
    assert("CAP_PERFMON"@.len() == 11);
    assert("CAP_BPF"@.len() == 7);
    assert("CAP_CHECKPOINT_RESTORE"@.len() == 22);
    match t {
        Capability::Chown => {
            assert(Capability::spec_parse("CAP_CHOWN"@) == Capability::Chown);
        },
        Capability::DacOverride => {
            assert(Capability::spec_parse("CAP_DAC_OVERRIDE"@) == Capability::DacOverride);
        },
        Capability::DacReadSearch => {
            assert(Capability::spec_parse("CAP_DAC_READ_SEARCH"@) == Capability::DacReadSearch);
        },
        Capability::FileOwner => {
            assert(Capability::spec_parse("CAP_FOWNER"@) == Capability::FileOwner);
        },
        Capability::FileSetId => {
            assert("CAP_FSETID"@[5] != "CAP_FOWNER"@[5]);
            assert(Capability::spec_parse("CAP_FSETID"@) == Capability::FileSetId);
        },
        Capability::Kill => {
            assert(Capability::spec_parse("CAP_KILL"@) == Capability::Kill);
        },
        Capability::SetGid => {
            assert("CAP_SETGID"@[4] != "CAP_FOWNER"@[4]);
            assert("CAP_SETGID"@[4] != "CAP_FSETID"@[4]);
            assert(Capability::spec_parse("CAP_SETGID"@) == Capability::SetGid);
        },
        Capability::SetUid => {
            assert("CAP_SETUID"@[4] != "CAP_FOWNER"@[4]);
            assert("CAP_SETUID"@[4] != "CAP_FSETID"@[4]);
            assert("CAP_SETUID"@[7] != "CAP_SETGID"@[7]);
            assert(Capability::spec_parse("CAP_SETUID"@) == Capability::SetUid);
        },
        Capability::SetProcCap => {
            assert(Capability::spec_parse("CAP_SETPCAP"@) == Capability::SetProcCap);
        },
        Capability::LinuxImmutable => {
            assert("CAP_LINUX_IMMUTABLE"@[4] != "CAP_DAC_READ_SEARCH"@[4]);
            assert(Capability::spec_parse("CAP_LINUX_IMMUTABLE"@) == Capability::LinuxImmutable);
        },
        Capability::NetBindService => {
            assert(Capability::spec_parse("CAP_NET_BIND_SERVICE"@) == Capability::NetBindService);
        },
        Capability::NetBroadcast => {
            assert(Capability::spec_parse("CAP_NET_BROADCAST"@) == Capability::NetBroadcast);
        },
        Capability::NetAdmin => {
            assert(Capability::spec_parse("CAP_NET_ADMIN"@) == Capability::NetAdmin);
        },
        Capability::NetRaw => {
            assert("CAP_NET_RAW"@[4] != "CAP_SETPCAP"@[4]);
            assert(Capability::spec_parse("CAP_NET_RAW"@) == Capability::NetRaw);
        },
        Capability::IPCLock => {
            assert(Capability::spec_parse("CAP_IPC_LOCK"@) == Capability::IPCLock);
        },
        Capability::IPCOwner => {
            assert("CAP_IPC_OWNER"@[4] != "CAP_NET_ADMIN"@[4]);
            assert(Capability::spec_parse("CAP_IPC_OWNER"@) == Capability::IPCOwner);
        },
        Capability::SysModule => {
            assert(Capability::spec_parse("CAP_SYS_MODULE"@) == Capability::SysModule);
        },
        Capability::SysRawIO => {
            assert("CAP_SYS_RAWIO"@[4] != "CAP_NET_ADMIN"@[4]);
            assert("CAP_SYS_RAWIO"@[4] != "CAP_IPC_OWNER"@[4]);
            assert(Capability::spec_parse("CAP_SYS_RAWIO"@) == Capability::SysRawIO);
        },
        Capability::SysChroot => {
            assert("CAP_SYS_CHROOT"@[8] != "CAP_SYS_MODULE"@[8]);
            assert(Capability::spec_parse("CAP_SYS_CHROOT"@) == Capability::SysChroot);
        },
        Capability::SysPtrace => {
            assert("CAP_SYS_PTRACE"@[8] != "CAP_SYS_MODULE"@[8]);
            assert("CAP_SYS_PTRACE"@[8] != "CAP_SYS_CHROOT"@[8]);
            assert(Capability::spec_parse("CAP_SYS_PTRACE"@) == Capability::SysPtrace);
        },
        Capability::SysPacct => {
            assert("CAP_SYS_PACCT"@[4] != "CAP_NET_ADMIN"@[4]);
            assert("CAP_SYS_PACCT"@[4] != "CAP_IPC_OWNER"@[4]);
            assert("CAP_SYS_PACCT"@[8] != "CAP_SYS_RAWIO"@[8]);
            assert(Capability::spec_parse("CAP_SYS_PACCT"@) == Capability::SysPacct);
        },
        Capability::SysAdmin => {
            assert("CAP_SYS_ADMIN"@[4] != "CAP_NET_ADMIN"@[4]);
            assert("CAP_SYS_ADMIN"@[4] != "CAP_IPC_OWNER"@[4]);
            assert("CAP_SYS_ADMIN"@[8] != "CAP_SYS_RAWIO"@[8]);
            assert("CAP_SYS_ADMIN"@[8] != "CAP_SYS_PACCT"@[8]);
            assert(Capability::spec_parse("CAP_SYS_ADMIN"@) == Capability::SysAdmin);
        },
        Capability::SysBoot => {
            assert("CAP_SYS_BOOT"@[4] != "CAP_IPC_LOCK"@[4]);
            assert(Capability::spec_parse("CAP_SYS_BOOT"@) == Capability::SysBoot);
        },
        Capability::SysNice => {
            assert("CAP_SYS_NICE"@[4] != "CAP_IPC_LOCK"@[4]);
            assert("CAP_SYS_NICE"@[8] != "CAP_SYS_BOOT"@[8]);
            assert(Capability::spec_parse("CAP_SYS_NICE"@) == Capability::SysNice);
        },
        Capability::SysResource => {
            assert("CAP_SYS_RESOURCE"@[4] != "CAP_DAC_OVERRIDE"@[4]);
            assert(Capability::spec_parse("CAP_SYS_RESOURCE"@) == Capability::SysResource);
        },
        Capability::SysTime => {
            assert("CAP_SYS_TIME"@[4] != "CAP_IPC_LOCK"@[4]);
            assert("CAP_SYS_TIME"@[8] != "CAP_SYS_BOOT"@[8]);
            assert("CAP_SYS_TIME"@[8] != "CAP_SYS_NICE"@[8]);
            assert(Capability::spec_parse("CAP_SYS_TIME"@) == Capability::SysTime);
        },
        Capability::SysTTYConfig => {
            assert(Capability::spec_parse("CAP_SYS_TTY_CONFIG"@) == Capability::SysTTYConfig);
        },
        Capability::Mknod => {
            assert("CAP_MKNOD"@[4] != "CAP_CHOWN"@[4]);
            assert(Capability::spec_parse("CAP_MKNOD"@) == Capability::Mknod);
        },
        Capability::Lease => {
            assert("CAP_LEASE"@[4] != "CAP_CHOWN"@[4]);
            assert("CAP_LEASE"@[4] != "CAP_MKNOD"@[4]);
            assert(Capability::spec_parse("CAP_LEASE"@) == Capability::Lease);
        },
        Capability::AuditWrite => {
            assert(Capability::spec_parse("CAP_AUDIT_WRITE"@) == Capability::AuditWrite);
        },
        Capability::AuditControl => {
            assert("CAP_AUDIT_CONTROL"@[4] != "CAP_NET_BROADCAST"@[4]);
            assert(Capability::spec_parse("CAP_AUDIT_CONTROL"@) == Capability::AuditControl);
        },
        Capability::SetFileCap => {
            assert("CAP_SETFCAP"@[7] != "CAP_SETPCAP"@[7]);
            assert("CAP_SETFCAP"@[4] != "CAP_NET_RAW"@[4]);
            assert(Capability::spec_parse("CAP_SETFCAP"@) == Capability::SetFileCap);
        },
        Capability::MACOverride => {
            assert("CAP_MAC_OVERRIDE"@[4] != "CAP_DAC_OVERRIDE"@[4]);
            assert("CAP_MAC_OVERRIDE"@[4] != "CAP_SYS_RESOURCE"@[4]);
            assert(Capability::spec_parse("CAP_MAC_OVERRIDE"@) == Capability::MACOverride);
        },
        Capability::MACAdmin => {
            assert("CAP_MAC_ADMIN"@[4] != "CAP_NET_ADMIN"@[4]);
            assert("CAP_MAC_ADMIN"@[4] != "CAP_IPC_OWNER"@[4]);
            assert("CAP_MAC_ADMIN"@[4] != "CAP_SYS_RAWIO"@[4]);
            assert("CAP_MAC_ADMIN"@[4] != "CAP_SYS_PACCT"@[4]);
            assert("CAP_MAC_ADMIN"@[4] != "CAP_SYS_ADMIN"@[4]);
            assert(Capability::spec_parse("CAP_MAC_ADMIN"@) == Capability::MACAdmin);
        },
        Capability::Syslog => {
            assert("CAP_SYSLOG"@[4] != "CAP_FOWNER"@[4]);
            assert("CAP_SYSLOG"@[4] != "CAP_FSETID"@[4]);
            assert("CAP_SYSLOG"@[5] != "CAP_SETGID"@[5]);
            assert("CAP_SYSLOG"@[5] != "CAP_SETUID"@[5]);
            assert(Capability::spec_parse("CAP_SYSLOG"@) == Capability::Syslog);
        },
        Capability::WakeAlarm => {
            assert("CAP_WAKE_ALARM"@[4] != "CAP_SYS_MODULE"@[4]);
            assert("CAP_WAKE_ALARM"@[4] != "CAP_SYS_CHROOT"@[4]);
            assert("CAP_WAKE_ALARM"@[4] != "CAP_SYS_PTRACE"@[4]);
            assert(Capability::spec_parse("CAP_WAKE_ALARM"@) == Capability::WakeAlarm);
        },
        Capability::BlockSuspend => {
            assert("CAP_BLOCK_SUSPEND"@[4] != "CAP_NET_BROADCAST"@[4]);
            assert("CAP_BLOCK_SUSPEND"@[4] != "CAP_AUDIT_CONTROL"@[4]);
            assert(Capability::spec_parse("CAP_BLOCK_SUSPEND"@) == Capability::BlockSuspend);
        },
        Capability::AuditRead => {
            assert("CAP_AUDIT_READ"@[4] != "CAP_SYS_MODULE"@[4]);
            assert("CAP_AUDIT_READ"@[4] != "CAP_SYS_CHROOT"@[4]);
            assert("CAP_AUDIT_READ"@[4] != "CAP_SYS_PTRACE"@[4]);
            assert("CAP_AUDIT_READ"@[4] != "CAP_WAKE_ALARM"@[4]);
            assert(Capability::spec_parse("CAP_AUDIT_READ"@) == Capability::AuditRead);
        },
        Capability::PerformanceMonitoring => {
            assert("CAP_PERFMON"@[4] != "CAP_SETPCAP"@[4]);
            assert("CAP_PERFMON"@[4] != "CAP_NET_RAW"@[4]);
            assert("CAP_PERFMON"@[4] != "CAP_SETFCAP"@[4]);
            assert(Capability::spec_parse("CAP_PERFMON"@) == Capability::PerformanceMonitoring);
        },
        Capability::BPF => {
            assert(Capability::spec_parse("CAP_BPF"@) == Capability::BPF);
        },
        Capability::CheckpointRestore => {
            assert(Capability::spec_parse("CAP_CHECKPOINT_RESTORE"@) == Capability::CheckpointRestore);
        },
        Capability::Unknown => {
        },
    }
}

/// Parses a whole list of capability names in order; a name outside the
/// vocabulary becomes the `Unknown` sentinel rather than an error.
pub fn parse_capability_list(names: &Vec<String>) -> (r: Vec<Capability>)
    ensures
        r@.len() == names@.len(),
        forall|i: int| 0 <= i < names@.len() ==> r@[i] == Capability::spec_parse(names@[i]@),
{
    let mut out: Vec<Capability> = Vec::new();
    let mut i: usize = 0;
    while i < names.len()
        invariant
            i <= names@.len(),
            out@.len() == i,
            forall|j: int| 0 <= j < i ==> out@[j] == Capability::spec_parse(names@[j]@),
        decreases names@.len() - i,
    {
        out.push(Capability::from_str(names[i].as_str()));
        i += 1;
    }
    out
}

/// The capability sets a process declares, each a list of named capabilities.
/// A list left out of the configuration defaults to empty.
#[derive(Clone, Debug)]
pub struct Capabilities {
    pub bounding: Vec<Capability>,
    pub effective: Vec<Capability>,
    pub inheritable: Vec<Capability>,
    pub permitted: Vec<Capability>,
    pub ambient: Vec<Capability>,
}

} // verus!
