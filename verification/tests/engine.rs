//! The isolation engine's computations: flag unions against the real kernel
//! constants, join plans, signal flags, and stack alignment.

use conty::clone_flags;
use conty::join_requests;
use conty::namespace_flags;
use conty::stack_top;
use conty::str_eq;
use conty::Namespace;
use conty::NamespaceType;

fn fresh(kind: NamespaceType) -> Namespace {
    Namespace {
        typ: kind,
        path: None,
    }
}

fn joining(kind: NamespaceType, path: &str) -> Namespace {
    Namespace {
        typ: kind,
        path: Some(String::from(path)),
    }
}

#[test]
fn flags_match_kernel_constants() {
    assert_eq!(NamespaceType::Pid.flag(), libc::CLONE_NEWPID);
    assert_eq!(NamespaceType::Network.flag(), libc::CLONE_NEWNET);
    assert_eq!(NamespaceType::Mount.flag(), libc::CLONE_NEWNS);
    assert_eq!(NamespaceType::IPC.flag(), libc::CLONE_NEWIPC);
    assert_eq!(NamespaceType::UTS.flag(), libc::CLONE_NEWUTS);
    assert_eq!(NamespaceType::Cgroup.flag(), libc::CLONE_NEWCGROUP);
    assert_eq!(NamespaceType::User.flag(), libc::CLONE_NEWUSER);
}

#[test]
fn three_kinds_union() {
    // mount, pid and uts requested fresh: exactly those three bits
    let req = vec![
        fresh(NamespaceType::Mount),
        fresh(NamespaceType::Pid),
        fresh(NamespaceType::UTS),
    ];
    let flags = namespace_flags(&req);
    assert_eq!(flags, libc::CLONE_NEWNS | libc::CLONE_NEWPID | libc::CLONE_NEWUTS);
    // a kind that was not requested contributes no bit
    assert_eq!(flags & libc::CLONE_NEWNET, 0);
    assert_eq!(flags & libc::CLONE_NEWUSER, 0);
}

#[test]
fn empty_request_asks_no_isolation() {
    let req: Vec<Namespace> = Vec::new();
    assert_eq!(namespace_flags(&req), 0);
}

#[test]
fn join_entries_contribute_no_flag() {
    let req = vec![
        joining(NamespaceType::Network, "/proc/4242/ns/net"),
        fresh(NamespaceType::Pid),
    ];
    assert_eq!(namespace_flags(&req), libc::CLONE_NEWPID);
}

#[test]
fn only_join_entries_yield_zero_flags() {
    let req = vec![
        joining(NamespaceType::Network, "/proc/1/ns/net"),
        joining(NamespaceType::Mount, "/proc/1/ns/mnt"),
    ];
    assert_eq!(namespace_flags(&req), 0);
}

#[test]
fn join_plan_keeps_order() {
    let req = vec![
        joining(NamespaceType::Network, "/proc/1/ns/net"),
        fresh(NamespaceType::Pid),
        joining(NamespaceType::Mount, "/proc/1/ns/mnt"),
    ];
    let joins = join_requests(&req);
    assert_eq!(joins.len(), 2);
    assert!(matches!(joins[0].typ, NamespaceType::Network));
    assert_eq!(joins[0].path.as_deref(), Some("/proc/1/ns/net"));
    assert!(matches!(joins[1].typ, NamespaceType::Mount));
    assert_eq!(joins[1].path.as_deref(), Some("/proc/1/ns/mnt"));
}

#[test]
fn signal_folded_into_clone_flags() {
    let flags = libc::CLONE_NEWPID | libc::CLONE_NEWUTS;
    assert_eq!(
        clone_flags(flags, Some(libc::SIGCHLD)),
        flags | libc::SIGCHLD
    );
    assert_eq!(clone_flags(flags, None), flags);
}

#[test]
fn stack_top_is_aligned() {
    // a 4 MiB stack at an aligned base keeps its top
    let four_mib: usize = 4 * 1024 * 1024;
    assert_eq!(stack_top(0, four_mib), four_mib);
    // an unaligned top is rounded down to the 16-byte boundary below it
    let top = stack_top(3, 101);
    assert_eq!(top % 16, 0);
    assert!(top <= 104);
    assert!(104 - top < 16);
    assert_eq!(top, 96);
}

#[test]
fn str_eq_exact() {
    assert!(str_eq("mount", "mount"));
    assert!(!str_eq("mount", "Mount"));
    assert!(!str_eq("mount", "mounts"));
    assert!(str_eq("", ""));
}
