//! Command construction: C-style string validation, nul-byte rejection,
//! error latching, and OS error translation.

use conty::check_namespaces_unique;
use conty::check_rlimit_types_unique;
use conty::command_str;
use conty::errno;
use conty::ResourceLimit;
use conty::ResourceLimitType;
use conty::Command;
use conty::CommandError;
use conty::Namespace;
use conty::NamespaceType;
use conty::OsError;
use conty::Pid;

#[test]
fn command_str_appends_terminator() {
    let b = command_str("ls").unwrap();
    assert_eq!(b, vec![b'l', b's', 0]);
}

#[test]
fn command_str_rejects_interior_nul() {
    let r = command_str("a\0b");
    assert_eq!(r, Err(CommandError::NulByte(1)));
    let r2 = command_str("\0");
    assert_eq!(r2, Err(CommandError::NulByte(0)));
}

#[test]
fn command_gathers_args_and_env() {
    let mut cmd = Command::new(String::from("/bin/echo"));
    cmd.arg("hello");
    cmd.arg("world");
    cmd.env("PATH=/usr/bin");
    let (path, args, env) = cmd.spawn_args().unwrap();
    assert_eq!(path, b"/bin/echo\0".to_vec());
    assert_eq!(args.len(), 2);
    assert_eq!(args[0], b"hello\0".to_vec());
    assert_eq!(args[1], b"world\0".to_vec());
    assert_eq!(env.len(), 1);
    assert_eq!(env[0], b"PATH=/usr/bin\0".to_vec());
}

#[test]
fn command_arg_lists() {
    let mut cmd = Command::new(String::from("/bin/true"));
    cmd.args(&vec![String::from("a"), String::from("b")]);
    cmd.envs(&vec![String::from("X=1")]);
    let (_, args, env) = cmd.spawn_args().unwrap();
    assert_eq!(args.len(), 2);
    assert_eq!(env.len(), 1);
}

#[test]
fn command_latches_first_nul_error() {
    let mut cmd = Command::new(String::from("/bin/true"));
    cmd.arg("fine");
    cmd.arg("bad\0arg");
    cmd.arg("also-fine");
    let r = cmd.spawn_args();
    assert_eq!(r.err(), Some(CommandError::NulByte(3)));
}

#[test]
fn command_rejects_nul_in_path() {
    let cmd = Command::new(String::from("/bin\0/true"));
    let r = cmd.spawn_args();
    assert_eq!(r.err(), Some(CommandError::NulByte(4)));
}

#[test]
fn errno_translates_sentinel() {
    assert_eq!(errno(-1i32, 13), Err(OsError { code: 13 }));
    assert_eq!(errno(7i32, 13), Ok(7));
    assert_eq!(errno(0i64, 2), Ok(0));
    assert_eq!(errno(-1isize, 2), Err(OsError { code: 2 }));
}

#[test]
fn pid_wraps_raw_value() {
    let p = Pid::from_raw(1234);
    assert_eq!(p.as_raw_pid(), 1234);
    let q = Pid::from(1234);
    assert_eq!(p, q);
}

#[test]
fn duplicate_namespace_kinds_detected() {
    let unique = vec![
        Namespace { typ: NamespaceType::Pid, path: None },
        Namespace { typ: NamespaceType::Mount, path: None },
    ];
    assert!(check_namespaces_unique(&unique));
    let duplicated = vec![
        Namespace { typ: NamespaceType::Pid, path: None },
        Namespace {
            typ: NamespaceType::Pid,
            path: Some(String::from("/proc/1/ns/pid")),
        },
    ];
    assert!(!check_namespaces_unique(&duplicated));
}

#[test]
fn duplicate_rlimit_kinds_detected() {
    let unique = vec![
        ResourceLimit { typ: ResourceLimitType::NOFiles, soft: 1024, hard: 4096 },
        ResourceLimit { typ: ResourceLimitType::CPU, soft: 10, hard: 20 },
    ];
    assert!(check_rlimit_types_unique(&unique));
    let duplicated = vec![
        ResourceLimit { typ: ResourceLimitType::NOFiles, soft: 1024, hard: 4096 },
        ResourceLimit { typ: ResourceLimitType::NOFiles, soft: 512, hard: 512 },
    ];
    assert!(!check_rlimit_types_unique(&duplicated));
}
