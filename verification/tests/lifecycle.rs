//! Lifecycle state machine behavior: id uniqueness, legal transitions,
//! record removal, and state export.

use conty::Container;
use conty::ContainerRuntime;
use conty::ContainerStatus;
use conty::OsError;
use conty::Pid;
use conty::Runtime;
use conty::RuntimeError;
use conty::SyscallError;

fn spawn_ok(pid: i32) -> Result<Pid, SyscallError> {
    Ok(Pid::from_raw(pid))
}

fn create_simple(rt: &mut ContainerRuntime, id: &str, pid: i32) -> Result<(), RuntimeError> {
    rt.create(
        String::from(id),
        String::from("/bundles/demo"),
        String::from("1.0.2"),
        Vec::new(),
        spawn_ok(pid),
    )
}

#[test]
fn create_then_duplicate_fails() {
    let mut rt = ContainerRuntime::new();
    assert_eq!(create_simple(&mut rt, "box1", 100), Ok(()));
    let second = create_simple(&mut rt, "box1", 101);
    assert_eq!(second, Err(RuntimeError::DuplicateId));
    // exactly one record remains, the one from the first create
    let st = rt.state(&String::from("box1")).unwrap();
    assert_eq!(st.pid, 100);
    assert!(matches!(st.status, ContainerStatus::Created));
}

#[test]
fn start_created_transitions_to_running() {
    let mut rt = ContainerRuntime::new();
    create_simple(&mut rt, "box1", 100).unwrap();
    assert_eq!(rt.start(&String::from("box1")), Ok(()));
    let st = rt.state(&String::from("box1")).unwrap();
    assert!(matches!(st.status, ContainerStatus::Running));
}

#[test]
fn start_running_fails_and_state_unchanged() {
    let mut rt = ContainerRuntime::new();
    create_simple(&mut rt, "box1", 100).unwrap();
    rt.start(&String::from("box1")).unwrap();
    let again = rt.start(&String::from("box1"));
    assert_eq!(again, Err(RuntimeError::InvalidTransition));
    let st = rt.state(&String::from("box1")).unwrap();
    assert!(matches!(st.status, ContainerStatus::Running));
    assert_eq!(st.pid, 100);
}

#[test]
fn start_unknown_fails_not_found() {
    let mut rt = ContainerRuntime::new();
    assert_eq!(rt.start(&String::from("ghost")), Err(RuntimeError::NotFound));
}

#[test]
fn delete_created_fails() {
    let mut rt = ContainerRuntime::new();
    create_simple(&mut rt, "box1", 100).unwrap();
    assert_eq!(
        rt.delete(&String::from("box1")),
        Err(RuntimeError::InvalidTransition)
    );
    assert!(rt.state(&String::from("box1")).is_ok());
}

#[test]
fn delete_running_fails() {
    let mut rt = ContainerRuntime::new();
    create_simple(&mut rt, "box1", 100).unwrap();
    rt.start(&String::from("box1")).unwrap();
    assert_eq!(
        rt.delete(&String::from("box1")),
        Err(RuntimeError::InvalidTransition)
    );
}

#[test]
fn delete_stopped_removes_record() {
    let mut rt = ContainerRuntime::new();
    create_simple(&mut rt, "box1", 100).unwrap();
    rt.start(&String::from("box1")).unwrap();
    rt.observe_exit(&String::from("box1")).unwrap();
    assert_eq!(rt.delete(&String::from("box1")), Ok(()));
    assert!(matches!(
        rt.state(&String::from("box1")),
        Err(RuntimeError::NotFound)
    ));
}

#[test]
fn failed_spawn_leaves_no_record() {
    let mut rt = ContainerRuntime::new();
    let spawn: Result<Pid, SyscallError> = Err(SyscallError::SpawnFailure(OsError { code: 12 }));
    let r = rt.create(
        String::from("box1"),
        String::from("/bundles/demo"),
        String::from("1.0.2"),
        Vec::new(),
        spawn,
    );
    assert_eq!(
        r,
        Err(RuntimeError::CreateFailed(SyscallError::SpawnFailure(
            OsError { code: 12 }
        )))
    );
    assert!(matches!(
        rt.state(&String::from("box1")),
        Err(RuntimeError::NotFound)
    ));
}

#[test]
fn kill_valid_only_from_created_or_running() {
    let mut rt = ContainerRuntime::new();
    create_simple(&mut rt, "box1", 321).unwrap();
    // kill on Created hands back the pid to signal
    assert_eq!(rt.kill(&String::from("box1"), 15), Ok(Pid::from_raw(321)));
    rt.start(&String::from("box1")).unwrap();
    assert_eq!(rt.kill(&String::from("box1"), 15), Ok(Pid::from_raw(321)));
    rt.observe_exit(&String::from("box1")).unwrap();
    assert_eq!(
        rt.kill(&String::from("box1"), 15),
        Err(RuntimeError::InvalidTransition)
    );
    assert_eq!(
        rt.kill(&String::from("nope"), 15),
        Err(RuntimeError::NotFound)
    );
}

#[test]
fn kill_does_not_change_state() {
    let mut rt = ContainerRuntime::new();
    create_simple(&mut rt, "box1", 100).unwrap();
    rt.kill(&String::from("box1"), 9).unwrap();
    let st = rt.state(&String::from("box1")).unwrap();
    assert!(matches!(st.status, ContainerStatus::Created));
}

#[test]
fn observe_exit_from_created() {
    let mut rt = ContainerRuntime::new();
    create_simple(&mut rt, "box1", 100).unwrap();
    assert_eq!(rt.observe_exit(&String::from("box1")), Ok(()));
    let st = rt.state(&String::from("box1")).unwrap();
    assert!(matches!(st.status, ContainerStatus::Stopped));
    // a second exit observation is refused
    assert_eq!(
        rt.observe_exit(&String::from("box1")),
        Err(RuntimeError::InvalidTransition)
    );
}

#[test]
fn state_exports_all_fields() {
    let mut rt = ContainerRuntime::new();
    let annotations = vec![
        (String::from("team"), String::from("infra")),
        (String::from("tier"), String::from("prod")),
    ];
    rt.create(
        String::from("exported"),
        String::from("/var/lib/bundles/exported"),
        String::from("1.0.2"),
        annotations,
        spawn_ok(777),
    )
    .unwrap();
    let st = rt.state(&String::from("exported")).unwrap();
    assert_eq!(st.id, "exported");
    assert_eq!(st.bundle, "/var/lib/bundles/exported");
    assert_eq!(st.oci_version, "1.0.2");
    assert_eq!(st.pid, 777);
    assert!(matches!(st.status, ContainerStatus::Created));
    assert_eq!(st.annotations.len(), 2);
    assert_eq!(st.annotations[0], (String::from("team"), String::from("infra")));
    assert_eq!(st.annotations[1], (String::from("tier"), String::from("prod")));
}

#[test]
fn independent_ids_do_not_interfere() {
    let mut rt = ContainerRuntime::new();
    create_simple(&mut rt, "a", 1).unwrap();
    create_simple(&mut rt, "b", 2).unwrap();
    rt.start(&String::from("a")).unwrap();
    let sa = rt.state(&String::from("a")).unwrap();
    let sb = rt.state(&String::from("b")).unwrap();
    assert!(matches!(sa.status, ContainerStatus::Running));
    assert!(matches!(sb.status, ContainerStatus::Created));
    rt.observe_exit(&String::from("a")).unwrap();
    rt.delete(&String::from("a")).unwrap();
    assert!(rt.state(&String::from("b")).is_ok());
}

#[test]
fn container_record_fields() {
    // the record type itself is public for state-machine consumers
    let c = Container {
        id: String::from("x"),
        status: ContainerStatus::Created,
        pid: Pid::from_raw(5),
        bundle: String::from("/b"),
        oci_version: String::from("1.0.2"),
        annotations: Vec::new(),
    };
    assert_eq!(c.pid.as_raw_pid(), 5);
}
