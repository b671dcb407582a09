//! The lifecycle state machine: one record per container id, with
//! `create`/`start`/`kill`/`delete`/`state` operations enforcing the legal
//! transitions `Creating -> Created -> Running -> Stopped`. The table of
//! records is modelled as a map from container id to record, and every
//! operation's contract is an exact transition on that map.

use vstd::prelude::*;

use crate::error::RuntimeError;
use crate::error::SyscallError;
use crate::status::ContainerState;
use crate::status::ContainerStatus;
use crate::sys::Pid;

verus! {

/// One tracked container: the caller-chosen id, the current status, the
/// process id of its init process, the bundle path, and the configuration's
/// version string and annotations, kept for state export.
#[derive(Clone, Debug)]
pub struct Container {
    pub id: String,
    pub status: ContainerStatus,
    pub pid: Pid,
    pub bundle: String,
    pub oci_version: String,
    pub annotations: Vec<(String, String)>,
}

/// The map a record list denotes: each record keyed by its id. A later
/// record with the same id would win, but a well-formed runtime never holds
/// two records with one id.
pub open spec fn table_of(s: Seq<Container>) -> Map<Seq<char>, Container>
    decreases s.len(),
{
    if s.len() == 0 {
        Map::empty()
    } else {
        table_of(s.drop_last()).insert(s.last().id@, s.last())
    }
}

/// No two records share an id.
pub open spec fn ids_unique(s: Seq<Container>) -> bool {
    forall|i: int, j: int| 0 <= i < j < s.len() ==> s[i].id@ != s[j].id@
}

proof fn lemma_table_contains(s: Seq<Container>, k: Seq<char>)
    ensures
        table_of(s).contains_key(k) <==> (exists|i: int| 0 <= i < s.len() && s[i].id@ == k),
    decreases s.len(),
{
    if s.len() > 0 {
        let prefix = s.drop_last();
        lemma_table_contains(prefix, k);
        if k == s.last().id@ {
            assert(s[s.len() - 1].id@ == k);
        } else {
            if table_of(s).contains_key(k) {
                let i = choose|i: int| 0 <= i < prefix.len() && prefix[i].id@ == k;
                assert(s[i].id@ == k);
            }
            if exists|i: int| 0 <= i < s.len() && s[i].id@ == k {
                let i = choose|i: int| 0 <= i < s.len() && s[i].id@ == k;
                assert(i < s.len() - 1);
                assert(prefix[i].id@ == k);
            }
        }
    }
}

proof fn lemma_table_index(s: Seq<Container>, i: int)
    requires
        ids_unique(s),
        0 <= i < s.len(),
    ensures
        table_of(s).contains_key(s[i].id@),
        table_of(s)[s[i].id@] == s[i],
    decreases s.len(),
{
    let prefix = s.drop_last();
    if i == s.len() - 1 {
        assert(s[i] == s.last());
    } else {
        assert(s[i].id@ != s.last().id@);
        assert(prefix[i] == s[i]);
        lemma_table_index(prefix, i);
    }
}

proof fn lemma_table_update(s: Seq<Container>, i: int, c: Container)
    requires
        ids_unique(s),
        0 <= i < s.len(),
        c.id@ == s[i].id@,
    ensures
        table_of(s.update(i, c)) == table_of(s).insert(c.id@, c),
        ids_unique(s.update(i, c)),
    decreases s.len(),
{
    let s2 = s.update(i, c);
    let prefix = s.drop_last();
    assert(forall|p: int, q: int| 0 <= p < q < s2.len() ==> s2[p].id@ != s2[q].id@);
    if i == s.len() - 1 {
        assert(s2.drop_last() =~= prefix);
        assert(s2.last() == c);
        assert(table_of(s2) == table_of(prefix).insert(c.id@, c));
        assert(table_of(s).insert(c.id@, c) =~= table_of(prefix).insert(c.id@, c));
    } else {
        assert(s2.drop_last() =~= prefix.update(i, c));
        assert(s2.last() == s.last());
        assert(prefix[i] == s[i]);
        lemma_table_update(prefix, i, c);
        assert(table_of(s2) == table_of(prefix).insert(c.id@, c).insert(s.last().id@, s.last()));
        assert(c.id@ != s.last().id@);
        assert(table_of(prefix).insert(c.id@, c).insert(s.last().id@, s.last()) =~= table_of(
            prefix,
        ).insert(s.last().id@, s.last()).insert(c.id@, c));
    }
}

proof fn lemma_table_remove(s: Seq<Container>, i: int)
    requires
        ids_unique(s),
        0 <= i < s.len(),
    ensures
        table_of(s.remove(i)) == table_of(s).remove(s[i].id@),
        ids_unique(s.remove(i)),
    decreases s.len(),
{
    let s2 = s.remove(i);
    let prefix = s.drop_last();
    let k = s[i].id@;
    assert(forall|p: int, q: int| 0 <= p < q < s2.len() ==> s2[p].id@ != s2[q].id@);
    if i == s.len() - 1 {
        assert(s2 =~= prefix);
        lemma_table_contains(prefix, k);
        assert(forall|j: int| 0 <= j < prefix.len() ==> prefix[j].id@ != k);
        assert(!table_of(prefix).contains_key(k));
        assert(table_of(prefix).insert(k, s.last()).remove(k) =~= table_of(prefix));
    } else {
        assert(s2.drop_last() =~= prefix.remove(i));
        assert(s2.last() == s.last());
        assert(prefix[i] == s[i]);
        lemma_table_remove(prefix, i);
        assert(table_of(s2) == table_of(prefix).remove(k).insert(s.last().id@, s.last()));
        assert(k != s.last().id@);
        assert(table_of(prefix).remove(k).insert(s.last().id@, s.last()) =~= table_of(
            prefix,
        ).insert(s.last().id@, s.last()).remove(k));
    }
}

/// What `create` does to the table: a duplicate id is refused outright, a
/// failed spawn surfaces as `CreateFailed` with no record, and a successful
/// spawn records the container as `Created` with the spawned process id.
pub open spec fn spec_create(
    m: Map<Seq<char>, Container>,
    id: String,
    bundle: String,
    oci_version: String,
    annotations: Vec<(String, String)>,
    spawn: Result<Pid, SyscallError>,
) -> (Map<Seq<char>, Container>, Result<(), RuntimeError>) {
    if m.contains_key(id@) {
        (m, Err(RuntimeError::DuplicateId))
    } else {
        match spawn {
            Err(e) => (m, Err(RuntimeError::CreateFailed(e))),
            Ok(pid) => (
                m.insert(
                    id@,
                    Container {
                        id,
                        status: ContainerStatus::Created,
                        pid,
                        bundle,
                        oci_version,
                        annotations,
                    },
                ),
                Ok(()),
            ),
        }
    }
}

/// What `start` does to the table: only a `Created` container transitions
/// to `Running`; everything else is refused and left unchanged.
pub open spec fn spec_start(m: Map<Seq<char>, Container>, id: Seq<char>) -> (
    Map<Seq<char>, Container>,
    Result<(), RuntimeError>,
) {
    if !m.contains_key(id) {
        (m, Err(RuntimeError::NotFound))
    } else if m[id].status is Created {
        let c = m[id];
        (
            m.insert(
                id,
                Container {
                    id: c.id,
                    status: ContainerStatus::Running,
                    pid: c.pid,
                    bundle: c.bundle,
                    oci_version: c.oci_version,
                    annotations: c.annotations,
                },
            ),
            Ok(()),
        )
    } else {
        (m, Err(RuntimeError::InvalidTransition))
    }
}

/// What `kill` decides: a signal may be delivered only to a `Created` or
/// `Running` container, and delivery never changes the table itself; the
/// container's process id is handed back for the caller to signal.
pub open spec fn spec_kill(m: Map<Seq<char>, Container>, id: Seq<char>) -> Result<
    Pid,
    RuntimeError,
> {
    if !m.contains_key(id) {
        Err(RuntimeError::NotFound)
    } else if m[id].status is Created || m[id].status is Running {
        Ok(m[id].pid)
    } else {
        Err(RuntimeError::InvalidTransition)
    }
}

/// What observing the container process's exit does to the table: a
/// `Created` or `Running` container becomes `Stopped`; everything else is
/// refused and left unchanged.
pub open spec fn spec_observe_exit(m: Map<Seq<char>, Container>, id: Seq<char>) -> (
    Map<Seq<char>, Container>,
    Result<(), RuntimeError>,
) {
    if !m.contains_key(id) {
        (m, Err(RuntimeError::NotFound))
    } else if m[id].status is Created || m[id].status is Running {
        let c = m[id];
        (
            m.insert(
                id,
                Container {
                    id: c.id,
                    status: ContainerStatus::Stopped,
                    pid: c.pid,
                    bundle: c.bundle,
                    oci_version: c.oci_version,
                    annotations: c.annotations,
                },
            ),
            Ok(()),
        )
    } else {
        (m, Err(RuntimeError::InvalidTransition))
    }
}

/// What `delete` does to the table: only a `Stopped` container's record is
/// removed; everything else is refused and left unchanged.
pub open spec fn spec_delete(m: Map<Seq<char>, Container>, id: Seq<char>) -> (
    Map<Seq<char>, Container>,
    Result<(), RuntimeError>,
) {
    if !m.contains_key(id) {
        (m, Err(RuntimeError::NotFound))
    } else if m[id].status is Stopped {
        (m.remove(id), Ok(()))
    } else {
        (m, Err(RuntimeError::InvalidTransition))
    }
}

/// What `state` returns: the record for the id, or `NotFound`.
pub open spec fn spec_state(m: Map<Seq<char>, Container>, id: Seq<char>) -> Result<
    Container,
    RuntimeError,
> {
    if m.contains_key(id) {
        Ok(m[id])
    } else {
        Err(RuntimeError::NotFound)
    }
}

/// The exported state mirrors a record exactly, field for field.
pub open spec fn state_matches(st: ContainerState, c: Container) -> bool {
    &&& st.oci_version@ == c.oci_version@
    &&& st.id@ == c.id@
    &&& st.status == c.status
    &&& st.pid == c.pid.spec_raw()
    &&& st.bundle@ == c.bundle@
    &&& st.annotations@ == c.annotations@
}

/// The lifecycle interface of a container runtime. Every operation's effect
/// is pinned to the corresponding transition on the runtime's table.
pub trait Runtime: Sized {
    /// The table of tracked containers, keyed by id.
    spec fn table(&self) -> Map<Seq<char>, Container>;

    /// The runtime's internal invariant.
    spec fn wf(&self) -> bool;

    /// Queries the state of a container.
    fn state(&self, container_id: &String) -> (r: Result<ContainerState, RuntimeError>)
        requires
            self.wf(),
        ensures
            match r {
                Ok(st) => spec_state(self.table(), container_id@) matches Ok(c) && state_matches(
                    st,
                    c,
                ),
                Err(e) => spec_state(self.table(), container_id@) == Result::<
                    Container,
                    RuntimeError,
                >::Err(e),
            },
    ;

    /// Records a freshly created container. The caller has parsed the bundle
    /// and asked the isolation engine to spawn the init process; the outcome
    /// of that spawn is handed in, and a failed spawn leaves no record.
    fn create(
        &mut self,
        container_id: String,
        bundle: String,
        oci_version: String,
        annotations: Vec<(String, String)>,
        spawn: Result<Pid, SyscallError>,
    ) -> (r: Result<(), RuntimeError>)
        requires
            old(self).wf(),
        ensures
            final(self).wf(),
            (final(self).table(), r) == spec_create(
                old(self).table(),
                container_id,
                bundle,
                oci_version,
                annotations,
                spawn,
            ),
    ;

    /// Starts a created container: the previously prepared process begins
    /// executing the configured program.
    fn start(&mut self, container_id: &String) -> (r: Result<(), RuntimeError>)
        requires
            old(self).wf(),
        ensures
            final(self).wf(),
            (final(self).table(), r) == spec_start(old(self).table(), container_id@),
    ;

    /// Validates that a signal may be sent to the container and hands back
    /// the process id to deliver it to. The table never changes here: a
    /// state change is observed only through the process's own exit.
    fn kill(&self, container_id: &String, signal: i32) -> (r: Result<Pid, RuntimeError>)
        requires
            self.wf(),
        ensures
            r == spec_kill(self.table(), container_id@),
    ;

    /// Deletes a stopped container's record.
    fn delete(&mut self, container_id: &String) -> (r: Result<(), RuntimeError>)
        requires
            old(self).wf(),
        ensures
            final(self).wf(),
            (final(self).table(), r) == spec_delete(old(self).table(), container_id@),
    ;
}

/// The concrete runtime: a list of records with pairwise-distinct ids.
#[derive(Debug)]
pub struct ContainerRuntime {
    containers: Vec<Container>,
}

impl ContainerRuntime {
    /// Constructs a runtime tracking no containers.
    pub fn new() -> (r: ContainerRuntime)
        ensures
            r.table() == Map::<Seq<char>, Container>::empty(),
            r.wf(),
    {
        ContainerRuntime { containers: Vec::new() }
    }

    /// Finds the position of the record with the given id.
    fn find(&self, id: &String) -> (r: Option<usize>)
        ensures
            match r {
                Some(i) => i < self.containers@.len() && self.containers@[i as int].id@ == id@,
                None => forall|j: int|
                    0 <= j < self.containers@.len() ==> self.containers@[j].id@ != id@,
            },
    {
        let n = self.containers.len();
        let mut i: usize = 0;
        while i < n
            invariant
                n == self.containers@.len(),
                i <= n,
                forall|j: int| 0 <= j < i ==> self.containers@[j].id@ != id@,
            decreases n - i,
        {
            if self.containers[i].id == *id {
                return Some(i);
            }
            i += 1;
        }
        None
    }

    /// Marks a created or running container as stopped, after its process
    /// has been observed to have exited. This is the only way a container
    /// reaches `Stopped`; `kill` itself never changes the table.
    pub fn observe_exit(&mut self, container_id: &String) -> (r: Result<(), RuntimeError>)
        requires
            old(self).wf(),
        ensures
            final(self).wf(),
            (final(self).table(), r) == spec_observe_exit(old(self).table(), container_id@),
    {
        proof {
            lemma_table_contains(self.containers@, container_id@);
        }
        match self.find(container_id) {
            None => Err(RuntimeError::NotFound),
            Some(i) => {
                proof {
                    lemma_table_index(self.containers@, i as int);
                }
                let created = matches!(self.containers[i].status, ContainerStatus::Created);
                let running = matches!(self.containers[i].status, ContainerStatus::Running);
                if created || running {
                    let ghost s = self.containers@;
                    let c = self.containers.remove(i);
                    let updated = Container {
                        id: c.id,
                        status: ContainerStatus::Stopped,
                        pid: c.pid,
                        bundle: c.bundle,
                        oci_version: c.oci_version,
                        annotations: c.annotations,
                    };
                    self.containers.insert(i, updated);
                    proof {
                        assert(self.containers@ =~= s.update(i as int, updated));
                        lemma_table_update(s, i as int, updated);
                    }
                    Ok(())
                } else {
                    Err(RuntimeError::InvalidTransition)
                }
            },
        }
    }
}

impl Runtime for ContainerRuntime {
    closed spec fn table(&self) -> Map<Seq<char>, Container> {
        table_of(self.containers@)
    }

    closed spec fn wf(&self) -> bool {
        ids_unique(self.containers@)
    }

    fn state(&self, container_id: &String) -> (r: Result<ContainerState, RuntimeError>) {
        proof {
            lemma_table_contains(self.containers@, container_id@);
        }
        match self.find(container_id) {
            None => Err(RuntimeError::NotFound),
            Some(i) => {
                proof {
                    lemma_table_index(self.containers@, i as int);
                }
                let c = &self.containers[i];
                Ok(
                    ContainerState {
                        oci_version: c.oci_version.clone(),
                        id: c.id.clone(),
                        status: c.status,
                        pid: c.pid.as_raw_pid(),
                        bundle: c.bundle.clone(),
                        annotations: clone_annotations(&c.annotations),
                    },
                )
            },
        }
    }

    fn create(
        &mut self,
        container_id: String,
        bundle: String,
        oci_version: String,
        annotations: Vec<(String, String)>,
        spawn: Result<Pid, SyscallError>,
    ) -> (r: Result<(), RuntimeError>) {
        proof {
            lemma_table_contains(self.containers@, container_id@);
        }
        match self.find(&container_id) {
            Some(_) => Err(RuntimeError::DuplicateId),
            None => {
                match spawn {
                    Err(e) => Err(RuntimeError::CreateFailed(e)),
                    Ok(pid) => {
                        let ghost s = self.containers@;
                        let rec = Container {
                            id: container_id,
                            status: ContainerStatus::Created,
                            pid,
                            bundle,
                            oci_version,
                            annotations,
                        };
                        self.containers.push(rec);
                        proof {
                            assert(self.containers@.drop_last() =~= s);
                            assert(self.containers@.last() == rec);
                            assert(forall|j: int| 0 <= j < s.len() ==> s[j] == self.containers@[j]);
                        }
                        Ok(())
                    },
                }
            },
        }
    }

    fn start(&mut self, container_id: &String) -> (r: Result<(), RuntimeError>) {
        proof {
            lemma_table_contains(self.containers@, container_id@);
        }
        match self.find(container_id) {
            None => Err(RuntimeError::NotFound),
            Some(i) => {
                proof {
                    lemma_table_index(self.containers@, i as int);
                }
                if matches!(self.containers[i].status, ContainerStatus::Created) {
                    let ghost s = self.containers@;
                    let c = self.containers.remove(i);
                    let updated = Container {
                        id: c.id,
                        status: ContainerStatus::Running,
                        pid: c.pid,
                        bundle: c.bundle,
                        oci_version: c.oci_version,
                        annotations: c.annotations,
                    };
                    self.containers.insert(i, updated);
                    proof {
                        assert(self.containers@ =~= s.update(i as int, updated));
                        lemma_table_update(s, i as int, updated);
                    }
                    Ok(())
                } else {
                    Err(RuntimeError::InvalidTransition)
                }
            },
        }
    }

    fn kill(&self, container_id: &String, signal: i32) -> (r: Result<Pid, RuntimeError>) {
        proof {
            lemma_table_contains(self.containers@, container_id@);
        }
        match self.find(container_id) {
            None => Err(RuntimeError::NotFound),
            Some(i) => {
                proof {
                    lemma_table_index(self.containers@, i as int);
                }
                let created = matches!(self.containers[i].status, ContainerStatus::Created);
                let running = matches!(self.containers[i].status, ContainerStatus::Running);
                if created || running {
                    Ok(self.containers[i].pid)
                } else {
                    Err(RuntimeError::InvalidTransition)
                }
            },
        }
    }

    fn delete(&mut self, container_id: &String) -> (r: Result<(), RuntimeError>) {
        proof {
            lemma_table_contains(self.containers@, container_id@);
        }
        match self.find(container_id) {
            None => Err(RuntimeError::NotFound),
            Some(i) => {
                proof {
                    lemma_table_index(self.containers@, i as int);
                }
                if matches!(self.containers[i].status, ContainerStatus::Stopped) {
                    let ghost s = self.containers@;
                    self.containers.remove(i);
                    proof {
                        lemma_table_remove(s, i as int);
                    }
                    Ok(())
                } else {
                    Err(RuntimeError::InvalidTransition)
                }
            },
        }
    }
}

/// Creating a container and then creating again under the same id fails
/// with `DuplicateId` and leaves the table exactly as the first create left
/// it: the original table plus the one new record.
pub proof fn lemma_create_duplicate_id(
    m: Map<Seq<char>, Container>,
    id: String,
    bundle: String,
    oci_version: String,
    annotations: Vec<(String, String)>,
    spawn: Result<Pid, SyscallError>,
    id2: String,
    bundle2: String,
    oci_version2: String,
    annotations2: Vec<(String, String)>,
    spawn2: Result<Pid, SyscallError>,
)
    requires
        spec_create(m, id, bundle, oci_version, annotations, spawn).1 is Ok,
        id2@ == id@,
    ensures
        ({
            let m1 = spec_create(m, id, bundle, oci_version, annotations, spawn).0;
            let (m2, r2) = spec_create(m1, id2, bundle2, oci_version2, annotations2, spawn2);
            &&& r2 == Result::<(), RuntimeError>::Err(RuntimeError::DuplicateId)
            &&& m2 == m1
            &&& !m.contains_key(id@)
            &&& m1 == m.insert(
                id@,
                Container {
                    id,
                    status: ContainerStatus::Created,
                    pid: spawn.unwrap(),
                    bundle,
                    oci_version,
                    annotations,
                },
            )
        }),
{
}

/// Starting a `Created` container succeeds and moves exactly that record to
/// `Running`, changing nothing else of it and no other record.
pub proof fn lemma_start_created_runs(m: Map<Seq<char>, Container>, id: Seq<char>)
    requires
        m.contains_key(id),
        m[id].status is Created,
    ensures
        ({
            let (m1, r) = spec_start(m, id);
            &&& r is Ok
            &&& m1.dom() == m.dom()
            &&& m1[id].status is Running
            &&& m1[id].id == m[id].id
            &&& m1[id].pid == m[id].pid
            &&& m1[id].bundle == m[id].bundle
            &&& m1[id].oci_version == m[id].oci_version
            &&& m1[id].annotations == m[id].annotations
            &&& forall|k: Seq<char>| m.contains_key(k) && k != id ==> m1[k] == m[k]
        }),
{
    let (m1, r) = spec_start(m, id);
    assert(m1.dom() =~= m.dom());
}

/// Starting a container that is already `Running` fails with
/// `InvalidTransition` and leaves the table unchanged.
pub proof fn lemma_start_running_refused(m: Map<Seq<char>, Container>, id: Seq<char>)
    requires
        m.contains_key(id),
        m[id].status is Running,
    ensures
        spec_start(m, id) == (m, Result::<(), RuntimeError>::Err(RuntimeError::InvalidTransition)),
{
}

/// Deleting a container in any state other than `Stopped` fails with
/// `InvalidTransition` and leaves the table unchanged.
pub proof fn lemma_delete_not_stopped_refused(m: Map<Seq<char>, Container>, id: Seq<char>)
    requires
        m.contains_key(id),
        !(m[id].status is Stopped),
    ensures
        spec_delete(m, id) == (m, Result::<(), RuntimeError>::Err(RuntimeError::InvalidTransition)),
{
}

/// Deleting a `Stopped` container removes its record: a subsequent state
/// query for that id fails with `NotFound`, and every other record is kept.
pub proof fn lemma_delete_stopped_removes(m: Map<Seq<char>, Container>, id: Seq<char>)
    requires
        m.contains_key(id),
        m[id].status is Stopped,
    ensures
        ({
            let (m1, r) = spec_delete(m, id);
            &&& r is Ok
            &&& !m1.contains_key(id)
            &&& spec_state(m1, id) == Result::<Container, RuntimeError>::Err(RuntimeError::NotFound)
            &&& forall|k: Seq<char>| m.contains_key(k) && k != id ==> m1.contains_key(k) && m1[k]
                == m[k]
        }),
{
}

/// Copies an annotation list, value for value.
fn clone_annotations(v: &Vec<(String, String)>) -> (r: Vec<(String, String)>)
    ensures
        r@ == v@,
{
    let mut out: Vec<(String, String)> = Vec::new();
    let mut i: usize = 0;
    while i < v.len()
        invariant
            i <= v@.len(),
            out@ == v@.subrange(0, i as int),
        decreases v@.len() - i,
    {
        let pair = &v[i];
        out.push((pair.0.clone(), pair.1.clone()));
        proof {
            assert(out@ =~= v@.subrange(0, i + 1));
        }
        i += 1;
    }
    proof {
        assert(out@ =~= v@);
    }
    out
}

} // verus!
