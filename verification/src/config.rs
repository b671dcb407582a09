//! The top of the configuration model: one validated, in-memory description
//! of a container's declared isolation, resources, and security settings.
//! Every optional collection field defaults to empty rather than absent.

use vstd::prelude::*;

use crate::device::Device;
use crate::device::IdMapping;
use crate::device::Mount;
use crate::device::RootFs;
use crate::hook::Hooks;
use crate::namespace::Namespace;
use crate::process::Process;
use crate::resource::Resources;
use crate::seccomp::Seccomp;

verus! {

/// An execution-domain personality override.
#[derive(Clone, Debug)]
pub struct Personality {
    pub domain: String,
    pub flags: Vec<String>,
}

/// The platform-specific half of the configuration.
#[derive(Clone, Debug)]
pub struct Linux {
    pub uid_mappings: Vec<IdMapping>,
    pub gid_mappings: Vec<IdMapping>,
    pub sysctl: Vec<(String, String)>,
    pub resources: Option<Resources>,
    pub cgroups_path: Option<String>,
    pub namespaces: Vec<Namespace>,
    pub devices: Vec<Device>,
    pub seccomp: Option<Seccomp>,
    pub rootfs_propagation: Option<String>,
    pub masked_paths: Vec<String>,
    pub readonly_paths: Vec<String>,
    pub mount_label: Option<String>,
    pub personality: Option<Personality>,
}

/// The whole configuration document, validated and defaulted.
#[derive(Clone, Debug)]
pub struct Config {
    pub oci_version: String,
    pub process: Option<Process>,
    pub root: Option<RootFs>,
    pub hostname: Option<String>,
    pub mounts: Vec<Mount>,
    pub hooks: Option<Hooks>,
    pub annotations: Vec<(String, String)>,
    pub linux: Option<Linux>,
}

/// The invariant of an isolation request: no namespace kind is requested
/// twice.
pub open spec fn namespaces_unique(s: Seq<Namespace>) -> bool {
    forall|i: int, j: int| 0 <= i < j < s.len() ==> s[i].typ != s[j].typ
}

/// Decides whether a namespace list requests each kind at most once.
pub fn check_namespaces_unique(v: &Vec<Namespace>) -> (r: bool)
    ensures
        r == namespaces_unique(v@),
{
    let n = v.len();
    let mut i: usize = 0;
    while i < n
        invariant
            n == v@.len(),
            i <= n,
            forall|p: int, q: int| 0 <= p < q < v@.len() && p < i ==> v@[p].typ != v@[q].typ,
        decreases n - i,
    {
        let mut j: usize = i + 1;
        while j < n
            invariant
                n == v@.len(),
                i < j <= n,
                forall|q: int| i < q < j ==> v@[i as int].typ != v@[q].typ,
            decreases n - j,
        {
            if v[i].typ == v[j].typ {
                return false;
            }
            j += 1;
        }
        i += 1;
    }
    true
}

impl Config {
    /// Well-formedness of a validated configuration: the namespace list, if
    /// present, requests each kind at most once.
    pub open spec fn wf(self) -> bool {
        match self.linux {
            Some(l) => namespaces_unique(l.namespaces@),
            None => true,
        }
    }

    /// Decides well-formedness.
    pub fn validate(&self) -> (r: bool)
        ensures
            r == self.wf(),
    {
        match &self.linux {
            Some(l) => check_namespaces_unique(&l.namespaces),
            None => true,
        }
    }
}

} // verus!
