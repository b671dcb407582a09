//! Kernel namespace kinds: the closed vocabulary of isolation requests, the
//! kernel flag each kind maps to, and the per-entry "create new" versus
//! "join existing at a path" distinction.

use vstd::prelude::*;

use crate::error::ConfigField;
use crate::error::OCIError;
use crate::strutil::str_eq;

verus! {

/// A kind of kernel namespace a container process can be placed into.
#[derive(Clone, Copy, Debug, PartialEq, Eq, Structural)]
pub enum NamespaceType {
    Pid,
    Network,
    Mount,
    IPC,
    UTS,
    Cgroup,
    User,
}

impl NamespaceType {
    /// The kernel flag that requests a fresh namespace of this kind from the
    /// process-creation primitive. Each kind owns a distinct single bit.
    pub open spec fn spec_flag(self) -> i32 {
        match self {
            NamespaceType::Pid => 0x20000000,
            NamespaceType::Network => 0x40000000,
            NamespaceType::Mount => 0x20000,
            NamespaceType::IPC => 0x08000000,
            NamespaceType::UTS => 0x04000000,
            NamespaceType::Cgroup => 0x02000000,
            NamespaceType::User => 0x10000000,
        }
    }

    pub fn flag(self) -> (r: i32)
        ensures
            r == self.spec_flag(),
    {
        match self {
            NamespaceType::Pid => 0x20000000,
            NamespaceType::Network => 0x40000000,
            NamespaceType::Mount => 0x20000,
            NamespaceType::IPC => 0x08000000,
            NamespaceType::UTS => 0x04000000,
            NamespaceType::Cgroup => 0x02000000,
            NamespaceType::User => 0x10000000,
        }
    }

    /// What parsing a namespace-kind string yields: a kind for the closed
    /// vocabulary, a distinct error for the recognised-but-unsupported
    /// `"time"` kind, and `InvalidValue` for anything else. Matching is
    /// exact and case-sensitive.
    pub open spec fn spec_parse(s: Seq<char>) -> Result<NamespaceType, OCIError> {
        if s == "pid"@ {
            Ok(NamespaceType::Pid)
        } else if s == "net"@ || s == "network"@ {
            Ok(NamespaceType::Network)
        } else if s == "mount"@ {
            Ok(NamespaceType::Mount)
        } else if s == "ipc"@ {
            Ok(NamespaceType::IPC)
        } else if s == "uts"@ {
            Ok(NamespaceType::UTS)
        } else if s == "cgroup"@ {
            Ok(NamespaceType::Cgroup)
        } else if s == "user"@ {
            Ok(NamespaceType::User)
        } else if s == "time"@ {
            Err(OCIError::UnsupportedValue(ConfigField::NamespaceKind))
        } else {
            Err(OCIError::InvalidValue(ConfigField::NamespaceKind))
        }
    }

    pub fn from_str(s: &str) -> (r: Result<NamespaceType, OCIError>)
        ensures
            r == Self::spec_parse(s@),
    {
        if str_eq(s, "pid") {
            Ok(NamespaceType::Pid)
        } else if str_eq(s, "net") || str_eq(s, "network") {
            Ok(NamespaceType::Network)
        } else if str_eq(s, "mount") {
            Ok(NamespaceType::Mount)
        } else if str_eq(s, "ipc") {
            Ok(NamespaceType::IPC)
        } else if str_eq(s, "uts") {
            Ok(NamespaceType::UTS)
        } else if str_eq(s, "cgroup") {
            Ok(NamespaceType::Cgroup)
        } else if str_eq(s, "user") {
            Ok(NamespaceType::User)
        } else if str_eq(s, "time") {
            Err(OCIError::UnsupportedValue(ConfigField::NamespaceKind))
        } else {
            Err(OCIError::InvalidValue(ConfigField::NamespaceKind))
        }
    }

    /// The canonical vocabulary string for this kind.
    pub open spec fn spec_name(self) -> Seq<char> {
        match self {
            NamespaceType::Pid => "pid"@,
            NamespaceType::Network => "network"@,
            NamespaceType::Mount => "mount"@,
            NamespaceType::IPC => "ipc"@,
            NamespaceType::UTS => "uts"@,
            NamespaceType::Cgroup => "cgroup"@,
            NamespaceType::User => "user"@,
        }
    }

    pub fn name(self) -> (r: &'static str)
        ensures
            r@ == self.spec_name(),
    {
        match self {
            NamespaceType::Pid => "pid",
            NamespaceType::Network => "network",
            NamespaceType::Mount => "mount",
            NamespaceType::IPC => "ipc",
            NamespaceType::UTS => "uts",
            NamespaceType::Cgroup => "cgroup",
            NamespaceType::User => "user",
        }
    }
}

/// Parsing the canonical name of any namespace kind gives that kind back:
/// the fixed vocabulary round-trips exactly.
pub proof fn lemma_namespace_name_roundtrip(t: NamespaceType)
    ensures
        NamespaceType::spec_parse(t.spec_name()) == Result::<NamespaceType, OCIError>::Ok(t),
{
    reveal_strlit("pid");
    reveal_strlit("net");
    reveal_strlit("network");
    reveal_strlit("mount");
    reveal_strlit("ipc");
    reveal_strlit("uts");
    reveal_strlit("cgroup");
    reveal_strlit("user");
    reveal_strlit("time");
    assert("pid"@.len() == 3);
    assert("net"@.len() == 3);
    assert("network"@.len() == 7);
    assert("mount"@.len() == 5);
    assert("ipc"@.len() == 3);
    assert("uts"@.len() == 3);
    assert("cgroup"@.len() == 6);
    assert("user"@.len() == 4);
    match t {
        NamespaceType::Pid => {
            assert(NamespaceType::spec_parse("pid"@) == Result::<NamespaceType, OCIError>::Ok(t));
        },
        NamespaceType::Network => {
            assert(NamespaceType::spec_parse("network"@) == Result::<NamespaceType, OCIError>::Ok(
                t,
            ));
        },
        NamespaceType::Mount => {
            assert(NamespaceType::spec_parse("mount"@) == Result::<NamespaceType, OCIError>::Ok(t));
        },
        NamespaceType::IPC => {
            assert("ipc"@[0] != "pid"@[0]);
            assert("ipc"@[0] != "net"@[0]);
            assert(NamespaceType::spec_parse("ipc"@) == Result::<NamespaceType, OCIError>::Ok(t));
        },
        NamespaceType::UTS => {
            assert("uts"@[0] != "pid"@[0]);
            assert("uts"@[0] != "net"@[0]);
            assert("uts"@[0] != "ipc"@[0]);
            assert(NamespaceType::spec_parse("uts"@) == Result::<NamespaceType, OCIError>::Ok(t));
        },
        NamespaceType::Cgroup => {
            assert(NamespaceType::spec_parse("cgroup"@) == Result::<NamespaceType, OCIError>::Ok(
                t,
            ));
        },
        NamespaceType::User => {
            assert("user"@[0] != "time"@[0]);
            assert(NamespaceType::spec_parse("user"@) == Result::<NamespaceType, OCIError>::Ok(t));
        },
    }
}

/// One namespace request: a kind, created fresh when `path` is absent and
/// joined at the given filesystem path when it is present.
#[derive(Clone, Debug)]
pub struct Namespace {
    pub typ: NamespaceType,
    pub path: Option<String>,
}

impl Namespace {
    /// A request with no path asks for a fresh namespace of its kind.
    pub open spec fn is_create_new(self) -> bool {
        self.path is None
    }
}

/// Parses a whole namespace list: each entry is a kind string and an
/// optional join path. The first entry whose kind string fails to parse
/// decides the error; otherwise every entry becomes a request, in order.
pub fn parse_namespace_list(entries: &Vec<(String, Option<String>)>) -> (r: Result<
    Vec<Namespace>,
    OCIError,
>)
    ensures
        match r {
            Ok(v) => {
                &&& forall|i: int|
                    0 <= i < entries@.len() ==> (#[trigger] NamespaceType::spec_parse(
                        entries@[i].0@,
                    )) is Ok
                &&& v@.len() == entries@.len()
                &&& forall|i: int|
                    0 <= i < entries@.len() ==> (#[trigger] v@[i]).typ
                        == NamespaceType::spec_parse(entries@[i].0@).unwrap() && v@[i].path
                        == entries@[i].1
            },
            Err(e) => exists|k: int|
                {
                    &&& 0 <= k < entries@.len()
                    &&& #[trigger] NamespaceType::spec_parse(entries@[k].0@) == Result::<
                        NamespaceType,
                        OCIError,
                    >::Err(e)
                    &&& forall|j: int|
                        0 <= j < k ==> (#[trigger] NamespaceType::spec_parse(entries@[j].0@)) is Ok
                },
        },
{
    let mut out: Vec<Namespace> = Vec::new();
    let mut i: usize = 0;
    while i < entries.len()
        invariant
            i <= entries@.len(),
            out@.len() == i,
            forall|j: int|
                0 <= j < i ==> (#[trigger] NamespaceType::spec_parse(entries@[j].0@)) is Ok,
            forall|j: int|
                0 <= j < i ==> (#[trigger] out@[j]).typ == NamespaceType::spec_parse(
                    entries@[j].0@,
                ).unwrap() && out@[j].path == entries@[j].1,
        decreases entries@.len() - i,
    {
        let entry = &entries[i];
        let typ = match NamespaceType::from_str(entry.0.as_str()) {
            Ok(t) => t,
            Err(e) => {
                return Err(e);
            },
        };
        let path = match &entry.1 {
            Some(p) => Some(p.clone()),
            None => None,
        };
        out.push(Namespace { typ, path });
        i += 1;
    }
    Ok(out)
}

} // verus!
