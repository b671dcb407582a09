//! Kernel resource limits: the closed vocabulary of limit kinds, the raw
//! value the kernel identifies each kind by, and the (kind, soft, hard)
//! triple a process declares.

use vstd::prelude::*;

use crate::error::ConfigField;
use crate::error::OCIError;
use crate::strutil::str_eq;

verus! {

/// A kind of kernel resource limit.
#[derive(Clone, Copy, Debug, PartialEq, Eq, Structural)]
pub enum ResourceLimitType {
    CPU,
    FileSize,
    Data,
    Stack,
    Core,
    RSS,
    NProc,
    NOFiles,
    MemLock,
    AddressSpace,
    Locks,
    SigPending,
    MsgQueue,
    Nice,
    RealtimePrio,
    Realtime,
}

impl ResourceLimitType {
    /// The raw resource identifier the kernel's limit interface uses for
    /// this kind.
    pub open spec fn spec_raw(self) -> u32 {
        match self {
            ResourceLimitType::CPU => 0,
            ResourceLimitType::FileSize => 1,
            ResourceLimitType::Data => 2,
            ResourceLimitType::Stack => 3,
            ResourceLimitType::Core => 4,
            ResourceLimitType::RSS => 5,
            ResourceLimitType::NProc => 6,
            ResourceLimitType::NOFiles => 7,
            ResourceLimitType::MemLock => 8,
            ResourceLimitType::AddressSpace => 9,
            ResourceLimitType::Locks => 10,
            ResourceLimitType::SigPending => 11,
            ResourceLimitType::MsgQueue => 12,
            ResourceLimitType::Nice => 13,
            ResourceLimitType::RealtimePrio => 14,
            ResourceLimitType::Realtime => 15,
        }
    }

    pub fn raw(self) -> (r: u32)
        ensures
            r == self.spec_raw(),
    {
        match self {
            ResourceLimitType::CPU => 0,
            ResourceLimitType::FileSize => 1,
            ResourceLimitType::Data => 2,
            ResourceLimitType::Stack => 3,
            ResourceLimitType::Core => 4,
            ResourceLimitType::RSS => 5,
            ResourceLimitType::NProc => 6,
            ResourceLimitType::NOFiles => 7,
            ResourceLimitType::MemLock => 8,
            ResourceLimitType::AddressSpace => 9,
            ResourceLimitType::Locks => 10,
            ResourceLimitType::SigPending => 11,
            ResourceLimitType::MsgQueue => 12,
            ResourceLimitType::Nice => 13,
            ResourceLimitType::RealtimePrio => 14,
            ResourceLimitType::Realtime => 15,
        }
    }

    pub open spec fn spec_parse(s: Seq<char>) -> Result<ResourceLimitType, OCIError> {
        if s == "RLIMIT_CPU"@ {
            Ok(ResourceLimitType::CPU)
        } else if s == "RLIMIT_FSIZE"@ {
            Ok(ResourceLimitType::FileSize)
        } else if s == "RLIMIT_DATA"@ {
            Ok(ResourceLimitType::Data)
        } else if s == "RLIMIT_STACK"@ {
            Ok(ResourceLimitType::Stack)
        } else if s == "RLIMIT_CORE"@ {
            Ok(ResourceLimitType::Core)
        } else if s == "RLIMIT_RSS"@ {
            Ok(ResourceLimitType::RSS)
        } else if s == "RLIMIT_NPROC"@ {
            Ok(ResourceLimitType::NProc)
        } else if s == "RLIMIT_NOFILE"@ {
            Ok(ResourceLimitType::NOFiles)
        } else if s == "RLIMIT_MEMLOCK"@ {
            Ok(ResourceLimitType::MemLock)
        } else if s == "RLIMIT_AS"@ {
            Ok(ResourceLimitType::AddressSpace)
        } else if s == "RLIMIT_LOCKS"@ {
            Ok(ResourceLimitType::Locks)
        } else if s == "RLIMIT_SIGPENDING"@ {
            Ok(ResourceLimitType::SigPending)
        } else if s == "RLIMIT_MSGQUEUE"@ {
            Ok(ResourceLimitType::MsgQueue)
        } else if s == "RLIMIT_NICE"@ {
            Ok(ResourceLimitType::Nice)
        } else if s == "RLIMIT_RTPRIO"@ {
            Ok(ResourceLimitType::RealtimePrio)
        } else if s == "RLIMIT_RTTIME"@ {
            Ok(ResourceLimitType::Realtime)
        } else {
            Err(OCIError::InvalidValue(ConfigField::ResourceLimitKind))
        }
    }

    pub fn from_str(s: &str) -> (r: Result<ResourceLimitType, OCIError>)
        ensures
            r == Self::spec_parse(s@),
    {
        if str_eq(s, "RLIMIT_CPU") {
            Ok(ResourceLimitType::CPU)
        } else if str_eq(s, "RLIMIT_FSIZE") {
            Ok(ResourceLimitType::FileSize)
        } else if str_eq(s, "RLIMIT_DATA") {
            Ok(ResourceLimitType::Data)
        } else if str_eq(s, "RLIMIT_STACK") {
            Ok(ResourceLimitType::Stack)
        } else if str_eq(s, "RLIMIT_CORE") {
            Ok(ResourceLimitType::Core)
        } else if str_eq(s, "RLIMIT_RSS") {
            Ok(ResourceLimitType::RSS)
        } else if str_eq(s, "RLIMIT_NPROC") {
            Ok(ResourceLimitType::NProc)
        } else if str_eq(s, "RLIMIT_NOFILE") {
            Ok(ResourceLimitType::NOFiles)
        } else if str_eq(s, "RLIMIT_MEMLOCK") {
            Ok(ResourceLimitType::MemLock)
        } else if str_eq(s, "RLIMIT_AS") {
            Ok(ResourceLimitType::AddressSpace)
        } else if str_eq(s, "RLIMIT_LOCKS") {
            Ok(ResourceLimitType::Locks)
        } else if str_eq(s, "RLIMIT_SIGPENDING") {
            Ok(ResourceLimitType::SigPending)
        } else if str_eq(s, "RLIMIT_MSGQUEUE") {
            Ok(ResourceLimitType::MsgQueue)
        } else if str_eq(s, "RLIMIT_NICE") {
            Ok(ResourceLimitType::Nice)
        } else if str_eq(s, "RLIMIT_RTPRIO") {
            Ok(ResourceLimitType::RealtimePrio)
        } else if str_eq(s, "RLIMIT_RTTIME") {
            Ok(ResourceLimitType::Realtime)
        } else {
            Err(OCIError::InvalidValue(ConfigField::ResourceLimitKind))
        }
    }

    pub open spec fn spec_name(self) -> Seq<char> {
        match self {
            ResourceLimitType::CPU => "RLIMIT_CPU"@,
            ResourceLimitType::FileSize => "RLIMIT_FSIZE"@,
            ResourceLimitType::Data => "RLIMIT_DATA"@,
            ResourceLimitType::Stack => "RLIMIT_STACK"@,
            ResourceLimitType::Core => "RLIMIT_CORE"@,
            ResourceLimitType::RSS => "RLIMIT_RSS"@,
            ResourceLimitType::NProc => "RLIMIT_NPROC"@,
            ResourceLimitType::NOFiles => "RLIMIT_NOFILE"@,
            ResourceLimitType::MemLock => "RLIMIT_MEMLOCK"@,
            ResourceLimitType::AddressSpace => "RLIMIT_AS"@,
            ResourceLimitType::Locks => "RLIMIT_LOCKS"@,
            ResourceLimitType::SigPending => "RLIMIT_SIGPENDING"@,
            ResourceLimitType::MsgQueue => "RLIMIT_MSGQUEUE"@,
            ResourceLimitType::Nice => "RLIMIT_NICE"@,
            ResourceLimitType::RealtimePrio => "RLIMIT_RTPRIO"@,
            ResourceLimitType::Realtime => "RLIMIT_RTTIME"@,
        }
    }

    pub fn name(self) -> (r: &'static str)
        ensures
            r@ == self.spec_name(),
    {
        match self {
            ResourceLimitType::CPU => "RLIMIT_CPU",
            ResourceLimitType::FileSize => "RLIMIT_FSIZE",
            ResourceLimitType::Data => "RLIMIT_DATA",
            ResourceLimitType::Stack => "RLIMIT_STACK",
            ResourceLimitType::Core => "RLIMIT_CORE",
            ResourceLimitType::RSS => "RLIMIT_RSS",
            ResourceLimitType::NProc => "RLIMIT_NPROC",
            ResourceLimitType::NOFiles => "RLIMIT_NOFILE",
            ResourceLimitType::MemLock => "RLIMIT_MEMLOCK",
            ResourceLimitType::AddressSpace => "RLIMIT_AS",
            ResourceLimitType::Locks => "RLIMIT_LOCKS",
            ResourceLimitType::SigPending => "RLIMIT_SIGPENDING",
            ResourceLimitType::MsgQueue => "RLIMIT_MSGQUEUE",
            ResourceLimitType::Nice => "RLIMIT_NICE",
            ResourceLimitType::RealtimePrio => "RLIMIT_RTPRIO",
            ResourceLimitType::Realtime => "RLIMIT_RTTIME",
        }
    }
}

/// Parsing the canonical name of any limit kind gives that kind back.
pub proof fn lemma_resource_limit_name_roundtrip(t: ResourceLimitType)
    ensures
        ResourceLimitType::spec_parse(t.spec_name()) == Result::<ResourceLimitType, OCIError>::Ok(t),
{
    reveal_strlit("RLIMIT_CPU");
    reveal_strlit("RLIMIT_FSIZE");
    reveal_strlit("RLIMIT_DATA");
    reveal_strlit("RLIMIT_STACK");
    reveal_strlit("RLIMIT_CORE");
    reveal_strlit("RLIMIT_RSS");
    reveal_strlit("RLIMIT_NPROC");
    reveal_strlit("RLIMIT_NOFILE");
    reveal_strlit("RLIMIT_MEMLOCK");
    reveal_strlit("RLIMIT_AS");
    reveal_strlit("RLIMIT_LOCKS");
    reveal_strlit("RLIMIT_SIGPENDING");
    reveal_strlit("RLIMIT_MSGQUEUE");
    reveal_strlit("RLIMIT_NICE");
    reveal_strlit("RLIMIT_RTPRIO");
    reveal_strlit("RLIMIT_RTTIME");
    assert("RLIMIT_CPU"@.len() == 10);
    assert("RLIMIT_FSIZE"@.len() == 12);
    assert("RLIMIT_DATA"@.len() == 11);
    assert("RLIMIT_STACK"@.len() == 12);
    assert("RLIMIT_CORE"@.len() == 11);
    assert("RLIMIT_RSS"@.len() == 10);
    assert("RLIMIT_NPROC"@.len() == 12);
    assert("RLIMIT_NOFILE"@.len() == 13);
    assert("RLIMIT_MEMLOCK"@.len() == 14);
    assert("RLIMIT_AS"@.len() == 9);
    assert("RLIMIT_LOCKS"@.len() == 12);
    assert("RLIMIT_SIGPENDING"@.len() == 17);
    assert("RLIMIT_MSGQUEUE"@.len() == 15);
    assert("RLIMIT_NICE"@.len() == 11);
    assert("RLIMIT_RTPRIO"@.len() == 13);
    assert("RLIMIT_RTTIME"@.len() == 13);
    match t {
        ResourceLimitType::CPU => {
            assert(ResourceLimitType::spec_parse("RLIMIT_CPU"@) == Result::<ResourceLimitType, OCIError>::Ok(ResourceLimitType::CPU));
        },
        ResourceLimitType::FileSize => {
            assert(ResourceLimitType::spec_parse("RLIMIT_FSIZE"@) == Result::<ResourceLimitType, OCIError>::Ok(ResourceLimitType::FileSize));
        },
        ResourceLimitType::Data => {
            assert(ResourceLimitType::spec_parse("RLIMIT_DATA"@) == Result::<ResourceLimitType, OCIError>::Ok(ResourceLimitType::Data));
        },
        ResourceLimitType::Stack => {
            assert("RLIMIT_STACK"@[7] != "RLIMIT_FSIZE"@[7]);
            assert(ResourceLimitType::spec_parse("RLIMIT_STACK"@) == Result::<ResourceLimitType, OCIError>::Ok(ResourceLimitType::Stack));
        },
        ResourceLimitType::Core => {
            assert("RLIMIT_CORE"@[7] != "RLIMIT_DATA"@[7]);
            assert(ResourceLimitType::spec_parse("RLIMIT_CORE"@) == Result::<ResourceLimitType, OCIError>::Ok(ResourceLimitType::Core));
        },
        ResourceLimitType::RSS => {
            assert("RLIMIT_RSS"@[7] != "RLIMIT_CPU"@[7]);
            assert(ResourceLimitType::spec_parse("RLIMIT_RSS"@) == Result::<ResourceLimitType, OCIError>::Ok(ResourceLimitType::RSS));
        },
        ResourceLimitType::NProc => {
            assert("RLIMIT_NPROC"@[7] != "RLIMIT_FSIZE"@[7]);
            assert("RLIMIT_NPROC"@[7] != "RLIMIT_STACK"@[7]);
            assert(ResourceLimitType::spec_parse("RLIMIT_NPROC"@) == Result::<ResourceLimitType, OCIError>::Ok(ResourceLimitType::NProc));
        },
        ResourceLimitType::NOFiles => {
            assert(ResourceLimitType::spec_parse("RLIMIT_NOFILE"@) == Result::<ResourceLimitType, OCIError>::Ok(ResourceLimitType::NOFiles));
        },
        ResourceLimitType::MemLock => {
            assert(ResourceLimitType::spec_parse("RLIMIT_MEMLOCK"@) == Result::<ResourceLimitType, OCIError>::Ok(ResourceLimitType::MemLock));
        },
        ResourceLimitType::AddressSpace => {
            assert(ResourceLimitType::spec_parse("RLIMIT_AS"@) == Result::<ResourceLimitType, OCIError>::Ok(ResourceLimitType::AddressSpace));
        },
        ResourceLimitType::Locks => {
            assert("RLIMIT_LOCKS"@[7] != "RLIMIT_FSIZE"@[7]);
            assert("RLIMIT_LOCKS"@[7] != "RLIMIT_STACK"@[7]);
            assert("RLIMIT_LOCKS"@[7] != "RLIMIT_NPROC"@[7]);
            assert(ResourceLimitType::spec_parse("RLIMIT_LOCKS"@) == Result::<ResourceLimitType, OCIError>::Ok(ResourceLimitType::Locks));
        },
        ResourceLimitType::SigPending => {
            assert(ResourceLimitType::spec_parse("RLIMIT_SIGPENDING"@) == Result::<ResourceLimitType, OCIError>::Ok(ResourceLimitType::SigPending));
        },
        ResourceLimitType::MsgQueue => {
            assert(ResourceLimitType::spec_parse("RLIMIT_MSGQUEUE"@) == Result::<ResourceLimitType, OCIError>::Ok(ResourceLimitType::MsgQueue));
        },
        ResourceLimitType::Nice => {
            assert("RLIMIT_NICE"@[7] != "RLIMIT_DATA"@[7]);
            assert("RLIMIT_NICE"@[7] != "RLIMIT_CORE"@[7]);
            assert(ResourceLimitType::spec_parse("RLIMIT_NICE"@) == Result::<ResourceLimitType, OCIError>::Ok(ResourceLimitType::Nice));
        },
        ResourceLimitType::RealtimePrio => {
            assert("RLIMIT_RTPRIO"@[7] != "RLIMIT_NOFILE"@[7]);
            assert(ResourceLimitType::spec_parse("RLIMIT_RTPRIO"@) == Result::<ResourceLimitType, OCIError>::Ok(ResourceLimitType::RealtimePrio));
        },
        ResourceLimitType::Realtime => {
            assert("RLIMIT_RTTIME"@[7] != "RLIMIT_NOFILE"@[7]);
            assert("RLIMIT_RTTIME"@[9] != "RLIMIT_RTPRIO"@[9]);
            assert(ResourceLimitType::spec_parse("RLIMIT_RTTIME"@) == Result::<ResourceLimitType, OCIError>::Ok(ResourceLimitType::Realtime));
        },
    }
}

/// One declared resource limit: the kind and its soft and hard bounds.
#[derive(Clone, Copy, Debug, PartialEq, Eq, Structural)]
pub struct ResourceLimit {
    pub typ: ResourceLimitType,
    pub soft: u64,
    pub hard: u64,
}

/// No two declared limits name the same kind: a list that sets one kind
/// twice is ambiguous.
pub open spec fn rlimit_types_unique(s: Seq<ResourceLimit>) -> bool {
    forall|i: int, j: int| 0 <= i < j < s.len() ==> s[i].typ != s[j].typ
}

/// Decides whether a limit list declares each kind at most once.
pub fn check_rlimit_types_unique(v: &Vec<ResourceLimit>) -> (r: bool)
    ensures
        r == rlimit_types_unique(v@),
{
    let n = v.len();
    let mut i: usize = 0;
    while i < n
        invariant
            n == v@.len(),
            i <= n,
            forall|p: int, q: int| 0 <= p < q < v@.len() && p < i ==> v@[p].typ != v@[q].typ,
        decreases n - i,
    {
        let mut j: usize = i + 1;
        while j < n
            invariant
                n == v@.len(),
                i < j <= n,
                forall|q: int| i < q < j ==> v@[i as int].typ != v@[q].typ,
            decreases n - j,
        {
            if v[i].typ == v[j].typ {
                return false;
            }
            j += 1;
        }
        i += 1;
    }
    true
}

} // verus!
