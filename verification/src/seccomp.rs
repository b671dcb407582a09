//! The seccomp filter model: which action a filter takes, which architectures
//! it targets, how syscall arguments are compared, and the filter rules
//! themselves. All three enumerated vocabularies are matched exactly and
//! case-sensitively.

use vstd::prelude::*;

use crate::error::ConfigField;
use crate::error::OCIError;
use crate::strutil::str_eq;

verus! {

/// What a seccomp filter does when a rule matches.
#[derive(Clone, Copy, Debug, PartialEq, Eq, Structural)]
pub enum SeccompAction {
    Kill,
    KillProcess,
    KillThread,
    Trap,
    Errno,
    Trace,
    Allow,
    Log,
    Notify,
}

impl SeccompAction {
    pub open spec fn spec_parse(s: Seq<char>) -> Result<SeccompAction, OCIError> {
        if s == "SCMP_ACT_KILL"@ {
            Ok(SeccompAction::Kill)
        } else if s == "SCMP_ACT_KILL_PROCESS"@ {
            Ok(SeccompAction::KillProcess)
        } else if s == "SCMP_ACT_KILL_THREAD"@ {
            Ok(SeccompAction::KillThread)
        } else if s == "SCMP_ACT_TRAP"@ {
            Ok(SeccompAction::Trap)
        } else if s == "SCMP_ACT_ERRNO"@ {
            Ok(SeccompAction::Errno)
        } else if s == "SCMP_ACT_TRACE"@ {
            Ok(SeccompAction::Trace)
        } else if s == "SCMP_ACT_ALLOW"@ {
            Ok(SeccompAction::Allow)
        } else if s == "SCMP_ACT_LOG"@ {
            Ok(SeccompAction::Log)
        } else if s == "SCMP_ACT_NOTIFY"@ {
            Ok(SeccompAction::Notify)
        } else {
            Err(OCIError::InvalidValue(ConfigField::SeccompAction))
        }
    }

    pub fn from_str(s: &str) -> (r: Result<SeccompAction, OCIError>)
        ensures
            r == Self::spec_parse(s@),
    {
        if str_eq(s, "SCMP_ACT_KILL") {
            Ok(SeccompAction::Kill)
        } else if str_eq(s, "SCMP_ACT_KILL_PROCESS") {
            Ok(SeccompAction::KillProcess)
        } else if str_eq(s, "SCMP_ACT_KILL_THREAD") {
            Ok(SeccompAction::KillThread)
        } else if str_eq(s, "SCMP_ACT_TRAP") {
            Ok(SeccompAction::Trap)
        } else if str_eq(s, "SCMP_ACT_ERRNO") {
            Ok(SeccompAction::Errno)
        } else if str_eq(s, "SCMP_ACT_TRACE") {
            Ok(SeccompAction::Trace)
        } else if str_eq(s, "SCMP_ACT_ALLOW") {
            Ok(SeccompAction::Allow)
        } else if str_eq(s, "SCMP_ACT_LOG") {
            Ok(SeccompAction::Log)
        } else if str_eq(s, "SCMP_ACT_NOTIFY") {
            Ok(SeccompAction::Notify)
        } else {
            Err(OCIError::InvalidValue(ConfigField::SeccompAction))
        }
    }

    pub open spec fn spec_name(self) -> Seq<char> {
        match self {
            SeccompAction::Kill => "SCMP_ACT_KILL"@,
            SeccompAction::KillProcess => "SCMP_ACT_KILL_PROCESS"@,
            SeccompAction::KillThread => "SCMP_ACT_KILL_THREAD"@,
            SeccompAction::Trap => "SCMP_ACT_TRAP"@,
            SeccompAction::Errno => "SCMP_ACT_ERRNO"@,
            SeccompAction::Trace => "SCMP_ACT_TRACE"@,
            SeccompAction::Allow => "SCMP_ACT_ALLOW"@,
            SeccompAction::Log => "SCMP_ACT_LOG"@,
            SeccompAction::Notify => "SCMP_ACT_NOTIFY"@,
        }
    }

    pub fn name(self) -> (r: &'static str)
        ensures
            r@ == self.spec_name(),
    {
        match self {
            SeccompAction::Kill => "SCMP_ACT_KILL",
            SeccompAction::KillProcess => "SCMP_ACT_KILL_PROCESS",
            SeccompAction::KillThread => "SCMP_ACT_KILL_THREAD",
            SeccompAction::Trap => "SCMP_ACT_TRAP",
            SeccompAction::Errno => "SCMP_ACT_ERRNO",
            SeccompAction::Trace => "SCMP_ACT_TRACE",
            SeccompAction::Allow => "SCMP_ACT_ALLOW",
            SeccompAction::Log => "SCMP_ACT_LOG",
            SeccompAction::Notify => "SCMP_ACT_NOTIFY",
        }
    }
}

/// Parsing the canonical name of any action gives that action back.
pub proof fn lemma_seccomp_action_name_roundtrip(t: SeccompAction)
    ensures
        SeccompAction::spec_parse(t.spec_name()) == Result::<SeccompAction, OCIError>::Ok(t),
{
    reveal_strlit("SCMP_ACT_KILL");
    reveal_strlit("SCMP_ACT_KILL_PROCESS");
    reveal_strlit("SCMP_ACT_KILL_THREAD");
    reveal_strlit("SCMP_ACT_TRAP");
    reveal_strlit("SCMP_ACT_ERRNO");
    reveal_strlit("SCMP_ACT_TRACE");
    reveal_strlit("SCMP_ACT_ALLOW");
    reveal_strlit("SCMP_ACT_LOG");
    reveal_strlit("SCMP_ACT_NOTIFY");
    assert("SCMP_ACT_KILL"@.len() == 13);
    assert("SCMP_ACT_KILL_PROCESS"@.len() == 21);
    assert("SCMP_ACT_KILL_THREAD"@.len() == 20);
    assert("SCMP_ACT_TRAP"@.len() == 13);
    assert("SCMP_ACT_ERRNO"@.len() == 14);
    assert("SCMP_ACT_TRACE"@.len() == 14);
    assert("SCMP_ACT_ALLOW"@.len() == 14);
    assert("SCMP_ACT_LOG"@.len() == 12);
    assert("SCMP_ACT_NOTIFY"@.len() == 15);
    match t {
        SeccompAction::Kill => {
            assert(SeccompAction::spec_parse("SCMP_ACT_KILL"@) == Result::<SeccompAction, OCIError>::Ok(SeccompAction::Kill));
        },
        SeccompAction::KillProcess => {
            assert(SeccompAction::spec_parse("SCMP_ACT_KILL_PROCESS"@) == Result::<SeccompAction, OCIError>::Ok(SeccompAction::KillProcess));
        },
        SeccompAction::KillThread => {
            assert(SeccompAction::spec_parse("SCMP_ACT_KILL_THREAD"@) == Result::<SeccompAction, OCIError>::Ok(SeccompAction::KillThread));
        },
        SeccompAction::Trap => {
            assert("SCMP_ACT_TRAP"@[9] != "SCMP_ACT_KILL"@[9]);
            assert(SeccompAction::spec_parse("SCMP_ACT_TRAP"@) == Result::<SeccompAction, OCIError>::Ok(SeccompAction::Trap));
        },
        SeccompAction::Errno => {
            assert(SeccompAction::spec_parse("SCMP_ACT_ERRNO"@) == Result::<SeccompAction, OCIError>::Ok(SeccompAction::Errno));
        },
        SeccompAction::Trace => {
            assert("SCMP_ACT_TRACE"@[9] != "SCMP_ACT_ERRNO"@[9]);
            assert(SeccompAction::spec_parse("SCMP_ACT_TRACE"@) == Result::<SeccompAction, OCIError>::Ok(SeccompAction::Trace));
        },
        SeccompAction::Allow => {
            assert("SCMP_ACT_ALLOW"@[9] != "SCMP_ACT_ERRNO"@[9]);
            assert("SCMP_ACT_ALLOW"@[9] != "SCMP_ACT_TRACE"@[9]);
            assert(SeccompAction::spec_parse("SCMP_ACT_ALLOW"@) == Result::<SeccompAction, OCIError>::Ok(SeccompAction::Allow));
        },
        SeccompAction::Log => {
            assert(SeccompAction::spec_parse("SCMP_ACT_LOG"@) == Result::<SeccompAction, OCIError>::Ok(SeccompAction::Log));
        },
        SeccompAction::Notify => {
            assert(SeccompAction::spec_parse("SCMP_ACT_NOTIFY"@) == Result::<SeccompAction, OCIError>::Ok(SeccompAction::Notify));
        },
    }
}

/// A target architecture a seccomp filter can apply to.
#[derive(Clone, Copy, Debug, PartialEq, Eq, Structural)]
pub enum SeccompArch {
    X86,
    X86_64,
    X32,
    ARM,
    AARCH64,
    MIPS,
    MIPS64,
    MIPS64N32,
    MIPSEL,
    MIPSEL64,
    MIPSEL64N32,
    PPC,
    PPC64,
    PPC64LE,
    S390,
    S390X,
    PARISC,
    PARISC64,
    RISCV64,
}

impl SeccompArch {
    pub open spec fn spec_parse(s: Seq<char>) -> Result<SeccompArch, OCIError> {
        if s == "SCMP_ARCH_X86"@ {
            Ok(SeccompArch::X86)
        } else if s == "SCMP_ARCH_X86_64"@ {
            Ok(SeccompArch::X86_64)
        } else if s == "SCMP_ARCH_X32"@ {
            Ok(SeccompArch::X32)
        } else if s == "SCMP_ARCH_ARM"@ {
            Ok(SeccompArch::ARM)
        } else if s == "SCMP_ARCH_AARCH64"@ {
            Ok(SeccompArch::AARCH64)
        } else if s == "SCMP_ARCH_MIPS"@ {
            Ok(SeccompArch::MIPS)
        } else if s == "SCMP_ARCH_MIPS64"@ {
            Ok(SeccompArch::MIPS64)
        } else if s == "SCMP_ARCH_MIPS64N32"@ {
            Ok(SeccompArch::MIPS64N32)
        } else if s == "SCMP_ARCH_MIPSEL"@ {
            Ok(SeccompArch::MIPSEL)
        } else if s == "SCMP_ARCH_MIPSEL64"@ {
            Ok(SeccompArch::MIPSEL64)
        } else if s == "SCMP_ARCH_MIPSEL64N32"@ {
            Ok(SeccompArch::MIPSEL64N32)
        } else if s == "SCMP_ARCH_PPC"@ {
            Ok(SeccompArch::PPC)
        } else if s == "SCMP_ARCH_PPC64"@ {
            Ok(SeccompArch::PPC64)
        } else if s == "SCMP_ARCH_PPC64LE"@ {
            Ok(SeccompArch::PPC64LE)
        } else if s == "SCMP_ARCH_S390"@ {
            Ok(SeccompArch::S390)
        } else if s == "SCMP_ARCH_S390X"@ {
            Ok(SeccompArch::S390X)
        } else if s == "SCMP_ARCH_PARISC"@ {
            Ok(SeccompArch::PARISC)
        } else if s == "SCMP_ARCH_PARISC64"@ {
            Ok(SeccompArch::PARISC64)
        } else if s == "SCMP_ARCH_RISCV64"@ {
            Ok(SeccompArch::RISCV64)
        } else {
            Err(OCIError::InvalidValue(ConfigField::SeccompArch))
        }
    }

    pub fn from_str(s: &str) -> (r: Result<SeccompArch, OCIError>)
        ensures
            r == Self::spec_parse(s@),
    {
        if str_eq(s, "SCMP_ARCH_X86") {
            Ok(SeccompArch::X86)
        } else if str_eq(s, "SCMP_ARCH_X86_64") {
            Ok(SeccompArch::X86_64)
        } else if str_eq(s, "SCMP_ARCH_X32") {
            Ok(SeccompArch::X32)
        } else if str_eq(s, "SCMP_ARCH_ARM") {
            Ok(SeccompArch::ARM)
        } else if str_eq(s, "SCMP_ARCH_AARCH64") {
            Ok(SeccompArch::AARCH64)
        } else if str_eq(s, "SCMP_ARCH_MIPS") {
            Ok(SeccompArch::MIPS)
        } else if str_eq(s, "SCMP_ARCH_MIPS64") {
            Ok(SeccompArch::MIPS64)
        } else if str_eq(s, "SCMP_ARCH_MIPS64N32") {
            Ok(SeccompArch::MIPS64N32)
        } else if str_eq(s, "SCMP_ARCH_MIPSEL") {
            Ok(SeccompArch::MIPSEL)
        } else if str_eq(s, "SCMP_ARCH_MIPSEL64") {
            Ok(SeccompArch::MIPSEL64)
        } else if str_eq(s, "SCMP_ARCH_MIPSEL64N32") {
            Ok(SeccompArch::MIPSEL64N32)
        } else if str_eq(s, "SCMP_ARCH_PPC") {
            Ok(SeccompArch::PPC)
        } else if str_eq(s, "SCMP_ARCH_PPC64") {
            Ok(SeccompArch::PPC64)
        } else if str_eq(s, "SCMP_ARCH_PPC64LE") {
            Ok(SeccompArch::PPC64LE)
        } else if str_eq(s, "SCMP_ARCH_S390") {
            Ok(SeccompArch::S390)
        } else if str_eq(s, "SCMP_ARCH_S390X") {
            Ok(SeccompArch::S390X)
        } else if str_eq(s, "SCMP_ARCH_PARISC") {
            Ok(SeccompArch::PARISC)
        } else if str_eq(s, "SCMP_ARCH_PARISC64") {
            Ok(SeccompArch::PARISC64)
        } else if str_eq(s, "SCMP_ARCH_RISCV64") {
            Ok(SeccompArch::RISCV64)
        } else {
            Err(OCIError::InvalidValue(ConfigField::SeccompArch))
        }
    }

    pub open spec fn spec_name(self) -> Seq<char> {
        match self {
            SeccompArch::X86 => "SCMP_ARCH_X86"@,
            SeccompArch::X86_64 => "SCMP_ARCH_X86_64"@,
            SeccompArch::X32 => "SCMP_ARCH_X32"@,
            SeccompArch::ARM => "SCMP_ARCH_ARM"@,
            SeccompArch::AARCH64 => "SCMP_ARCH_AARCH64"@,
            SeccompArch::MIPS => "SCMP_ARCH_MIPS"@,
            SeccompArch::MIPS64 => "SCMP_ARCH_MIPS64"@,
            SeccompArch::MIPS64N32 => "SCMP_ARCH_MIPS64N32"@,
            SeccompArch::MIPSEL => "SCMP_ARCH_MIPSEL"@,
            SeccompArch::MIPSEL64 => "SCMP_ARCH_MIPSEL64"@,
            SeccompArch::MIPSEL64N32 => "SCMP_ARCH_MIPSEL64N32"@,
            SeccompArch::PPC => "SCMP_ARCH_PPC"@,
            SeccompArch::PPC64 => "SCMP_ARCH_PPC64"@,
            SeccompArch::PPC64LE => "SCMP_ARCH_PPC64LE"@,
            SeccompArch::S390 => "SCMP_ARCH_S390"@,
            SeccompArch::S390X => "SCMP_ARCH_S390X"@,
            SeccompArch::PARISC => "SCMP_ARCH_PARISC"@,
            SeccompArch::PARISC64 => "SCMP_ARCH_PARISC64"@,
            SeccompArch::RISCV64 => "SCMP_ARCH_RISCV64"@,
        }
    }

    pub fn name(self) -> (r: &'static str)
        ensures
            r@ == self.spec_name(),
    {
        match self {
            SeccompArch::X86 => "SCMP_ARCH_X86",
            SeccompArch::X86_64 => "SCMP_ARCH_X86_64",
            SeccompArch::X32 => "SCMP_ARCH_X32",
            SeccompArch::ARM => "SCMP_ARCH_ARM",
            SeccompArch::AARCH64 => "SCMP_ARCH_AARCH64",
            SeccompArch::MIPS => "SCMP_ARCH_MIPS",
            SeccompArch::MIPS64 => "SCMP_ARCH_MIPS64",
            SeccompArch::MIPS64N32 => "SCMP_ARCH_MIPS64N32",
            SeccompArch::MIPSEL => "SCMP_ARCH_MIPSEL",
            SeccompArch::MIPSEL64 => "SCMP_ARCH_MIPSEL64",
            SeccompArch::MIPSEL64N32 => "SCMP_ARCH_MIPSEL64N32",
            SeccompArch::PPC => "SCMP_ARCH_PPC",
            SeccompArch::PPC64 => "SCMP_ARCH_PPC64",
            SeccompArch::PPC64LE => "SCMP_ARCH_PPC64LE",
            SeccompArch::S390 => "SCMP_ARCH_S390",
            SeccompArch::S390X => "SCMP_ARCH_S390X",
            SeccompArch::PARISC => "SCMP_ARCH_PARISC",
            SeccompArch::PARISC64 => "SCMP_ARCH_PARISC64",
            SeccompArch::RISCV64 => "SCMP_ARCH_RISCV64",
        }
    }
}

/// Parsing the canonical name of any architecture gives it back.
pub proof fn lemma_seccomp_arch_name_roundtrip(t: SeccompArch)
    ensures
        SeccompArch::spec_parse(t.spec_name()) == Result::<SeccompArch, OCIError>::Ok(t),
{
    reveal_strlit("SCMP_ARCH_X86");
    reveal_strlit("SCMP_ARCH_X86_64");
    reveal_strlit("SCMP_ARCH_X32");
    reveal_strlit("SCMP_ARCH_ARM");
    reveal_strlit("SCMP_ARCH_AARCH64");
    reveal_strlit("SCMP_ARCH_MIPS");
    reveal_strlit("SCMP_ARCH_MIPS64");
    reveal_strlit("SCMP_ARCH_MIPS64N32");
    reveal_strlit("SCMP_ARCH_MIPSEL");
    reveal_strlit("SCMP_ARCH_MIPSEL64");
    reveal_strlit("SCMP_ARCH_MIPSEL64N32");
    reveal_strlit("SCMP_ARCH_PPC");
    reveal_strlit("SCMP_ARCH_PPC64");
    reveal_strlit("SCMP_ARCH_PPC64LE");
    reveal_strlit("SCMP_ARCH_S390");
    reveal_strlit("SCMP_ARCH_S390X");
    reveal_strlit("SCMP_ARCH_PARISC");
    reveal_strlit("SCMP_ARCH_PARISC64");
    reveal_strlit("SCMP_ARCH_RISCV64");
    assert("SCMP_ARCH_X86"@.len() == 13);
    assert("SCMP_ARCH_X86_64"@.len() == 16);
    assert("SCMP_ARCH_X32"@.len() == 13);
    assert("SCMP_ARCH_ARM"@.len() == 13);
    assert("SCMP_ARCH_AARCH64"@.len() == 17);
    assert("SCMP_ARCH_MIPS"@.len() == 14);
    assert("SCMP_ARCH_MIPS64"@.len() == 16);
    assert("SCMP_ARCH_MIPS64N32"@.len() == 19);
    assert("SCMP_ARCH_MIPSEL"@.len() == 16);
    assert("SCMP_ARCH_MIPSEL64"@.len() == 18);
    assert("SCMP_ARCH_MIPSEL64N32"@.len() == 21);
    assert("SCMP_ARCH_PPC"@.len() == 13);
    assert("SCMP_ARCH_PPC64"@.len() == 15);
    assert("SCMP_ARCH_PPC64LE"@.len() == 17);
    assert("SCMP_ARCH_S390"@.len() == 14);
    assert("SCMP_ARCH_S390X"@.len() == 15);
    assert("SCMP_ARCH_PARISC"@.len() == 16);
    assert("SCMP_ARCH_PARISC64"@.len() == 18);
    assert("SCMP_ARCH_RISCV64"@.len() == 17);
    match t {
        SeccompArch::X86 => {
            assert(SeccompArch::spec_parse("SCMP_ARCH_X86"@) == Result::<SeccompArch, OCIError>::Ok(SeccompArch::X86));
        },
        SeccompArch::X86_64 => {
            assert(SeccompArch::spec_parse("SCMP_ARCH_X86_64"@) == Result::<SeccompArch, OCIError>::Ok(SeccompArch::X86_64));
        },
        SeccompArch::X32 => {
            assert("SCMP_ARCH_X32"@[11] != "SCMP_ARCH_X86"@[11]);
            assert(SeccompArch::spec_parse("SCMP_ARCH_X32"@) == Result::<SeccompArch, OCIError>::Ok(SeccompArch::X32));
        },
        SeccompArch::ARM => {
            assert("SCMP_ARCH_ARM"@[10] != "SCMP_ARCH_X86"@[10]);
            assert("SCMP_ARCH_ARM"@[10] != "SCMP_ARCH_X32"@[10]);
            assert(SeccompArch::spec_parse("SCMP_ARCH_ARM"@) == Result::<SeccompArch, OCIError>::Ok(SeccompArch::ARM));
        },
        SeccompArch::AARCH64 => {
            assert(SeccompArch::spec_parse("SCMP_ARCH_AARCH64"@) == Result::<SeccompArch, OCIError>::Ok(SeccompArch::AARCH64));
        },
        SeccompArch::MIPS => {
            assert(SeccompArch::spec_parse("SCMP_ARCH_MIPS"@) == Result::<SeccompArch, OCIError>::Ok(SeccompArch::MIPS));
        },
        SeccompArch::MIPS64 => {
            assert("SCMP_ARCH_MIPS64"@[10] != "SCMP_ARCH_X86_64"@[10]);
            assert(SeccompArch::spec_parse("SCMP_ARCH_MIPS64"@) == Result::<SeccompArch, OCIError>::Ok(SeccompArch::MIPS64));
        },
        SeccompArch::MIPS64N32 => {
            assert(SeccompArch::spec_parse("SCMP_ARCH_MIPS64N32"@) == Result::<SeccompArch, OCIError>::Ok(SeccompArch::MIPS64N32));
        },
        SeccompArch::MIPSEL => {
            assert("SCMP_ARCH_MIPSEL"@[10] != "SCMP_ARCH_X86_64"@[10]);
            assert("SCMP_ARCH_MIPSEL"@[14] != "SCMP_ARCH_MIPS64"@[14]);
            assert(SeccompArch::spec_parse("SCMP_ARCH_MIPSEL"@) == Result::<SeccompArch, OCIError>::Ok(SeccompArch::MIPSEL));
        },
        SeccompArch::MIPSEL64 => {
            assert(SeccompArch::spec_parse("SCMP_ARCH_MIPSEL64"@) == Result::<SeccompArch, OCIError>::Ok(SeccompArch::MIPSEL64));
        },
        SeccompArch::MIPSEL64N32 => {
            assert(SeccompArch::spec_parse("SCMP_ARCH_MIPSEL64N32"@) == Result::<SeccompArch, OCIError>::Ok(SeccompArch::MIPSEL64N32));
        },
        SeccompArch::PPC => {
            assert("SCMP_ARCH_PPC"@[10] != "SCMP_ARCH_X86"@[10]);
            assert("SCMP_ARCH_PPC"@[10] != "SCMP_ARCH_X32"@[10]);
            assert("SCMP_ARCH_PPC"@[10] != "SCMP_ARCH_ARM"@[10]);
            assert(SeccompArch::spec_parse("SCMP_ARCH_PPC"@) == Result::<SeccompArch, OCIError>::Ok(SeccompArch::PPC));
        },
        SeccompArch::PPC64 => {
            assert(SeccompArch::spec_parse("SCMP_ARCH_PPC64"@) == Result::<SeccompArch, OCIError>::Ok(SeccompArch::PPC64));
        },
        SeccompArch::PPC64LE => {
            assert("SCMP_ARCH_PPC64LE"@[10] != "SCMP_ARCH_AARCH64"@[10]);
            assert(SeccompArch::spec_parse("SCMP_ARCH_PPC64LE"@) == Result::<SeccompArch, OCIError>::Ok(SeccompArch::PPC64LE));
        },
        SeccompArch::S390 => {
            assert("SCMP_ARCH_S390"@[10] != "SCMP_ARCH_MIPS"@[10]);
            assert(SeccompArch::spec_parse("SCMP_ARCH_S390"@) == Result::<SeccompArch, OCIError>::Ok(SeccompArch::S390));
        },
        SeccompArch::S390X => {
            assert("SCMP_ARCH_S390X"@[10] != "SCMP_ARCH_PPC64"@[10]);
            assert(SeccompArch::spec_parse("SCMP_ARCH_S390X"@) == Result::<SeccompArch, OCIError>::Ok(SeccompArch::S390X));
        },
        SeccompArch::PARISC => {
            assert("SCMP_ARCH_PARISC"@[10] != "SCMP_ARCH_X86_64"@[10]);
            assert("SCMP_ARCH_PARISC"@[10] != "SCMP_ARCH_MIPS64"@[10]);
            assert("SCMP_ARCH_PARISC"@[10] != "SCMP_ARCH_MIPSEL"@[10]);
            assert(SeccompArch::spec_parse("SCMP_ARCH_PARISC"@) == Result::<SeccompArch, OCIError>::Ok(SeccompArch::PARISC));
        },
        SeccompArch::PARISC64 => {
            assert("SCMP_ARCH_PARISC64"@[10] != "SCMP_ARCH_MIPSEL64"@[10]);
            assert(SeccompArch::spec_parse("SCMP_ARCH_PARISC64"@) == Result::<SeccompArch, OCIError>::Ok(SeccompArch::PARISC64));
        },
        SeccompArch::RISCV64 => {
            assert("SCMP_ARCH_RISCV64"@[10] != "SCMP_ARCH_AARCH64"@[10]);
            assert("SCMP_ARCH_RISCV64"@[10] != "SCMP_ARCH_PPC64LE"@[10]);
            assert(SeccompArch::spec_parse("SCMP_ARCH_RISCV64"@) == Result::<SeccompArch, OCIError>::Ok(SeccompArch::RISCV64));
        },
    }
}

/// How a rule compares one syscall argument against its operands.
#[derive(Clone, Copy, Debug, PartialEq, Eq, Structural)]
pub enum SeccompOperator {
    NotEqual,
    LessThan,
    LessEqual,
    Equal,
    GreaterEqual,
    GreaterThan,
    MaskedEqual,
}

impl SeccompOperator {
    pub open spec fn spec_parse(s: Seq<char>) -> Result<SeccompOperator, OCIError> {
        if s == "SCMP_CMP_NE"@ {
            Ok(SeccompOperator::NotEqual)
        } else if s == "SCMP_CMP_LT"@ {
            Ok(SeccompOperator::LessThan)
        } else if s == "SCMP_CMP_LE"@ {
            Ok(SeccompOperator::LessEqual)
        } else if s == "SCMP_CMP_EQ"@ {
            Ok(SeccompOperator::Equal)
        } else if s == "SCMP_CMP_GE"@ {
            Ok(SeccompOperator::GreaterEqual)
        } else if s == "SCMP_CMP_GT"@ {
            Ok(SeccompOperator::GreaterThan)
        } else if s == "SCMP_CMP_MASKED_EQ"@ {
            Ok(SeccompOperator::MaskedEqual)
        } else {
            Err(OCIError::InvalidValue(ConfigField::SeccompOperator))
        }
    }

    pub fn from_str(s: &str) -> (r: Result<SeccompOperator, OCIError>)
        ensures
            r == Self::spec_parse(s@),
    {
        if str_eq(s, "SCMP_CMP_NE") {
            Ok(SeccompOperator::NotEqual)
        } else if str_eq(s, "SCMP_CMP_LT") {
            Ok(SeccompOperator::LessThan)
        } else if str_eq(s, "SCMP_CMP_LE") {
            Ok(SeccompOperator::LessEqual)
        } else if str_eq(s, "SCMP_CMP_EQ") {
            Ok(SeccompOperator::Equal)
        } else if str_eq(s, "SCMP_CMP_GE") {
            Ok(SeccompOperator::GreaterEqual)
        } else if str_eq(s, "SCMP_CMP_GT") {
            Ok(SeccompOperator::GreaterThan)
        } else if str_eq(s, "SCMP_CMP_MASKED_EQ") {
            Ok(SeccompOperator::MaskedEqual)
        } else {
            Err(OCIError::InvalidValue(ConfigField::SeccompOperator))
        }
    }

    pub open spec fn spec_name(self) -> Seq<char> {
        match self {
            SeccompOperator::NotEqual => "SCMP_CMP_NE"@,
            SeccompOperator::LessThan => "SCMP_CMP_LT"@,
            SeccompOperator::LessEqual => "SCMP_CMP_LE"@,
            SeccompOperator::Equal => "SCMP_CMP_EQ"@,
            SeccompOperator::GreaterEqual => "SCMP_CMP_GE"@,
            SeccompOperator::GreaterThan => "SCMP_CMP_GT"@,
            SeccompOperator::MaskedEqual => "SCMP_CMP_MASKED_EQ"@,
        }
    }

    pub fn name(self) -> (r: &'static str)
        ensures
            r@ == self.spec_name(),
    {
        match self {
            SeccompOperator::NotEqual => "SCMP_CMP_NE",
            SeccompOperator::LessThan => "SCMP_CMP_LT",
            SeccompOperator::LessEqual => "SCMP_CMP_LE",
            SeccompOperator::Equal => "SCMP_CMP_EQ",
            SeccompOperator::GreaterEqual => "SCMP_CMP_GE",
            SeccompOperator::GreaterThan => "SCMP_CMP_GT",
            SeccompOperator::MaskedEqual => "SCMP_CMP_MASKED_EQ",
        }
    }
}

/// Parsing the canonical name of any operator gives it back.
pub proof fn lemma_seccomp_operator_name_roundtrip(t: SeccompOperator)
    ensures
        SeccompOperator::spec_parse(t.spec_name()) == Result::<SeccompOperator, OCIError>::Ok(t),
{
    reveal_strlit("SCMP_CMP_NE");
    reveal_strlit("SCMP_CMP_LT");
    reveal_strlit("SCMP_CMP_LE");
    reveal_strlit("SCMP_CMP_EQ");
    reveal_strlit("SCMP_CMP_GE");
    reveal_strlit("SCMP_CMP_GT");
    reveal_strlit("SCMP_CMP_MASKED_EQ");
    assert("SCMP_CMP_NE"@.len() == 11);
    assert("SCMP_CMP_LT"@.len() == 11);
    assert("SCMP_CMP_LE"@.len() == 11);
    assert("SCMP_CMP_EQ"@.len() == 11);
    assert("SCMP_CMP_GE"@.len() == 11);
    assert("SCMP_CMP_GT"@.len() == 11);
    assert("SCMP_CMP_MASKED_EQ"@.len() == 18);
    match t {
        SeccompOperator::NotEqual => {
            assert(SeccompOperator::spec_parse("SCMP_CMP_NE"@) == Result::<SeccompOperator, OCIError>::Ok(SeccompOperator::NotEqual));
        },
        SeccompOperator::LessThan => {
            assert("SCMP_CMP_LT"@[9] != "SCMP_CMP_NE"@[9]);
            assert(SeccompOperator::spec_parse("SCMP_CMP_LT"@) == Result::<SeccompOperator, OCIError>::Ok(SeccompOperator::LessThan));
        },
        SeccompOperator::LessEqual => {
            assert("SCMP_CMP_LE"@[9] != "SCMP_CMP_NE"@[9]);
            assert("SCMP_CMP_LE"@[10] != "SCMP_CMP_LT"@[10]);
            assert(SeccompOperator::spec_parse("SCMP_CMP_LE"@) == Result::<SeccompOperator, OCIError>::Ok(SeccompOperator::LessEqual));
        },
        SeccompOperator::Equal => {
            assert("SCMP_CMP_EQ"@[9] != "SCMP_CMP_NE"@[9]);
            assert("SCMP_CMP_EQ"@[9] != "SCMP_CMP_LT"@[9]);
            assert("SCMP_CMP_EQ"@[9] != "SCMP_CMP_LE"@[9]);
            assert(SeccompOperator::spec_parse("SCMP_CMP_EQ"@) == Result::<SeccompOperator, OCIError>::Ok(SeccompOperator::Equal));
        },
        SeccompOperator::GreaterEqual => {
            assert("SCMP_CMP_GE"@[9] != "SCMP_CMP_NE"@[9]);
            assert("SCMP_CMP_GE"@[9] != "SCMP_CMP_LT"@[9]);
            assert("SCMP_CMP_GE"@[9] != "SCMP_CMP_LE"@[9]);
            assert("SCMP_CMP_GE"@[9] != "SCMP_CMP_EQ"@[9]);
            assert(SeccompOperator::spec_parse("SCMP_CMP_GE"@) == Result::<SeccompOperator, OCIError>::Ok(SeccompOperator::GreaterEqual));
        },
        SeccompOperator::GreaterThan => {
            assert("SCMP_CMP_GT"@[9] != "SCMP_CMP_NE"@[9]);
            assert("SCMP_CMP_GT"@[9] != "SCMP_CMP_LT"@[9]);
            assert("SCMP_CMP_GT"@[9] != "SCMP_CMP_LE"@[9]);
            assert("SCMP_CMP_GT"@[9] != "SCMP_CMP_EQ"@[9]);
            assert("SCMP_CMP_GT"@[10] != "SCMP_CMP_GE"@[10]);
            assert(SeccompOperator::spec_parse("SCMP_CMP_GT"@) == Result::<SeccompOperator, OCIError>::Ok(SeccompOperator::GreaterThan));
        },
        SeccompOperator::MaskedEqual => {
            assert(SeccompOperator::spec_parse("SCMP_CMP_MASKED_EQ"@) == Result::<SeccompOperator, OCIError>::Ok(SeccompOperator::MaskedEqual));
        },
    }
}

/// One argument comparison inside a filter rule: which argument, the operator,
/// and one or two 64-bit operands.
#[derive(Clone, Debug)]
pub struct SeccompArg {
    pub index: u32,
    pub first_arg: u64,
    pub second_arg: Option<u64>,
    pub op: SeccompOperator,
}

/// One filter rule: the syscall names it covers, the action taken on a match,
/// an optional errno override, and the argument comparisons.
#[derive(Clone, Debug)]
pub struct SeccompSyscallFilter {
    pub names: Vec<String>,
    pub action: SeccompAction,
    pub errno_ret: Option<u32>,
    pub args: Option<Vec<SeccompArg>>,
}

/// A whole seccomp configuration: the default action, the target
/// architectures, listener plumbing, and the per-syscall rules.
#[derive(Clone, Debug)]
pub struct Seccomp {
    pub default_action: SeccompAction,
    pub default_errno_ret: Option<u32>,
    pub architectures: Option<Vec<SeccompArch>>,
    pub flags: Option<Vec<String>>,
    pub listener_path: Option<String>,
    pub listener_metadata: Option<String>,
    pub syscalls: Option<SeccompSyscallFilter>,
}

} // verus!
