//! Device nodes and filesystem pieces of the configuration: the device-kind
//! vocabulary, device entries, the root filesystem, mounts, and the id
//! mappings used by user-namespace-aware mounts.

use vstd::prelude::*;

use crate::error::ConfigField;
use crate::error::OCIError;
use crate::strutil::str_eq;

verus! {

/// The kind of a device node.
#[derive(Clone, Copy, Debug, PartialEq, Eq, Structural)]
pub enum DeviceType {
    Char,
    Block,
    U,
    Pipe,
}

impl DeviceType {
    pub open spec fn spec_parse(s: Seq<char>) -> Result<DeviceType, OCIError> {
        if s == "c"@ {
            Ok(DeviceType::Char)
        } else if s == "b"@ {
            Ok(DeviceType::Block)
        } else if s == "u"@ {
            Ok(DeviceType::U)
        } else if s == "p"@ {
            Ok(DeviceType::Pipe)
        } else {
            Err(OCIError::InvalidValue(ConfigField::DeviceKind))
        }
    }

    pub fn from_str(s: &str) -> (r: Result<DeviceType, OCIError>)
        ensures
            r == Self::spec_parse(s@),
    {
        if str_eq(s, "c") {
            Ok(DeviceType::Char)
        } else if str_eq(s, "b") {
            Ok(DeviceType::Block)
        } else if str_eq(s, "u") {
            Ok(DeviceType::U)
        } else if str_eq(s, "p") {
            Ok(DeviceType::Pipe)
        } else {
            Err(OCIError::InvalidValue(ConfigField::DeviceKind))
        }
    }

    pub open spec fn spec_name(self) -> Seq<char> {
        match self {
            DeviceType::Char => "c"@,
            DeviceType::Block => "b"@,
            DeviceType::U => "u"@,
            DeviceType::Pipe => "p"@,
        }
    }

    pub fn name(self) -> (r: &'static str)
        ensures
            r@ == self.spec_name(),
    {
        match self {
            DeviceType::Char => "c",
            DeviceType::Block => "b",
            DeviceType::U => "u",
            DeviceType::Pipe => "p",
        }
    }
}

/// Parsing the canonical name of any device kind gives that kind back.
pub proof fn lemma_device_type_name_roundtrip(t: DeviceType)
    ensures
        DeviceType::spec_parse(t.spec_name()) == Result::<DeviceType, OCIError>::Ok(t),
{
    reveal_strlit("c");
    reveal_strlit("b");
    reveal_strlit("u");
    reveal_strlit("p");
    assert("c"@.len() == 1);
    assert("b"@.len() == 1);
    assert("u"@.len() == 1);
    assert("p"@.len() == 1);
    match t {
        DeviceType::Char => {
            assert(DeviceType::spec_parse("c"@) == Result::<DeviceType, OCIError>::Ok(DeviceType::Char));
        },
        DeviceType::Block => {
            assert("b"@[0] != "c"@[0]);
            assert(DeviceType::spec_parse("b"@) == Result::<DeviceType, OCIError>::Ok(DeviceType::Block));
        },
        DeviceType::U => {
            assert("u"@[0] != "c"@[0]);
            assert("u"@[0] != "b"@[0]);
            assert(DeviceType::spec_parse("u"@) == Result::<DeviceType, OCIError>::Ok(DeviceType::U));
        },
        DeviceType::Pipe => {
            assert("p"@[0] != "c"@[0]);
            assert("p"@[0] != "b"@[0]);
            assert("p"@[0] != "u"@[0]);
            assert(DeviceType::spec_parse("p"@) == Result::<DeviceType, OCIError>::Ok(DeviceType::Pipe));
        },
    }
}

/// One device node to create inside the container.
#[derive(Clone, Debug)]
pub struct Device {
    pub path: String,
    pub typ: DeviceType,
    pub major: i64,
    pub minor: i64,
    pub file_mode: Option<u32>,
    pub uid: Option<u32>,
    pub gid: Option<u32>,
}

/// The container's root filesystem: an absolute path and whether it is
/// mounted read-only.
#[derive(Clone, Debug)]
pub struct RootFs {
    pub path: String,
    pub readonly: bool,
}

/// One entry of an id mapping for user-namespace-aware mounts: a contiguous
/// range of `size` ids starting at `container_id` inside the container maps
/// to the range starting at `host_id` on the host.
#[derive(Clone, Copy, Debug, PartialEq, Eq, Structural)]
pub struct IdMapping {
    pub container_id: u32,
    pub host_id: u32,
    pub size: u32,
}

/// One mount beyond the root filesystem, applied in the order listed.
#[derive(Clone, Debug)]
pub struct Mount {
    pub destination: String,
    pub source: Option<String>,
    pub typ: Option<String>,
    pub options: Vec<String>,
    pub uid_mappings: Vec<IdMapping>,
    pub gid_mappings: Vec<IdMapping>,
}

} // verus!
