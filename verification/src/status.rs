//! The lifecycle vocabulary: a container's runtime status and the externally
//! observable state record produced for inspection.

use vstd::prelude::*;

use crate::error::ConfigField;
use crate::error::OCIError;
use crate::strutil::str_eq;

verus! {

/// The runtime status of a container, in lifecycle order.
#[derive(Clone, Copy, Debug, PartialEq, Eq, Structural)]
pub enum ContainerStatus {
    Creating,
    Created,
    Running,
    Stopped,
}

impl ContainerStatus {
    pub open spec fn spec_parse(s: Seq<char>) -> Result<ContainerStatus, OCIError> {
        if s == "creating"@ {
            Ok(ContainerStatus::Creating)
        } else if s == "created"@ {
            Ok(ContainerStatus::Created)
        } else if s == "running"@ {
            Ok(ContainerStatus::Running)
        } else if s == "stopped"@ {
            Ok(ContainerStatus::Stopped)
        } else {
            Err(OCIError::InvalidValue(ConfigField::ContainerStatus))
        }
    }

    pub fn from_str(s: &str) -> (r: Result<ContainerStatus, OCIError>)
        ensures
            r == Self::spec_parse(s@),
    {
        if str_eq(s, "creating") {
            Ok(ContainerStatus::Creating)
        } else if str_eq(s, "created") {
            Ok(ContainerStatus::Created)
        } else if str_eq(s, "running") {
            Ok(ContainerStatus::Running)
        } else if str_eq(s, "stopped") {
            Ok(ContainerStatus::Stopped)
        } else {
            Err(OCIError::InvalidValue(ConfigField::ContainerStatus))
        }
    }

    pub open spec fn spec_name(self) -> Seq<char> {
        match self {
            ContainerStatus::Creating => "creating"@,
            ContainerStatus::Created => "created"@,
            ContainerStatus::Running => "running"@,
            ContainerStatus::Stopped => "stopped"@,
        }
    }

    pub fn name(self) -> (r: &'static str)
        ensures
            r@ == self.spec_name(),
    {
        match self {
            ContainerStatus::Creating => "creating",
            ContainerStatus::Created => "created",
            ContainerStatus::Running => "running",
            ContainerStatus::Stopped => "stopped",
        }
    }
}

/// Parsing the canonical name of any status gives that status back.
pub proof fn lemma_status_name_roundtrip(t: ContainerStatus)
    ensures
        ContainerStatus::spec_parse(t.spec_name()) == Result::<ContainerStatus, OCIError>::Ok(t),
{
    reveal_strlit("creating");
    reveal_strlit("created");
    reveal_strlit("running");
    reveal_strlit("stopped");
    assert("creating"@.len() == 8);
    assert("created"@.len() == 7);
    assert("running"@.len() == 7);
    assert("stopped"@.len() == 7);
    match t {
        ContainerStatus::Creating => {
            assert(ContainerStatus::spec_parse("creating"@) == Result::<ContainerStatus, OCIError>::Ok(ContainerStatus::Creating));
        },
        ContainerStatus::Created => {
            assert(ContainerStatus::spec_parse("created"@) == Result::<ContainerStatus, OCIError>::Ok(ContainerStatus::Created));
        },
        ContainerStatus::Running => {
            assert("running"@[0] != "created"@[0]);
            assert(ContainerStatus::spec_parse("running"@) == Result::<ContainerStatus, OCIError>::Ok(ContainerStatus::Running));
        },
        ContainerStatus::Stopped => {
            assert("stopped"@[0] != "created"@[0]);
            assert("stopped"@[0] != "running"@[0]);
            assert(ContainerStatus::spec_parse("stopped"@) == Result::<ContainerStatus, OCIError>::Ok(ContainerStatus::Stopped));
        },
    }
}

/// The externally observable state of one container, as handed to outside
/// inspectors: the specification version the state complies with, the
/// caller-chosen id, the current status, the process id of the container's
/// init process (meaningful only once one was spawned), the absolute path of
/// the bundle directory, and the configuration's annotations in order.
#[derive(Clone, Debug)]
pub struct ContainerState {
    pub oci_version: String,
    pub id: String,
    pub status: ContainerStatus,
    pub pid: i32,
    pub bundle: String,
    pub annotations: Vec<(String, String)>,
}

} // verus!
