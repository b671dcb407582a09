//! The sandboxed application a container runs: its arguments, environment,
//! user identity, capability sets, resource limits, and security labels.

use vstd::prelude::*;

use crate::capability::Capabilities;
use crate::rlimit::ResourceLimit;

verus! {

/// The console size in characters requested for the process's terminal.
/// Ignored when no terminal is attached.
#[derive(Clone, Copy, Debug, PartialEq, Eq, Structural)]
pub struct Rectangle {
    pub width: u32,
    pub height: u32,
}

/// The user identity the process assumes inside the container: ids in the
/// container's namespace, an optional umask, and additional group ids.
#[derive(Clone, Debug)]
pub struct User {
    pub uid: u32,
    pub gid: u32,
    pub umask: Option<u32>,
    pub additional_gids: Vec<u32>,
}

/// A platform-agnostic description of the application to execute inside the
/// container. Optional list fields default to empty rather than absent, so
/// consumers can treat presence uniformly.
#[derive(Clone, Debug)]
pub struct Process {
    pub terminal: bool,
    pub console_size: Option<Rectangle>,
    pub cwd: String,
    pub env: Vec<String>,
    pub args: Vec<String>,
    pub rlimits: Vec<ResourceLimit>,
    pub capabilities: Option<Capabilities>,
    pub user: User,
    pub no_new_privileges: bool,
    pub oom_score_adj: Option<i32>,
    pub apparmor_profile: Option<String>,
    pub selinux_label: Option<String>,
}

} // verus!
