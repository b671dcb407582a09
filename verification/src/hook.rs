//! Lifecycle hooks: external programs the runtime invokes at five defined
//! points, each with its own arguments, environment, and optional timeout.

use vstd::prelude::*;

verus! {

/// One hook invocation: program path, arguments, environment, and an
/// optional timeout in seconds.
#[derive(Clone, Debug)]
pub struct Hook {
    pub path: String,
    pub args: Vec<String>,
    pub env: Vec<String>,
    pub timeout: Option<u32>,
}

/// The five ordered hook lists, one per lifecycle point. A list left out of
/// the configuration defaults to empty.
#[derive(Clone, Debug)]
pub struct Hooks {
    pub create_runtime: Vec<Hook>,
    pub create_container: Vec<Hook>,
    pub start_container: Vec<Hook>,
    pub poststart: Vec<Hook>,
    pub poststop: Vec<Hook>,
}

} // verus!
