//! Structured errors for every layer: configuration validation, the spawn and
//! mount primitives, command construction, and the lifecycle state machine.
//! Nothing is reported as a bare string; every failure names its kind.

use vstd::prelude::*;

use crate::sys::OsError;

verus! {

/// The enumerated configuration fields whose string values are validated
/// against a fixed closed vocabulary.
#[derive(Clone, Copy, Debug, PartialEq, Eq, Structural)]
pub enum ConfigField {
    NamespaceKind,
    DeviceKind,
    SeccompAction,
    SeccompArch,
    SeccompOperator,
    ResourceLimitKind,
    ContainerStatus,
}

/// A configuration document was rejected.
///
/// `InvalidValue` marks a string outside a field's fixed vocabulary;
/// `UnsupportedValue` marks a string the vocabulary recognises but this
/// runtime does not support (the `"time"` namespace kind). The two are
/// deliberately distinct variants so callers can tell them apart.
#[derive(Clone, Copy, Debug, PartialEq, Eq, Structural)]
pub enum OCIError {
    MalformedConfig,
    InvalidValue(ConfigField),
    UnsupportedValue(ConfigField),
}

/// A kernel primitive failed, carrying the OS error code read right after the
/// call, or an argument could not be handed to the OS at all.
#[derive(Clone, Copy, Debug, PartialEq, Eq, Structural)]
pub enum SyscallError {
    SpawnFailure(OsError),
    MountFailure(OsError),
    NulByteInArgument,
}

/// A lifecycle operation was refused by the state machine.
#[derive(Clone, Copy, Debug, PartialEq, Eq, Structural)]
pub enum RuntimeError {
    DuplicateId,
    NotFound,
    InvalidTransition,
    CreateFailed(SyscallError),
}

/// Building a command for the OS failed: an argument held an interior nul
/// byte (at the given position), or the spawn primitive itself failed.
#[derive(Clone, Copy, Debug, PartialEq, Eq, Structural)]
pub enum CommandError {
    NulByte(usize),
    SpawnError(OsError),
}

} // verus!
