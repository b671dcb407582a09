//! Core of an OCI-style container runtime: a validated configuration model,
//! the pure computations behind process isolation (namespace flag unions,
//! stack alignment, OS error translation), and the container lifecycle state
//! machine. The kernel-facing calls themselves live outside this library;
//! everything here is ordinary data and logic, verified.

mod capability;
mod command;
mod config;
mod device;
mod engine;
mod error;
mod hook;
mod namespace;
mod params;
mod process;
mod resource;
mod rlimit;
mod rt;
mod seccomp;
mod status;
mod strutil;
mod sys;

pub use capability::Capabilities;
pub use capability::Capability;
pub use capability::lemma_capability_name_roundtrip;
pub use capability::parse_capability_list;
pub use command::Command;
pub use config::check_namespaces_unique;
pub use config::Config;
pub use config::Linux;
pub use config::namespaces_unique;
pub use config::Personality;
pub use device::Device;
pub use device::DeviceType;
pub use device::IdMapping;
pub use device::lemma_device_type_name_roundtrip;
pub use device::Mount;
pub use device::RootFs;
pub use engine::clone_flags;
pub use engine::join_requests;
pub use engine::lemma_flag_bits;
pub use engine::lemma_flags_additive;
pub use engine::lemma_no_request_no_flags;
pub use engine::namespace_flags;
pub use engine::spec_clone_flags;
pub use engine::spec_join_list;
pub use engine::spec_namespace_flags;
pub use engine::stack_top;
pub use error::CommandError;
pub use error::ConfigField;
pub use error::OCIError;
pub use error::RuntimeError;
pub use error::SyscallError;
pub use hook::Hook;
pub use hook::Hooks;
pub use namespace::lemma_namespace_name_roundtrip;
pub use namespace::Namespace;
pub use namespace::NamespaceType;
pub use namespace::parse_namespace_list;
pub use params::c_string_ok;
pub use params::command_str;
pub use params::has_nul;
pub use params::OsParams;
pub use params::Params;
pub use params::spec_byte_images;
pub use params::spec_first_nul;
pub use params::spec_gather;
pub use params::spec_gather_one;
pub use process::Process;
pub use process::Rectangle;
pub use process::User;
pub use resource::BlockIO;
pub use resource::CPU;
pub use resource::DeviceCgroup;
pub use resource::HugepageLimit;
pub use resource::InterfacePriority;
pub use resource::Memory;
pub use resource::Network;
pub use resource::Pids;
pub use resource::Rdma;
pub use resource::Resources;
pub use resource::ThrottleDevice;
pub use resource::WeightDevice;
pub use rlimit::check_rlimit_types_unique;
pub use rlimit::lemma_resource_limit_name_roundtrip;
pub use rlimit::ResourceLimit;
pub use rlimit::ResourceLimitType;
pub use rlimit::rlimit_types_unique;
pub use rt::Container;
pub use rt::ContainerRuntime;
pub use rt::lemma_create_duplicate_id;
pub use rt::lemma_delete_not_stopped_refused;
pub use rt::lemma_delete_stopped_removes;
pub use rt::lemma_start_created_runs;
pub use rt::lemma_start_running_refused;
pub use rt::Runtime;
pub use rt::spec_create;
pub use rt::spec_delete;
pub use rt::spec_kill;
pub use rt::spec_observe_exit;
pub use rt::spec_start;
pub use rt::spec_state;
pub use rt::state_matches;
pub use seccomp::lemma_seccomp_action_name_roundtrip;
pub use seccomp::lemma_seccomp_arch_name_roundtrip;
pub use seccomp::lemma_seccomp_operator_name_roundtrip;
pub use seccomp::Seccomp;
pub use seccomp::SeccompAction;
pub use seccomp::SeccompArch;
pub use seccomp::SeccompArg;
pub use seccomp::SeccompOperator;
pub use seccomp::SeccompSyscallFilter;
pub use status::ContainerState;
pub use status::ContainerStatus;
pub use status::lemma_status_name_roundtrip;
pub use strutil::str_eq;
pub use sys::errno;
pub use sys::IsMinusOne;
pub use sys::OsError;
pub use sys::Pid;
