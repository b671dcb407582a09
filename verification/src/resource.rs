//! The cgroup-directed resource model: memory and CPU limits, process
//! counts, block-I/O weights and throttles, huge pages, network handles,
//! RDMA handles, and the free-form unified map.

use vstd::prelude::*;

verus! {

/// One device-cgroup rule.
#[derive(Clone, Debug)]
pub struct DeviceCgroup {
    pub allow: bool,
    pub typ: Option<String>,
    pub major: Option<i64>,
    pub minor: Option<i64>,
    pub access: Option<String>,
}

/// Memory limits, in bytes where applicable.
#[derive(Clone, Copy, Debug, PartialEq, Eq, Structural)]
pub struct Memory {
    pub limit: Option<i64>,
    pub reservation: Option<i64>,
    pub swap: Option<i64>,
    pub kernel: Option<i64>,
    pub kernel_tcp: Option<i64>,
    pub swappiness: Option<u64>,
    pub disable_oom_killer: Option<bool>,
    pub use_hierarchy: Option<bool>,
}

/// CPU shares, quotas, and placement.
#[derive(Clone, Debug)]
pub struct CPU {
    pub shares: Option<u64>,
    pub quota: Option<i64>,
    pub period: Option<u64>,
    pub realtime_runtime: Option<i64>,
    pub realtime_period: Option<u64>,
    pub cpus: Option<String>,
    pub mems: Option<String>,
    pub idle: Option<i64>,
}

/// The maximum number of processes in the container.
#[derive(Clone, Copy, Debug, PartialEq, Eq, Structural)]
pub struct Pids {
    pub limit: i64,
}

/// Network class id and per-interface priorities.
#[derive(Clone, Debug)]
pub struct Network {
    pub class_id: Option<u32>,
    pub priorities: Vec<InterfacePriority>,
}

/// The priority assigned to traffic on one named interface.
#[derive(Clone, Debug)]
pub struct InterfacePriority {
    pub name: String,
    pub priority: u32,
}

/// The limit for one huge-page size.
#[derive(Clone, Debug)]
pub struct HugepageLimit {
    pub page_size: String,
    pub limit: u64,
}

/// RDMA handle and object limits for one device.
#[derive(Clone, Copy, Debug, PartialEq, Eq, Structural)]
pub struct Rdma {
    pub hca_handles: Option<u32>,
    pub hca_objects: Option<u32>,
}

/// Block-I/O weights and per-device throttling rates.
#[derive(Clone, Debug)]
pub struct BlockIO {
    pub weight: Option<u16>,
    pub leaf_weight: Option<u16>,
    pub weight_device: Vec<WeightDevice>,
    pub throttle_read_bps_device: Vec<ThrottleDevice>,
    pub throttle_write_bps_device: Vec<ThrottleDevice>,
    pub throttle_read_iops_device: Vec<ThrottleDevice>,
    pub throttle_write_iops_device: Vec<ThrottleDevice>,
}

/// The bandwidth weight for one device.
#[derive(Clone, Copy, Debug, PartialEq, Eq, Structural)]
pub struct WeightDevice {
    pub major: i64,
    pub minor: i64,
    pub weight: Option<u16>,
    pub leaf_weight: Option<u16>,
}

/// A throttling rate for one device.
#[derive(Clone, Copy, Debug, PartialEq, Eq, Structural)]
pub struct ThrottleDevice {
    pub major: i64,
    pub minor: i64,
    pub rate: Option<u64>,
}

/// Everything the configuration directs at the cgroup subsystem. Map-like
/// fields are kept as ordered key-value lists, preserving document order.
#[derive(Clone, Debug)]
pub struct Resources {
    pub devices: Vec<DeviceCgroup>,
    pub memory: Option<Memory>,
    pub cpu: Option<CPU>,
    pub pids: Option<Pids>,
    pub block_io: Option<BlockIO>,
    pub hugepage_limits: Vec<HugepageLimit>,
    pub network: Option<Network>,
    pub rdma: Vec<(String, Rdma)>,
    pub unified: Vec<(String, String)>,
}

} // verus!
