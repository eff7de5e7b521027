//! Resource-limit and container-configuration values handed to a container
//! runtime, as plain data.
use vstd::prelude::*;

verus! {

/// Bytes in one mebibyte.
pub const MIB: i64 = 1048576;

/// CPU scheduling period, in microseconds.
pub const CPU_PERIOD: i64 = 100000;

/// CPU quota per period: half of one core.
pub const CPU_QUOTA: i64 = 50000;

/// Host-side limits of one container.
#[derive(Debug, Clone)]
pub struct HostLimits {
    /// Hard memory cap, in bytes.
    pub memory: Option<i64>,
    /// Memory plus swap cap, in bytes; equal to `memory` to forbid swapping.
    pub memory_swap: Option<i64>,
    pub cpu_period: Option<i64>,
    pub cpu_quota: Option<i64>,
    pub security_opt: Option<Vec<String>>,
    pub network_mode: Option<String>,
}

/// The creation parameters of one container.
#[derive(Debug, Clone)]
pub struct ContainerConfig {
    pub image: Option<String>,
    pub cmd: Option<Vec<String>>,
    pub host_config: Option<HostLimits>,
    pub working_dir: Option<String>,
    pub env: Option<Vec<String>>,
    pub network_disabled: Option<bool>,
    pub open_stdin: Option<bool>,
}

/// A memory limit in MiB, in bytes.
pub fn memory_bytes(memory_limit_mb: u32) -> (r: i64)
    ensures
        r == memory_limit_mb as int * MIB,
{
    memory_limit_mb as i64 * MIB
}

} // verus!
