//! Host-system description shape.

use vstd::prelude::*;

verus! {

/// A snapshot of the host system's fixed characteristics.
#[derive(Debug, Clone)]
pub struct SystemInfo {
    pub os_name: String,
    pub os_version: String,
    pub host_name: String,
    pub cpu_count: usize,
    pub total_memory: u64,
    pub total_swap: u64,
    pub kernel_version: String,
}

} // verus!
