//! The values that the control plane exchanges with its callers.

use vstd::prelude::*;

verus! {

/// Marks a type that serves one of the control plane's interfaces.
pub trait ApiBase: Send + Sync + 'static {

}

/// What a caller may ask a machine to do.
#[derive(Debug, Clone, Copy, PartialEq, Eq, Structural)]
pub enum MachineAction {
    ForceShutdown,
    ForceReset,
    Shutdown,
    Suspend,
    Resume,
    Boot,
}

/// The state of a machine as callers see it.
#[derive(Debug, Clone, Copy, PartialEq, Eq, Structural)]
pub enum MachineState {
    Running,
    Suspended,
    Off,
    Error,
}

/// The attributes of a CPU device.
#[derive(Debug, Clone, Copy, PartialEq, Eq, Structural)]
pub struct CpuDevice {
    pub cores: u64,
}

/// The attributes of a memory device.
#[derive(Debug, Clone, Copy, PartialEq, Eq, Structural)]
pub struct MemoryDevice {
    pub bytes: u64,
}

/// The attributes of a block device.
#[derive(Debug, Clone, Copy, PartialEq, Eq, Structural)]
pub struct BlockDevice {
    pub bytes: u64,
}

} // verus!
