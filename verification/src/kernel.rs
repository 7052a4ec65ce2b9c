//! The kernel manager: the interface that ties the kernel's subsystems
//! together once boot hands over. Most of its duties — mounting the root
//! filesystem, launching userspace — live outside this core.

use vstd::prelude::*;

verus! {

/// Kernel privilege level: system-wide, not architecture-specific.
#[derive(PartialEq, Eq, Structural)]
pub enum PrivilegeLevel {
    User,
    Kernel,
    Hypervisor,
    Unknown,
}

/// The root filesystem the kernel manager mounts.
#[derive(Debug)]
pub struct RootFS {}

/// Owner of the kernel's top-level state.
#[derive(Debug)]
pub struct KernelManager {
    pub vfs: RootFS,
}

impl KernelManager {
    /// A default kernel manager over an empty root filesystem.
    pub fn new() -> (r: KernelManager)
        ensures
            r == (KernelManager { vfs: RootFS {  } }),
    {
        KernelManager { vfs: RootFS {  } }
    }
}

} // verus!
