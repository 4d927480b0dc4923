use vstd::prelude::*;

verus! {

/// Where the memory of a GPU buffer lives.
#[derive(Debug, Clone, Copy, PartialEq, Eq, Structural)]
pub enum BufferStorage {
    /// Memory the CPU can write to directly.
    HostVisible,
    /// Fast device-local memory; uploads go through a staging buffer.
    DeviceLocal,
}

} // verus!
