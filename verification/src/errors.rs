//! Out-of-memory errors, and the Vulkan result codes that report them.

use vstd::prelude::*;

use crate::vulkan::error_out_of_host_memory;

verus! {

/// A memory allocation that Vulkan reported failed.
#[derive(Debug, Clone, Copy, PartialEq, Eq, Structural)]
pub enum OutOfMemoryError {
    OutOfHostMemory,
    OutOfDeviceMemory,
}

/// Whether `code` is one of Vulkan's two out-of-memory result codes.
pub open spec fn is_out_of_memory_code(code: i32) -> bool {
    code == -1 || code == -2
}

impl OutOfMemoryError {
    /// The error that the out-of-memory result code `code` reports.
    pub fn from_result_code(code: i32) -> (r: Self)
        requires
            is_out_of_memory_code(code),
        ensures
            r == (if code == -1 {
                OutOfMemoryError::OutOfHostMemory
            } else {
                OutOfMemoryError::OutOfDeviceMemory
            }),
    {
        if code == error_out_of_host_memory() {
            OutOfMemoryError::OutOfHostMemory
        } else {
            OutOfMemoryError::OutOfDeviceMemory
        }
    }
}

} // verus!
