//! Unforgeable zero-sized proof tokens for protected kernel operations.
//!
//! Each token is a marker value whose only construction path is the one
//! factory function below: every operation that demands a token names the
//! token type in its signature, so possession of a value is structural,
//! compile-time-checked proof of having gone through the factory. There is
//! no runtime check, no revocation and no expiry.

use vstd::prelude::*;

verus! {

/// Proof of the right to allocate kernel memory on behalf of a process,
/// consumed by the construction of the inter-process communication driver.
pub struct MemoryAllocationCapability {
    _private: (),
}

/// Proof of the right to install the kernel's debug writer.
pub struct SetDebugWriterCapability {
    _private: (),
}

/// Proof of the right to enter the kernel main loop.
pub struct MainLoopCapability {
    _private: (),
}

/// Issues a memory-allocation token. Called once, by the boot sequence.
pub fn issue_memory_allocation_capability() -> MemoryAllocationCapability {
    MemoryAllocationCapability { _private: () }
}

/// Issues a debug-writer token. Called once, by the boot sequence.
pub fn issue_set_debug_writer_capability() -> SetDebugWriterCapability {
    SetDebugWriterCapability { _private: () }
}

/// Issues a main-loop token. Called once, at the main-loop entry point.
pub fn issue_main_loop_capability() -> MainLoopCapability {
    MainLoopCapability { _private: () }
}

} // verus!
