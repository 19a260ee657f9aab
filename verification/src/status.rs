//! Status codes and initialization flags of the AMD SMI library.

use vstd::prelude::*;

verus! {

/// A status code returned by every call into the AMD SMI library.
#[allow(non_camel_case_types)]
#[derive(Clone, Copy, Debug, PartialEq, Eq, Hash, Structural)]
pub struct amdsmi_status_t(pub u32);

/// A status code returned by every call into the AMD SMI library.
pub type AmdStatus = amdsmi_status_t;

/// Call succeeded.
pub const AMDSMI_STATUS_SUCCESS: u32 = 0;
/// Invalid parameters.
pub const AMDSMI_STATUS_INVAL: u32 = 1;
/// Command not supported.
pub const AMDSMI_STATUS_NOT_SUPPORTED: u32 = 2;
/// Not implemented yet.
pub const AMDSMI_STATUS_NOT_YET_IMPLEMENTED: u32 = 3;
/// Failed to load a module.
pub const AMDSMI_STATUS_FAIL_LOAD_MODULE: u32 = 4;
/// Failed to load a symbol.
pub const AMDSMI_STATUS_FAIL_LOAD_SYMBOL: u32 = 5;
/// Error when calling libdrm.
pub const AMDSMI_STATUS_DRM_ERROR: u32 = 6;
/// API call failed.
pub const AMDSMI_STATUS_API_FAILED: u32 = 7;
/// Timeout in API call.
pub const AMDSMI_STATUS_TIMEOUT: u32 = 8;
/// Retry operation.
pub const AMDSMI_STATUS_RETRY: u32 = 9;
/// Permission denied.
pub const AMDSMI_STATUS_NO_PERM: u32 = 10;
/// An interrupt occurred during execution of the function.
pub const AMDSMI_STATUS_INTERRUPT: u32 = 11;
/// I/O error.
pub const AMDSMI_STATUS_IO: u32 = 12;
/// Bad address.
pub const AMDSMI_STATUS_ADDRESS_FAULT: u32 = 13;
/// Problem accessing a file.
pub const AMDSMI_STATUS_FILE_ERROR: u32 = 14;
/// Not enough memory; for list queries, the buffer was too small.
pub const AMDSMI_STATUS_OUT_OF_RESOURCES: u32 = 15;
/// An internal exception was caught.
pub const AMDSMI_STATUS_INTERNAL_EXCEPTION: u32 = 16;
/// The provided input is out of the allowed range.
pub const AMDSMI_STATUS_INPUT_OUT_OF_BOUNDS: u32 = 17;
/// An error occurred when initializing internal data structures.
pub const AMDSMI_STATUS_INIT_ERROR: u32 = 18;
/// An internal reference counter overflowed.
pub const AMDSMI_STATUS_REFCOUNT_OVERFLOW: u32 = 19;
/// Processor busy.
pub const AMDSMI_STATUS_BUSY: u32 = 30;
/// Processor not found.
pub const AMDSMI_STATUS_NOT_FOUND: u32 = 31;
/// Processor not initialized.
pub const AMDSMI_STATUS_NOT_INIT: u32 = 32;
/// No more free slot.
pub const AMDSMI_STATUS_NO_SLOT: u32 = 33;
/// Processor driver not loaded.
pub const AMDSMI_STATUS_DRIVER_NOT_LOADED: u32 = 34;
/// No data was found for a given input.
pub const AMDSMI_STATUS_NO_DATA: u32 = 40;
/// Not enough resources were available for the operation.
pub const AMDSMI_STATUS_INSUFFICIENT_SIZE: u32 = 41;
/// An unexpected amount of data was read.
pub const AMDSMI_STATUS_UNEXPECTED_SIZE: u32 = 42;
/// The data read or provided is not what was expected.
pub const AMDSMI_STATUS_UNEXPECTED_DATA: u32 = 43;
/// The internal library error did not map to a status code.
pub const AMDSMI_STATUS_MAP_ERROR: u32 = 0xFFFF_FFFE;
/// An unknown error occurred.
pub const AMDSMI_STATUS_UNKNOWN_ERROR: u32 = 0xFFFF_FFFF;

impl AmdStatus {
    /// True for the one status that reports a successful call.
    pub open spec fn succeeded(self) -> bool {
        self.0 == AMDSMI_STATUS_SUCCESS
    }

    /// Whether this status reports a successful call.
    pub fn is_success(&self) -> (res: bool)
        ensures
            res == self.succeeded(),
            res == (self.0 == 0),
    {
        self.0 == AMDSMI_STATUS_SUCCESS
    }
}

/// A status reports success exactly when its code is 0
/// (`AMDSMI_STATUS_SUCCESS`); every other code reports a failure.
pub proof fn law_success_is_code_zero(status: AmdStatus)
    ensures
        status.succeeded() <==> status.0 == 0,
{
}

/// Initialization flags for the library, a set of bits: which kinds of
/// processors to discover.
#[allow(non_camel_case_types)]
#[derive(Clone, Copy, Debug, PartialEq, Eq, Hash, Structural)]
pub struct amdsmi_init_flags_t(pub u32);

/// Initialization flags for the library.
pub type AmdInitFlags = amdsmi_init_flags_t;

/// Initialize all processors.
pub const AMDSMI_INIT_ALL_PROCESSORS: u32 = 0xFFFF_FFFF;
/// Initialize AMD CPUs.
pub const AMDSMI_INIT_AMD_CPUS: u32 = 1;
/// Initialize AMD GPUs.
pub const AMDSMI_INIT_AMD_GPUS: u32 = 2;
/// Initialize non-AMD CPUs.
pub const AMDSMI_INIT_NON_AMD_CPUS: u32 = 4;
/// Initialize non-AMD GPUs.
pub const AMDSMI_INIT_NON_AMD_GPUS: u32 = 8;
/// Initialize AMD APUs: AMD CPUs and AMD GPUs.
pub const AMDSMI_INIT_AMD_APUS: u32 = 3;

impl AmdInitFlags {
    /// The flags as `amdsmi_init` takes them: a 64-bit value with the same
    /// bits.
    pub fn bits(&self) -> (res: u64)
        ensures
            res == self.0,
    {
        self.0 as u64
    }

    /// The flags set in either `self` or `other`.
    pub fn union(self, other: AmdInitFlags) -> (res: AmdInitFlags)
        ensures
            res.0 == self.0 | other.0,
    {
        amdsmi_init_flags_t(self.0 | other.0)
    }

    /// The flags set in both `self` and `other`.
    pub fn intersection(self, other: AmdInitFlags) -> (res: AmdInitFlags)
        ensures
            res.0 == self.0 & other.0,
    {
        amdsmi_init_flags_t(self.0 & other.0)
    }
}

} // verus!
