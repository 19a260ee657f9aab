//! Verified core of a wrapper around the AMD System Management Interface
//! library (`libamd_smi.so`): status handling, error values, and the
//! decisions taken around each call into the library.
//!
//! The calls into the shared library itself are made by the caller, who
//! hands their results (status codes, counts, buffers) to the functions
//! here; the library value `L` that performs them is carried along inside
//! [`AmdSmi`] and reached from every handle.

use std::sync::Arc;
use vstd::prelude::*;

pub mod error;
pub mod handles;
pub mod processes;
pub mod status;
pub mod text;

use error::{status_check, AmdError, AmdInitError};
use status::AmdStatus;

verus! {

/// The file name under which the AMD SMI shared library is loaded.
pub const LIB_PATH: &'static str = "libamd_smi.so";

/// Main wrapper around the AMD SMI library.
///
/// `L` is the loaded library through which the calls are made.
///
/// # Shutdown
/// The library is shut down when the value of `L` is dropped.
pub struct AmdSmi<L> {
    amdsmi: L,
}

/// Another pointer to the same shared value (`std::sync::Arc::clone`):
/// the contract claims that it designates an equal value.
#[verifier::external_body]
pub(crate) fn share<T>(value: &Arc<T>) -> (res: Arc<T>)
    ensures
        res == *value,
{
    Arc::clone(value)
}

impl<L> AmdSmi<L> {
    /// The loaded library.
    pub closed spec fn lib(&self) -> L {
        self.amdsmi
    }

    /// The loaded library, through which the calls are made.
    pub fn library(&self) -> (res: &L)
        ensures
            *res == self.lib(),
    {
        &self.amdsmi
    }

    /// Checks the value of a status to return `Ok` or `Err`.
    ///
    /// `message` is the library's description of `status`
    /// ([`error::message_for_status`]), looked up when `status` is not a
    /// success; it becomes the message of the error.
    pub fn check_status(&self, status: AmdStatus, message: Option<String>) -> (res: Result<(), AmdError>)
        ensures
            res == status_check(status, message),
            res is Ok <==> status.0 == 0,
            res matches Err(e) ==> e.status == status && e.message == message,
    {
        if status.is_success() {
            Ok(())
        } else {
            Err(AmdError { status, message })
        }
    }

    /// The value a call produced, once its status is checked: `Ok(value)`
    /// when the call succeeded, the error of [`AmdSmi::check_status`]
    /// otherwise.
    pub fn checked<T>(&self, status: AmdStatus, message: Option<String>, value: T) -> (res: Result<T, AmdError>)
        ensures
            match res {
                Ok(v) => status.succeeded() && v == value,
                Err(e) => status_check(status, message) == Err::<(), AmdError>(e),
            },
            res is Ok <==> status.0 == 0,
            res matches Ok(v) ==> v == value,
            res matches Err(e) ==> e.status == status && e.message == message,
    {
        match self.check_status(status, message) {
            Ok(()) => Ok(value),
            Err(e) => Err(e),
        }
    }

    /// Finishes the initialization of the AMD SMI library.
    ///
    /// `amdsmi` is the loaded library, and `status` what its `amdsmi_init`
    /// returned (with `message`, the description of a failing status).
    /// On failure the library is dropped, which shuts it down.
    pub fn init(amdsmi: L, status: AmdStatus, message: Option<String>) -> (res: Result<Arc<Self>, AmdInitError>)
        ensures
            match res {
                Ok(smi) => status.succeeded() && smi.lib() == amdsmi,
                Err(e) => !status.succeeded() && e == AmdInitError::Init(AmdError { status, message }),
            },
            res is Ok <==> status.0 == 0,
            res matches Err(e) ==> (e matches AmdInitError::Init(err) && err.status == status && err.message == message),
    {
        let instance = Arc::new(AmdSmi { amdsmi });
        match instance.check_status(status, message) {
            Ok(()) => Ok(instance),
            Err(e) => Err(AmdInitError::from(e)),
        }
    }

    /// How many handles to make room for, after the call that counts them
    /// (`amdsmi_get_socket_handles` or `amdsmi_get_processor_handles` with
    /// no buffer) returned `status` and `count`.
    pub fn handle_slots(&self, status: AmdStatus, message: Option<String>, count: u32) -> (res: Result<usize, AmdError>)
        ensures
            match res {
                Ok(n) => status.succeeded() && n == count,
                Err(e) => status_check(status, message) == Err::<(), AmdError>(e),
            },
            res is Ok <==> status.0 == 0,
            res matches Ok(n) ==> n == count,
            res matches Err(e) ==> e.status == status && e.message == message,
    {
        match self.check_status(status, message) {
            Ok(()) => Ok(count as usize),
            Err(e) => Err(e),
        }
    }
}

} // verus!
