//! Native status codes (`esp_err_t`) and the error type built from them.

use vstd::prelude::*;

verus! {

/// Success.
pub const ESP_OK: i32 = 0;

/// Generic failure.
pub const ESP_FAIL: i32 = -1;

/// Out of memory.
pub const ESP_ERR_NO_MEM: i32 = 0x101;

/// Invalid argument.
pub const ESP_ERR_INVALID_ARG: i32 = 0x102;

/// Invalid state.
pub const ESP_ERR_INVALID_STATE: i32 = 0x103;

/// Invalid size.
pub const ESP_ERR_INVALID_SIZE: i32 = 0x104;

/// Requested resource not found.
pub const ESP_ERR_NOT_FOUND: i32 = 0x105;

/// Operation or feature not supported.
pub const ESP_ERR_NOT_SUPPORTED: i32 = 0x106;

/// Operation timed out.
pub const ESP_ERR_TIMEOUT: i32 = 0x107;

/// A failed native status: always a non-zero `esp_err_t`.
#[derive(Debug, Clone, Copy, PartialEq, Eq, Structural)]
pub struct EspError {
    code: i32,
}

impl EspError {
    #[verifier::type_invariant]
    spec fn inv(self) -> bool {
        self.code != ESP_OK
    }

    /// The native code this error carries.
    pub closed spec fn spec_code(self) -> i32 {
        self.code
    }

    /// The error for a native status, or `None` when the status is `ESP_OK`.
    pub fn from_code(code: i32) -> (r: Option<EspError>)
        ensures
            r is None <==> code == ESP_OK,
            r matches Some(e) ==> e.spec_code() == code,
    {
        if code == ESP_OK {
            None
        } else {
            Some(EspError { code })
        }
    }

    /// The error for a status that is known to be a failure.
    pub fn from_non_zero(code: i32) -> (e: EspError)
        requires
            code != ESP_OK,
        ensures
            e.spec_code() == code,
    {
        EspError { code }
    }

    /// The native code this error carries; never `ESP_OK`.
    pub fn code(&self) -> (c: i32)
        ensures
            c == self.spec_code(),
            c != ESP_OK,
    {
        proof {
            use_type_invariant(self);
        }
        self.code
    }
}

/// Turns a native status into a `Result`: `Ok` exactly for `ESP_OK`.
pub fn esp_result(code: i32) -> (r: Result<(), EspError>)
    ensures
        r is Ok <==> code == ESP_OK,
        r matches Err(e) ==> e.spec_code() == code,
{
    match EspError::from_code(code) {
        None => Ok(()),
        Some(e) => Err(e),
    }
}

} // verus!
