//! The errors that the library reports, and the reading of the native error
//! code that is polled after each native call.

use vstd::prelude::*;
use crate::consts::{
    ALC_INVALID_CONTEXT, ALC_INVALID_DEVICE, ALC_INVALID_ENUM, ALC_INVALID_VALUE, ALC_NO_ERROR,
    ALC_OUT_OF_MEMORY,
};
use crate::ext::{Alc, Symbol};

verus! {

/// Everything that can go wrong in the device layer.
#[derive(Clone, Copy, Debug, PartialEq, Eq, Structural)]
pub enum AltoError {
    /// The native library rejected the device handle, or returned a null
    /// handle from an open call.
    AlcInvalidDevice,
    /// The native library rejected the context handle.
    AlcInvalidContext,
    /// The native library did not recognise an enumeration value.
    AlcInvalidEnum,
    /// The native library found a value out of range.
    AlcInvalidValue,
    /// The native library ran out of memory.
    AlcOutOfMemory,
    /// The native library is older than version 1.1, or of another major
    /// version.
    AlcUnsupportedVersion,
    /// The named extension did not resolve.
    AlcExtensionNotPresent(Alc),
    /// The named constant or entry point of an extension did not resolve,
    /// though the extension itself did.
    AlcSymbolNotPresent(Symbol),
    /// The native library reported a code that this layer does not know.
    AlcUnknownError,
}

/// The error that stands for a native error code other than "no error".
pub open spec fn spec_from_alc(code: i32) -> AltoError {
    if code == ALC_INVALID_DEVICE {
        AltoError::AlcInvalidDevice
    } else if code == ALC_INVALID_CONTEXT {
        AltoError::AlcInvalidContext
    } else if code == ALC_INVALID_ENUM {
        AltoError::AlcInvalidEnum
    } else if code == ALC_INVALID_VALUE {
        AltoError::AlcInvalidValue
    } else if code == ALC_OUT_OF_MEMORY {
        AltoError::AlcOutOfMemory
    } else {
        AltoError::AlcUnknownError
    }
}

/// What an error poll that returned `code` means: success on "no error",
/// else the error that the code stands for.
pub open spec fn spec_poll(code: i32) -> Result<(), AltoError> {
    if code == ALC_NO_ERROR {
        Ok(())
    } else {
        Err(spec_from_alc(code))
    }
}

impl AltoError {
    /// Reads a native error code.
    pub fn from_alc(code: i32) -> (e: AltoError)
        ensures
            e == spec_from_alc(code),
    {
        if code == ALC_INVALID_DEVICE {
            AltoError::AlcInvalidDevice
        } else if code == ALC_INVALID_CONTEXT {
            AltoError::AlcInvalidContext
        } else if code == ALC_INVALID_ENUM {
            AltoError::AlcInvalidEnum
        } else if code == ALC_INVALID_VALUE {
            AltoError::AlcInvalidValue
        } else if code == ALC_OUT_OF_MEMORY {
            AltoError::AlcOutOfMemory
        } else {
            AltoError::AlcUnknownError
        }
    }
}

/// What a native call that yielded `value` comes to once the error code
/// polled after it is `code`: the value on "no error", else the error, even
/// though a value was returned.
pub open spec fn spec_polled<T>(value: T, code: i32) -> Result<T, AltoError> {
    if code == ALC_NO_ERROR {
        Ok(value)
    } else {
        Err(spec_from_alc(code))
    }
}

/// Reads the error code polled after a native call.
pub fn poll(code: i32) -> (r: Result<(), AltoError>)
    ensures
        r == spec_poll(code),
{
    if code == ALC_NO_ERROR {
        Ok(())
    } else {
        Err(AltoError::from_alc(code))
    }
}

/// Holds the value that a native call yielded against the error code polled
/// after it: the error code decides.
pub fn polled<T>(value: T, code: i32) -> (r: Result<T, AltoError>)
    ensures
        r == spec_polled(value, code),
{
    if code == ALC_NO_ERROR {
        Ok(value)
    } else {
        Err(AltoError::from_alc(code))
    }
}

/// An error poll fails exactly on a code other than "no error", and the
/// error is then never a missing extension or an unsupported version.
pub proof fn lemma_poll_fails_iff_error_code(code: i32)
    ensures
        spec_poll(code) is Ok <==> code == ALC_NO_ERROR,
        spec_poll(code) is Err ==> !(spec_poll(code)->Err_0 is AlcExtensionNotPresent)
            && !(spec_poll(code)->Err_0 is AlcSymbolNotPresent) && spec_poll(code)->Err_0
            != AltoError::AlcUnsupportedVersion,
{
}

} // verus!
