//! Integer constants of the native device API.

use vstd::prelude::*;

verus! {

/// Boolean false as the native API writes it.
pub const ALC_FALSE: i32 = 0;

/// Boolean true as the native API writes it.
pub const ALC_TRUE: i32 = 1;

/// Error code reported when the last operation succeeded.
pub const ALC_NO_ERROR: i32 = 0;

/// Error code: the device handle is not valid.
pub const ALC_INVALID_DEVICE: i32 = 0xA001;

/// Error code: the context handle is not valid.
pub const ALC_INVALID_CONTEXT: i32 = 0xA002;

/// Error code: an enumeration value was not recognised.
pub const ALC_INVALID_ENUM: i32 = 0xA003;

/// Error code: a value was out of range.
pub const ALC_INVALID_VALUE: i32 = 0xA004;

/// Error code: the native library ran out of memory.
pub const ALC_OUT_OF_MEMORY: i32 = 0xA005;

/// Integer property: major version of the native library.
pub const ALC_MAJOR_VERSION: i32 = 0x1000;

/// Integer property: minor version of the native library.
pub const ALC_MINOR_VERSION: i32 = 0x1001;

/// String property: specifier of the default output device.
pub const ALC_DEFAULT_DEVICE_SPECIFIER: i32 = 0x1004;

/// String property: table of the output device specifiers.
pub const ALC_DEVICE_SPECIFIER: i32 = 0x1005;

/// Attribute key: output sampling rate.
pub const ALC_FREQUENCY: i32 = 0x1007;

/// Attribute key: refresh rate of the mixer.
pub const ALC_REFRESH: i32 = 0x1008;

/// Attribute key: hint for the number of mono sources.
pub const ALC_MONO_SOURCES: i32 = 0x1010;

/// Attribute key: hint for the number of stereo sources.
pub const ALC_STEREO_SOURCES: i32 = 0x1011;

/// String property: table of the capture device specifiers.
pub const ALC_CAPTURE_DEVICE_SPECIFIER: i32 = 0x310;

/// String property: specifier of the default capture device.
pub const ALC_CAPTURE_DEFAULT_DEVICE_SPECIFIER: i32 = 0x311;

} // verus!
