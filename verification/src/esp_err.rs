//! The ESP-IDF error codes that the firmware reports over the link.

use vstd::prelude::*;

verus! {

/// Success.
pub const ESP_OK: i32 = 0;

/// Generic failure.
pub const ESP_FAIL: i32 = -1;

/// An argument is out of range.
pub const ESP_ERR_INVALID_ARG: i32 = 0x102;

/// The device is not in a state that allows the operation.
pub const ESP_ERR_INVALID_STATE: i32 = 0x103;

/// A size is out of range or inconsistent.
pub const ESP_ERR_INVALID_SIZE: i32 = 0x104;

/// A checksum did not match.
pub const ESP_ERR_INVALID_CRC: i32 = 0x109;

} // verus!
