//! Integer constants of the device interface.
//!
//! The driver reports errors as plain integer codes and encodes enumerated
//! parameters (pixel formats, trigger sources, switches) as integers. The
//! constants below are the subset of that encoding which the library's logic
//! and tests rely on.

use vstd::prelude::*;

verus! {

// ---------------------------------------------------------------------------
// Return codes.
// ---------------------------------------------------------------------------

/// The operation completed successfully.
pub const XI_OK: i32 = 0;

/// The wait for a frame ended before one arrived.
pub const XI_TIMEOUT: i32 = 10;

/// An argument was rejected: unknown value, out of range, or not on the
/// parameter's increment grid.
pub const XI_INVALID_ARG: i32 = 11;

/// The operation is not supported in the current state, for example writing a
/// read-only parameter or changing a configuration-only parameter while the
/// device is streaming.
pub const XI_NOT_SUPPORTED: i32 = 12;

/// The device model does not implement the requested feature.
pub const XI_NOT_IMPLEMENTED: i32 = 26;

// ---------------------------------------------------------------------------
// Switches.
// ---------------------------------------------------------------------------

/// Feature turned off.
pub const XI_OFF: i32 = 0;

/// Feature turned on.
pub const XI_ON: i32 = 1;

// ---------------------------------------------------------------------------
// Pixel formats.
// ---------------------------------------------------------------------------

/// 8-bit monochrome.
pub const XI_MONO8: i32 = 0;

/// 16-bit monochrome.
pub const XI_MONO16: i32 = 1;

/// 24-bit colour, three bytes per pixel.
pub const XI_RGB24: i32 = 2;

/// 32-bit colour, four bytes per pixel.
pub const XI_RGB32: i32 = 3;

/// Planar colour layout.
pub const XI_RGB_PLANAR: i32 = 4;

/// 8-bit raw sensor data.
pub const XI_RAW8: i32 = 5;

/// 16-bit raw sensor data.
pub const XI_RAW16: i32 = 6;

// ---------------------------------------------------------------------------
// Trigger sources.
// ---------------------------------------------------------------------------

/// Free-run: frames are produced continuously, no trigger required.
pub const XI_TRG_OFF: i32 = 0;

/// Trigger on a rising edge of a hardware input.
pub const XI_TRG_EDGE_RISING: i32 = 1;

/// Trigger on a falling edge of a hardware input.
pub const XI_TRG_EDGE_FALLING: i32 = 2;

/// Trigger by a software command.
pub const XI_TRG_SOFTWARE: i32 = 3;

// ---------------------------------------------------------------------------
// Downsampling.
// ---------------------------------------------------------------------------

/// Downsampling by binning neighbouring pixels.
pub const XI_BINNING: i32 = 0;

/// Downsampling by skipping pixels.
pub const XI_SKIPPING: i32 = 1;

/// No downsampling: 1x1.
pub const XI_DWN_1X1: i32 = 1;

/// Downsampling 2x2.
pub const XI_DWN_2X2: i32 = 2;

// ---------------------------------------------------------------------------
// Gain selectors.
// ---------------------------------------------------------------------------

/// The combined gain of all amplifier stages.
pub const XI_GAIN_SELECTOR_ALL: i32 = 0;

// ---------------------------------------------------------------------------
// Test pattern.
// ---------------------------------------------------------------------------

/// Test pattern generation turned off.
pub const XI_TESTPAT_OFF: i32 = 0;

// ---------------------------------------------------------------------------
// LEDs.
// ---------------------------------------------------------------------------

/// The first LED.
pub const XI_LED_SEL1: i32 = 1;

/// LED heartbeat mode: blink when the link is up.
pub const XI_LED_HEARTBEAT: i32 = 0;

/// LED blinking mode.
pub const XI_LED_BLINK: i32 = 9;

// ---------------------------------------------------------------------------
// Counter selectors.
// ---------------------------------------------------------------------------

/// Frames skipped on the transport layer.
pub const XI_CNT_SEL_TRANSPORT_SKIPPED_FRAMES: u32 = 0;

/// Frames skipped inside the driver.
pub const XI_CNT_SEL_API_SKIPPED_FRAMES: u32 = 1;

/// Buffers delivered since the last acquisition start.
pub const XI_CNT_SEL_TRANSPORT_TRANSFERRED_FRAMES: u32 = 2;

/// Triggers missed because they overlapped a running exposure.
pub const XI_CNT_SEL_FRAME_MISSED_TRIGGER_DUETO_OVERLAP: u32 = 3;

/// Triggers missed because the frame buffer was full.
pub const XI_CNT_SEL_FRAME_MISSED_TRIGGER_DUETO_FRAME_BUFFER_OVR: u32 = 4;

/// How often the frame buffer overflowed.
pub const XI_CNT_SEL_FRAME_BUFFER_OVERFLOW: u32 = 5;

/// How many counters the device keeps; selectors are `0..COUNTER_COUNT`.
pub const COUNTER_COUNT: u32 = 6;

} // verus!
