//! The boundary between the capture core and the graphics stack.
//!
//! The core never touches the graphics stack itself. It names the next
//! [`Request`] that its host must carry out, and decides what follows from the
//! [`Reply`] that the host hands back.

use vstd::prelude::*;
use crate::recorder::Frame;

verus! {

/// Index of the adapter that capture runs on: the first one enumerated.
pub const ADAPTER_INDEX: u32 = 0;

/// Index of the output that is duplicated: the first one of the adapter.
pub const OUTPUT_INDEX: u32 = 0;

/// Baseline feature level asked of the device (Direct3D 11.0).
pub const FEATURE_LEVEL: u32 = 0xb000;

/// Why an acquisition or a capture loop ended without success.
#[derive(Clone, Copy, Debug, PartialEq, Eq, Structural)]
pub enum CaptureError {
    /// The adapter could not be enumerated; carries the status code.
    AdapterUnavailable(i32),
    /// The device could not be created; carries the status code.
    DeviceCreation(i32),
    /// The output could not be enumerated; carries the status code.
    OutputUnavailable(i32),
    /// Every duplication attempt failed.
    DuplicationExhausted,
    /// The acquisition handed to a new session has not finished.
    NotAcquired,
    /// A capture loop of this session has been started and has not exited.
    AlreadyRunning,
    /// The reply cannot answer the request in flight, or none is in flight.
    UnexpectedReply,
    /// The surface of an acquired frame could not be described; carries the status code.
    SurfaceUnavailable(i32),
    /// The frame handler reported a failure.
    CallbackFailed,
    /// The frame could not be released; carries the status code.
    ReleaseFailed(i32),
}

/// What the host must do next on behalf of the core.
#[derive(Clone, Copy, Debug, PartialEq, Eq, Structural)]
pub enum Request {
    /// Enumerate the adapter at `index`.
    EnumAdapters { index: u32 },
    /// Create a device on the enumerated adapter.
    CreateDevice { feature_level: u32 },
    /// Enumerate the output at `index` of the adapter.
    EnumOutputs { index: u32 },
    /// Try to duplicate the output; `attempt` counts from 1.
    DuplicateOutput { attempt: u32 },
    /// Do nothing for `millis` milliseconds.
    Sleep { millis: u64 },
    /// Wait up to `timeout_ms` milliseconds for the next frame.
    AcquireNextFrame { timeout_ms: u32 },
    /// Read the dimensions of the surface of the acquired frame.
    DescribeFrame,
    /// Hand `frame` to the frame handler and wait for it to return.
    InvokeCallback { frame: Frame },
    /// Give the acquired frame back to the duplication.
    ReleaseFrame,
}

/// What came of the request in flight.
#[derive(Clone, Copy, Debug, PartialEq, Eq, Structural)]
pub enum Reply {
    /// The request succeeded and has nothing to report.
    Done,
    /// The request failed with the status code `code`.
    Failed { code: i32 },
    /// The surface of the acquired frame measures `width` by `height` pixels.
    Surface { width: u32, height: u32 },
}

} // verus!
