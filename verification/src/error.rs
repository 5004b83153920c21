use vstd::prelude::*;

verus! {

/// The recoverable failure kinds of the context bootstrap and of the
/// texture readback pipeline.
#[derive(Clone, Copy, Debug, PartialEq, Eq, Structural)]
pub enum GpuError {
    /// No graphics adapter offered a compatible surface format or mode.
    NoCompatibleAdapter,
    /// The selected adapter refused to hand out a logical device and queue.
    DeviceRequestFailed,
    /// A surface cannot be configured with a zero width or height.
    SurfaceConfigurationInvalid,
    /// A mapped staging buffer was read before the copy that fills it
    /// was submitted and completed.
    UnmappedBufferReadAttempted,
    /// A texture cannot have a zero extent, nor one whose row stride or
    /// byte size does not fit the machine.
    InvalidTextureExtent,
    /// An upload or copy layout disagrees with the texture or buffer it
    /// moves data between.
    LayoutMismatch,
    /// A read range reaches past the end of the staging buffer.
    RangeOutOfBounds,
}

} // verus!
