use vstd::prelude::*;

verus! {

/// Why a rendering context could not be acquired. Every failure is terminal
/// for the attempt that met it.
#[derive(Clone, Debug, PartialEq, Eq)]
pub enum InitError {
    /// The named binding target does not exist in the host environment.
    TargetNotFound,
    /// The target exists but is not a drawable surface.
    InvalidTargetType,
    /// The host lacks the required graphics API.
    GraphicsUnsupported,
    /// The windowing library could not construct a window; holds its reason.
    WindowCreationFailed(String),
    /// No graphics adapter is compatible with the surface.
    NoCompatibleAdapter,
    /// The adapter could not produce a device and queue; holds the backend's reason.
    DeviceNegotiationFailed(String),
}

} // verus!
