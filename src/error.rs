use vstd::prelude::*;

verus! {

/// Why no surface (or no extension list) could be produced.
#[derive(Debug, Clone, Copy, PartialEq, Eq, Structural)]
pub enum CreateSurfaceError {
    /// The window and display handles match no supported backend.
    Unsupported,
    /// The native surface-creation call failed with this Vulkan result code.
    SurfaceCreationFailed(i32),
    /// The Win32 module-handle lookup is not available on this target.
    UnimplementedFallback,
}

} // verus!
