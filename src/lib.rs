//! Platform layer that turns a native window/display handle pair into the
//! Vulkan instance extensions it needs and the surface-creation call that
//! builds a presentation surface for it.

pub mod error;
pub mod extensions;
pub mod handles;
pub mod laws;
pub mod surface;

pub use error::CreateSurfaceError;
pub use extensions::{extensions_for_kind, get_required_instance_extensions};
pub use handles::{classify_handles, Backend, BackendKind, DisplayHandle, WindowHandle};
pub use surface::{
    create_surface, start_surface, InstanceHandleLookup, SurfaceCall, SurfaceEvent, SurfaceStep,
};
