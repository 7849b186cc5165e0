use vstd::prelude::*;

use crate::error::CreateSurfaceError;
use crate::handles::{classification, classify_handles, Backend, DisplayHandle, WindowHandle};

verus! {

/// What the lookup of the running process's module handle gave.
#[derive(Debug, Clone, Copy, PartialEq, Eq, Structural)]
pub enum InstanceHandleLookup {
    /// The module handle of the running process.
    Found(isize),
    /// This build target has no such lookup.
    UnsupportedTarget,
}

/// One native surface-creation call and the arguments handed to it.
/// Pointers are carried as addresses, with 0 for a null pointer.
#[derive(Debug, Clone, Copy, PartialEq, Eq, Structural)]
pub enum SurfaceCall {
    Win32 { hinstance: isize, hwnd: isize },
    Wayland { display: usize, surface: usize },
    Xcb { connection: usize, window: u32 },
    Xlib { window: u64 },
}

/// Where a surface construction stands, and what its driver must do next.
#[derive(Debug, Clone, Copy, PartialEq, Eq)]
pub enum SurfaceStep {
    /// Look up the module handle of the running process and report it.
    ResolveInstanceHandle { hwnd: isize },
    /// Make this native call and report what it returned.
    Invoke(SurfaceCall),
    /// Construction is over: the raw surface handle, or why there is none.
    Done(Result<u64, CreateSurfaceError>),
}

/// What the driver reports back after doing what a step asked.
#[derive(Debug, Clone, Copy, PartialEq, Eq)]
pub enum SurfaceEvent {
    InstanceHandle(InstanceHandleLookup),
    /// The native call's raw surface handle, or its Vulkan result code.
    NativeResult(Result<u64, i32>),
}

/// The address handed to the native call for an optional pointer.
pub open spec fn address_or_null(p: Option<usize>) -> usize {
    match p {
        Some(a) => a,
        None => 0,
    }
}

/// The first step for a classified backend: every field goes to the call
/// unchanged, and only a Win32 window without a module handle needs the
/// lookup first. The Xlib call takes the window alone.
pub open spec fn start_step(b: Backend) -> SurfaceStep {
    match b {
        Backend::Win32 { hwnd, hinstance } => match hinstance {
            Some(h) => SurfaceStep::Invoke(SurfaceCall::Win32 { hinstance: h, hwnd }),
            None => SurfaceStep::ResolveInstanceHandle { hwnd },
        },
        Backend::Wayland { surface, display } => SurfaceStep::Invoke(
            SurfaceCall::Wayland { display, surface },
        ),
        Backend::Xcb { window, connection } => SurfaceStep::Invoke(
            SurfaceCall::Xcb { connection: address_or_null(connection), window },
        ),
        Backend::Xlib { window } => SurfaceStep::Invoke(SurfaceCall::Xlib { window }),
    }
}

/// The first step for a handle pair; an unsupported pair ends at once.
pub open spec fn first_step(w: WindowHandle, d: DisplayHandle) -> SurfaceStep {
    match classification(w, d) {
        Ok(b) => start_step(b),
        Err(e) => SurfaceStep::Done(Err(e)),
    }
}

/// The step after `s` once the driver reports `e`. Native error codes pass
/// through unchanged; an event that does not answer the step changes nothing.
pub open spec fn next_step(s: SurfaceStep, e: SurfaceEvent) -> SurfaceStep {
    match (s, e) {
        (
            SurfaceStep::ResolveInstanceHandle { hwnd },
            SurfaceEvent::InstanceHandle(InstanceHandleLookup::Found(h)),
        ) => SurfaceStep::Invoke(SurfaceCall::Win32 { hinstance: h, hwnd }),
        (
            SurfaceStep::ResolveInstanceHandle { .. },
            SurfaceEvent::InstanceHandle(InstanceHandleLookup::UnsupportedTarget),
        ) => SurfaceStep::Done(Err(CreateSurfaceError::UnimplementedFallback)),
        (SurfaceStep::Invoke(_), SurfaceEvent::NativeResult(Ok(surface))) => SurfaceStep::Done(
            Ok(surface),
        ),
        (SurfaceStep::Invoke(_), SurfaceEvent::NativeResult(Err(code))) => SurfaceStep::Done(
            Err(CreateSurfaceError::SurfaceCreationFailed(code)),
        ),
        _ => s,
    }
}

/// The first step of building a surface for a classified backend.
pub fn start_surface(backend: &Backend) -> (r: SurfaceStep)
    ensures
        r == start_step(*backend),
{
    match backend {
        Backend::Win32 { hwnd, hinstance } => match hinstance {
            Some(h) => SurfaceStep::Invoke(SurfaceCall::Win32 { hinstance: *h, hwnd: *hwnd }),
            None => SurfaceStep::ResolveInstanceHandle { hwnd: *hwnd },
        },
        Backend::Wayland { surface, display } => SurfaceStep::Invoke(
            SurfaceCall::Wayland { display: *display, surface: *surface },
        ),
        Backend::Xcb { window, connection } => {
            let connection: usize = match connection {
                Some(a) => *a,
                None => 0,
            };
            SurfaceStep::Invoke(SurfaceCall::Xcb { connection, window: *window })
        },
        Backend::Xlib { window } => SurfaceStep::Invoke(SurfaceCall::Xlib { window: *window }),
    }
}

/// Surface constructor: classifies the handle pair and returns the first
/// step of building its surface. The driver carries out each step and feeds
/// the outcome to `SurfaceStep::advance` until the step is `Done`.
pub fn create_surface(window: &WindowHandle, display: &DisplayHandle) -> (r: SurfaceStep)
    ensures
        r == first_step(*window, *display),
{
    match classify_handles(window, display) {
        Ok(backend) => start_surface(&backend),
        Err(e) => SurfaceStep::Done(Err(e)),
    }
}

impl SurfaceStep {
    /// The step that follows once the driver reports `event`.
    pub fn advance(&self, event: SurfaceEvent) -> (r: SurfaceStep)
        ensures
            r == next_step(*self, event),
    {
        match (self, event) {
            (
                SurfaceStep::ResolveInstanceHandle { hwnd },
                SurfaceEvent::InstanceHandle(InstanceHandleLookup::Found(h)),
            ) => SurfaceStep::Invoke(SurfaceCall::Win32 { hinstance: h, hwnd: *hwnd }),
            (
                SurfaceStep::ResolveInstanceHandle { .. },
                SurfaceEvent::InstanceHandle(InstanceHandleLookup::UnsupportedTarget),
            ) => SurfaceStep::Done(Err(CreateSurfaceError::UnimplementedFallback)),
            (SurfaceStep::Invoke(_), SurfaceEvent::NativeResult(Ok(surface))) => SurfaceStep::Done(
                Ok(surface),
            ),
            (SurfaceStep::Invoke(_), SurfaceEvent::NativeResult(Err(code))) => SurfaceStep::Done(
                Err(CreateSurfaceError::SurfaceCreationFailed(code)),
            ),
            _ => *self,
        }
    }

    /// Whether construction is over.
    pub fn is_done(&self) -> (r: bool)
        ensures
            r == (*self is Done),
    {
        match self {
            SurfaceStep::Done(_) => true,
            _ => false,
        }
    }
}

} // verus!
