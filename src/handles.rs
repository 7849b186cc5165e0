use vstd::prelude::*;

use crate::error::CreateSurfaceError;

verus! {

/// A native window handle, tagged with the windowing system that produced it.
///
/// Pointers are carried as addresses; `Other` stands for every windowing
/// system this library has no backend for.
#[derive(Debug, Clone, Copy, PartialEq, Eq, Structural)]
pub enum WindowHandle {
    Win32 { hwnd: isize, hinstance: Option<isize> },
    Wayland { surface: usize },
    Xcb { window: u32 },
    Xlib { window: u64 },
    Other,
}

/// The display (connection) context that a window belongs to.
#[derive(Debug, Clone, Copy, PartialEq, Eq, Structural)]
pub enum DisplayHandle {
    Windows,
    Wayland { display: usize },
    Xcb { connection: Option<usize> },
    Xlib { display: Option<usize>, screen: i32 },
    Other,
}

/// The closed set of platform backends a surface can be built for.
#[derive(Debug, Clone, Copy, PartialEq, Eq, Structural)]
pub enum BackendKind {
    Win32,
    Wayland,
    Xcb,
    Xlib,
}

/// A classified handle pair: one case per backend, holding exactly the raw
/// fields that backend's surface-creation call needs.
#[derive(Debug, Clone, Copy, PartialEq, Eq, Structural)]
pub enum Backend {
    Win32 { hwnd: isize, hinstance: Option<isize> },
    Wayland { surface: usize, display: usize },
    Xcb { window: u32, connection: Option<usize> },
    Xlib { window: u64 },
}

/// The backend family a window handle belongs to, if any.
pub open spec fn window_family(w: WindowHandle) -> Option<BackendKind> {
    match w {
        WindowHandle::Win32 { .. } => Some(BackendKind::Win32),
        WindowHandle::Wayland { .. } => Some(BackendKind::Wayland),
        WindowHandle::Xcb { .. } => Some(BackendKind::Xcb),
        WindowHandle::Xlib { .. } => Some(BackendKind::Xlib),
        WindowHandle::Other => None,
    }
}

/// The backend family a display handle belongs to, if any.
pub open spec fn display_family(d: DisplayHandle) -> Option<BackendKind> {
    match d {
        DisplayHandle::Windows => Some(BackendKind::Win32),
        DisplayHandle::Wayland { .. } => Some(BackendKind::Wayland),
        DisplayHandle::Xcb { .. } => Some(BackendKind::Xcb),
        DisplayHandle::Xlib { .. } => Some(BackendKind::Xlib),
        DisplayHandle::Other => None,
    }
}

/// The backend a handle pair selects: both handles must belong to the same
/// supported family, and the backend keeps the fields its call needs.
pub open spec fn classification(w: WindowHandle, d: DisplayHandle) -> Result<Backend, CreateSurfaceError> {
    match (w, d) {
        (WindowHandle::Win32 { hwnd, hinstance }, DisplayHandle::Windows) =>
            Ok(Backend::Win32 { hwnd, hinstance }),
        (WindowHandle::Wayland { surface }, DisplayHandle::Wayland { display }) =>
            Ok(Backend::Wayland { surface, display }),
        (WindowHandle::Xcb { window }, DisplayHandle::Xcb { connection }) =>
            Ok(Backend::Xcb { window, connection }),
        (WindowHandle::Xlib { window }, DisplayHandle::Xlib { .. }) => Ok(Backend::Xlib { window }),
        _ => Err(CreateSurfaceError::Unsupported),
    }
}

impl Backend {
    pub open spec fn spec_kind(self) -> BackendKind {
        match self {
            Backend::Win32 { .. } => BackendKind::Win32,
            Backend::Wayland { .. } => BackendKind::Wayland,
            Backend::Xcb { .. } => BackendKind::Xcb,
            Backend::Xlib { .. } => BackendKind::Xlib,
        }
    }

    /// The backend family of this classified pair.
    pub fn kind(&self) -> (r: BackendKind)
        ensures
            r == self.spec_kind(),
    {
        match self {
            Backend::Win32 { .. } => BackendKind::Win32,
            Backend::Wayland { .. } => BackendKind::Wayland,
            Backend::Xcb { .. } => BackendKind::Xcb,
            Backend::Xlib { .. } => BackendKind::Xlib,
        }
    }
}

impl WindowHandle {
    /// The backend family this window handle belongs to, if any.
    pub fn family(&self) -> (r: Option<BackendKind>)
        ensures
            r == window_family(*self),
    {
        match self {
            WindowHandle::Win32 { .. } => Some(BackendKind::Win32),
            WindowHandle::Wayland { .. } => Some(BackendKind::Wayland),
            WindowHandle::Xcb { .. } => Some(BackendKind::Xcb),
            WindowHandle::Xlib { .. } => Some(BackendKind::Xlib),
            WindowHandle::Other => None,
        }
    }
}

impl DisplayHandle {
    /// The backend family this display handle belongs to, if any.
    pub fn family(&self) -> (r: Option<BackendKind>)
        ensures
            r == display_family(*self),
    {
        match self {
            DisplayHandle::Windows => Some(BackendKind::Win32),
            DisplayHandle::Wayland { .. } => Some(BackendKind::Wayland),
            DisplayHandle::Xcb { .. } => Some(BackendKind::Xcb),
            DisplayHandle::Xlib { .. } => Some(BackendKind::Xlib),
            DisplayHandle::Other => None,
        }
    }
}

/// Handle classifier: picks the backend whose window and display tags both
/// match, or fails with `Unsupported` (a pair from two different families
/// never selects either side).
pub fn classify_handles(window: &WindowHandle, display: &DisplayHandle) -> (r: Result<
    Backend,
    CreateSurfaceError,
>)
    ensures
        r == classification(*window, *display),
        r is Ok ==> r->Ok_0.spec_kind() == window_family(*window)->Some_0,
{
    match (window, display) {
        (WindowHandle::Win32 { hwnd, hinstance }, DisplayHandle::Windows) => Ok(
            Backend::Win32 { hwnd: *hwnd, hinstance: *hinstance },
        ),
        (WindowHandle::Wayland { surface }, DisplayHandle::Wayland { display }) => Ok(
            Backend::Wayland { surface: *surface, display: *display },
        ),
        (WindowHandle::Xcb { window }, DisplayHandle::Xcb { connection }) => Ok(
            Backend::Xcb { window: *window, connection: *connection },
        ),
        (WindowHandle::Xlib { window }, DisplayHandle::Xlib { .. }) => Ok(
            Backend::Xlib { window: *window },
        ),
        _ => Err(CreateSurfaceError::Unsupported),
    }
}

} // verus!
