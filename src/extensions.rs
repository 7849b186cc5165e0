use vstd::prelude::*;

use crate::error::CreateSurfaceError;
use crate::handles::{classification, classify_handles, BackendKind, DisplayHandle, WindowHandle};

verus! {

/// Registry name of the generic surface extension.
pub open spec fn surface_extension() -> Seq<char> {
    "VK_KHR_surface"@
}

/// Registry name of the one extension specific to a backend.
pub open spec fn backend_extension(kind: BackendKind) -> Seq<char> {
    match kind {
        BackendKind::Win32 => "VK_KHR_win32_surface"@,
        BackendKind::Wayland => "VK_KHR_wayland_surface"@,
        BackendKind::Xcb => "VK_KHR_xcb_surface"@,
        BackendKind::Xlib => "VK_KHR_xlib_surface"@,
    }
}

/// The instance extensions a backend needs, in the order they are requested.
pub open spec fn extensions_for(kind: BackendKind) -> Seq<Seq<char>> {
    seq![surface_extension(), backend_extension(kind)]
}

/// The extensions a handle pair needs, or the classifier's error.
pub open spec fn required_extensions(w: WindowHandle, d: DisplayHandle) -> Result<
    Seq<Seq<char>>,
    CreateSurfaceError,
> {
    match classification(w, d) {
        Ok(b) => Ok(extensions_for(b.spec_kind())),
        Err(e) => Err(e),
    }
}

/// The character sequences held by a list of names.
pub open spec fn names_of(v: Seq<String>) -> Seq<Seq<char>> {
    v.map_values(|s: String| s@)
}

/// An advertiser result seen as character sequences.
pub open spec fn advertised(r: Result<Vec<String>, CreateSurfaceError>) -> Result<
    Seq<Seq<char>>,
    CreateSurfaceError,
> {
    match r {
        Ok(v) => Ok(names_of(v@)),
        Err(e) => Err(e),
    }
}

/// Relies on ash::extensions::khr::Surface::name, the literal "VK_KHR_surface".
#[verifier::external_body]
fn surface_extension_name() -> (r: String)
    ensures
        r@ == "VK_KHR_surface"@,
{
    ash::extensions::khr::Surface::name().to_string_lossy().into_owned()
}

/// Relies on ash::extensions::khr::Win32Surface::name, the literal "VK_KHR_win32_surface".
#[verifier::external_body]
fn win32_surface_extension_name() -> (r: String)
    ensures
        r@ == "VK_KHR_win32_surface"@,
{
    ash::extensions::khr::Win32Surface::name().to_string_lossy().into_owned()
}

/// Relies on ash::extensions::khr::WaylandSurface::name, the literal "VK_KHR_wayland_surface".
#[verifier::external_body]
fn wayland_surface_extension_name() -> (r: String)
    ensures
        r@ == "VK_KHR_wayland_surface"@,
{
    ash::extensions::khr::WaylandSurface::name().to_string_lossy().into_owned()
}

/// Relies on ash::extensions::khr::XcbSurface::name, the literal "VK_KHR_xcb_surface".
#[verifier::external_body]
fn xcb_surface_extension_name() -> (r: String)
    ensures
        r@ == "VK_KHR_xcb_surface"@,
{
    ash::extensions::khr::XcbSurface::name().to_string_lossy().into_owned()
}

/// Relies on ash::extensions::khr::XlibSurface::name, the literal "VK_KHR_xlib_surface".
#[verifier::external_body]
fn xlib_surface_extension_name() -> (r: String)
    ensures
        r@ == "VK_KHR_xlib_surface"@,
{
    ash::extensions::khr::XlibSurface::name().to_string_lossy().into_owned()
}

/// The instance extensions a backend needs: the generic surface extension,
/// then the backend's own.
pub fn extensions_for_kind(kind: BackendKind) -> (r: Vec<String>)
    ensures
        names_of(r@) == extensions_for(kind),
{
    let specific = match kind {
        BackendKind::Win32 => win32_surface_extension_name(),
        BackendKind::Wayland => wayland_surface_extension_name(),
        BackendKind::Xcb => xcb_surface_extension_name(),
        BackendKind::Xlib => xlib_surface_extension_name(),
    };
    let mut r: Vec<String> = Vec::new();
    r.push(surface_extension_name());
    r.push(specific);
    assert(names_of(r@) =~= extensions_for(kind));
    r
}

/// Extension advertiser: the instance extensions that surface creation for
/// this handle pair will need, or `Unsupported` exactly when the classifier
/// rejects the pair. Reads only the handle tags.
pub fn get_required_instance_extensions(window: &WindowHandle, display: &DisplayHandle) -> (r:
    Result<Vec<String>, CreateSurfaceError>)
    ensures
        advertised(r) == required_extensions(*window, *display),
{
    match classify_handles(window, display) {
        Ok(backend) => Ok(extensions_for_kind(backend.kind())),
        Err(e) => Err(e),
    }
}

} // verus!
