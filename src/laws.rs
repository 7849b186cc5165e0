use vstd::prelude::*;

use crate::error::CreateSurfaceError;
use crate::extensions::{
    advertised, backend_extension, extensions_for, required_extensions, surface_extension,
};
use crate::handles::{classification, display_family, window_family, BackendKind, DisplayHandle, WindowHandle};
use crate::surface::{first_step, next_step, SurfaceEvent, SurfaceStep};

verus! {

/// The classifier, the advertiser and the surface constructor agree on
/// which handle pairs are supported: all three accept a pair or all three
/// reject it, and a rejection is always `Unsupported`.
pub proof fn lemma_classifier_and_advertiser_agree(w: WindowHandle, d: DisplayHandle)
    ensures
        classification(w, d) is Ok <==> required_extensions(w, d) is Ok,
        classification(w, d) is Err ==> classification(w, d) == Err::<
            crate::handles::Backend,
            CreateSurfaceError,
        >(CreateSurfaceError::Unsupported),
        required_extensions(w, d) is Err ==> required_extensions(w, d) == Err::<
            Seq<Seq<char>>,
            CreateSurfaceError,
        >(CreateSurfaceError::Unsupported),
        classification(w, d) is Err <==> first_step(w, d) == SurfaceStep::Done(
            Err(CreateSurfaceError::Unsupported),
        ),
{
}

/// A window handle and a display handle of different backend families
/// never select a backend, nor an extension list.
pub proof fn lemma_mixed_families_unsupported(w: WindowHandle, d: DisplayHandle)
    requires
        window_family(w) != display_family(d),
    ensures
        classification(w, d) == Err::<crate::handles::Backend, CreateSurfaceError>(
            CreateSurfaceError::Unsupported,
        ),
        required_extensions(w, d) == Err::<Seq<Seq<char>>, CreateSurfaceError>(
            CreateSurfaceError::Unsupported,
        ),
{
}

/// The five extension names are pairwise distinct.
proof fn lemma_extension_names_distinct()
    ensures
        forall|k: BackendKind| backend_extension(k) != surface_extension(),
        forall|k1: BackendKind, k2: BackendKind|
            backend_extension(k1) == backend_extension(k2) ==> k1 == k2,
{
    reveal_strlit("VK_KHR_surface");
    reveal_strlit("VK_KHR_win32_surface");
    reveal_strlit("VK_KHR_wayland_surface");
    reveal_strlit("VK_KHR_xcb_surface");
    reveal_strlit("VK_KHR_xlib_surface");
    assert(surface_extension().len() == 14);
    assert(backend_extension(BackendKind::Win32).len() == 20);
    assert(backend_extension(BackendKind::Wayland).len() == 22);
    assert(backend_extension(BackendKind::Xcb).len() == 18);
    assert(backend_extension(BackendKind::Xlib).len() == 19);
}

/// For a supported pair the advertised list is never empty: it holds the
/// generic surface extension first, then exactly one backend-specific
/// extension, the one of the pair's own backend.
pub proof fn lemma_extension_list_shape(w: WindowHandle, d: DisplayHandle)
    requires
        classification(w, d) is Ok,
    ensures
        ({
            let names = required_extensions(w, d)->Ok_0;
            let kind = classification(w, d)->Ok_0.spec_kind();
            &&& required_extensions(w, d) is Ok
            &&& names.len() == 2
            &&& names[0] == surface_extension()
            &&& names[1] == backend_extension(kind)
            &&& names[1] != surface_extension()
            &&& forall|k: BackendKind| names.contains(backend_extension(k)) <==> k == kind
        }),
{
    lemma_extension_names_distinct();
    let names = required_extensions(w, d)->Ok_0;
    let kind = classification(w, d)->Ok_0.spec_kind();
    assert(names == extensions_for(kind));
    assert forall|k: BackendKind| names.contains(backend_extension(k)) <==> k == kind by {
        if k == kind {
            assert(names[1] == backend_extension(k));
        }
        if names.contains(backend_extension(k)) {
            let i = choose|i: int| 0 <= i < names.len() && names[i] == backend_extension(k);
            assert(i == 0 || i == 1);
        }
    }
}

/// Two advertiser results for the same handle pair are the same ordered
/// list of names (or the same error).
pub proof fn lemma_advertiser_idempotent(
    w: WindowHandle,
    d: DisplayHandle,
    first: Result<Vec<String>, CreateSurfaceError>,
    second: Result<Vec<String>, CreateSurfaceError>,
)
    requires
        advertised(first) == required_extensions(w, d),
        advertised(second) == required_extensions(w, d),
    ensures
        advertised(first) == advertised(second),
{
}

/// The module-handle lookup is asked for first, and exactly when a Win32
/// window without a module handle meets a Windows display.
pub proof fn lemma_instance_lookup_first(w: WindowHandle, d: DisplayHandle)
    ensures
        first_step(w, d) is ResolveInstanceHandle <==> (w matches WindowHandle::Win32 {
            hinstance: None,
            ..
        } && d is Windows),
{
}

/// Once answered, the module-handle lookup is never asked for again: no
/// step after the first asks for it, so a construction asks at most once.
pub proof fn lemma_instance_lookup_not_repeated(s: SurfaceStep, e: SurfaceEvent)
    requires
        s is ResolveInstanceHandle ==> e is InstanceHandle,
    ensures
        !(next_step(s, e) is ResolveInstanceHandle),
{
}

} // verus!
