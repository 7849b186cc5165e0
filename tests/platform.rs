use surface_platform::{
    create_surface, extensions_for_kind, get_required_instance_extensions, start_surface,
    classify_handles, Backend, BackendKind, CreateSurfaceError, DisplayHandle, InstanceHandleLookup,
    SurfaceCall, SurfaceEvent, SurfaceStep, WindowHandle,
};

fn all_windows() -> Vec<WindowHandle> {
    vec![
        WindowHandle::Win32 { hwnd: 0x1234, hinstance: None },
        WindowHandle::Win32 { hwnd: 0x1234, hinstance: Some(0x4000) },
        WindowHandle::Wayland { surface: 0x7f00_1000 },
        WindowHandle::Xcb { window: 42 },
        WindowHandle::Xlib { window: 0x0060_0001 },
        WindowHandle::Other,
    ]
}

fn all_displays() -> Vec<DisplayHandle> {
    vec![
        DisplayHandle::Windows,
        DisplayHandle::Wayland { display: 0x7f00_2000 },
        DisplayHandle::Xcb { connection: Some(0x7f00_3000) },
        DisplayHandle::Xcb { connection: None },
        DisplayHandle::Xlib { display: Some(0x7f00_4000), screen: 0 },
        DisplayHandle::Xlib { display: None, screen: 1 },
        DisplayHandle::Other,
    ]
}

fn strings(names: &[&str]) -> Vec<String> {
    names.iter().map(|s| s.to_string()).collect()
}

#[test]
fn win32_pair_without_module_handle() {
    let w = WindowHandle::Win32 { hwnd: 0x1234, hinstance: None };
    let d = DisplayHandle::Windows;
    assert_eq!(
        classify_handles(&w, &d),
        Ok(Backend::Win32 { hwnd: 0x1234, hinstance: None })
    );
    assert_eq!(
        get_required_instance_extensions(&w, &d),
        Ok(strings(&["VK_KHR_surface", "VK_KHR_win32_surface"]))
    );
    let mut lookups = 0;
    let mut step = create_surface(&w, &d);
    let mut calls = Vec::new();
    while !step.is_done() {
        let event = match step {
            SurfaceStep::ResolveInstanceHandle { .. } => {
                lookups += 1;
                SurfaceEvent::InstanceHandle(InstanceHandleLookup::Found(0x5000))
            }
            SurfaceStep::Invoke(call) => {
                calls.push(call);
                SurfaceEvent::NativeResult(Ok(77))
            }
            SurfaceStep::Done(_) => unreachable!(),
        };
        step = step.advance(event);
    }
    assert_eq!(lookups, 1);
    assert_eq!(calls, vec![SurfaceCall::Win32 { hinstance: 0x5000, hwnd: 0x1234 }]);
    assert_eq!(step, SurfaceStep::Done(Ok(77)));
}

#[test]
fn win32_pair_with_module_handle_skips_lookup() {
    let w = WindowHandle::Win32 { hwnd: 0x1234, hinstance: Some(0x4000) };
    let step = create_surface(&w, &DisplayHandle::Windows);
    assert_eq!(
        step,
        SurfaceStep::Invoke(SurfaceCall::Win32 { hinstance: 0x4000, hwnd: 0x1234 })
    );
}

#[test]
fn win32_lookup_unavailable_on_target() {
    let w = WindowHandle::Win32 { hwnd: 9, hinstance: None };
    let step = create_surface(&w, &DisplayHandle::Windows);
    assert_eq!(step, SurfaceStep::ResolveInstanceHandle { hwnd: 9 });
    let next = step.advance(SurfaceEvent::InstanceHandle(InstanceHandleLookup::UnsupportedTarget));
    assert_eq!(next, SurfaceStep::Done(Err(CreateSurfaceError::UnimplementedFallback)));
}

#[test]
fn wayland_pointers_pass_through() {
    let w = WindowHandle::Wayland { surface: 0x7f00_1000 };
    let d = DisplayHandle::Wayland { display: 0x7f00_2000 };
    assert_eq!(
        classify_handles(&w, &d),
        Ok(Backend::Wayland { surface: 0x7f00_1000, display: 0x7f00_2000 })
    );
    assert_eq!(
        get_required_instance_extensions(&w, &d),
        Ok(strings(&["VK_KHR_surface", "VK_KHR_wayland_surface"]))
    );
    let step = create_surface(&w, &d);
    assert_eq!(
        step,
        SurfaceStep::Invoke(SurfaceCall::Wayland { display: 0x7f00_2000, surface: 0x7f00_1000 })
    );
    let done = step.advance(SurfaceEvent::NativeResult(Ok(5)));
    assert_eq!(done, SurfaceStep::Done(Ok(5)));
}

#[test]
fn xlib_call_takes_window_only() {
    let w = WindowHandle::Xlib { window: 0x0060_0001 };
    let d = DisplayHandle::Xlib { display: Some(0x7f00_4000), screen: 0 };
    assert_eq!(classify_handles(&w, &d), Ok(Backend::Xlib { window: 0x0060_0001 }));
    assert_eq!(
        get_required_instance_extensions(&w, &d),
        Ok(strings(&["VK_KHR_surface", "VK_KHR_xlib_surface"]))
    );
    assert_eq!(
        create_surface(&w, &d),
        SurfaceStep::Invoke(SurfaceCall::Xlib { window: 0x0060_0001 })
    );
}

#[test]
fn xcb_window_with_wayland_display_is_unsupported() {
    let w = WindowHandle::Xcb { window: 42 };
    let d = DisplayHandle::Wayland { display: 0x7f00_2000 };
    assert_eq!(classify_handles(&w, &d), Err(CreateSurfaceError::Unsupported));
    assert_eq!(
        get_required_instance_extensions(&w, &d),
        Err(CreateSurfaceError::Unsupported)
    );
    assert_eq!(
        create_surface(&w, &d),
        SurfaceStep::Done(Err(CreateSurfaceError::Unsupported))
    );
}

#[test]
fn xcb_connection_absent_becomes_null() {
    let w = WindowHandle::Xcb { window: 42 };
    assert_eq!(
        get_required_instance_extensions(&w, &DisplayHandle::Xcb { connection: None }),
        Ok(strings(&["VK_KHR_surface", "VK_KHR_xcb_surface"]))
    );
    assert_eq!(
        create_surface(&w, &DisplayHandle::Xcb { connection: None }),
        SurfaceStep::Invoke(SurfaceCall::Xcb { connection: 0, window: 42 })
    );
    assert_eq!(
        create_surface(&w, &DisplayHandle::Xcb { connection: Some(0x7f00_3000) }),
        SurfaceStep::Invoke(SurfaceCall::Xcb { connection: 0x7f00_3000, window: 42 })
    );
}

#[test]
fn native_error_code_passes_through() {
    let step = create_surface(&WindowHandle::Xcb { window: 1 }, &DisplayHandle::Xcb { connection: None });
    let done = step.advance(SurfaceEvent::NativeResult(Err(-1_000_000_001)));
    assert_eq!(
        done,
        SurfaceStep::Done(Err(CreateSurfaceError::SurfaceCreationFailed(-1_000_000_001)))
    );
}

#[test]
fn unanswered_event_leaves_step_unchanged() {
    let step = SurfaceStep::ResolveInstanceHandle { hwnd: 3 };
    assert_eq!(step.advance(SurfaceEvent::NativeResult(Ok(1))), step);
    let call = SurfaceStep::Invoke(SurfaceCall::Xlib { window: 2 });
    assert_eq!(
        call.advance(SurfaceEvent::InstanceHandle(InstanceHandleLookup::Found(4))),
        call
    );
    let done = SurfaceStep::Done(Ok(8));
    assert_eq!(done.advance(SurfaceEvent::NativeResult(Err(-4))), done);
}

#[test]
fn classifier_and_advertiser_agree_on_every_pair() {
    for w in all_windows() {
        for d in all_displays() {
            let c = classify_handles(&w, &d);
            let e = get_required_instance_extensions(&w, &d);
            assert_eq!(c.is_ok(), e.is_ok(), "{:?} {:?}", w, d);
            let started = !matches!(create_surface(&w, &d), SurfaceStep::Done(_));
            assert_eq!(c.is_ok(), started, "{:?} {:?}", w, d);
            if let Err(err) = e {
                assert_eq!(err, CreateSurfaceError::Unsupported);
            }
        }
    }
}

#[test]
fn mixed_families_never_match() {
    for w in all_windows() {
        for d in all_displays() {
            if w.family() != d.family() {
                assert_eq!(classify_handles(&w, &d), Err(CreateSurfaceError::Unsupported));
            }
        }
    }
    assert_eq!(
        classify_handles(&WindowHandle::Other, &DisplayHandle::Other),
        Err(CreateSurfaceError::Unsupported)
    );
}

#[test]
fn extension_list_is_generic_plus_one() {
    let kinds = [BackendKind::Win32, BackendKind::Wayland, BackendKind::Xcb, BackendKind::Xlib];
    let mut specific = Vec::new();
    for kind in kinds {
        let names = extensions_for_kind(kind);
        assert_eq!(names.len(), 2);
        assert_eq!(names[0], "VK_KHR_surface");
        assert_ne!(names[1], "VK_KHR_surface");
        specific.push(names[1].clone());
    }
    assert_eq!(
        specific,
        strings(&[
            "VK_KHR_win32_surface",
            "VK_KHR_wayland_surface",
            "VK_KHR_xcb_surface",
            "VK_KHR_xlib_surface",
        ])
    );
}

#[test]
fn advertiser_is_idempotent() {
    for w in all_windows() {
        for d in all_displays() {
            assert_eq!(
                get_required_instance_extensions(&w, &d),
                get_required_instance_extensions(&w, &d)
            );
        }
    }
}

#[test]
fn backend_kind_follows_window_family() {
    let b = start_surface(&Backend::Xlib { window: 5 });
    assert_eq!(b, SurfaceStep::Invoke(SurfaceCall::Xlib { window: 5 }));
    assert_eq!(Backend::Wayland { surface: 1, display: 2 }.kind(), BackendKind::Wayland);
    assert_eq!(WindowHandle::Xcb { window: 1 }.family(), Some(BackendKind::Xcb));
    assert_eq!(DisplayHandle::Windows.family(), Some(BackendKind::Win32));
    assert_eq!(WindowHandle::Other.family(), None);
}
