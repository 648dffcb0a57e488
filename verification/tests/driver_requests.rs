//! The exact native requests the lifecycle hands to the platform adapter:
//! attribute lists, window-handle routing, and presentation actions.

use pi_egl::attribs::{
    egl_config_attribs, egl_context_attribs, egl_surface_attribs, wgl_context_attribs,
    wgl_pixel_format_attribs,
};
use pi_egl::{
    Backend, ContextRequest, DriverBoot, Instance, PowerPreference, SurfaceRequest,
    WglExtensions, WindowHandle,
};

fn instance_for(backend: Backend) -> Instance {
    let display: u64 = match backend {
        Backend::WebGl2 => 0,
        _ => 0x4000,
    };
    let boot = DriverBoot {
        backend,
        display,
        extensions: WglExtensions {
            choose_pixel_format: true,
            create_context_attribs: true,
            swap_interval: true,
        },
        pacing_requested: false,
        pacing_ready: false,
    };
    Instance::new(PowerPreference::HighPerformance, true, boot).unwrap()
}

#[test]
fn wgl_pixel_format_attribute_list_is_exact() {
    assert_eq!(
        wgl_pixel_format_attribs(),
        vec![
            0x2001, 1, // draw to window
            0x2010, 1, // support opengl
            0x2011, 1, // double buffer
            0x2003, 0x2027, // full hardware acceleration
            0x2013, 0x202b, // rgba pixel type
            0x2014, 32, // color bits
            0x2022, 24, // depth bits
            0x2023, 8, // stencil bits
            0x201b, 8, // alpha bits
            0,
        ]
    );
}

#[test]
fn wgl_context_attribute_list_requests_33_core() {
    assert_eq!(
        wgl_context_attribs(),
        vec![0x2091, 3, 0x2092, 3, 0x9126, 0x0001, 0]
    );
}

#[test]
fn egl_config_attribute_list_is_exact() {
    assert_eq!(
        egl_config_attribs(),
        vec![
            0x3040, 0x0004, // renderable type: ES2 bit
            0x3033, 0x0004, // surface type: window bit
            0x3022, 8, // blue
            0x3023, 8, // green
            0x3024, 8, // red
            0x3025, 24, // depth
            0x3038, 0, 0, 0, // terminator and padding
        ]
    );
}

#[test]
fn egl_context_attribute_list_requests_es3() {
    assert_eq!(egl_context_attribs(), vec![0x3098, 3, 0x3038]);
    assert_eq!(egl_surface_attribs(), vec![0x3038]);
}

#[test]
fn context_request_carries_the_lists_per_backend() {
    match instance_for(Backend::Wgl).context_request().unwrap() {
        ContextRequest::Wgl { pixel_format_attribs, context_attribs } => {
            assert_eq!(pixel_format_attribs, wgl_pixel_format_attribs());
            assert_eq!(context_attribs, wgl_context_attribs());
        }
        other => panic!("expected a WGL request, got {:?}", other),
    }
    match instance_for(Backend::Egl).context_request().unwrap() {
        ContextRequest::Egl { config_attribs, context_attribs } => {
            assert_eq!(config_attribs, egl_config_attribs());
            assert_eq!(context_attribs, egl_context_attribs());
        }
        other => panic!("expected an EGL request, got {:?}", other),
    }
    assert_eq!(instance_for(Backend::WebGl2).context_request().unwrap(), ContextRequest::WebGl2);
}

#[test]
fn surface_request_routes_each_accepted_handle_kind() {
    match instance_for(Backend::Wgl)
        .surface_request(&WindowHandle::Win32 { hwnd: 0x77 })
        .unwrap()
    {
        SurfaceRequest::Wgl { hwnd } => assert_eq!(hwnd, 0x77),
        other => panic!("expected a WGL request, got {:?}", other),
    }

    match instance_for(Backend::Egl)
        .surface_request(&WindowHandle::AndroidNdk { native_window: 0x88 })
        .unwrap()
    {
        SurfaceRequest::Egl { native_window, config_attribs, surface_attribs } => {
            assert_eq!(native_window, 0x88);
            assert_eq!(config_attribs, egl_config_attribs());
            assert_eq!(surface_attribs, egl_surface_attribs());
        }
        other => panic!("expected an EGL request, got {:?}", other),
    }

    match instance_for(Backend::Egl)
        .surface_request(&WindowHandle::Xlib { window: 0x99 })
        .unwrap()
    {
        SurfaceRequest::Egl { native_window, .. } => assert_eq!(native_window, 0x99),
        other => panic!("expected an EGL request, got {:?}", other),
    }

    match instance_for(Backend::WebGl2)
        .surface_request(&WindowHandle::Web { id: 6 })
        .unwrap()
    {
        SurfaceRequest::WebGl2 { id } => assert_eq!(id, 6),
        other => panic!("expected a web request, got {:?}", other),
    }
}

#[test]
fn window_handles_expose_their_native_value() {
    assert_eq!(WindowHandle::Win32 { hwnd: 0x10 }.native(), 0x10);
    assert_eq!(WindowHandle::AndroidNdk { native_window: 0x20 }.native(), 0x20);
    assert_eq!(WindowHandle::Xlib { window: 0x30 }.native(), 0x30);
    assert_eq!(WindowHandle::Web { id: 0x40 }.native(), 0x40);
}
