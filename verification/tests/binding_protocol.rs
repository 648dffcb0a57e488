//! The current-binding protocol: idempotent unbinding, table identity
//! across rebinds, and the no-table-before-first-bind boundary.

use pi_egl::{
    Backend, BindAction, Binding, ContextReply, DriverBoot, Instance, PowerPreference,
    SurfaceReply, WglExtensions, WindowHandle,
};

fn booted_egl() -> Instance {
    let boot = DriverBoot {
        backend: Backend::Egl,
        display: 0x2000,
        extensions: WglExtensions {
            choose_pixel_format: false,
            create_context_attribs: false,
            swap_interval: false,
        },
        pacing_requested: false,
        pacing_ready: false,
    };
    Instance::new(PowerPreference::HighPerformance, true, boot).unwrap()
}

fn a_surface(instance: &mut Instance, window: u64, handle: u64) -> pi_egl::Surface {
    instance
        .create_surface(
            &WindowHandle::AndroidNdk { native_window: window },
            SurfaceReply { handle, width: 256, height: 128 },
        )
        .unwrap()
}

#[test]
fn unbinding_twice_is_safe_and_stays_unbound() {
    let mut instance = booted_egl();
    let context = instance.create_context(ContextReply { handle: 0x51 }).unwrap();
    let surface = a_surface(&mut instance, 0x31, 0x41);
    instance.make_current(Some(&surface), Some(&context));

    let first = instance.make_current(None, None);
    assert_eq!(first, BindAction::Unbind { display: 0x2000 });
    assert_eq!(instance.binding, Binding::NotBound);

    let second = instance.make_current(None, None);
    assert_eq!(second, BindAction::Unbind { display: 0x2000 });
    assert_eq!(instance.binding, Binding::NotBound);
}

#[test]
fn rebinding_returns_the_same_cached_table() {
    let mut instance = booted_egl();
    let context = instance.create_context(ContextReply { handle: 0x51 }).unwrap();
    let surface = a_surface(&mut instance, 0x31, 0x41);

    instance.make_current(Some(&surface), Some(&context));
    let first_table = *instance.get_glow();

    instance.make_current(None, None);
    let action = instance.make_current(Some(&surface), Some(&context));
    match action {
        BindAction::Bind { load_table, .. } => assert!(!load_table),
        other => panic!("expected a bind action, got {:?}", other),
    }
    let second_table = *instance.get_glow();
    assert_eq!(first_table, second_table);
}

#[test]
fn rebinding_with_another_context_keeps_the_first_table() {
    let mut instance = booted_egl();
    let first = instance.create_context(ContextReply { handle: 0x51 }).unwrap();
    let second = instance.create_context(ContextReply { handle: 0x52 }).unwrap();
    let surface = a_surface(&mut instance, 0x31, 0x41);

    instance.make_current(Some(&surface), Some(&first));
    let table = *instance.get_glow();
    assert_eq!(table.loaded_for_context, 0x51);

    instance.make_current(None, None);
    instance.make_current(Some(&surface), Some(&second));
    assert_eq!(*instance.get_glow(), table);
}

#[test]
fn no_table_before_the_first_bind() {
    let mut instance = booted_egl();
    assert!(instance.try_get_glow().is_none());

    let _ = instance.create_context(ContextReply { handle: 0x51 }).unwrap();
    let _ = a_surface(&mut instance, 0x31, 0x41);
    assert!(instance.try_get_glow().is_none());

    instance.make_current(None, None);
    assert!(instance.try_get_glow().is_none());
}

#[test]
fn a_surface_without_a_context_unbinds() {
    let mut instance = booted_egl();
    let context = instance.create_context(ContextReply { handle: 0x51 }).unwrap();
    let surface = a_surface(&mut instance, 0x31, 0x41);
    instance.make_current(Some(&surface), Some(&context));

    let action = instance.make_current(Some(&surface), None);
    assert_eq!(action, BindAction::Unbind { display: 0x2000 });
    assert_eq!(instance.binding, Binding::NotBound);
}

#[test]
fn context_only_binding_on_egl_uses_no_drawable() {
    let mut instance = booted_egl();
    let context = instance.create_context(ContextReply { handle: 0x51 }).unwrap();
    let action = instance.make_current(None, Some(&context));
    assert_eq!(
        action,
        BindAction::Bind {
            display: 0x2000,
            surface: 0,
            context: 0x51,
            disable_vsync: false,
            load_table: true,
        }
    );
    assert_eq!(instance.binding, Binding::ContextOnly { context: 0x51 });
}

#[test]
fn context_only_binding_on_web_is_a_noop() {
    let boot = DriverBoot {
        backend: Backend::WebGl2,
        display: 0,
        extensions: WglExtensions {
            choose_pixel_format: false,
            create_context_attribs: false,
            swap_interval: false,
        },
        pacing_requested: false,
        pacing_ready: false,
    };
    let mut instance = Instance::new(PowerPreference::LowPower, true, boot).unwrap();
    let context = instance.create_context(ContextReply { handle: 0x51 }).unwrap();
    let action = instance.make_current(None, Some(&context));
    assert_eq!(action, BindAction::Noop);
    assert_eq!(instance.binding, Binding::NotBound);
    assert!(instance.try_get_glow().is_none());
}
