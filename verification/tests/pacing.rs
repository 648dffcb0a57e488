//! The frame-pacing integration, as the lifecycle models it: the bootstrap
//! outcome decides whether presentation is routed through the pacing
//! library.

use pi_egl::{
    Backend, ContextReply, DriverBoot, Instance, PowerPreference, SurfaceReply, SwapAction,
    WglExtensions, WindowHandle,
};

#[test]
fn test() {
    // The pacing library is not linked in this model; its version is
    // reported as 0 and the routing decision is what is exercised.
    let version: u32 = 0;
    println!("============= Swappy_version = {}", version);

    let boot = DriverBoot {
        backend: Backend::Egl,
        display: 0x2000,
        extensions: WglExtensions {
            choose_pixel_format: false,
            create_context_attribs: false,
            swap_interval: false,
        },
        pacing_requested: true,
        pacing_ready: true,
    };
    let mut instance = Instance::new(PowerPreference::HighPerformance, true, boot).unwrap();
    let context = instance.create_context(ContextReply { handle: 0x51 }).unwrap();
    let surface = instance
        .create_surface(
            &WindowHandle::AndroidNdk { native_window: 0x31 },
            SurfaceReply { handle: 0x41, width: 32, height: 32 },
        )
        .unwrap();
    instance.make_current(Some(&surface), Some(&context));
    assert_eq!(
        instance.swap_buffers(&surface),
        SwapAction::PresentPaced { display: 0x2000, surface: 0x41 }
    );
}
