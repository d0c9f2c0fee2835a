use ronin::config::{AppConfig, GraphicsApi, GraphicsConfig, MsaaMode};
use ronin::device::{
    backend_for, device_limits, device_setup, render_target, Backend, PowerPreference, PresentMode,
    TargetKind,
};

#[test]
fn setup_from_default_config() {
    let app = AppConfig::default();
    let gfx = GraphicsConfig::default();
    let s = device_setup(&app, &gfx, false, 1920, 1080);
    assert_eq!(s.backend, Backend::Vulkan);
    assert_eq!(s.power_preference, PowerPreference::HighPerformance);
    assert!(s.requires_push_constants);
    assert_eq!(s.limits.max_push_constant_size, 256);
    assert_eq!(s.limits.max_bind_groups, 4);
    assert_eq!(s.present_mode, PresentMode::Mailbox);
    assert_eq!((s.surface_width, s.surface_height), (1920, 1080));
    assert_eq!(s.color_target.sample_count, 8);
    assert_eq!(s.depth_target.kind, TargetKind::Depth);
    assert_eq!((s.depth_target.width, s.depth_target.height), (1920, 1080));
}

#[test]
fn vsync_and_power_saving() {
    let mut app = AppConfig::default();
    app.power_safe_mode = true;
    let mut gfx = GraphicsConfig::default();
    gfx.msaa_mode = MsaaMode::Off;
    let s = device_setup(&app, &gfx, true, 800, 600);
    assert_eq!(s.present_mode, PresentMode::Fifo);
    assert_eq!(s.power_preference, PowerPreference::LowPower);
    assert_eq!(s.color_target.sample_count, 1);
}

#[test]
fn backends() {
    assert_eq!(backend_for(GraphicsApi::Auto), Backend::Primary);
    assert_eq!(backend_for(GraphicsApi::Direct3D11), Backend::Dx11);
    assert_eq!(backend_for(GraphicsApi::Direct3D12), Backend::Dx12);
    assert_eq!(backend_for(GraphicsApi::OpenGl), Backend::Gl);
    assert_eq!(backend_for(GraphicsApi::WebGpu), Backend::BrowserWebGpu);
}

#[test]
fn limits_are_copied() {
    let mut gfx = GraphicsConfig::default();
    gfx.max_uniform_buffer_binding_size = 65536;
    let l = device_limits(&gfx);
    assert_eq!(l.max_uniform_buffer_binding_size, 65536);
    assert_eq!(l.max_sampled_textures_per_shader_stage, 16);
    let t = render_target(TargetKind::SurfaceColor, 10, 20, MsaaMode::X4);
    assert_eq!((t.width, t.height, t.sample_count, t.mip_level_count, t.layers), (10, 20, 4, 1, 1));
}
