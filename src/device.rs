use vstd::prelude::*;
use crate::config::{AppConfig, GraphicsApi, GraphicsConfig, MsaaMode};

verus! {

/// The graphics backends a device may be requested on.
#[derive(Clone, Copy, Debug, PartialEq, Eq, Structural)]
pub enum Backend {
    /// The platform's primary backends.
    Primary,
    Dx11,
    Dx12,
    Gl,
    Vulkan,
    BrowserWebGpu,
}

pub open spec fn spec_backend_for(api: GraphicsApi) -> Backend {
    match api {
        GraphicsApi::Auto => Backend::Primary,
        GraphicsApi::Direct3D11 => Backend::Dx11,
        GraphicsApi::Direct3D12 => Backend::Dx12,
        GraphicsApi::OpenGl => Backend::Gl,
        GraphicsApi::Vulkan => Backend::Vulkan,
        GraphicsApi::WebGpu => Backend::BrowserWebGpu,
    }
}

/// The backend selected by the configured API; `Auto` leaves the choice to the platform.
pub fn backend_for(api: GraphicsApi) -> (r: Backend)
    ensures
        r == spec_backend_for(api),
{
    match api {
        GraphicsApi::Auto => Backend::Primary,
        GraphicsApi::Direct3D11 => Backend::Dx11,
        GraphicsApi::Direct3D12 => Backend::Dx12,
        GraphicsApi::OpenGl => Backend::Gl,
        GraphicsApi::Vulkan => Backend::Vulkan,
        GraphicsApi::WebGpu => Backend::BrowserWebGpu,
    }
}

#[derive(Clone, Copy, Debug, PartialEq, Eq, Structural)]
pub enum PowerPreference {
    LowPower,
    HighPerformance,
}

/// Presentation mode of the surface.
#[derive(Clone, Copy, Debug, PartialEq, Eq, Structural)]
pub enum PresentMode {
    /// First in, first out: waits for vertical sync.
    Fifo,
    /// Never blocks; frames may be dropped.
    Mailbox,
}

/// Numeric device limits, taken verbatim from the graphics configuration.
#[derive(Clone, Copy, Debug, PartialEq, Eq, Structural)]
pub struct DeviceLimits {
    pub max_bind_groups: u32,
    pub max_dynamic_uniform_buffers_per_pipeline_layout: u32,
    pub max_dynamic_storage_buffers_per_pipeline_layout: u32,
    pub max_sampled_textures_per_shader_stage: u32,
    pub max_samplers_per_shader_stage: u32,
    pub max_storage_buffers_per_shader_stage: u32,
    pub max_storage_textures_per_shader_stage: u32,
    pub max_uniform_buffers_per_shader_stage: u32,
    pub max_uniform_buffer_binding_size: u32,
    pub max_push_constant_size: u32,
}

pub open spec fn spec_device_limits(cfg: GraphicsConfig) -> DeviceLimits {
    DeviceLimits {
        max_bind_groups: cfg.max_bind_groups,
        max_dynamic_uniform_buffers_per_pipeline_layout:
            cfg.max_dynamic_uniform_buffers_per_pipeline_layout,
        max_dynamic_storage_buffers_per_pipeline_layout:
            cfg.max_dynamic_storage_buffers_per_pipeline_layout,
        max_sampled_textures_per_shader_stage: cfg.max_sampled_textures_per_shader_stage,
        max_samplers_per_shader_stage: cfg.max_samplers_per_shader_stage,
        max_storage_buffers_per_shader_stage: cfg.max_storage_buffers_per_shader_stage,
        max_storage_textures_per_shader_stage: cfg.max_storage_textures_per_shader_stage,
        max_uniform_buffers_per_shader_stage: cfg.max_uniform_buffers_per_shader_stage,
        max_uniform_buffer_binding_size: cfg.max_uniform_buffer_binding_size,
        max_push_constant_size: cfg.max_push_constant_pool_byte_size,
    }
}

pub fn device_limits(cfg: &GraphicsConfig) -> (r: DeviceLimits)
    ensures
        r == spec_device_limits(*cfg),
{
    DeviceLimits {
        max_bind_groups: cfg.max_bind_groups,
        max_dynamic_uniform_buffers_per_pipeline_layout:
            cfg.max_dynamic_uniform_buffers_per_pipeline_layout,
        max_dynamic_storage_buffers_per_pipeline_layout:
            cfg.max_dynamic_storage_buffers_per_pipeline_layout,
        max_sampled_textures_per_shader_stage: cfg.max_sampled_textures_per_shader_stage,
        max_samplers_per_shader_stage: cfg.max_samplers_per_shader_stage,
        max_storage_buffers_per_shader_stage: cfg.max_storage_buffers_per_shader_stage,
        max_storage_textures_per_shader_stage: cfg.max_storage_textures_per_shader_stage,
        max_uniform_buffers_per_shader_stage: cfg.max_uniform_buffers_per_shader_stage,
        max_uniform_buffer_binding_size: cfg.max_uniform_buffer_binding_size,
        max_push_constant_size: cfg.max_push_constant_pool_byte_size,
    }
}

/// What a render-target texture holds.
#[derive(Clone, Copy, Debug, PartialEq, Eq, Structural)]
pub enum TargetKind {
    /// Colour, in the surface's preferred format.
    SurfaceColor,
    /// 32-bit floating-point depth.
    Depth,
}

/// A two-dimensional render-target texture with a single mip level and layer.
#[derive(Clone, Copy, Debug, PartialEq, Eq, Structural)]
pub struct TargetDescriptor {
    pub kind: TargetKind,
    pub width: u32,
    pub height: u32,
    pub sample_count: u32,
    pub mip_level_count: u32,
    pub layers: u32,
}

pub open spec fn spec_target(kind: TargetKind, width: u32, height: u32, msaa: MsaaMode) -> TargetDescriptor {
    TargetDescriptor {
        kind,
        width,
        height,
        sample_count: msaa.spec_sample_count(),
        mip_level_count: 1,
        layers: 1,
    }
}

/// A render target of the swap chain's size at the configured sample count.
pub fn render_target(kind: TargetKind, width: u32, height: u32, msaa: MsaaMode) -> (r:
    TargetDescriptor)
    ensures
        r == spec_target(kind, width, height, msaa),
{
    TargetDescriptor {
        kind,
        width,
        height,
        sample_count: msaa.sample_count(),
        mip_level_count: 1,
        layers: 1,
    }
}

/// Everything the device layer decides at startup from the configuration and the
/// window's framebuffer size.
#[derive(Clone, Copy, Debug, PartialEq, Eq, Structural)]
pub struct DeviceSetup {
    pub backend: Backend,
    pub power_preference: PowerPreference,
    /// Push constants are the one device feature required.
    pub requires_push_constants: bool,
    pub limits: DeviceLimits,
    pub surface_width: u32,
    pub surface_height: u32,
    pub present_mode: PresentMode,
    pub msaa: MsaaMode,
    pub color_target: TargetDescriptor,
    pub depth_target: TargetDescriptor,
}

pub open spec fn spec_device_setup(
    power_safe_mode: bool,
    gfx: GraphicsConfig,
    vsync: bool,
    width: u32,
    height: u32,
) -> DeviceSetup {
    DeviceSetup {
        backend: spec_backend_for(gfx.backend_api),
        power_preference: if power_safe_mode {
            PowerPreference::LowPower
        } else {
            PowerPreference::HighPerformance
        },
        requires_push_constants: true,
        limits: spec_device_limits(gfx),
        surface_width: width,
        surface_height: height,
        present_mode: if vsync {
            PresentMode::Fifo
        } else {
            PresentMode::Mailbox
        },
        msaa: gfx.msaa_mode,
        color_target: spec_target(TargetKind::SurfaceColor, width, height, gfx.msaa_mode),
        depth_target: spec_target(TargetKind::Depth, width, height, gfx.msaa_mode),
    }
}

/// Decides backend, power preference, limits, presentation mode and the multi-sample
/// colour and depth targets; both targets match the surface size and sample count.
pub fn device_setup(app: &AppConfig, gfx: &GraphicsConfig, vsync: bool, width: u32, height: u32) -> (r:
    DeviceSetup)
    ensures
        r == spec_device_setup(app.power_safe_mode, *gfx, vsync, width, height),
{
    DeviceSetup {
        backend: backend_for(gfx.backend_api),
        power_preference: if app.power_safe_mode {
            PowerPreference::LowPower
        } else {
            PowerPreference::HighPerformance
        },
        requires_push_constants: true,
        limits: device_limits(gfx),
        surface_width: width,
        surface_height: height,
        present_mode: if vsync {
            PresentMode::Fifo
        } else {
            PresentMode::Mailbox
        },
        msaa: gfx.msaa_mode,
        color_target: render_target(TargetKind::SurfaceColor, width, height, gfx.msaa_mode),
        depth_target: render_target(TargetKind::Depth, width, height, gfx.msaa_mode),
    }
}

/// Precompiled vertex stage of the mip-generation blit.
pub const BLIT_VERTEX_SHADER_PATH: &'static str = "db/shaders/mipgen/final/blit.vert.spv";

/// Precompiled fragment stage of the mip-generation blit.
pub const BLIT_FRAGMENT_SHADER_PATH: &'static str = "db/shaders/mipgen/final/blit.frag.spv";

} // verus!
