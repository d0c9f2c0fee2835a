use vstd::prelude::*;
use vstd::string::StringExecFns;

verus! {

/// Application-wide settings.
#[derive(Clone, Debug)]
pub struct AppConfig {
    pub product_name: String,
    pub product_company: String,
    pub product_copyright: String,
    pub product_description: String,
    pub safe_mode: bool,
    pub power_safe_mode: bool,
    /// Initial table size of each resource cache; a hint, not a limit.
    pub default_resource_cache_capacity: usize,
    pub disable_service_routine: bool,
    pub service_routine_minute_interval: u8,
}

impl AppConfig {
    pub const FILE_NAME: &'static str = "app.ini";
}

impl Default for AppConfig {
    fn default() -> (r: Self)
        ensures
            r.product_name@ == "Untitled Product"@,
            r.product_company@ == "Default Company"@,
            r.product_copyright@ == "Default Copyright"@,
            r.product_description@ == "Default Description"@,
            !r.safe_mode,
            !r.power_safe_mode,
            r.default_resource_cache_capacity == 128,
            !r.disable_service_routine,
            r.service_routine_minute_interval == 30,
    {
        AppConfig {
            product_name: String::from_str("Untitled Product"),
            product_company: String::from_str("Default Company"),
            product_copyright: String::from_str("Default Copyright"),
            product_description: String::from_str("Default Description"),
            safe_mode: false,
            power_safe_mode: false,
            default_resource_cache_capacity: 128,
            disable_service_routine: false,
            service_routine_minute_interval: 30,
        }
    }
}

/// Sizes of the memory pools created at startup.
#[derive(Clone, Copy, Debug, PartialEq, Eq, Structural)]
pub struct MemoryConfig {
    pub default_string_pool_size: usize,
    pub default_memory_pool_size: usize,
}

impl MemoryConfig {
    pub const FILE_NAME: &'static str = "memory.ini";
}

impl Default for MemoryConfig {
    fn default() -> (r: Self)
        ensures
            r.default_string_pool_size == 16384,
            r.default_memory_pool_size == 512 * 1024 * 1024,
    {
        MemoryConfig { default_string_pool_size: 16384, default_memory_pool_size: 536870912 }
    }
}

#[derive(Clone, Copy, Debug, PartialEq, Eq, Structural)]
pub enum WindowMode {
    FullScreen,
    Windowed,
}

/// Multi-sample anti-aliasing setting; `Off` renders with one sample per pixel.
#[derive(Clone, Copy, Debug, PartialEq, Eq, Structural)]
pub enum MsaaMode {
    Off,
    X2,
    X4,
    X8,
}

impl MsaaMode {
    pub open spec fn spec_sample_count(self) -> u32 {
        match self {
            MsaaMode::Off => 1,
            MsaaMode::X2 => 2,
            MsaaMode::X4 => 4,
            MsaaMode::X8 => 8,
        }
    }

    /// Samples per pixel of this setting.
    pub fn sample_count(self) -> (r: u32)
        ensures
            r == self.spec_sample_count(),
    {
        match self {
            MsaaMode::Off => 1,
            MsaaMode::X2 => 2,
            MsaaMode::X4 => 4,
            MsaaMode::X8 => 8,
        }
    }
}

#[derive(Clone, Copy, Debug, PartialEq, Eq, Structural)]
pub enum GraphicsApi {
    Auto,
    Direct3D11,
    Direct3D12,
    OpenGl,
    Vulkan,
    WebGpu,
}

/// Graphics settings: sample count, backend choice and the device limits that are
/// requested verbatim from the adapter.
#[derive(Clone, Copy, Debug, PartialEq, Eq, Structural)]
pub struct GraphicsConfig {
    pub msaa_mode: MsaaMode,
    pub backend_api: GraphicsApi,
    pub max_bind_groups: u32,
    pub max_dynamic_uniform_buffers_per_pipeline_layout: u32,
    pub max_dynamic_storage_buffers_per_pipeline_layout: u32,
    pub max_sampled_textures_per_shader_stage: u32,
    pub max_samplers_per_shader_stage: u32,
    pub max_storage_buffers_per_shader_stage: u32,
    pub max_storage_textures_per_shader_stage: u32,
    pub max_uniform_buffers_per_shader_stage: u32,
    pub max_uniform_buffer_binding_size: u32,
    pub max_push_constant_pool_byte_size: u32,
}

impl GraphicsConfig {
    pub const FILE_NAME: &'static str = "graphics.ini";
}

impl Default for GraphicsConfig {
    fn default() -> (r: Self)
        ensures
            r.msaa_mode == MsaaMode::X8,
            r.backend_api == GraphicsApi::Vulkan,
            r.max_bind_groups == 4,
            r.max_dynamic_uniform_buffers_per_pipeline_layout == 8,
            r.max_dynamic_storage_buffers_per_pipeline_layout == 4,
            r.max_sampled_textures_per_shader_stage == 16,
            r.max_samplers_per_shader_stage == 16,
            r.max_storage_buffers_per_shader_stage == 4,
            r.max_storage_textures_per_shader_stage == 4,
            r.max_uniform_buffers_per_shader_stage == 12,
            r.max_uniform_buffer_binding_size == 16384,
            r.max_push_constant_pool_byte_size == 256,
    {
        GraphicsConfig {
            msaa_mode: MsaaMode::X8,
            backend_api: GraphicsApi::Vulkan,
            max_bind_groups: 4,
            max_dynamic_uniform_buffers_per_pipeline_layout: 8,
            max_dynamic_storage_buffers_per_pipeline_layout: 4,
            max_sampled_textures_per_shader_stage: 16,
            max_samplers_per_shader_stage: 16,
            max_storage_buffers_per_shader_stage: 4,
            max_storage_textures_per_shader_stage: 4,
            max_uniform_buffers_per_shader_stage: 12,
            max_uniform_buffer_binding_size: 16384,
            max_push_constant_pool_byte_size: 256,
        }
    }
}

} // verus!
