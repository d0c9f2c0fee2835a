use ronin::config::{AppConfig, GraphicsApi, GraphicsConfig, MemoryConfig, MsaaMode};
use ronin::logger::{level_filter, LogLevel};

#[test]
fn defaults() {
    let app = AppConfig::default();
    assert_eq!(app.product_name, "Untitled Product");
    assert_eq!(app.default_resource_cache_capacity, 128);
    assert_eq!(app.service_routine_minute_interval, 30);
    let mem = MemoryConfig::default();
    assert_eq!(mem.default_string_pool_size, 16384);
    assert_eq!(mem.default_memory_pool_size, 512 * 1024 * 1024);
    let gfx = GraphicsConfig::default();
    assert_eq!(gfx.msaa_mode, MsaaMode::X8);
    assert_eq!(gfx.backend_api, GraphicsApi::Vulkan);
    assert_eq!(gfx.max_push_constant_pool_byte_size, 256);
    assert_eq!(AppConfig::FILE_NAME, "app.ini");
}

#[test]
fn sample_counts() {
    assert_eq!(MsaaMode::Off.sample_count(), 1);
    assert_eq!(MsaaMode::X2.sample_count(), 2);
    assert_eq!(MsaaMode::X4.sample_count(), 4);
    assert_eq!(MsaaMode::X8.sample_count(), 8);
}

#[test]
fn log_levels() {
    assert_eq!(level_filter(true), LogLevel::Trace);
    assert_eq!(level_filter(false), LogLevel::Info);
}
