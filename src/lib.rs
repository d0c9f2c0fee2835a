//! Runtime core of a real-time simulation engine: a content-addressed resource cache,
//! the decisions of the device layer and the pipeline builder, the frame and pass
//! lifecycle, mip-chain planning, input tracking, and the supervisor that starts and
//! ticks the engine's subsystems.

pub mod config;
pub mod device;
pub mod frame;
pub mod graphics;
pub mod importer;
pub mod input;
pub mod logger;
pub mod mesh;
pub mod mipgen;
pub mod pipeline;
pub mod platform;
pub mod resources;
pub mod subsystem;
pub mod supervisor;
pub mod texture;
