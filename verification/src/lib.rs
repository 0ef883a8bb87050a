//! A verified core for a small real-time 3D rendering pipeline.
//!
//! The library owns the renderer's decisions: shader-program builds with
//! uniform-location caching, GPU mesh and texture lifecycles, scene and
//! camera transforms, and the conversion of parsed mesh assets into
//! renderable resources. Every effect on the graphics context is produced
//! as an explicit [`commands::GpuCmd`] value, so the call ordering that the
//! context requires is visible in the command sequences the library returns,
//! and an unverified shell merely replays them against the driver.
//!
//! Floating-point values are carried as `f32` bit patterns (`u32`), and the
//! few matrix and quaternion operations the scene layer needs are delegated
//! to the `glam` crate through trusted wrappers.

pub mod camera;
pub mod commands;
pub mod mesh;
pub mod model;
pub mod shader;
pub mod texture;
pub mod transform;
pub mod vecmath;
