//! The decisions of a Vulkan renderer: what to create, what to record and what to do next, as
//! plain values.
//!
//! Nothing in here talks to a driver or a window. Handles are numbers, numbers that are not whole
//! are carried as their bits, and what the driver has to do is either handed out as a plan, as a
//! list of steps or commands, or asked for through a function that the caller passes in.
pub mod app;
pub mod camera;
pub mod commands;
pub mod config;
pub mod frame;
pub mod geometry;
pub mod input;
pub mod materials;
pub mod outside;
pub mod pipelines;
pub mod program;
pub mod renderer;
pub mod scene;
pub mod screen;
pub mod shaders;
pub mod textures;
pub mod utils;
pub mod vk;
