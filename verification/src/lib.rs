//! The decisions of a small Vulkan particle simulation: which device and surface format to
//! use, where the particles start, what the GPU buffers hold, and how one frame follows the
//! other while the window is resized and the swapchain goes out of date.
//!
//! Everything here is verified, on top of what `extensions` states of vulkano's extension sets.
//! The program around it talks to the GPU and the window system.

pub mod camera;
pub mod device;
pub mod extensions;
pub mod frame;
pub mod framebuffers;
pub mod laws;
pub mod particles;
pub mod pressure;
pub mod renderer;
pub mod setup;
pub mod steps;
