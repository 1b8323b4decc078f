//! A verified core for a single-window render loop on `wgpu` and `winit`.
//!
//! The library decides; the host performs. It works out how the window's
//! surface is to be configured, what one frame consists of, and how the host's
//! lifecycle events move the application between its phases. The host owns the
//! window, the device, the queue and the surface, carries out the actions the
//! library hands it, and reports back what the surface answered.

pub mod driver;
pub mod frame;
pub mod gpu;
pub mod state;
pub mod surface;
