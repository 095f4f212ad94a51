//! Bootstrap logic for a windowed Vulkan application: which instance
//! extensions and validation layers to ask for, how the debug messenger is
//! configured, what the instance-creation request holds, and the order in
//! which the outside services are consulted.
//!
//! The crate decides; its caller performs. Every call that touches the
//! windowing system or the Vulkan loader is requested through a
//! [`bootstrap::BootstrapAction`] and answered with a
//! [`bootstrap::BootstrapEvent`].

pub mod names;
pub mod vulkan;
pub mod descriptor;
pub mod debug;
pub mod error;
pub mod config;
pub mod layers;
pub mod extensions;
pub mod request;
pub mod bootstrap;
pub mod window;
