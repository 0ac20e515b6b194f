//! Bootstrap of a Vulkan context, as decisions on plain values.
//!
//! The library decides what is asked of the Vulkan runtime and in which order:
//! which instance extensions and layers are requested, what the instance, the
//! debug messenger and the logical device are created with, which physical
//! device and queue family are taken, and in which order the handles are
//! destroyed again. The calls into the runtime themselves are made by the
//! caller, who reports their outcome back as events.

pub mod bootstrap;
pub mod config;
pub mod context;
pub mod device;
pub mod error;
pub mod handles;
pub mod instance;
pub mod lifecycle;
pub mod messenger;
pub mod negotiation;
pub mod vulkan;
