//! Object model and entrypoint resolution of a software Vulkan driver that
//! presents the host processor as a single physical device.

pub mod device;
pub mod dispatch;
pub mod entrypoint;
pub mod extension;
pub mod physical_device;
pub mod result;
pub mod text;
pub mod transpiler;
pub mod two_call;
pub mod version;
pub mod vk;
