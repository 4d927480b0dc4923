pub mod application_context;
pub mod context_builder;
pub mod input;
pub mod sprite_batch;
pub mod sync;
pub mod vulkan_context;
