//! A small 2D/3D engine core: window configuration and bookkeeping, keyboard and
//! mouse state, tile maps, entities, and the layout rules of the demo world.

pub mod buffer;
pub mod engine;
pub mod entity;
pub mod index_buffer;
pub mod tilemap;
pub mod world;
