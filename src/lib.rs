//! Core of a tile-based 2D game: movement components and systems run over an
//! entity world, tile maps sliced from a tilesheet into draw lists, and a cache
//! of loaded textures keyed by path.

pub mod components;
pub mod map;
pub mod player;
pub mod systems;
pub mod texture_cache;
pub mod tilesheet;
pub mod world;
