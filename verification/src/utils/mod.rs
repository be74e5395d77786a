//! Utilities: turning loaded images into textures.

pub mod texture_loader;
