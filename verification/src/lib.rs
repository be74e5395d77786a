//! Wave engine core: the bookkeeping, planning and decision logic of a small
//! OpenGL game engine, with contracts proved by Verus.

pub mod events;
pub mod input;
pub mod strings;
pub mod layers;
pub mod hints;
pub mod graphics;
pub mod utils;
pub mod assets;
pub mod window;
pub mod ui;
pub mod engine;
pub(crate) mod random;
