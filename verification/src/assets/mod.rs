//! Assets: how model files are imported, and the renderable entities made
//! from them.

pub mod asset_loader;
pub mod r_assets;
