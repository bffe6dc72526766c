pub mod acquire;
pub mod capture;
pub mod codec;
pub mod config;
pub mod error;
pub mod files;
pub mod ollama;
pub mod overlay;
pub mod persist;
pub mod pixels;
pub mod raster;
pub mod recognize;
pub mod region;
pub mod scale;
pub mod screenshot;
pub mod shortcuts;
pub mod store;
pub mod text;
