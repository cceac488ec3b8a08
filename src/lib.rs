//! The scheduling core of a compute-based vector graphics renderer: a
//! decoupled-lookback prefix scan, device-independent command recordings over
//! resource proxies, the pipeline planner that records a scene's render, and a
//! render graph of cached paintings.
pub mod scan;
pub mod shaders;
pub mod recording;
pub mod render;
pub mod graph;
pub mod device;
