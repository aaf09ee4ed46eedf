//! A small software renderer core: world-space points are projected through a
//! yaw-only first-person camera onto a pixel buffer.
//!
//! All geometry is carried in fixed-point arithmetic: a coordinate is an `i64`
//! number of millionths of a world unit, so every step of the pipeline is an
//! exact integer computation with a proved contract.

pub mod angle;
pub mod fixed;
pub mod frame;
pub mod logging;
pub mod motion;
pub mod projection;
pub mod renderer;
pub mod vector3;

pub use fixed::FP_ONE;
pub use motion::InputState;
pub use renderer::Renderer;
pub use vector3::Vector3;
