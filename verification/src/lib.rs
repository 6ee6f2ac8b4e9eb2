//! A first-person camera model over fixed-point scalars.
//!
//! The camera owns a position, a yaw angle and a pitch angle, all stored as
//! fixed-point numbers with 16 fractional bits. Each frame the host hands in
//! look and movement deltas; the camera integrates the look deltas into its
//! angles (clamping pitch away from the poles) and the movement deltas into
//! its position. Trigonometric evaluation (sines, cosines, normalisation) and
//! the projection matrices are floating-point work that the host performs
//! between the two phases of an update; the camera states exactly how every
//! value it stores is computed from what it is handed.

pub mod camera;
pub mod fixed;
pub mod laws;
pub mod vec3;

pub use camera::Controls;
pub use camera::FirstPersonCamera;
pub use vec3::Vec3;
