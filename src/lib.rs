//! Post-processing, frame storage and input preparation for a single-camera
//! object-detection appliance.
pub mod boxes;
pub mod frame;
pub mod imaging;
pub mod labels;
pub mod shape;
pub mod signal;
