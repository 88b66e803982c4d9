//! Faster inference: model sessions and reduced precision.

pub mod onnx;
pub mod precision;
