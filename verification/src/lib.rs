//! Background replacement behind a person in a video stream, without a green
//! screen. The core is a per-frame matting filter: it validates a mutable
//! source frame against an immutable background frame, converts the pixel
//! buffer to a tensor layout, drives an inference engine, carries recurrent
//! hidden state across frames, and composites the predicted alpha matte with
//! the background. All buffer layout conversion, validation, state handling
//! and compositing is verified; the inference engine itself is an external
//! collaborator reached through the `InferenceEngine` trait.

pub mod filter;
pub mod filtertools;
pub mod frame;
pub mod noopfilter;
pub mod rvmfilter;
pub mod tensor;
