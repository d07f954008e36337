//! Instanced-draw scene core: a CPU-side store of instance poses and a
//! manager that keeps a GPU instance buffer in sync with it.
//!
//! The store owns an ordered, append-only list of instances (position plus
//! rotation, kept as raw bit patterns of the GPU's 32-bit representation).
//! The manager decides, per frame, whether the GPU buffer must be
//! reallocated, partially rewritten, or left alone, and exposes the draw
//! parameters for the submission step.

pub mod instance;
pub mod manager;
pub mod store;

pub use instance::Instance;
pub use manager::{process_frame, BufferOp, DrawCall, DrawParams, InstanceBufferManager};
pub use store::{InstanceStore, PackError};
