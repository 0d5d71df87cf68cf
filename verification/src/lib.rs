//! A small feed-forward network engine for CUDA devices: the sizes of every
//! device buffer, the launch plans of the kernels, and the order of the device
//! work of a forward pass.
pub mod launch;
pub mod layer;
pub mod network;
pub mod forward;
pub mod backward;
pub mod laws;
