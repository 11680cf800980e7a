//! A minimal multi-dimensional array: a scalar capability, a storage
//! capability with one heap-backed implementation, and a tensor of fixed rank
//! that pairs a storage with its shape and strides.

pub mod layout;
pub mod scalar;
pub mod storage;
pub mod tensor;

pub use scalar::Scalar;
pub use storage::{BoxStorage, Storage};
pub use tensor::{default_strides, element_count, shape_fits, Tensor, TensorView};
