//! A small dense-matrix arithmetic library with a thin feed-forward layer on
//! top: shape-validated storage, indexing, elementwise algebra, matrix
//! product, transpose, and row-sum reduction, all with verified contracts.

pub mod error;
pub mod laws;
pub mod layer;
pub mod matrix;
mod random;
pub mod shape;

pub use crate::error::Axis;
pub use crate::error::MatrixError;
pub use crate::layer::Layer;
pub use crate::layer::LayerShape;
pub use crate::matrix::Matrix;
pub use crate::shape::MatrixShape;
