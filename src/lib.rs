//! Dense matrices over a generic numeric element type, with construction,
//! element access, elementwise and scalar arithmetic, matrix products,
//! Gaussian row reduction, determinants and a text rendering.
//!
//! `grid` holds the mathematical model (a sequence of rows), `matrix` the
//! type and its accessors, `arith`, `echelon` and `det` the algorithms,
//! `text` the rendering, and `laws` the properties proved of them.

pub mod element;
pub mod grid;
pub mod matrix;
pub mod arith;
pub mod echelon;
pub mod det;
pub mod text;
pub mod laws;

pub use element::MatrixElement;
pub use matrix::{Matrix, MatrixError};
