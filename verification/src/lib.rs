//! Construction-estimate calculation library.
//!
//! Monetary amounts, rates and coefficients are held as fixed-point
//! integers with four decimal places (see [`fixed`]), so every kernel
//! computes exact, reproducible results: the grouped reduction kernels
//! are proved to return exactly the totals of the scalar reference
//! kernel.

pub mod calculator;
pub mod coefficients;
pub mod embed;
pub mod error;
pub mod estimate;
pub mod fixed;
pub mod fmt;
pub mod normatives;
pub mod scalar;
pub mod simd_calc;
pub mod text;
pub mod types;
pub mod units;
