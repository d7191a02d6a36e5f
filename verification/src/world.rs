//! World-space value types and fixed-point arithmetic helpers.

pub mod space;
