//! Two engines that fill a buffer of 16-bit integers with the value 1 and
//! verify the fill: a portable scalar engine that always runs both passes in
//! full, and a chunked engine that walks the buffer in fixed-width chunks,
//! in a fused (verify each chunk right after writing it) and a separated
//! (fill everything, then check everything) variant.

pub mod model;
pub mod scalar;
pub mod vector;
