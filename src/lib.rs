//! Bit-exact groundwork for single- and double-precision transcendental
//! functions: IEEE-754 field views and classification, binary exponent
//! extraction, argument reduction by multiples of pi/2, and the
//! magnitude-keyed dispatch of the Bessel function evaluators.
//!
//! Every routine here works on the raw bit pattern of a float (`u32` for
//! single precision, `u64` for double precision); the floating-point
//! arithmetic that consumes the results lives with the callers.
pub mod bits;
pub mod ilogb;
pub mod reduce;
pub mod tables;
pub mod bessel;
