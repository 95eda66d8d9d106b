//! Bit-exact lane model of the AVX-512 bitwise intrinsics on packed
//! floating-point vectors.
//!
//! A vector is held as the bit patterns of its lanes, so every operation is a
//! total function on unsigned integers and needs no processor feature.

pub mod lanes;
pub mod x86;
