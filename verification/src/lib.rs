//! Mirroring of the bit order inside each byte of fixed-width values and
//! byte buffers, driven by a precomputed 256-entry lookup table.

pub mod bits;
pub mod engine;
