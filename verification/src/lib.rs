//! Biquad peaking-EQ coefficient packing for a hardware DSP register
//! interface.
//!
//! A surrounding program derives the five normalized biquad coefficients
//! `{b0, b1, b2, a1, a2}` from filter parameters (gain, center frequency,
//! sample rate, Q) and reads each coefficient as a scaled fixed-point
//! magnitude with a sign.  This library does the rest: it encodes each
//! coefficient as a 24-bit two's-complement code with 20 fractional bits,
//! splits the code into three bytes in one of two hardware byte layouts,
//! and renders the packed set as decimal or hexadecimal text in the fixed
//! wire order `b0 b1 b2 a1 a2`.

pub mod pack;
pub mod render;
