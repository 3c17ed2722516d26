//! Fixed-point quantization of biquad coefficients and the two byte
//! layouts of the resulting 24-bit codes.

use vstd::prelude::*;

verus! {

/// One coefficient never exceeds 24 bits: codes live in `[0, 2^24)`.
pub const CODE_SPACE: u32 = 0x1000000;

/// Codes below `2^23` stand for non-negative values, codes from `2^23`
/// up for negative ones (two's complement over 24 bits).
pub const SIGN_SPLIT: u32 = 0x800000;

/// The fixed-point reading of one coefficient: `magnitude` is the
/// coefficient's absolute value scaled by `2^20` (20 fractional bits)
/// and truncated to an integer, `positive` says whether the coefficient
/// was strictly greater than zero.  Exact zero is read as not positive.
#[derive(Clone, Copy, PartialEq, Eq, Structural, Debug)]
pub struct ScaledCoef {
    pub magnitude: u32,
    pub positive: bool,
}

/// The five scaled coefficients of one normalized biquad filter
/// (implicit `a0 = 1`).
#[derive(Clone, Copy, PartialEq, Eq, Structural, Debug)]
pub struct ScaledCoefs {
    pub a1: ScaledCoef,
    pub a2: ScaledCoef,
    pub b0: ScaledCoef,
    pub b1: ScaledCoef,
    pub b2: ScaledCoef,
}

/// Three bytes of one packed coefficient, named in transmission order.
#[derive(Clone, Copy, PartialEq, Eq, Structural, Debug)]
pub struct FormattedCoef {
    pub hi: u8,
    pub mid: u8,
    pub lo: u8,
}

/// The five packed coefficients of one filter.
#[derive(Clone, Copy, PartialEq, Eq, Structural, Debug)]
pub struct FormattedCoefs {
    pub a1: FormattedCoef,
    pub a2: FormattedCoef,
    pub b0: FormattedCoef,
    pub b1: FormattedCoef,
    pub b2: FormattedCoef,
}

/// The two supported ways of splitting a 24-bit code into three bytes.
#[derive(Clone, Copy, PartialEq, Eq, Structural, Debug)]
pub enum ByteLayout {
    /// Plain big-endian split: bits 23..16, 15..8, 7..0.
    Direct,
    /// Nibble-interleaved split matching a hardware register layout.
    NibbleInterleaved,
}

/// Why packing can be refused.
#[derive(Clone, Copy, PartialEq, Eq, Structural, Debug)]
pub enum CoefError {
    /// A filter parameter was outside its domain (non-positive sample
    /// rate, frequency or Q); raised by the caller that derives the
    /// coefficients, before any packing.
    InvalidParameter,
    /// A coefficient's magnitude needs more than 24 bits in the chosen
    /// fixed-point format.
    QuantizationOverflow,
}

/// The 24-bit two's-complement code of a scaled coefficient.  A
/// positive coefficient keeps its magnitude; any other coefficient
/// wraps as `2^24 - magnitude`, so magnitude `0` yields code `0` on
/// the non-positive branch too.
pub open spec fn spec_code(c: ScaledCoef) -> u32
    recommends
        c.magnitude < CODE_SPACE,
{
    if c.positive {
        c.magnitude
    } else if c.magnitude == 0 {
        0u32
    } else {
        (CODE_SPACE - c.magnitude) as u32
    }
}

/// Signed fixed-point value (in units of `2^-20`) that a scaled
/// coefficient stands for.
pub open spec fn signed_value(c: ScaledCoef) -> int {
    if c.positive {
        c.magnitude as int
    } else {
        -(c.magnitude as int)
    }
}

/// Two's-complement encoding of one scaled coefficient into its 24-bit
/// code; the sign branch of the packer.
pub fn encode_code(c: ScaledCoef) -> (code: u32)
    requires
        c.magnitude < CODE_SPACE,
    ensures
        code == spec_code(c),
        code < CODE_SPACE,
{
    if c.positive {
        c.magnitude
    } else if c.magnitude == 0 {
        0
    } else {
        CODE_SPACE - c.magnitude
    }
}

/// The scaled coefficient that a 24-bit code stands for, under the
/// two's-complement convention: codes below `2^23` are non-negative,
/// the rest negative.  Code `0` reads back as not positive, matching
/// how zero is encoded.
pub open spec fn spec_unpack(code: u32) -> ScaledCoef
    recommends
        code < CODE_SPACE,
{
    if code < SIGN_SPLIT {
        ScaledCoef { magnitude: code, positive: code != 0 }
    } else {
        ScaledCoef { magnitude: (CODE_SPACE - code) as u32, positive: false }
    }
}

/// Decode a 24-bit code back to a scaled coefficient.
pub fn unpack_code(code: u32) -> (c: ScaledCoef)
    requires
        code < CODE_SPACE,
    ensures
        c == spec_unpack(code),
        c.magnitude <= SIGN_SPLIT,
{
    if code < SIGN_SPLIT {
        ScaledCoef { magnitude: code, positive: code != 0 }
    } else {
        ScaledCoef { magnitude: CODE_SPACE - code, positive: false }
    }
}

/// Encoding then decoding preserves the signed fixed-point value, for
/// every coefficient whose value the 24-bit two's-complement field can
/// distinguish: magnitudes up to `2^23`, with `2^23` itself only on
/// the negative side.
pub proof fn lemma_code_value_roundtrip(c: ScaledCoef)
    requires
        c.magnitude <= SIGN_SPLIT,
        c.positive ==> c.magnitude < SIGN_SPLIT,
    ensures
        signed_value(spec_unpack(spec_code(c))) == signed_value(c),
{
}

/// The plain big-endian byte split of a 24-bit code: bits 23..16,
/// 15..8 and 7..0 in transmission order.
pub open spec fn spec_split_direct(code: u32) -> FormattedCoef {
    FormattedCoef {
        hi: ((code >> 16) & 0xFF) as u8,
        mid: ((code >> 8) & 0xFF) as u8,
        lo: (code & 0xFF) as u8,
    }
}

/// The nibble-interleaved byte split of a 24-bit code, as the target
/// hardware register lays it out: the first byte holds bits 7..4, the
/// second bits 15..12 beside bits 3..0, the third bits 23..20 beside
/// bits 11..8.  Bits 19..16 appear in no byte; the layout is kept
/// exactly as the hardware defines it.
pub open spec fn spec_split_nibbles(code: u32) -> FormattedCoef {
    FormattedCoef {
        hi: ((code >> 4) & 0xF) as u8,
        mid: (((code >> 12) & 0xF) | ((code & 0xF) << 4)) as u8,
        lo: (((code >> 20) & 0xF) | (((code >> 8) & 0xF) << 4)) as u8,
    }
}

/// Split a 24-bit code into three bytes, big-endian.
pub fn split_direct(code: u32) -> (b: FormattedCoef)
    ensures
        b == spec_split_direct(code),
{
    proof {
        assert((code >> 16) & 0xFF < 256 && (code >> 8) & 0xFF < 256 && code & 0xFF < 256)
            by (bit_vector);
    }
    FormattedCoef {
        hi: ((code >> 16) & 0xFF) as u8,
        mid: ((code >> 8) & 0xFF) as u8,
        lo: (code & 0xFF) as u8,
    }
}

/// Split a 24-bit code into three bytes, nibble-interleaved.
pub fn split_nibbles(code: u32) -> (b: FormattedCoef)
    ensures
        b == spec_split_nibbles(code),
{
    proof {
        assert((code >> 4) & 0xF < 256 && ((code >> 12) & 0xF) | ((code & 0xF) << 4) < 256 && ((
        code >> 20) & 0xF) | (((code >> 8) & 0xF) << 4) < 256) by (bit_vector);
    }
    FormattedCoef {
        hi: ((code >> 4) & 0xF) as u8,
        mid: (((code >> 12) & 0xF) | ((code & 0xF) << 4)) as u8,
        lo: (((code >> 20) & 0xF) | (((code >> 8) & 0xF) << 4)) as u8,
    }
}

/// The 24-bit code that a big-endian byte triple encodes.
pub open spec fn spec_assemble_direct(b: FormattedCoef) -> u32 {
    ((b.hi as u32) << 16) | ((b.mid as u32) << 8) | (b.lo as u32)
}

/// The 24-bit code that a nibble-interleaved byte triple encodes;
/// bits 19..16 come back as zero, since the layout carries them in no
/// byte.
pub open spec fn spec_assemble_nibbles(b: FormattedCoef) -> u32 {
    (((b.lo as u32) & 0xF) << 20) | (((b.mid as u32) & 0xF) << 12) | (((b.lo as u32) >> 4) << 8) | ((
    (b.hi as u32) & 0xF) << 4) | ((b.mid as u32) >> 4)
}

/// Reassemble a 24-bit code from its big-endian bytes.
pub fn assemble_direct(b: FormattedCoef) -> (code: u32)
    ensures
        code == spec_assemble_direct(b),
        code < CODE_SPACE,
{
    let code: u32 = ((b.hi as u32) << 16) | ((b.mid as u32) << 8) | (b.lo as u32);
    proof {
        let hi: u8 = b.hi;
        let mid: u8 = b.mid;
        let lo: u8 = b.lo;
        assert(((hi as u32) << 16) | ((mid as u32) << 8) | (lo as u32) < 0x1000000u32)
            by (bit_vector);
    }
    code
}

/// Reassemble a 24-bit code from its nibble-interleaved bytes.
pub fn assemble_nibbles(b: FormattedCoef) -> (code: u32)
    ensures
        code == spec_assemble_nibbles(b),
        code < CODE_SPACE,
{
    let code: u32 = (((b.lo as u32) & 0xF) << 20) | (((b.mid as u32) & 0xF) << 12) | (((b.lo
        as u32) >> 4) << 8) | (((b.hi as u32) & 0xF) << 4) | ((b.mid as u32) >> 4);
    proof {
        let hi: u8 = b.hi;
        let mid: u8 = b.mid;
        let lo: u8 = b.lo;
        assert((((lo as u32) & 0xF) << 20) | (((mid as u32) & 0xF) << 12) | (((lo as u32) >> 4)
            << 8) | (((hi as u32) & 0xF) << 4) | ((mid as u32) >> 4) < 0x1000000u32)
            by (bit_vector);
    }
    code
}

/// Splitting a 24-bit code big-endian and reassembling the bytes
/// recovers the code exactly.
pub proof fn lemma_direct_roundtrip(code: u32)
    requires
        code < CODE_SPACE,
    ensures
        spec_assemble_direct(spec_split_direct(code)) == code,
{
    let hi: u8 = spec_split_direct(code).hi;
    let mid: u8 = spec_split_direct(code).mid;
    let lo: u8 = spec_split_direct(code).lo;
    assert(((hi as u32) << 16) | ((mid as u32) << 8) | (lo as u32) == code) by (bit_vector)
        requires
            hi == ((code >> 16) & 0xFF) as u8,
            mid == ((code >> 8) & 0xFF) as u8,
            lo == (code & 0xFF) as u8,
            code < 0x1000000u32,
    ;
}

/// Splitting a 24-bit code nibble-interleaved and reassembling the
/// bytes recovers the code exactly whenever bits 19..16 are zero, the
/// only bits the layout does not carry.
pub proof fn lemma_nibbles_roundtrip(code: u32)
    requires
        code < CODE_SPACE,
        code & 0xF0000 == 0,
    ensures
        spec_assemble_nibbles(spec_split_nibbles(code)) == code,
{
    let hi: u8 = spec_split_nibbles(code).hi;
    let mid: u8 = spec_split_nibbles(code).mid;
    let lo: u8 = spec_split_nibbles(code).lo;
    assert((((lo as u32) & 0xF) << 20) | (((mid as u32) & 0xF) << 12) | (((lo as u32) >> 4) << 8) | (
    ((hi as u32) & 0xF) << 4) | ((mid as u32) >> 4) == code) by (bit_vector)
        requires
            hi == ((code >> 4) & 0xF) as u8,
            mid == (((code >> 12) & 0xF) | ((code & 0xF) << 4)) as u8,
            lo == (((code >> 20) & 0xF) | (((code >> 8) & 0xF) << 4)) as u8,
            code < 0x1000000u32,
            code & 0xF0000 == 0,
    ;
}

/// The byte split that a layout selects.
pub open spec fn spec_split(code: u32, layout: ByteLayout) -> FormattedCoef {
    match layout {
        ByteLayout::Direct => spec_split_direct(code),
        ByteLayout::NibbleInterleaved => spec_split_nibbles(code),
    }
}

/// Whether one scaled coefficient fits the 24-bit field.
pub open spec fn fits(c: ScaledCoef) -> bool {
    c.magnitude < CODE_SPACE
}

/// Whether all five coefficients of a set fit the 24-bit field.
pub open spec fn set_fits(c: ScaledCoefs) -> bool {
    fits(c.a1) && fits(c.a2) && fits(c.b0) && fits(c.b1) && fits(c.b2)
}

/// The packed bytes of one scaled coefficient under a layout.
pub open spec fn spec_quantize(c: ScaledCoef, layout: ByteLayout) -> FormattedCoef
    recommends
        fits(c),
{
    spec_split(spec_code(c), layout)
}

/// The packed bytes of a whole coefficient set under a layout.
pub open spec fn spec_quantize_set(c: ScaledCoefs, layout: ByteLayout) -> FormattedCoefs
    recommends
        set_fits(c),
{
    FormattedCoefs {
        a1: spec_quantize(c.a1, layout),
        a2: spec_quantize(c.a2, layout),
        b0: spec_quantize(c.b0, layout),
        b1: spec_quantize(c.b1, layout),
        b2: spec_quantize(c.b2, layout),
    }
}

/// Quantize one scaled coefficient: encode it as a 24-bit
/// two's-complement code and split the code into three bytes in the
/// chosen layout.  Succeeds exactly when the magnitude fits 24 bits;
/// a magnitude of `2^24` or more is refused as an overflow.
pub fn quantize(c: ScaledCoef, layout: ByteLayout) -> (r: Result<FormattedCoef, CoefError>)
    ensures
        fits(c) ==> r == Ok::<FormattedCoef, CoefError>(spec_quantize(c, layout)),
        !fits(c) ==> r == Err::<FormattedCoef, CoefError>(CoefError::QuantizationOverflow),
{
    if c.magnitude >= CODE_SPACE {
        return Err(CoefError::QuantizationOverflow);
    }
    let code = encode_code(c);
    match layout {
        ByteLayout::Direct => Ok(split_direct(code)),
        ByteLayout::NibbleInterleaved => Ok(split_nibbles(code)),
    }
}

/// Quantize all five coefficients of a set independently, in the
/// chosen layout.  Succeeds exactly when every coefficient fits 24
/// bits; otherwise nothing is returned but the overflow error — no
/// partial set.
pub fn quantize_set(c: ScaledCoefs, layout: ByteLayout) -> (r: Result<FormattedCoefs, CoefError>)
    ensures
        set_fits(c) ==> r == Ok::<FormattedCoefs, CoefError>(spec_quantize_set(c, layout)),
        !set_fits(c) ==> r == Err::<FormattedCoefs, CoefError>(CoefError::QuantizationOverflow),
{
    let a1 = match quantize(c.a1, layout) {
        Ok(b) => b,
        Err(e) => {
            return Err(e);
        },
    };
    let a2 = match quantize(c.a2, layout) {
        Ok(b) => b,
        Err(e) => {
            return Err(e);
        },
    };
    let b0 = match quantize(c.b0, layout) {
        Ok(b) => b,
        Err(e) => {
            return Err(e);
        },
    };
    let b1 = match quantize(c.b1, layout) {
        Ok(b) => b,
        Err(e) => {
            return Err(e);
        },
    };
    let b2 = match quantize(c.b2, layout) {
        Ok(b) => b,
        Err(e) => {
            return Err(e);
        },
    };
    Ok(FormattedCoefs { a1, a2, b0, b1, b2 })
}

/// The whole packing pipeline loses nothing but the sign of zero:
/// quantizing a coefficient in the big-endian layout, reassembling
/// the three bytes and decoding the code recovers the coefficient's
/// signed fixed-point value, for every value the 24-bit
/// two's-complement field can distinguish.
pub proof fn lemma_quantize_value_roundtrip(c: ScaledCoef)
    requires
        c.magnitude <= SIGN_SPLIT,
        c.positive ==> c.magnitude < SIGN_SPLIT,
    ensures
        signed_value(spec_unpack(spec_assemble_direct(spec_quantize(c, ByteLayout::Direct))))
            == signed_value(c),
{
    lemma_direct_roundtrip(spec_code(c));
    lemma_code_value_roundtrip(c);
}

/// Quantizing an exactly-zero coefficient takes the non-positive
/// branch of the encoder (`2^24 - 0` wraps to `0`), and the code is
/// `0` whichever sign the zero carried.
pub proof fn lemma_zero_sign_boundary(p: bool)
    ensures
        spec_code((ScaledCoef { magnitude: 0, positive: p })) == 0,
        spec_unpack(0) == (ScaledCoef { magnitude: 0, positive: false }),
{
}

} // verus!
