//! Oversampling configuration for BMP580/BMP581/BMP585 sensors.
use vstd::prelude::*;

verus! {

/// Selection of oversampling rates for temperature and pressure readings.
///
/// Note that not all OSR and ODR combinations are valid.
/// You should check that your oversampling configuration's measurement time
/// fits in your output data rate cycle.
#[derive(Debug, Copy, Clone, Eq, PartialEq, Structural)]
pub enum Oversampling {
    /// 1x oversampling (no oversampling)
    X1,
    /// 2x oversampling
    X2,
    /// 4x oversampling
    X4,
    /// 8x oversampling
    X8,
    /// 16x oversampling
    X16,
    /// 32x oversampling
    X32,
    /// 64x oversampling
    X64,
    /// 128x oversampling
    X128,
}

impl Oversampling {
    /// The 3-bit field value that selects this rate in `OSR_CONFIG`.
    pub open spec fn code(self) -> u8 {
        match self {
            Oversampling::X1 => 0x00,
            Oversampling::X2 => 0x01,
            Oversampling::X4 => 0x02,
            Oversampling::X8 => 0x03,
            Oversampling::X16 => 0x04,
            Oversampling::X32 => 0x05,
            Oversampling::X64 => 0x06,
            Oversampling::X128 => 0x07,
        }
    }

    /// Temperature conversion time from the datasheet, in microseconds.
    pub open spec fn temp_conv_us(self) -> u32 {
        match self {
            Oversampling::X1 => 1000,
            Oversampling::X2 => 1100,
            Oversampling::X4 => 1500,
            Oversampling::X8 => 2100,
            Oversampling::X16 => 3300,
            Oversampling::X32 => 5800,
            Oversampling::X64 => 10800,
            Oversampling::X128 => 20800,
        }
    }

    /// Pressure conversion time from the datasheet, in microseconds.
    pub open spec fn pres_conv_us(self) -> u32 {
        match self {
            Oversampling::X1 => 1000,
            Oversampling::X2 => 1700,
            Oversampling::X4 => 2900,
            Oversampling::X8 => 5400,
            Oversampling::X16 => 10400,
            Oversampling::X32 => 20400,
            Oversampling::X64 => 40400,
            Oversampling::X128 => 80400,
        }
    }

    /// The register field value of this rate.
    pub fn bits(&self) -> (b: u8)
        ensures
            b == self.code(),
            b < 8,
    {
        match self {
            Oversampling::X1 => 0x00,
            Oversampling::X2 => 0x01,
            Oversampling::X4 => 0x02,
            Oversampling::X8 => 0x03,
            Oversampling::X16 => 0x04,
            Oversampling::X32 => 0x05,
            Oversampling::X64 => 0x06,
            Oversampling::X128 => 0x07,
        }
    }

    /// Temperature conversion time at this rate, in microseconds.
    pub fn t_conv_t(&self) -> (us: u32)
        ensures
            us == self.temp_conv_us(),
    {
        match self {
            Oversampling::X1 => 1000,
            Oversampling::X2 => 1100,
            Oversampling::X4 => 1500,
            Oversampling::X8 => 2100,
            Oversampling::X16 => 3300,
            Oversampling::X32 => 5800,
            Oversampling::X64 => 10800,
            Oversampling::X128 => 20800,
        }
    }

    /// Pressure conversion time at this rate, in microseconds.
    pub fn t_conv_p(&self) -> (us: u32)
        ensures
            us == self.pres_conv_us(),
    {
        match self {
            Oversampling::X1 => 1000,
            Oversampling::X2 => 1700,
            Oversampling::X4 => 2900,
            Oversampling::X8 => 5400,
            Oversampling::X16 => 10400,
            Oversampling::X32 => 20400,
            Oversampling::X64 => 40400,
            Oversampling::X128 => 80400,
        }
    }
}

/// Distinct rates have distinct register codes, and every code fits in three bits.
pub proof fn lemma_oversampling_code_injective(a: Oversampling, b: Oversampling)
    ensures
        a.code() < 8,
        a.code() == b.code() <==> a == b,
{
}

/// The register codes of the oversampling rates and their conversion times
/// are those of the datasheet: code `n` selects `2^n` times oversampling.
pub proof fn lemma_oversampling_datasheet()
    ensures
        Oversampling::X1.code() == 0u8,
        Oversampling::X2.code() == 1u8,
        Oversampling::X4.code() == 2u8,
        Oversampling::X8.code() == 3u8,
        Oversampling::X16.code() == 4u8,
        Oversampling::X32.code() == 5u8,
        Oversampling::X64.code() == 6u8,
        Oversampling::X128.code() == 7u8,
        Oversampling::X1.temp_conv_us() == 1000u32,
        Oversampling::X2.temp_conv_us() == 1100u32,
        Oversampling::X4.temp_conv_us() == 1500u32,
        Oversampling::X8.temp_conv_us() == 2100u32,
        Oversampling::X16.temp_conv_us() == 3300u32,
        Oversampling::X32.temp_conv_us() == 5800u32,
        Oversampling::X64.temp_conv_us() == 10800u32,
        Oversampling::X128.temp_conv_us() == 20800u32,
        Oversampling::X1.pres_conv_us() == 1000u32,
        Oversampling::X2.pres_conv_us() == 1700u32,
        Oversampling::X4.pres_conv_us() == 2900u32,
        Oversampling::X8.pres_conv_us() == 5400u32,
        Oversampling::X16.pres_conv_us() == 10400u32,
        Oversampling::X32.pres_conv_us() == 20400u32,
        Oversampling::X64.pres_conv_us() == 40400u32,
        Oversampling::X128.pres_conv_us() == 80400u32,
{
}

/// The value of a single-bit flag.
pub open spec fn flag(b: bool) -> u8 {
    if b { 1 } else { 0 }
}

/// `flag` for executable code.
pub fn flag_bit(b: bool) -> (r: u8)
    ensures
        r == flag(b),
{
    if b { 1 } else { 0 }
}

/// The `OSR_CONFIG` register value: pressure enable in bit 6, pressure
/// oversampling in bits 5..3 and temperature oversampling in bits 2..0.
pub open spec fn osr_config_byte(press_en: bool, osr_t: Oversampling, osr_p: Oversampling) -> u8 {
    (flag(press_en) << 6u8) | (osr_p.code() << 3u8) | osr_t.code()
}

/// Computes the `OSR_CONFIG` register value.
pub fn osr_config(press_en: bool, osr_t: Oversampling, osr_p: Oversampling) -> (r: u8)
    ensures
        r == osr_config_byte(press_en, osr_t, osr_p),
{
    (flag_bit(press_en) << 6u8) | (osr_p.bits() << 3u8) | osr_t.bits()
}

/// The step writes `OSR_CONFIG` (0x36) with temperature oversampling in
/// bits 2..0, pressure oversampling in bits 5..3, the pressure enable flag in
/// bit 6 and bit 7 clear.
pub open spec fn writes_osr(s: crate::transaction::StepView, press_en: bool, osr_t: Oversampling, osr_p: Oversampling) -> bool {
    s matches crate::transaction::StepView::Write(b) && b.len() == 2 && b[0] == 0x36u8
        && b[1] & 7u8 == osr_t.code() && (b[1] >> 3u8) & 7u8 == osr_p.code()
        && b[1] >> 6u8 == (if press_en { 1u8 } else { 0u8 })
}

/// The oversampling write carries the settings asked for.
pub proof fn lemma_conf_osr_writes(press_en: bool, osr_t: Oversampling, osr_p: Oversampling)
    ensures
        crate::conf_osr_steps(press_en, osr_t, osr_p).len() == 1,
        writes_osr(crate::conf_osr_steps(press_en, osr_t, osr_p)[0], press_en, osr_t, osr_p),
{
    lemma_osr_config_fields(press_en, osr_t, osr_p);
}

proof fn lemma_three_fields(e: u8, p: u8, t: u8)
    requires
        e < 2,
        p < 8,
        t < 8,
    ensures
        ((e << 6u8) | (p << 3u8) | t) & 7u8 == t,
        (((e << 6u8) | (p << 3u8) | t) >> 3u8) & 7u8 == p,
        (((e << 6u8) | (p << 3u8) | t) >> 6u8) == e,
{
    assert(((e << 6u8) | (p << 3u8) | t) & 7u8 == t) by (bit_vector)
        requires e < 2, p < 8, t < 8;
    assert((((e << 6u8) | (p << 3u8) | t) >> 3u8) & 7u8 == p) by (bit_vector)
        requires e < 2, p < 8, t < 8;
    assert((((e << 6u8) | (p << 3u8) | t) >> 6u8) == e) by (bit_vector)
        requires e < 2, p < 8, t < 8;
}

/// The `OSR_CONFIG` value written to the sensor holds each setting in its own
/// field: reading the fields back gives the pressure enable flag and both rates.
pub proof fn lemma_osr_config_fields(press_en: bool, osr_t: Oversampling, osr_p: Oversampling)
    ensures
        osr_config_byte(press_en, osr_t, osr_p) & 7u8 == osr_t.code(),
        (osr_config_byte(press_en, osr_t, osr_p) >> 3u8) & 7u8 == osr_p.code(),
        (osr_config_byte(press_en, osr_t, osr_p) >> 6u8) == flag(press_en),
{
    lemma_three_fields(flag(press_en), osr_p.code(), osr_t.code());
}

} // verus!
