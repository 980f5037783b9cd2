//! Out-of-range feature configuration for BMP580/BMP581/BMP585 sensors.
use vstd::prelude::*;
use crate::Bmp5xx;
use crate::register::OOR_THR_P_LSB;
use crate::transaction::{Step, StepView, Transaction, TxView, push_step, step_views};

verus! {

/// After how many measurements should the out-of-range feature trigger.
#[derive(Debug, Copy, Clone, Eq, PartialEq, Structural)]
pub enum CountLimit {
    /// Trigger immediately.
    Limit1,
    /// Trigger after 3 consecutive out-of-range measurements.
    Limit3,
    /// Trigger after 7 consecutive out-of-range measurements.
    Limit7,
    /// Trigger after 15 consecutive out-of-range measurements.
    Limit15,
}

impl CountLimit {
    /// The 2-bit field value that selects this limit in `OOR_CONFIG`.
    pub open spec fn code(self) -> u8 {
        match self {
            CountLimit::Limit1 => 0x00,
            CountLimit::Limit3 => 0x01,
            CountLimit::Limit7 => 0x02,
            CountLimit::Limit15 => 0x03,
        }
    }

    /// The register field value of this limit.
    pub fn bits(&self) -> (b: u8)
        ensures
            b == self.code(),
            b < 4,
    {
        match self {
            CountLimit::Limit1 => 0x00,
            CountLimit::Limit3 => 0x01,
            CountLimit::Limit7 => 0x02,
            CountLimit::Limit15 => 0x03,
        }
    }
}

/// Distinct limits have distinct register codes, and every code fits in two bits.
pub proof fn lemma_count_code_injective(a: CountLimit, b: CountLimit)
    ensures
        a.code() < 4,
        a.code() == b.code() <==> a == b,
{
}

/// The register codes of the count limits are those of the datasheet: code
/// `n` triggers after `2^(n+1) - 1` consecutive out-of-range measurements.
pub proof fn lemma_count_datasheet()
    ensures
        CountLimit::Limit1.code() == 0u8,
        CountLimit::Limit3.code() == 1u8,
        CountLimit::Limit7.code() == 2u8,
        CountLimit::Limit15.code() == 3u8,
{
}

/// The write that configures the out-of-range feature, starting at
/// `OOR_THR_P_LSB`: the reference pressure's low and middle bytes, the window,
/// then the count limit in bits 7..6 and the reference's bit 16 in bit 0.
/// `reference` and `window` are in units of 1 Pa.
pub open spec fn oor_frame(reference: u32, window: u8, count: CountLimit) -> Seq<u8> {
    seq![
        OOR_THR_P_LSB,
        (reference & 0xFFu32) as u8,
        ((reference >> 8u32) & 0xFFu32) as u8,
        window,
        (count.code() << 6u8) | (((reference >> 16u32) & 0x01u32) as u8),
    ]
}

/// Configuring the out-of-range feature: a single write.
pub open spec fn oor_steps(reference: u32, window: u8, count: CountLimit) -> Seq<StepView> {
    seq![StepView::Write(oor_frame(reference, window, count))]
}

/// The configuration written holds the low 17 bits of the reference, the
/// window and the count limit, each in a field of its own.
pub proof fn lemma_oor_fields(reference: u32, window: u8, count: CountLimit)
    ensures
        oor_frame(reference, window, count)[1] as int + 256 * (oor_frame(reference, window, count)[2] as int)
            + 65536 * ((oor_frame(reference, window, count)[4] & 1u8) as int) == reference as int % 0x2_0000,
        oor_frame(reference, window, count)[3] == window,
        oor_frame(reference, window, count)[4] >> 6u8 == count.code(),
{
    let c = count.code();
    assert((((reference >> 16u32) & 0x01u32) as u8) < 2u8) by (bit_vector);
    assert(((reference & 0xFFu32) as u8) as u32 == reference & 0xFFu32) by (bit_vector);
    assert((((reference >> 8u32) & 0xFFu32) as u8) as u32 == (reference >> 8u32) & 0xFFu32) by (bit_vector);
    assert((((reference >> 16u32) & 0x01u32) as u8) as u32 == (reference >> 16u32) & 0x01u32) by (bit_vector);
    let hi = ((reference >> 16u32) & 0x01u32) as u8;
    assert(((c << 6u8) | hi) & 1u8 == hi) by (bit_vector)
        requires c < 4, hi < 2;
    assert(((c << 6u8) | hi) >> 6u8 == c) by (bit_vector)
        requires c < 4, hi < 2;
    assert((reference & 0xFFu32) + 256 * ((reference >> 8u32) & 0xFFu32) + 65536 * ((reference >> 16u32)
        & 0x01u32) == reference % 0x2_0000u32) by (bit_vector);
}

/// Configuring the out-of-range feature, for every reference, window and
/// count limit: one write starting at `OOR_THR_P_LSB` (0x32) of the low 17
/// bits of the reference (low byte, middle byte, then bit 16 in bit 0 of the
/// last byte), the window, and the count limit's code in bits 7..6 of the
/// last byte, whose bits 5..1 stay clear.
pub proof fn lemma_oor_writes(reference: u32, window: u8, count: CountLimit)
    ensures
        oor_steps(reference, window, count).len() == 1,
        oor_steps(reference, window, count)[0] matches StepView::Write(b) && b.len() == 5 && b[0] == 0x32u8
            && b[1] as int + 256 * (b[2] as int) + 65536 * ((b[4] & 1u8) as int) == reference as int % 0x2_0000
            && b[3] == window && b[4] >> 6u8 == count.code() && b[4] & 0x3Eu8 == 0u8,
{
    lemma_oor_fields(reference, window, count);
    let c = count.code();
    let hi = ((reference >> 16u32) & 0x01u32) as u8;
    assert((((reference >> 16u32) & 0x01u32) as u8) < 2u8) by (bit_vector);
    assert(((c << 6u8) | hi) & 0x3Eu8 == 0u8) by (bit_vector)
        requires c < 4, hi < 2;
}

impl<I2C, D> Bmp5xx<I2C, D> {
    /// The bus sequence that configures the out-of-range feature, with the
    /// reference pressure and the window half-width given in units of 1 Pa.
    pub fn oor_transaction(&self, reference: u32, window: u8, count: CountLimit) -> (t: Transaction)
        ensures
            t@ == TxView::start(oor_steps(reference, window, count)),
            t@.wf(),
    {
        let mut b: Vec<u8> = Vec::new();
        b.push(OOR_THR_P_LSB);
        b.push((reference & 0xFF) as u8);
        b.push(((reference >> 8) & 0xFF) as u8);
        b.push(window);
        b.push((count.bits() << 6u8) | (((reference >> 16) & 0x01) as u8));
        assert(b@ =~= oor_frame(reference, window, count));
        let mut v: Vec<Step> = Vec::new();
        push_step(&mut v, Step::Write(b));
        assert(step_views(v@) =~= oor_steps(reference, window, count));
        Transaction::new(v)
    }
}

} // verus!
