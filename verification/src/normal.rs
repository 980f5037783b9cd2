//! Normal mode operations for BMP580/BMP581/BMP585 sensors. Normal mode does
//! periodic measurements with a specified data output rate.
use vstd::prelude::*;
use crate::{Bmp5xx, conf_osr_steps, push_conf_osr, push_stop, stop_steps};
use crate::osr::{Oversampling, lemma_conf_osr_writes, writes_osr};
use crate::register::{ODR_CONFIG, OSR_EFF};
use crate::error::Error;
use crate::transaction::{Expect, Outcome, ReplyView, Step, StepView, Transaction, TxView, push_read, push_write2, run, step_views, writes};

verus! {

/// How many measurements should be made per second. Values are in Hertz (Hz; 1/s).
/// Check out the documentation for each variant for more details.
#[derive(Debug, Copy, Clone, Eq, PartialEq, Structural)]
pub enum OutputDataRate {
    /// 240 Hz
    Hz240,
    /// 218.537 Hz (0.67 error)
    Hz218,
    /// 199.111 Hz (0.44 error)
    Hz199,
    /// 179.2 Hz (0.44 error)
    Hz179,
    /// 160 Hz
    Hz160,
    /// 149.333 Hz (0.44 error)
    Hz149,
    /// 140 Hz
    Hz140,
    /// 129.855 Hz (0.11 error)
    Hz129,
    /// 120 Hz
    Hz120,
    /// 110.164 Hz (0.15 error)
    Hz110,
    /// 100.299 Hz (0.30 error)
    Hz100,
    /// 89.6 Hz (0.44 error)
    Hz089,
    /// 80 Hz
    Hz080,
    /// 70 Hz
    Hz070,
    /// 60 Hz
    Hz060,
    /// 50.056 Hz (0.11 error)
    Hz050,
    /// 45.025 Hz (0.06 error)
    Hz045,
    /// 40 Hz
    Hz040,
    /// 35 Hz
    Hz035,
    /// 30 Hz
    Hz030,
    /// 25.005 Hz (0.02 error)
    Hz025,
    /// 20 Hz
    Hz020,
    /// 15 Hz
    Hz015,
    /// 10 Hz
    Hz010,
    /// 5 Hz
    Hz005,
    /// 4 Hz
    Hz004,
    /// 3 Hz
    Hz003,
    /// 2 Hz
    Hz002,
    /// 1 Hz
    Hz001,
    /// 0.5 Hz
    Hz000_5,
    /// 0.25 Hz
    Hz000_25,
    /// 0.125 Hz
    Hz000_125,
}

impl OutputDataRate {
    /// The 5-bit field value that selects this rate in `ODR_CONFIG`.
    pub open spec fn code(self) -> u8 {
        match self {
            OutputDataRate::Hz240 => 0x00,
            OutputDataRate::Hz218 => 0x01,
            OutputDataRate::Hz199 => 0x02,
            OutputDataRate::Hz179 => 0x03,
            OutputDataRate::Hz160 => 0x04,
            OutputDataRate::Hz149 => 0x05,
            OutputDataRate::Hz140 => 0x06,
            OutputDataRate::Hz129 => 0x07,
            OutputDataRate::Hz120 => 0x08,
            OutputDataRate::Hz110 => 0x09,
            OutputDataRate::Hz100 => 0x0A,
            OutputDataRate::Hz089 => 0x0B,
            OutputDataRate::Hz080 => 0x0C,
            OutputDataRate::Hz070 => 0x0D,
            OutputDataRate::Hz060 => 0x0E,
            OutputDataRate::Hz050 => 0x0F,
            OutputDataRate::Hz045 => 0x10,
            OutputDataRate::Hz040 => 0x11,
            OutputDataRate::Hz035 => 0x12,
            OutputDataRate::Hz030 => 0x13,
            OutputDataRate::Hz025 => 0x14,
            OutputDataRate::Hz020 => 0x15,
            OutputDataRate::Hz015 => 0x16,
            OutputDataRate::Hz010 => 0x17,
            OutputDataRate::Hz005 => 0x18,
            OutputDataRate::Hz004 => 0x19,
            OutputDataRate::Hz003 => 0x1A,
            OutputDataRate::Hz002 => 0x1B,
            OutputDataRate::Hz001 => 0x1C,
            OutputDataRate::Hz000_5 => 0x1D,
            OutputDataRate::Hz000_25 => 0x1E,
            OutputDataRate::Hz000_125 => 0x1F,
        }
    }

    /// The register field value of this rate.
    pub fn bits(&self) -> (b: u8)
        ensures
            b == self.code(),
            b < 32,
    {
        match self {
            OutputDataRate::Hz240 => 0x00,
            OutputDataRate::Hz218 => 0x01,
            OutputDataRate::Hz199 => 0x02,
            OutputDataRate::Hz179 => 0x03,
            OutputDataRate::Hz160 => 0x04,
            OutputDataRate::Hz149 => 0x05,
            OutputDataRate::Hz140 => 0x06,
            OutputDataRate::Hz129 => 0x07,
            OutputDataRate::Hz120 => 0x08,
            OutputDataRate::Hz110 => 0x09,
            OutputDataRate::Hz100 => 0x0A,
            OutputDataRate::Hz089 => 0x0B,
            OutputDataRate::Hz080 => 0x0C,
            OutputDataRate::Hz070 => 0x0D,
            OutputDataRate::Hz060 => 0x0E,
            OutputDataRate::Hz050 => 0x0F,
            OutputDataRate::Hz045 => 0x10,
            OutputDataRate::Hz040 => 0x11,
            OutputDataRate::Hz035 => 0x12,
            OutputDataRate::Hz030 => 0x13,
            OutputDataRate::Hz025 => 0x14,
            OutputDataRate::Hz020 => 0x15,
            OutputDataRate::Hz015 => 0x16,
            OutputDataRate::Hz010 => 0x17,
            OutputDataRate::Hz005 => 0x18,
            OutputDataRate::Hz004 => 0x19,
            OutputDataRate::Hz003 => 0x1A,
            OutputDataRate::Hz002 => 0x1B,
            OutputDataRate::Hz001 => 0x1C,
            OutputDataRate::Hz000_5 => 0x1D,
            OutputDataRate::Hz000_25 => 0x1E,
            OutputDataRate::Hz000_125 => 0x1F,
        }
    }
}

/// The register codes of the output data rates are those of the datasheet,
/// from 0x00 for 240 Hz down to 0x1F for 0.125 Hz.
pub proof fn lemma_odr_datasheet()
    ensures
        OutputDataRate::Hz240.code() == 0x00u8,
        OutputDataRate::Hz218.code() == 0x01u8,
        OutputDataRate::Hz199.code() == 0x02u8,
        OutputDataRate::Hz179.code() == 0x03u8,
        OutputDataRate::Hz160.code() == 0x04u8,
        OutputDataRate::Hz149.code() == 0x05u8,
        OutputDataRate::Hz140.code() == 0x06u8,
        OutputDataRate::Hz129.code() == 0x07u8,
        OutputDataRate::Hz120.code() == 0x08u8,
        OutputDataRate::Hz110.code() == 0x09u8,
        OutputDataRate::Hz100.code() == 0x0Au8,
        OutputDataRate::Hz089.code() == 0x0Bu8,
        OutputDataRate::Hz080.code() == 0x0Cu8,
        OutputDataRate::Hz070.code() == 0x0Du8,
        OutputDataRate::Hz060.code() == 0x0Eu8,
        OutputDataRate::Hz050.code() == 0x0Fu8,
        OutputDataRate::Hz045.code() == 0x10u8,
        OutputDataRate::Hz040.code() == 0x11u8,
        OutputDataRate::Hz035.code() == 0x12u8,
        OutputDataRate::Hz030.code() == 0x13u8,
        OutputDataRate::Hz025.code() == 0x14u8,
        OutputDataRate::Hz020.code() == 0x15u8,
        OutputDataRate::Hz015.code() == 0x16u8,
        OutputDataRate::Hz010.code() == 0x17u8,
        OutputDataRate::Hz005.code() == 0x18u8,
        OutputDataRate::Hz004.code() == 0x19u8,
        OutputDataRate::Hz003.code() == 0x1Au8,
        OutputDataRate::Hz002.code() == 0x1Bu8,
        OutputDataRate::Hz001.code() == 0x1Cu8,
        OutputDataRate::Hz000_5.code() == 0x1Du8,
        OutputDataRate::Hz000_25.code() == 0x1Eu8,
        OutputDataRate::Hz000_125.code() == 0x1Fu8,
{
}

/// Every output data rate code fits in five bits.
pub proof fn lemma_odr_code_bound(a: OutputDataRate)
    ensures
        a.code() < 32,
{
}

/// Distinct output data rates have distinct register codes.
pub proof fn lemma_odr_code_injective(a: OutputDataRate, b: OutputDataRate)
    ensures
        a.code() == b.code() <==> a == b,
{
}

/// The `ODR_CONFIG` value for normal mode: the rate in bits 6..2, power mode 1 in bits 1..0.
pub open spec fn odr_config_byte(odr: OutputDataRate) -> u8 {
    (odr.code() << 2u8) | 0x01u8
}

/// Normal mode: standby, oversampling, rate and mode, then a check that the
/// effective oversampling fits the rate.
pub open spec fn start_normal_steps(
    press_en: bool,
    odr: OutputDataRate,
    osr_t: Oversampling,
    osr_p: Oversampling,
) -> Seq<StepView> {
    stop_steps() + conf_osr_steps(press_en, osr_t, osr_p) + seq![
        StepView::Write(seq![ODR_CONFIG, odr_config_byte(odr)]),
        StepView::Read { reg: OSR_EFF, expect: Expect::OdrFits },
    ]
}

/// The `ODR_CONFIG` value selects normal mode and holds the rate in its own field.
pub proof fn lemma_odr_config_fields(odr: OutputDataRate)
    ensures
        odr_config_byte(odr) & 3u8 == 1u8,
        odr_config_byte(odr) >> 2u8 == odr.code(),
{
    let c = odr.code();
    assert(((c << 2u8) | 0x01u8) & 3u8 == 1u8) by (bit_vector)
        requires c < 32;
    assert(((c << 2u8) | 0x01u8) >> 2u8 == c) by (bit_vector)
        requires c < 32;
}

/// Normal mode, for every rate, pressure setting and oversampling: standby,
/// the oversampling asked for, `ODR_CONFIG` (0x37) with power mode 1 (normal)
/// in bits 1..0 and the rate's code in bits 6..2, then a read of `OSR_EFF` (0x38).
pub proof fn lemma_start_normal_writes(
    press_en: bool,
    odr: OutputDataRate,
    osr_t: Oversampling,
    osr_p: Oversampling,
)
    ensures
        start_normal_steps(press_en, odr, osr_t, osr_p).len() == 4,
        writes(start_normal_steps(press_en, odr, osr_t, osr_p)[0], 0x37u8, 0x00u8),
        writes_osr(start_normal_steps(press_en, odr, osr_t, osr_p)[1], press_en, osr_t, osr_p),
        start_normal_steps(press_en, odr, osr_t, osr_p)[2] matches StepView::Write(b) && b.len() == 2
            && b[0] == 0x37u8 && b[1] & 3u8 == 1u8 && b[1] >> 2u8 == odr.code(),
        start_normal_steps(press_en, odr, osr_t, osr_p)[3] == (StepView::Read {
            reg: 0x38u8,
            expect: Expect::OdrFits,
        }),
{
    lemma_conf_osr_writes(press_en, osr_t, osr_p);
    lemma_odr_config_fields(odr);
}

/// Normal mode is refused with `OdrInvalid` exactly when the sensor reports,
/// in bit 7 of `OSR_EFF`, that the oversampling does not fit the rate.
pub open spec fn odr_decision(osr_eff: u8) -> Outcome {
    if osr_eff & 0x80u8 == 0u8 {
        Err(Error::OdrInvalid)
    } else {
        Ok(None)
    }
}

/// When every bus operation succeeds, starting normal mode succeeds exactly
/// when the effective oversampling register confirms that the configuration
/// fits the output data rate, and fails with `OdrInvalid` otherwise.
pub proof fn lemma_start_normal_outcome(
    press_en: bool,
    odr: OutputDataRate,
    osr_t: Oversampling,
    osr_p: Oversampling,
    osr_eff: u8,
)
    ensures
        run(
            TxView::start(start_normal_steps(press_en, odr, osr_t, osr_p)),
            seq![ReplyView::Written, ReplyView::Written, ReplyView::Written, ReplyView::Read(seq![osr_eff])],
        ).result == Some(odr_decision(osr_eff)),
        run(
            TxView::start(start_normal_steps(press_en, odr, osr_t, osr_p)),
            seq![ReplyView::Written, ReplyView::Written, ReplyView::Written, ReplyView::Read(seq![osr_eff])],
        ).result == if osr_eff & 0x80u8 == 0u8 {
            Some(Err::<Option<i32>, Error>(Error::OdrInvalid))
        } else {
            Some(Ok::<Option<i32>, Error>(None))
        },
{
    reveal_with_fuel(run, 5);
    let r = seq![ReplyView::Written, ReplyView::Written, ReplyView::Written, ReplyView::Read(seq![osr_eff])];
    assert(r.drop_first() =~= seq![r[1], r[2], r[3]]);
    assert(r.drop_first().drop_first() =~= seq![r[2], r[3]]);
    assert(r.drop_first().drop_first().drop_first() =~= seq![r[3]]);
    assert(seq![r[3]].drop_first() =~= Seq::<ReplyView>::empty());
}

impl<I2C, D> Bmp5xx<I2C, D> {
    /// The bus sequence that puts the sensor into normal mode, making new
    /// measurements periodically. It fails with `OdrInvalid` when the
    /// oversampling configuration does not fit the output data rate.
    pub fn start_normal_transaction(&self, press_en: bool, odr: OutputDataRate) -> (t: Transaction)
        ensures
            t@ == TxView::start(start_normal_steps(press_en, odr, self@.osr_t, self@.osr_p)),
            t@.wf(),
    {
        let mut v: Vec<Step> = Vec::new();
        push_stop(&mut v);
        push_conf_osr(&mut v, press_en, self.temp_oversampling(), self.pres_oversampling());
        push_write2(&mut v, ODR_CONFIG, (odr.bits() << 2u8) | 0x01u8);
        push_read(&mut v, OSR_EFF, Expect::OdrFits);
        assert(step_views(v@) =~= start_normal_steps(press_en, odr, self@.osr_t, self@.osr_p));
        Transaction::new(v)
    }
}

} // verus!
