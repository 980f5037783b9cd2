//! Forced mode operations for BMP580/BMP581/BMP585 sensors: a single
//! measurement on demand.
use vstd::prelude::*;
use crate::{Bmp5xx, conf_osr_steps, push_conf_osr, push_stop, read_pres_steps, read_temp_steps, stop_steps};
use crate::osr::{Oversampling, lemma_conf_osr_writes, lemma_osr_config_fields, osr_config_byte, writes_osr};
use crate::register::{ODR_CONFIG, OSR_CONFIG, PRESS_DATA_XLSB, TEMP_DATA_XLSB};
use crate::error::Error;
use crate::transaction::{Expect, ReplyView, Step, StepView, Transaction, TxView, i24_le, push_read, push_step, push_write2, reads_sample, run, step_views, writes};

verus! {

/// How long to wait for a conversion of `conv_us` microseconds: 5% longer.
pub open spec fn meas_wait_us(conv_us: u32) -> u32 {
    (conv_us + conv_us / 20) as u32
}

/// Computes [`meas_wait_us`].
fn meas_wait(conv_us: u32) -> (r: u32)
    requires
        conv_us <= 100_000,
    ensures
        r == meas_wait_us(conv_us),
{
    conv_us + conv_us / 20
}

/// A forced temperature measurement: standby, oversampling (pressure off),
/// power mode 2, the conversion time, then the temperature sample.
pub open spec fn meas_temp_steps(osr_t: Oversampling, osr_p: Oversampling) -> Seq<StepView> {
    stop_steps() + conf_osr_steps(false, osr_t, osr_p) + seq![
        StepView::Write(seq![ODR_CONFIG, 0x02u8]),
        StepView::DelayUs(meas_wait_us(osr_t.temp_conv_us())),
    ] + read_temp_steps()
}

/// A forced pressure measurement: standby, oversampling (pressure on),
/// power mode 2, the conversion time, then the pressure sample.
pub open spec fn meas_pres_steps(osr_t: Oversampling, osr_p: Oversampling) -> Seq<StepView> {
    stop_steps() + conf_osr_steps(true, osr_t, osr_p) + seq![
        StepView::Write(seq![ODR_CONFIG, 0x02u8]),
        StepView::DelayUs(meas_wait_us(osr_p.pres_conv_us())),
    ] + read_pres_steps()
}

/// The replies of a bus on which every operation of a forced measurement
/// succeeds and the sample reads as `b0, b1, b2`.
pub open spec fn meas_replies(b0: u8, b1: u8, b2: u8) -> Seq<ReplyView> {
    seq![
        ReplyView::Written,
        ReplyView::Written,
        ReplyView::Written,
        ReplyView::Waited,
        ReplyView::Read(seq![b0, b1, b2]),
    ]
}

/// A forced measurement whose bus operations all succeed returns the sample
/// read after the conversion time.
pub proof fn lemma_meas_outcome(osr_t: Oversampling, osr_p: Oversampling, b0: u8, b1: u8, b2: u8)
    ensures
        run(TxView::start(meas_temp_steps(osr_t, osr_p)), meas_replies(b0, b1, b2)).result
            == Some(Ok::<Option<i32>, Error>(Some(i24_le(b0, b1, b2) as i32))),
        run(TxView::start(meas_pres_steps(osr_t, osr_p)), meas_replies(b0, b1, b2)).result
            == Some(Ok::<Option<i32>, Error>(Some(i24_le(b0, b1, b2) as i32))),
        i24_le(b0, b1, b2) == b0 as int + 256 * (b1 as int) + 65536 * (b2 as int) - (if b2 >= 0x80u8 {
            0x100_0000int
        } else {
            0int
        }),
{
    reveal_with_fuel(run, 6);
    let r = meas_replies(b0, b1, b2);
    assert(r.drop_first() =~= seq![r[1], r[2], r[3], r[4]]);
    assert(r.drop_first().drop_first() =~= seq![r[2], r[3], r[4]]);
    assert(r.drop_first().drop_first().drop_first() =~= seq![r[3], r[4]]);
    assert(r.drop_first().drop_first().drop_first().drop_first() =~= seq![r[4]]);
    assert(seq![r[4]].drop_first() =~= Seq::<ReplyView>::empty());
}

/// A forced measurement, for every oversampling: standby, the oversampling
/// (pressure off for temperature, on for pressure), power mode 2 (forced) in
/// `ODR_CONFIG` (0x37), a wait of 105% of the conversion time of the measured
/// quantity, then a 3-byte read of its data register: temperature (0x1D) or
/// pressure (0x20).
pub proof fn lemma_meas_steps(osr_t: Oversampling, osr_p: Oversampling)
    ensures
        meas_temp_steps(osr_t, osr_p).len() == 5,
        writes(meas_temp_steps(osr_t, osr_p)[0], 0x37u8, 0x00u8),
        writes_osr(meas_temp_steps(osr_t, osr_p)[1], false, osr_t, osr_p),
        writes(meas_temp_steps(osr_t, osr_p)[2], 0x37u8, 0x02u8),
        meas_temp_steps(osr_t, osr_p)[3] matches StepView::DelayUs(w) && 20 * (w as int) == 21
            * (osr_t.temp_conv_us() as int),
        reads_sample(meas_temp_steps(osr_t, osr_p)[4], 0x1Du8),
        meas_pres_steps(osr_t, osr_p).len() == 5,
        writes(meas_pres_steps(osr_t, osr_p)[0], 0x37u8, 0x00u8),
        writes_osr(meas_pres_steps(osr_t, osr_p)[1], true, osr_t, osr_p),
        writes(meas_pres_steps(osr_t, osr_p)[2], 0x37u8, 0x02u8),
        meas_pres_steps(osr_t, osr_p)[3] matches StepView::DelayUs(w) && 20 * (w as int) == 21
            * (osr_p.pres_conv_us() as int),
        reads_sample(meas_pres_steps(osr_t, osr_p)[4], 0x20u8),
{
    lemma_conf_osr_writes(false, osr_t, osr_p);
    lemma_conf_osr_writes(true, osr_t, osr_p);
}

/// A forced measurement waits for the conversion to complete: 5% longer than
/// the datasheet's conversion time at the configured oversampling.
pub proof fn lemma_meas_wait(osr: Oversampling)
    ensures
        meas_wait_us(osr.temp_conv_us()) >= osr.temp_conv_us(),
        20 * (meas_wait_us(osr.temp_conv_us()) as int) == 21 * (osr.temp_conv_us() as int),
        meas_wait_us(osr.pres_conv_us()) >= osr.pres_conv_us(),
        20 * (meas_wait_us(osr.pres_conv_us()) as int) == 21 * (osr.pres_conv_us() as int),
{
}

/// A forced measurement configures the sensor with the oversampling rates set
/// on the driver, with pressure measurement off for temperature and on for
/// pressure, before it triggers the conversion.
pub proof fn lemma_meas_uses_settings(osr_t: Oversampling, osr_p: Oversampling)
    ensures
        meas_temp_steps(osr_t, osr_p)[1] == StepView::Write(seq![OSR_CONFIG, osr_config_byte(false, osr_t, osr_p)]),
        meas_pres_steps(osr_t, osr_p)[1] == StepView::Write(seq![OSR_CONFIG, osr_config_byte(true, osr_t, osr_p)]),
        osr_config_byte(false, osr_t, osr_p) & 7u8 == osr_t.code(),
        (osr_config_byte(false, osr_t, osr_p) >> 3u8) & 7u8 == osr_p.code(),
        osr_config_byte(false, osr_t, osr_p) >> 6u8 == 0u8,
        osr_config_byte(true, osr_t, osr_p) & 7u8 == osr_t.code(),
        (osr_config_byte(true, osr_t, osr_p) >> 3u8) & 7u8 == osr_p.code(),
        osr_config_byte(true, osr_t, osr_p) >> 6u8 == 1u8,
        meas_temp_steps(osr_t, osr_p)[2] == StepView::Write(seq![ODR_CONFIG, 0x02u8]),
        meas_pres_steps(osr_t, osr_p)[2] == StepView::Write(seq![ODR_CONFIG, 0x02u8]),
{
    lemma_osr_config_fields(false, osr_t, osr_p);
    lemma_osr_config_fields(true, osr_t, osr_p);
}

impl<I2C, D> Bmp5xx<I2C, D> {
    /// The bus sequence that triggers a new temperature measurement and reads
    /// it as soon as it is complete.
    pub fn meas_temp_transaction(&self) -> (t: Transaction)
        ensures
            t@ == TxView::start(meas_temp_steps(self@.osr_t, self@.osr_p)),
            t@.wf(),
    {
        let osr_t = self.temp_oversampling();
        let mut v: Vec<Step> = Vec::new();
        push_stop(&mut v);
        push_conf_osr(&mut v, false, osr_t, self.pres_oversampling());
        push_write2(&mut v, ODR_CONFIG, 0x02);
        push_step(&mut v, Step::DelayUs(meas_wait(osr_t.t_conv_t())));
        push_read(&mut v, TEMP_DATA_XLSB, Expect::Sample);
        assert(step_views(v@) =~= meas_temp_steps(self@.osr_t, self@.osr_p));
        Transaction::new(v)
    }

    /// The bus sequence that triggers a new pressure measurement and reads
    /// it as soon as it is complete.
    pub fn meas_pres_transaction(&self) -> (t: Transaction)
        ensures
            t@ == TxView::start(meas_pres_steps(self@.osr_t, self@.osr_p)),
            t@.wf(),
    {
        let osr_p = self.pres_oversampling();
        let mut v: Vec<Step> = Vec::new();
        push_stop(&mut v);
        push_conf_osr(&mut v, true, self.temp_oversampling(), osr_p);
        push_write2(&mut v, ODR_CONFIG, 0x02);
        push_step(&mut v, Step::DelayUs(meas_wait(osr_p.t_conv_p())));
        push_read(&mut v, PRESS_DATA_XLSB, Expect::Sample);
        assert(step_views(v@) =~= meas_pres_steps(self@.osr_t, self@.osr_p));
        Transaction::new(v)
    }
}

} // verus!
