//! Driver logic for the BMP580/BMP581/BMP585 barometric pressure sensors.
//!
//! Every operation of the sensor is a fixed sequence of I2C writes, register
//! reads and waits ([`transaction::Transaction`]). The driver type
//! [`Bmp5xx`] keeps the bus handles and the settings that these sequences
//! depend on, and builds the sequence of each operation.
use vstd::prelude::*;

pub mod continuous;
pub mod error;
pub mod forced;
pub mod iir;
pub mod interrupt;
pub mod normal;
pub mod oor;
pub mod osr;
pub mod register;
pub mod transaction;

use crate::osr::{Oversampling, osr_config_byte, osr_config};
use crate::register::{CHIP_ID, CMD, INT_STATUS, ODR_CONFIG, OSR_CONFIG, PRESS_DATA_XLSB, STATUS, TEMP_DATA_XLSB};
use crate::error::Error;
use crate::transaction::{Expect, Outcome, ReplyView, Step, StepView, Transaction, TxView, i24_le, push_read, push_step, push_write2, run, step_views};

verus! {

/// Driver for BMP580/BMP581/BMP585 barometric pressure sensors: the I2C bus
/// and delay handles, the sensor address and the oversampling settings.
pub struct Bmp5xx<I2C, D> {
    i2c: I2C,
    delay: D,
    addr: u8,
    osr_t: Oversampling,
    osr_p: Oversampling,
}

/// The settings of a driver that its bus sequences depend on.
pub struct Settings {
    /// The sensor's I2C address.
    pub addr: u8,
    /// Temperature oversampling.
    pub osr_t: Oversampling,
    /// Pressure oversampling.
    pub osr_p: Oversampling,
}

impl<I2C, D> View for Bmp5xx<I2C, D> {
    type V = Settings;

    closed spec fn view(&self) -> Settings {
        Settings { addr: self.addr, osr_t: self.osr_t, osr_p: self.osr_p }
    }
}

/// Software reset: the reset command, then `t_soft_res` (2 ms).
pub open spec fn reset_steps() -> Seq<StepView> {
    seq![StepView::Write(seq![CMD, 0xB6u8]), StepView::DelayMs(2)]
}

/// Initialization: check the chip ID, reset, then check that the sensor is
/// powered up (status) and that its power-on reset is complete (interrupt status).
pub open spec fn init_steps() -> Seq<StepView> {
    seq![StepView::Read { reg: CHIP_ID, expect: Expect::ChipId }] + reset_steps() + seq![
        StepView::Read { reg: STATUS, expect: Expect::PowerUp },
        StepView::Read { reg: INT_STATUS, expect: Expect::ResetDone },
    ]
}

/// Standby: power mode 0 in `ODR_CONFIG`.
pub open spec fn stop_steps() -> Seq<StepView> {
    seq![StepView::Write(seq![ODR_CONFIG, 0x00u8])]
}

/// Writing the oversampling configuration.
pub open spec fn conf_osr_steps(press_en: bool, osr_t: Oversampling, osr_p: Oversampling) -> Seq<StepView> {
    seq![StepView::Write(seq![OSR_CONFIG, osr_config_byte(press_en, osr_t, osr_p)])]
}

/// Reading the latest temperature sample.
pub open spec fn read_temp_steps() -> Seq<StepView> {
    seq![StepView::Read { reg: TEMP_DATA_XLSB, expect: Expect::Sample }]
}

/// Reading the latest pressure sample.
pub open spec fn read_pres_steps() -> Seq<StepView> {
    seq![StepView::Read { reg: PRESS_DATA_XLSB, expect: Expect::Sample }]
}

/// What initialization decides from the chip ID, the status and the
/// interrupt status that the sensor reports, when every bus operation succeeds.
pub open spec fn init_decision(id: u8, status: u8, int_status: u8) -> Outcome {
    if !(id == 0x50u8 || id == 0x51u8) {
        Err(Error::InvalidId)
    } else if status & 0x02u8 == 0u8 || status & 0x04u8 != 0u8 {
        Err(Error::NotReady)
    } else if int_status & 0x10u8 == 0u8 {
        Err(Error::NotReady)
    } else {
        Ok(None)
    }
}

/// The replies of a bus on which every operation of initialization succeeds.
pub open spec fn init_replies(id: u8, status: u8, int_status: u8) -> Seq<ReplyView> {
    seq![
        ReplyView::Read(seq![id]),
        ReplyView::Written,
        ReplyView::Waited,
        ReplyView::Read(seq![status]),
        ReplyView::Read(seq![int_status]),
    ]
}

/// Initialization succeeds exactly when the chip ID is `0x50` or `0x51`, the
/// status shows the NVM ready without error, and the interrupt status shows a
/// completed power-on reset; otherwise it fails with `InvalidId` or `NotReady`,
/// for the first check that fails.
pub proof fn lemma_init_outcome(id: u8, status: u8, int_status: u8)
    ensures
        run(TxView::start(init_steps()), init_replies(id, status, int_status)).result
            == Some(init_decision(id, status, int_status)),
        run(TxView::start(init_steps()), init_replies(id, status, int_status)).result
            == Some(Ok::<Option<i32>, Error>(None)) <==> ((id == 0x50u8 || id == 0x51u8) && status & 0x02u8
            != 0u8 && status & 0x04u8 == 0u8 && int_status & 0x10u8 != 0u8),
        !(id == 0x50u8 || id == 0x51u8) ==> run(TxView::start(init_steps()), init_replies(id, status, int_status)).result
            == Some(Err::<Option<i32>, Error>(Error::InvalidId)),
        (id == 0x50u8 || id == 0x51u8) && (status & 0x02u8 == 0u8 || status & 0x04u8 != 0u8)
            ==> run(TxView::start(init_steps()), init_replies(id, status, int_status)).result
            == Some(Err::<Option<i32>, Error>(Error::NotReady)),
        (id == 0x50u8 || id == 0x51u8) && status & 0x02u8 != 0u8 && status & 0x04u8 == 0u8 && int_status & 0x10u8
            == 0u8 ==> run(TxView::start(init_steps()), init_replies(id, status, int_status)).result
            == Some(Err::<Option<i32>, Error>(Error::NotReady)),
{
    reveal_with_fuel(run, 6);
    let r = init_replies(id, status, int_status);
    assert(r.drop_first() =~= seq![r[1], r[2], r[3], r[4]]);
    assert(r.drop_first().drop_first() =~= seq![r[2], r[3], r[4]]);
    assert(r.drop_first().drop_first().drop_first() =~= seq![r[3], r[4]]);
    assert(r.drop_first().drop_first().drop_first().drop_first() =~= seq![r[4]]);
    assert(seq![r[4]].drop_first() =~= Seq::<ReplyView>::empty());
}

/// Reading a sample gives the signed 24-bit little-endian value of the three
/// bytes read: temperature in 1/65536 °C, pressure in 1/64 Pa.
pub proof fn lemma_read_outcome(b0: u8, b1: u8, b2: u8)
    ensures
        run(TxView::start(read_temp_steps()), seq![ReplyView::Read(seq![b0, b1, b2])]).result
            == Some(Ok::<Option<i32>, Error>(Some(i24_le(b0, b1, b2) as i32))),
        run(TxView::start(read_pres_steps()), seq![ReplyView::Read(seq![b0, b1, b2])]).result
            == Some(Ok::<Option<i32>, Error>(Some(i24_le(b0, b1, b2) as i32))),
        -0x80_0000 <= i24_le(b0, b1, b2) < 0x80_0000,
        i24_le(b0, b1, b2) == b0 as int + 256 * (b1 as int) + 65536 * (b2 as int) - (if b2 >= 0x80u8 {
            0x100_0000int
        } else {
            0int
        }),
{
    reveal_with_fuel(run, 2);
    assert(seq![ReplyView::Read(seq![b0, b1, b2])].drop_first() =~= Seq::<ReplyView>::empty());
}

/// The fixed sequences: a reset writes 0xB6 to the command register (0x7E)
/// and waits 2 ms; initialization reads the chip ID (0x01), resets, then reads
/// the status (0x28) and the interrupt status (0x27); standby writes 0 to
/// `ODR_CONFIG` (0x37); the sample reads take three bytes from the
/// temperature (0x1D) and pressure (0x20) data registers.
pub proof fn lemma_fixed_sequences()
    ensures
        reset_steps().len() == 2,
        crate::transaction::writes(reset_steps()[0], 0x7Eu8, 0xB6u8),
        reset_steps()[1] == StepView::DelayMs(2),
        init_steps().len() == 5,
        init_steps()[0] == (StepView::Read { reg: 0x01u8, expect: Expect::ChipId }),
        crate::transaction::writes(init_steps()[1], 0x7Eu8, 0xB6u8),
        init_steps()[2] == StepView::DelayMs(2),
        init_steps()[3] == (StepView::Read { reg: 0x28u8, expect: Expect::PowerUp }),
        init_steps()[4] == (StepView::Read { reg: 0x27u8, expect: Expect::ResetDone }),
        stop_steps().len() == 1,
        crate::transaction::writes(stop_steps()[0], 0x37u8, 0x00u8),
        read_temp_steps().len() == 1,
        crate::transaction::reads_sample(read_temp_steps()[0], 0x1Du8),
        read_pres_steps().len() == 1,
        crate::transaction::reads_sample(read_pres_steps()[0], 0x20u8),
{
}

/// Every operation that starts measuring first returns the sensor to standby
/// and then writes the oversampling configuration, before it selects a mode.
pub proof fn lemma_modes_start_from_standby(
    press_en: bool,
    odr: crate::normal::OutputDataRate,
    osr_t: Oversampling,
    osr_p: Oversampling,
)
    ensures
        crate::continuous::start_continuous_steps(press_en, osr_t, osr_p).subrange(0, 2)
            == stop_steps() + conf_osr_steps(press_en, osr_t, osr_p),
        crate::normal::start_normal_steps(press_en, odr, osr_t, osr_p).subrange(0, 2)
            == stop_steps() + conf_osr_steps(press_en, osr_t, osr_p),
        crate::forced::meas_temp_steps(osr_t, osr_p).subrange(0, 2)
            == stop_steps() + conf_osr_steps(false, osr_t, osr_p),
        crate::forced::meas_pres_steps(osr_t, osr_p).subrange(0, 2)
            == stop_steps() + conf_osr_steps(true, osr_t, osr_p),
{
    assert(crate::continuous::start_continuous_steps(press_en, osr_t, osr_p).subrange(0, 2)
        =~= stop_steps() + conf_osr_steps(press_en, osr_t, osr_p));
    assert(crate::normal::start_normal_steps(press_en, odr, osr_t, osr_p).subrange(0, 2)
        =~= stop_steps() + conf_osr_steps(press_en, osr_t, osr_p));
    assert(crate::forced::meas_temp_steps(osr_t, osr_p).subrange(0, 2)
        =~= stop_steps() + conf_osr_steps(false, osr_t, osr_p));
    assert(crate::forced::meas_pres_steps(osr_t, osr_p).subrange(0, 2)
        =~= stop_steps() + conf_osr_steps(true, osr_t, osr_p));
}

pub(crate) fn push_reset(v: &mut Vec<Step>)
    ensures
        step_views(final(v)@) == step_views(old(v)@) + reset_steps(),
{
    push_write2(v, CMD, 0xB6);
    push_step(v, Step::DelayMs(2));
}

pub(crate) fn push_stop(v: &mut Vec<Step>)
    ensures
        step_views(final(v)@) == step_views(old(v)@) + stop_steps(),
{
    push_write2(v, ODR_CONFIG, 0x00);
}

pub(crate) fn push_conf_osr(v: &mut Vec<Step>, press_en: bool, osr_t: Oversampling, osr_p: Oversampling)
    ensures
        step_views(final(v)@) == step_views(old(v)@) + conf_osr_steps(press_en, osr_t, osr_p),
{
    let b = osr_config(press_en, osr_t, osr_p);
    push_write2(v, OSR_CONFIG, b);
}

impl<I2C, D> Bmp5xx<I2C, D> {
    /// The I2C bus handle.
    pub closed spec fn bus(&self) -> I2C {
        self.i2c
    }

    /// The delay provider.
    pub closed spec fn timer(&self) -> D {
        self.delay
    }

    /// Creates a new driver instance.
    pub fn new(i2c: I2C, delay: D, addr: u8) -> (s: Self)
        ensures
            s@ == (Settings { addr, osr_t: Oversampling::X1, osr_p: Oversampling::X1 }),
            s.bus() == i2c,
            s.timer() == delay,
    {
        Bmp5xx { i2c, delay, addr, osr_t: Oversampling::X1, osr_p: Oversampling::X1 }
    }

    /// Sets the oversampling rate for temperature readings.
    pub fn osr_temp(&mut self, osr: Oversampling)
        ensures
            final(self)@ == (Settings { osr_t: osr, ..old(self)@ }),
            final(self).bus() == old(self).bus(),
            final(self).timer() == old(self).timer(),
    {
        self.osr_t = osr;
    }

    /// Sets the oversampling rate for pressure readings.
    pub fn osr_pres(&mut self, osr: Oversampling)
        ensures
            final(self)@ == (Settings { osr_p: osr, ..old(self)@ }),
            final(self).bus() == old(self).bus(),
            final(self).timer() == old(self).timer(),
    {
        self.osr_p = osr;
    }

    /// The sensor's I2C address.
    pub fn addr(&self) -> (a: u8)
        ensures
            a == self@.addr,
    {
        self.addr
    }

    /// The temperature oversampling rate.
    pub fn temp_oversampling(&self) -> (o: Oversampling)
        ensures
            o == self@.osr_t,
    {
        self.osr_t
    }

    /// The pressure oversampling rate.
    pub fn pres_oversampling(&self) -> (o: Oversampling)
        ensures
            o == self@.osr_p,
    {
        self.osr_p
    }

    /// The bus and delay handles, to perform the actions of a transaction.
    pub fn parts_mut(&mut self) -> (r: (&mut I2C, &mut D))
        ensures
            *r.0 == old(self).bus(),
            *r.1 == old(self).timer(),
            final(self)@ == old(self)@,
            final(self).bus() == *final(r.0),
            final(self).timer() == *final(r.1),
    {
        (&mut self.i2c, &mut self.delay)
    }

    /// The bus sequence of a software reset. Takes about 2 ms.
    pub fn reset_transaction(&self) -> (t: Transaction)
        ensures
            t@ == TxView::start(reset_steps()),
            t@.wf(),
    {
        let mut v: Vec<Step> = Vec::new();
        push_reset(&mut v);
        assert(step_views(v@) =~= reset_steps());
        Transaction::new(v)
    }

    /// The bus sequence that initializes the sensor and readies it for further operations.
    pub fn init_transaction(&self) -> (t: Transaction)
        ensures
            t@ == TxView::start(init_steps()),
            t@.wf(),
    {
        let mut v: Vec<Step> = Vec::new();
        push_read(&mut v, CHIP_ID, Expect::ChipId);
        push_reset(&mut v);
        push_read(&mut v, STATUS, Expect::PowerUp);
        push_read(&mut v, INT_STATUS, Expect::ResetDone);
        assert(step_views(v@) =~= init_steps());
        Transaction::new(v)
    }

    /// The bus sequence that stops measurement and returns the sensor to standby mode.
    pub fn stop_transaction(&self) -> (t: Transaction)
        ensures
            t@ == TxView::start(stop_steps()),
            t@.wf(),
    {
        let mut v: Vec<Step> = Vec::new();
        push_stop(&mut v);
        assert(step_views(v@) =~= stop_steps());
        Transaction::new(v)
    }

    /// The bus sequence that reads the latest raw temperature sample
    /// (in units of 1/65536 °C). It does not start a new measurement.
    pub fn read_temp_transaction(&self) -> (t: Transaction)
        ensures
            t@ == TxView::start(read_temp_steps()),
            t@.wf(),
    {
        let mut v: Vec<Step> = Vec::new();
        push_read(&mut v, TEMP_DATA_XLSB, Expect::Sample);
        assert(step_views(v@) =~= read_temp_steps());
        Transaction::new(v)
    }

    /// The bus sequence that reads the latest raw pressure sample
    /// (in units of 1/64 Pa). It does not start a new measurement.
    pub fn read_pres_transaction(&self) -> (t: Transaction)
        ensures
            t@ == TxView::start(read_pres_steps()),
            t@.wf(),
    {
        let mut v: Vec<Step> = Vec::new();
        push_read(&mut v, PRESS_DATA_XLSB, Expect::Sample);
        assert(step_views(v@) =~= read_pres_steps());
        Transaction::new(v)
    }
}

} // verus!
