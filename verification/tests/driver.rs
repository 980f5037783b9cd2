use bmp5xx::error::Error;
use bmp5xx::iir::{Filter, Iir};
use bmp5xx::interrupt::{IntMode, IntPin, IntPolarity, IntSource, Interrupt};
use bmp5xx::normal::OutputDataRate;
use bmp5xx::oor::CountLimit;
use bmp5xx::osr::{osr_config, Oversampling};
use bmp5xx::register;
use bmp5xx::transaction::{Action, Reply, Transaction};
use bmp5xx::Bmp5xx;

/// Feeds the replies one by one and returns every action asked for, the
/// final one included.
fn drive(mut tx: Transaction, replies: Vec<Reply>) -> Vec<Action> {
    let mut actions = vec![tx.action()];
    for r in replies {
        tx.advance(r);
        actions.push(tx.action());
    }
    actions
}

fn dev() -> Bmp5xx<(), ()> {
    Bmp5xx::new((), (), 0x47)
}

fn w(b: &[u8]) -> Action {
    Action::Write(b.to_vec())
}

#[test]
fn new_driver_defaults() {
    let d = dev();
    assert_eq!(d.addr(), 0x47);
    assert_eq!(d.temp_oversampling(), Oversampling::X1);
    assert_eq!(d.pres_oversampling(), Oversampling::X1);
}

#[test]
fn osr_setters_change_one_rate() {
    let mut d = dev();
    d.osr_temp(Oversampling::X8);
    assert_eq!(d.temp_oversampling(), Oversampling::X8);
    assert_eq!(d.pres_oversampling(), Oversampling::X1);
    d.osr_pres(Oversampling::X128);
    assert_eq!(d.temp_oversampling(), Oversampling::X8);
    assert_eq!(d.pres_oversampling(), Oversampling::X128);
    assert_eq!(d.addr(), 0x47);
}

#[test]
fn parts_mut_gives_the_handles() {
    let mut d: Bmp5xx<u32, u64> = Bmp5xx::new(5, 9, 0x46);
    {
        let (i2c, delay) = d.parts_mut();
        assert_eq!(*i2c, 5);
        assert_eq!(*delay, 9);
        *i2c = 6;
    }
    let (i2c, _) = d.parts_mut();
    assert_eq!(*i2c, 6);
}

#[test]
fn oversampling_codes_and_times() {
    let all = [
        Oversampling::X1,
        Oversampling::X2,
        Oversampling::X4,
        Oversampling::X8,
        Oversampling::X16,
        Oversampling::X32,
        Oversampling::X64,
        Oversampling::X128,
    ];
    let t = [1000, 1100, 1500, 2100, 3300, 5800, 10800, 20800];
    let p = [1000, 1700, 2900, 5400, 10400, 20400, 40400, 80400];
    for (i, o) in all.iter().enumerate() {
        assert_eq!(o.bits() as usize, i);
        assert_eq!(o.t_conv_t(), t[i]);
        assert_eq!(o.t_conv_p(), p[i]);
    }
}

#[test]
fn osr_config_byte_layout() {
    assert_eq!(osr_config(true, Oversampling::X8, Oversampling::X128), 0x40 | (7 << 3) | 3);
    assert_eq!(osr_config(false, Oversampling::X1, Oversampling::X1), 0x00);
    assert_eq!(osr_config(false, Oversampling::X2, Oversampling::X4), (2 << 3) | 1);
}

#[test]
fn reset_writes_command_then_waits() {
    let acts = drive(dev().reset_transaction(), vec![Reply::Written, Reply::Waited]);
    assert_eq!(
        acts,
        vec![w(&[register::CMD, 0xB6]), Action::DelayMs(2), Action::Done(Ok(None))]
    );
}

#[test]
fn reset_write_failure() {
    let acts = drive(dev().reset_transaction(), vec![Reply::WriteFailed]);
    assert_eq!(acts.last(), Some(&Action::Done(Err(Error::WriteError))));
    assert_eq!(acts.len(), 2);
}

fn init_replies(id: u8, status: u8, int_status: u8) -> Vec<Reply> {
    vec![
        Reply::Read(vec![id]),
        Reply::Written,
        Reply::Waited,
        Reply::Read(vec![status]),
        Reply::Read(vec![int_status]),
    ]
}

#[test]
fn init_success() {
    let acts = drive(dev().init_transaction(), init_replies(0x50, 0x02, 0x10));
    assert_eq!(
        acts,
        vec![
            Action::WriteRead { reg: register::CHIP_ID, len: 1 },
            w(&[register::CMD, 0xB6]),
            Action::DelayMs(2),
            Action::WriteRead { reg: register::STATUS, len: 1 },
            Action::WriteRead { reg: register::INT_STATUS, len: 1 },
            Action::Done(Ok(None)),
        ]
    );
    let acts = drive(dev().init_transaction(), init_replies(0x51, 0xF3, 0xFF));
    assert_eq!(acts.last(), Some(&Action::Done(Ok(None))));
}

#[test]
fn init_invalid_id_stops_at_once() {
    let mut tx = dev().init_transaction();
    tx.advance(Reply::Read(vec![0x52]));
    assert_eq!(tx.action(), Action::Done(Err(Error::InvalidId)));
    assert_eq!(tx.outcome(), Some(Err(Error::InvalidId)));
    let acts = drive(dev().init_transaction(), init_replies(0x00, 0x02, 0x10));
    assert_eq!(acts.last(), Some(&Action::Done(Err(Error::InvalidId))));
}

#[test]
fn init_not_ready() {
    // NVM not ready
    let acts = drive(dev().init_transaction(), init_replies(0x50, 0x00, 0x10));
    assert_eq!(acts.last(), Some(&Action::Done(Err(Error::NotReady))));
    // NVM error
    let acts = drive(dev().init_transaction(), init_replies(0x50, 0x06, 0x10));
    assert_eq!(acts.last(), Some(&Action::Done(Err(Error::NotReady))));
    // power-on reset not complete
    let acts = drive(dev().init_transaction(), init_replies(0x50, 0x02, 0xEF));
    assert_eq!(acts.last(), Some(&Action::Done(Err(Error::NotReady))));
}

#[test]
fn init_read_failure() {
    let acts = drive(dev().init_transaction(), vec![Reply::ReadFailed]);
    assert_eq!(acts, vec![Action::WriteRead { reg: register::CHIP_ID, len: 1 }, Action::Done(Err(Error::ReadError))]);
    let acts = drive(
        dev().init_transaction(),
        vec![Reply::Read(vec![0x50]), Reply::Written, Reply::Waited, Reply::ReadFailed],
    );
    assert_eq!(acts.last(), Some(&Action::Done(Err(Error::ReadError))));
}

#[test]
fn unanswering_reply_changes_nothing() {
    let mut tx = dev().init_transaction();
    tx.advance(Reply::Written);
    tx.advance(Reply::Waited);
    tx.advance(Reply::Read(vec![0x50, 0x00]));
    assert_eq!(tx.action(), Action::WriteRead { reg: register::CHIP_ID, len: 1 });
    assert_eq!(tx.outcome(), None);
}

#[test]
fn reply_after_done_changes_nothing() {
    let mut tx = dev().stop_transaction();
    tx.advance(Reply::Written);
    assert_eq!(tx.outcome(), Some(Ok(None)));
    tx.advance(Reply::WriteFailed);
    assert_eq!(tx.action(), Action::Done(Ok(None)));
}

#[test]
fn stop_writes_standby() {
    let acts = drive(dev().stop_transaction(), vec![Reply::Written]);
    assert_eq!(acts, vec![w(&[register::ODR_CONFIG, 0x00]), Action::Done(Ok(None))]);
}

#[test]
fn read_temp_decodes_signed_24_bit() {
    let acts = drive(dev().read_temp_transaction(), vec![Reply::Read(vec![0x00, 0x00, 0x19])]);
    assert_eq!(acts[0], Action::WriteRead { reg: register::TEMP_DATA_XLSB, len: 3 });
    assert_eq!(acts[1], Action::Done(Ok(Some(0x19_0000))));
    assert_eq!(0x19_0000 as f32 / 65536.0, 25.0);
    let acts = drive(dev().read_temp_transaction(), vec![Reply::Read(vec![0xFF, 0xFF, 0xFF])]);
    assert_eq!(acts[1], Action::Done(Ok(Some(-1))));
    let acts = drive(dev().read_temp_transaction(), vec![Reply::Read(vec![0x00, 0x00, 0x80])]);
    assert_eq!(acts[1], Action::Done(Ok(Some(-0x80_0000))));
}

#[test]
fn read_pres_decodes_sample() {
    // 101325 Pa * 64 = 6484800 = 0x62F340
    let acts = drive(dev().read_pres_transaction(), vec![Reply::Read(vec![0x40, 0xF3, 0x62])]);
    assert_eq!(acts[0], Action::WriteRead { reg: register::PRESS_DATA_XLSB, len: 3 });
    assert_eq!(acts[1], Action::Done(Ok(Some(6_484_800))));
    assert_eq!(6_484_800f32 / 64.0 / 100.0, 1013.25);
}

#[test]
fn read_failure_gives_read_error() {
    let acts = drive(dev().read_pres_transaction(), vec![Reply::ReadFailed]);
    assert_eq!(acts[1], Action::Done(Err(Error::ReadError)));
}

#[test]
fn start_continuous_sequence() {
    let mut d = dev();
    d.osr_temp(Oversampling::X2);
    d.osr_pres(Oversampling::X16);
    let acts = drive(
        d.start_continuous_transaction(true),
        vec![Reply::Written, Reply::Written, Reply::Written],
    );
    assert_eq!(
        acts,
        vec![
            w(&[register::ODR_CONFIG, 0x00]),
            w(&[register::OSR_CONFIG, 0x40 | (4 << 3) | 1]),
            w(&[register::ODR_CONFIG, 0x03]),
            Action::Done(Ok(None)),
        ]
    );
}

#[test]
fn start_continuous_write_failure() {
    let acts = drive(dev().start_continuous_transaction(false), vec![Reply::Written, Reply::WriteFailed]);
    assert_eq!(acts.last(), Some(&Action::Done(Err(Error::WriteError))));
    assert_eq!(acts.len(), 3);
}

#[test]
fn meas_temp_sequence() {
    let mut d = dev();
    d.osr_temp(Oversampling::X8);
    let acts = drive(
        d.meas_temp_transaction(),
        vec![Reply::Written, Reply::Written, Reply::Written, Reply::Waited, Reply::Read(vec![0x00, 0x80, 0x16])],
    );
    assert_eq!(
        acts,
        vec![
            w(&[register::ODR_CONFIG, 0x00]),
            w(&[register::OSR_CONFIG, 0x03]),
            w(&[register::ODR_CONFIG, 0x02]),
            Action::DelayUs(2205),
            Action::WriteRead { reg: register::TEMP_DATA_XLSB, len: 3 },
            Action::Done(Ok(Some(0x16_8000))),
        ]
    );
    assert_eq!(0x16_8000 as f32 / 65536.0, 22.5);
}

#[test]
fn meas_pres_sequence() {
    let mut d = dev();
    d.osr_pres(Oversampling::X128);
    let acts = drive(
        d.meas_pres_transaction(),
        vec![Reply::Written, Reply::Written, Reply::Written, Reply::Waited, Reply::Read(vec![0x40, 0xF3, 0x62])],
    );
    assert_eq!(
        acts,
        vec![
            w(&[register::ODR_CONFIG, 0x00]),
            w(&[register::OSR_CONFIG, 0x40 | (7 << 3)]),
            w(&[register::ODR_CONFIG, 0x02]),
            Action::DelayUs(84420),
            Action::WriteRead { reg: register::PRESS_DATA_XLSB, len: 3 },
            Action::Done(Ok(Some(6_484_800))),
        ]
    );
}

#[test]
fn meas_wait_times() {
    let mut d = dev();
    for (o, us) in [(Oversampling::X1, 1050), (Oversampling::X2, 1155), (Oversampling::X128, 21840)] {
        d.osr_temp(o);
        let acts = drive(d.meas_temp_transaction(), vec![Reply::Written, Reply::Written, Reply::Written]);
        assert_eq!(acts[3], Action::DelayUs(us));
    }
    for (o, us) in [(Oversampling::X2, 1785), (Oversampling::X64, 42420)] {
        d.osr_pres(o);
        let acts = drive(d.meas_pres_transaction(), vec![Reply::Written, Reply::Written, Reply::Written]);
        assert_eq!(acts[3], Action::DelayUs(us));
    }
}

#[test]
fn start_normal_ok_and_odr_invalid() {
    let d = dev();
    let replies = |eff: u8| vec![Reply::Written, Reply::Written, Reply::Written, Reply::Read(vec![eff])];
    let acts = drive(d.start_normal_transaction(true, OutputDataRate::Hz050), replies(0x80));
    assert_eq!(
        acts,
        vec![
            w(&[register::ODR_CONFIG, 0x00]),
            w(&[register::OSR_CONFIG, 0x40]),
            w(&[register::ODR_CONFIG, (0x0F << 2) | 0x01]),
            Action::WriteRead { reg: register::OSR_EFF, len: 1 },
            Action::Done(Ok(None)),
        ]
    );
    let acts = drive(d.start_normal_transaction(false, OutputDataRate::Hz240), replies(0x7F));
    assert_eq!(acts[2], w(&[register::ODR_CONFIG, 0x01]));
    assert_eq!(acts[4], Action::Done(Err(Error::OdrInvalid)));
}

#[test]
fn odr_codes() {
    assert_eq!(OutputDataRate::Hz240.bits(), 0x00);
    assert_eq!(OutputDataRate::Hz100.bits(), 0x0A);
    assert_eq!(OutputDataRate::Hz001.bits(), 0x1C);
    assert_eq!(OutputDataRate::Hz000_125.bits(), 0x1F);
}

#[test]
fn iir_defaults_and_builders() {
    let i = Iir::default();
    assert!(!i.is_enabled());
    assert_eq!(i.temp_filter(), Filter::Bypass);
    assert_eq!(i.pres_filter(), Filter::Bypass);
    let i = Iir::default().enable(true).temp(Filter::Coeff3).pres(Filter::Coeff7);
    assert!(i.is_enabled());
    assert_eq!(i.temp_filter(), Filter::Coeff3);
    assert_eq!(i.pres_filter(), Filter::Coeff7);
    let i = i.enable(false);
    assert!(!i.is_enabled());
    assert_eq!(i.temp_filter(), Filter::Coeff3);
}

#[test]
fn iir_registers() {
    let conf = Iir::default().enable(true).temp(Filter::Coeff3).pres(Filter::Coeff7);
    let acts = drive(dev().iir_transaction(conf), vec![Reply::Written, Reply::Written]);
    assert_eq!(
        acts,
        vec![
            w(&[register::DSP_IIR, (3 << 3) | 2]),
            w(&[register::DSP_CONFIG, 0xFF]),
            Action::Done(Ok(None)),
        ]
    );
    let acts = drive(dev().iir_transaction(Iir::default().pres(Filter::Coeff127)), vec![Reply::Written]);
    assert_eq!(acts[0], w(&[register::DSP_IIR, 7 << 3]));
    assert_eq!(acts[1], w(&[register::DSP_CONFIG, 0x03]));
}

#[test]
fn interrupt_defaults_and_builders() {
    let i = Interrupt::default();
    assert!(!i.is_enabled());
    assert_eq!(i.int_mode(), IntMode::Pulsed);
    assert_eq!(i.int_polarity(), IntPolarity::ActiveLow);
    assert_eq!(i.int_pin(), IntPin::PushPull);
    let i = i.enable(true).mode(IntMode::Latched).polarity(IntPolarity::ActiveHigh).pin(IntPin::OpenDrain);
    assert!(i.is_enabled());
    assert_eq!(i.int_mode(), IntMode::Latched);
    assert_eq!(i.int_polarity(), IntPolarity::ActiveHigh);
    assert_eq!(i.int_pin(), IntPin::OpenDrain);
}

#[test]
fn interrupt_registers() {
    let acts = drive(dev().int_transaction(Interrupt::default().enable(true)), vec![Reply::Written, Reply::Written]);
    assert_eq!(
        acts,
        vec![
            w(&[register::INT_SOURCE, 0x01]),
            w(&[register::INT_CONFIG, 0x08]),
            Action::Done(Ok(None)),
        ]
    );
    let conf = Interrupt::default().mode(IntMode::Latched).polarity(IntPolarity::ActiveHigh).pin(IntPin::OpenDrain);
    let acts = drive(dev().int_transaction(conf), vec![Reply::Written]);
    assert_eq!(acts[1], w(&[register::INT_CONFIG, 0x07]));
}

#[test]
fn interrupt_write_failure() {
    let acts = drive(dev().int_transaction(Interrupt::default()), vec![Reply::WriteFailed]);
    assert_eq!(acts[1], Action::Done(Err(Error::WriteError)));
}

#[test]
fn int_source_builders() {
    let s = IntSource::default();
    assert!(s.on_data_ready());
    assert!(!s.on_fifo_full() && !s.on_fifo_threshold() && !s.on_pressure_oor());
    assert_eq!(s.source_bits(), 0x01);
    let s = s.data_ready(false).fifo_full(true).pressure_oor(true);
    assert!(!s.on_data_ready() && s.on_fifo_full() && !s.on_fifo_threshold() && s.on_pressure_oor());
    assert_eq!(s.source_bits(), 0x0A);
    let s = s.fifo_threshold(true);
    assert_eq!(s.source_bits(), 0x0E);
}

#[test]
fn interrupt_config_bits() {
    assert_eq!(Interrupt::default().config_bits(), 0x00);
    assert_eq!(Interrupt::default().enable(true).pin(IntPin::OpenDrain).config_bits(), 0x0C);
}

#[test]
fn oor_frame_layout() {
    // 1013.25 hPa reference, 10 hPa window, as the driver computes them: in Pa
    let acts = drive(dev().oor_transaction(101_325, 200, CountLimit::Limit7), vec![Reply::Written]);
    assert_eq!(
        acts,
        vec![
            w(&[register::OOR_THR_P_LSB, 0xCD, 0x8B, 200, (2 << 6) | 0x01]),
            Action::Done(Ok(None)),
        ]
    );
    let acts = drive(dev().oor_transaction(0x0_1234, 0, CountLimit::Limit15), vec![Reply::WriteFailed]);
    assert_eq!(acts[0], w(&[register::OOR_THR_P_LSB, 0x34, 0x12, 0, 3 << 6]));
    assert_eq!(acts[1], Action::Done(Err(Error::WriteError)));
}

#[test]
fn count_limit_codes() {
    assert_eq!(CountLimit::Limit1.bits(), 0);
    assert_eq!(CountLimit::Limit3.bits(), 1);
    assert_eq!(CountLimit::Limit7.bits(), 2);
    assert_eq!(CountLimit::Limit15.bits(), 3);
}
