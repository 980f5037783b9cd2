//! Configuration options for interrupts.
use vstd::prelude::*;
use crate::Bmp5xx;
use crate::osr::{flag, flag_bit};
use crate::register::{INT_CONFIG, INT_SOURCE};
use crate::transaction::{Step, StepView, Transaction, TxView, push_write2, step_views};

verus! {

/// Sensor interrupts configuration.
pub struct Interrupt {
    enabled: bool,
    source: IntSource,
    mode: IntMode,
    polarity: IntPolarity,
    int_pin: IntPin,
}

/// Decide which events trigger an interrupt.
pub struct IntSource {
    data_ready: bool,
    fifo_full: bool,
    fifo_threshold: bool,
    pressure_oor: bool,
}

/// Whether the interrupt pin is pulsed or held until cleared.
#[derive(Debug, Copy, Clone, Eq, PartialEq, Structural)]
pub enum IntMode {
    /// Interrupt is asserted for a short duration.
    Pulsed,
    /// Interrupt is held until cleared.
    Latched,
}

/// Whether the interrupt pin is active low or high.
#[derive(Debug, Copy, Clone, Eq, PartialEq, Structural)]
pub enum IntPolarity {
    /// Interrupt is asserted by pulling the pin low.
    ActiveLow,
    /// Interrupt is asserted by pulling the pin high.
    ActiveHigh,
}

/// Whether the interrupt pin is push-pull or open-drain.
#[derive(Debug, Copy, Clone, Eq, PartialEq, Structural)]
pub enum IntPin {
    /// Pin is driven both high and low by the sensor.
    PushPull,
    /// Pin is only pulled low. This mode requires an external pull-up.
    OpenDrain,
}

impl IntMode {
    /// The bit value of this mode in `INT_CONFIG`.
    pub open spec fn code(self) -> u8 {
        match self {
            IntMode::Pulsed => 0,
            IntMode::Latched => 1,
        }
    }

    /// The register bit value of this mode.
    pub fn bits(&self) -> (b: u8)
        ensures
            b == self.code(),
    {
        match self {
            IntMode::Pulsed => 0,
            IntMode::Latched => 1,
        }
    }
}

impl IntPolarity {
    /// The bit value of this polarity in `INT_CONFIG`.
    pub open spec fn code(self) -> u8 {
        match self {
            IntPolarity::ActiveLow => 0,
            IntPolarity::ActiveHigh => 1,
        }
    }

    /// The register bit value of this polarity.
    pub fn bits(&self) -> (b: u8)
        ensures
            b == self.code(),
    {
        match self {
            IntPolarity::ActiveLow => 0,
            IntPolarity::ActiveHigh => 1,
        }
    }
}

impl IntPin {
    /// The bit value of this pin behaviour in `INT_CONFIG`.
    pub open spec fn code(self) -> u8 {
        match self {
            IntPin::PushPull => 0,
            IntPin::OpenDrain => 1,
        }
    }

    /// The register bit value of this pin behaviour.
    pub fn bits(&self) -> (b: u8)
        ensures
            b == self.code(),
    {
        match self {
            IntPin::PushPull => 0,
            IntPin::OpenDrain => 1,
        }
    }
}

/// The interrupt pin settings are encoded as the datasheet says: a set bit
/// means latched, active high, open-drain.
pub proof fn lemma_int_pin_datasheet()
    ensures
        IntMode::Pulsed.code() == 0u8,
        IntMode::Latched.code() == 1u8,
        IntPolarity::ActiveLow.code() == 0u8,
        IntPolarity::ActiveHigh.code() == 1u8,
        IntPin::PushPull.code() == 0u8,
        IntPin::OpenDrain.code() == 1u8,
{
}

/// The value of an [`IntSource`].
pub struct IntSourceView {
    /// New data triggers an interrupt.
    pub data_ready: bool,
    /// The FIFO filling up triggers an interrupt.
    pub fifo_full: bool,
    /// The FIFO reaching its threshold triggers an interrupt.
    pub fifo_threshold: bool,
    /// An out-of-range pressure reading triggers an interrupt.
    pub pressure_oor: bool,
}

/// The value of an [`Interrupt`] configuration.
pub struct InterruptView {
    /// Whether interrupts are enabled.
    pub enabled: bool,
    /// The events that trigger an interrupt.
    pub source: IntSourceView,
    /// Pulsed or latched.
    pub mode: IntMode,
    /// Active low or high.
    pub polarity: IntPolarity,
    /// Push-pull or open-drain.
    pub pin: IntPin,
}

impl View for IntSource {
    type V = IntSourceView;

    closed spec fn view(&self) -> IntSourceView {
        IntSourceView {
            data_ready: self.data_ready,
            fifo_full: self.fifo_full,
            fifo_threshold: self.fifo_threshold,
            pressure_oor: self.pressure_oor,
        }
    }
}

impl View for Interrupt {
    type V = InterruptView;

    closed spec fn view(&self) -> InterruptView {
        InterruptView {
            enabled: self.enabled,
            source: self.source@,
            mode: self.mode,
            polarity: self.polarity,
            pin: self.int_pin,
        }
    }
}

/// The default interrupt sources: data ready only.
pub open spec fn default_int_source() -> IntSourceView {
    IntSourceView { data_ready: true, fifo_full: false, fifo_threshold: false, pressure_oor: false }
}

impl Default for IntSource {
    /// Only new data triggers an interrupt.
    fn default() -> (r: Self)
        ensures
            r@ == default_int_source(),
    {
        IntSource { data_ready: true, fifo_full: false, fifo_threshold: false, pressure_oor: false }
    }
}

impl Default for Interrupt {
    /// Interrupts disabled; data-ready source, pulsed, active low, push-pull.
    fn default() -> (r: Self)
        ensures
            r@ == (InterruptView {
                enabled: false,
                source: default_int_source(),
                mode: IntMode::Pulsed,
                polarity: IntPolarity::ActiveLow,
                pin: IntPin::PushPull,
            }),
    {
        Interrupt {
            enabled: false,
            source: IntSource::default(),
            mode: IntMode::Pulsed,
            polarity: IntPolarity::ActiveLow,
            int_pin: IntPin::PushPull,
        }
    }
}

impl Interrupt {
    /// Enable or disable interrupts.
    pub fn enable(self, enable: bool) -> (r: Self)
        ensures
            r@ == (InterruptView { enabled: enable, ..self@ }),
    {
        Interrupt { enabled: enable, ..self }
    }

    /// Sets interrupt mode.
    pub fn mode(self, mode: IntMode) -> (r: Self)
        ensures
            r@ == (InterruptView { mode, ..self@ }),
    {
        Interrupt { mode, ..self }
    }

    /// Sets interrupt polarity.
    pub fn polarity(self, polarity: IntPolarity) -> (r: Self)
        ensures
            r@ == (InterruptView { polarity, ..self@ }),
    {
        Interrupt { polarity, ..self }
    }

    /// Sets interrupt pin behaviour.
    pub fn pin(self, pin: IntPin) -> (r: Self)
        ensures
            r@ == (InterruptView { pin, ..self@ }),
    {
        Interrupt { int_pin: pin, ..self }
    }

    /// Whether interrupts are enabled.
    pub fn is_enabled(&self) -> (b: bool)
        ensures
            b == self@.enabled,
    {
        self.enabled
    }

    /// The interrupt mode.
    pub fn int_mode(&self) -> (m: IntMode)
        ensures
            m == self@.mode,
    {
        self.mode
    }

    /// The interrupt polarity.
    pub fn int_polarity(&self) -> (p: IntPolarity)
        ensures
            p == self@.polarity,
    {
        self.polarity
    }

    /// The interrupt pin behaviour.
    pub fn int_pin(&self) -> (p: IntPin)
        ensures
            p == self@.pin,
    {
        self.int_pin
    }

    /// The `INT_CONFIG` register value of this configuration.
    pub fn config_bits(&self) -> (b: u8)
        ensures
            b == int_config_byte(self@),
    {
        (flag_bit(self.enabled) << 3u8) | (self.int_pin.bits() << 2u8) | (self.polarity.bits() << 1u8)
            | self.mode.bits()
    }
}

impl IntSource {
    /// Whether new data triggers an interrupt.
    pub fn data_ready(self, data_ready: bool) -> (r: Self)
        ensures
            r@ == (IntSourceView { data_ready, ..self@ }),
    {
        IntSource { data_ready, ..self }
    }

    /// Whether the FIFO filling up triggers an interrupt.
    pub fn fifo_full(self, fifo_full: bool) -> (r: Self)
        ensures
            r@ == (IntSourceView { fifo_full, ..self@ }),
    {
        IntSource { fifo_full, ..self }
    }

    /// Whether the FIFO reaching a threshold triggers an interrupt.
    pub fn fifo_threshold(self, fifo_threshold: bool) -> (r: Self)
        ensures
            r@ == (IntSourceView { fifo_threshold, ..self@ }),
    {
        IntSource { fifo_threshold, ..self }
    }

    /// Whether an out-of-range pressure reading triggers an interrupt.
    pub fn pressure_oor(self, pressure_oor: bool) -> (r: Self)
        ensures
            r@ == (IntSourceView { pressure_oor, ..self@ }),
    {
        IntSource { pressure_oor, ..self }
    }

    /// Whether new data triggers an interrupt.
    pub fn on_data_ready(&self) -> (b: bool)
        ensures
            b == self@.data_ready,
    {
        self.data_ready
    }

    /// Whether the FIFO filling up triggers an interrupt.
    pub fn on_fifo_full(&self) -> (b: bool)
        ensures
            b == self@.fifo_full,
    {
        self.fifo_full
    }

    /// Whether the FIFO reaching its threshold triggers an interrupt.
    pub fn on_fifo_threshold(&self) -> (b: bool)
        ensures
            b == self@.fifo_threshold,
    {
        self.fifo_threshold
    }

    /// Whether an out-of-range pressure reading triggers an interrupt.
    pub fn on_pressure_oor(&self) -> (b: bool)
        ensures
            b == self@.pressure_oor,
    {
        self.pressure_oor
    }

    /// The `INT_SOURCE` register value of these sources.
    pub fn source_bits(&self) -> (b: u8)
        ensures
            b == int_source_byte(self@),
    {
        (flag_bit(self.pressure_oor) << 3u8) | (flag_bit(self.fifo_threshold) << 2u8)
            | (flag_bit(self.fifo_full) << 1u8) | flag_bit(self.data_ready)
    }
}

/// The `INT_SOURCE` register value: pressure out-of-range in bit 3, FIFO
/// threshold in bit 2, FIFO full in bit 1, data ready in bit 0.
pub open spec fn int_source_byte(s: IntSourceView) -> u8 {
    (flag(s.pressure_oor) << 3u8) | (flag(s.fifo_threshold) << 2u8) | (flag(s.fifo_full) << 1u8)
        | flag(s.data_ready)
}

/// The `INT_CONFIG` register value: enable in bit 3, pin behaviour in bit 2,
/// polarity in bit 1, mode in bit 0.
pub open spec fn int_config_byte(v: InterruptView) -> u8 {
    (flag(v.enabled) << 3u8) | (v.pin.code() << 2u8) | (v.polarity.code() << 1u8) | v.mode.code()
}

/// Configuring interrupts: first the sources, then the pin configuration.
pub open spec fn int_steps(v: InterruptView) -> Seq<StepView> {
    seq![
        StepView::Write(seq![INT_SOURCE, int_source_byte(v.source)]),
        StepView::Write(seq![INT_CONFIG, int_config_byte(v)]),
    ]
}

proof fn lemma_four_bits(a: u8, b: u8, c: u8, d: u8)
    requires
        a < 2,
        b < 2,
        c < 2,
        d < 2,
    ensures
        ((a << 3u8) | (b << 2u8) | (c << 1u8) | d) >> 3u8 == a,
        (((a << 3u8) | (b << 2u8) | (c << 1u8) | d) >> 2u8) & 1u8 == b,
        (((a << 3u8) | (b << 2u8) | (c << 1u8) | d) >> 1u8) & 1u8 == c,
        ((a << 3u8) | (b << 2u8) | (c << 1u8) | d) & 1u8 == d,
{
    assert(((a << 3u8) | (b << 2u8) | (c << 1u8) | d) >> 3u8 == a) by (bit_vector)
        requires a < 2, b < 2, c < 2, d < 2;
    assert((((a << 3u8) | (b << 2u8) | (c << 1u8) | d) >> 2u8) & 1u8 == b) by (bit_vector)
        requires a < 2, b < 2, c < 2, d < 2;
    assert((((a << 3u8) | (b << 2u8) | (c << 1u8) | d) >> 1u8) & 1u8 == c) by (bit_vector)
        requires a < 2, b < 2, c < 2, d < 2;
    assert(((a << 3u8) | (b << 2u8) | (c << 1u8) | d) & 1u8 == d) by (bit_vector)
        requires a < 2, b < 2, c < 2, d < 2;
}

/// Each interrupt source and each interrupt setting has a bit of its own in
/// the register values written to the sensor.
pub proof fn lemma_interrupt_fields(v: InterruptView)
    ensures
        int_source_byte(v.source) >> 3u8 == flag(v.source.pressure_oor),
        (int_source_byte(v.source) >> 2u8) & 1u8 == flag(v.source.fifo_threshold),
        (int_source_byte(v.source) >> 1u8) & 1u8 == flag(v.source.fifo_full),
        int_source_byte(v.source) & 1u8 == flag(v.source.data_ready),
        int_config_byte(v) >> 3u8 == flag(v.enabled),
        (int_config_byte(v) >> 2u8) & 1u8 == v.pin.code(),
        (int_config_byte(v) >> 1u8) & 1u8 == v.polarity.code(),
        int_config_byte(v) & 1u8 == v.mode.code(),
{
    lemma_four_bits(
        flag(v.source.pressure_oor),
        flag(v.source.fifo_threshold),
        flag(v.source.fifo_full),
        flag(v.source.data_ready),
    );
    lemma_four_bits(flag(v.enabled), v.pin.code(), v.polarity.code(), v.mode.code());
}

/// Configuring interrupts, for every configuration: `INT_SOURCE` (0x15) gets
/// data ready in bit 0, FIFO full in bit 1, FIFO threshold in bit 2 and
/// pressure out-of-range in bit 3; then `INT_CONFIG` (0x14) gets the mode in
/// bit 0, the polarity in bit 1, the pin behaviour in bit 2 and the enable
/// flag in bit 3. No other bit is set.
pub proof fn lemma_int_writes(v: InterruptView)
    ensures
        int_steps(v).len() == 2,
        int_steps(v)[0] matches StepView::Write(b) && b.len() == 2 && b[0] == 0x15u8
            && (b[1] & 1u8 == 1u8) == v.source.data_ready
            && ((b[1] >> 1u8) & 1u8 == 1u8) == v.source.fifo_full
            && ((b[1] >> 2u8) & 1u8 == 1u8) == v.source.fifo_threshold
            && ((b[1] >> 3u8) == 1u8) == v.source.pressure_oor
            && b[1] >> 4u8 == 0u8,
        int_steps(v)[1] matches StepView::Write(b) && b.len() == 2 && b[0] == 0x14u8
            && b[1] & 1u8 == v.mode.code()
            && (b[1] >> 1u8) & 1u8 == v.polarity.code()
            && (b[1] >> 2u8) & 1u8 == v.pin.code()
            && ((b[1] >> 3u8) == 1u8) == v.enabled
            && b[1] >> 4u8 == 0u8,
{
    lemma_interrupt_fields(v);
    let s = int_source_byte(v.source);
    let c = int_config_byte(v);
    assert(s >> 4u8 == 0u8) by (bit_vector)
        requires s >> 3u8 < 2u8;
    assert(c >> 4u8 == 0u8) by (bit_vector)
        requires c >> 3u8 < 2u8;
}

impl<I2C, D> Bmp5xx<I2C, D> {
    /// The bus sequence that configures interrupts for the sensor.
    pub fn int_transaction(&self, conf: Interrupt) -> (t: Transaction)
        ensures
            t@ == TxView::start(int_steps(conf@)),
            t@.wf(),
    {
        let src_byte = conf.source.source_bits();
        let cfg_byte = conf.config_bits();
        let mut v: Vec<Step> = Vec::new();
        push_write2(&mut v, INT_SOURCE, src_byte);
        push_write2(&mut v, INT_CONFIG, cfg_byte);
        assert(step_views(v@) =~= int_steps(conf@));
        Transaction::new(v)
    }
}

} // verus!
