//! IIR filtering configuration for BMP580/BMP581/BMP585 sensors.
use vstd::prelude::*;
use crate::Bmp5xx;
use crate::register::{DSP_CONFIG, DSP_IIR};
use crate::transaction::{Step, StepView, Transaction, TxView, push_write2, step_views, writes};

verus! {

/// Selection of filter coefficients for temperature and pressure readings.
#[derive(Debug, Copy, Clone, Eq, PartialEq, Structural)]
pub enum Filter {
    /// Bypass filtering
    Bypass,
    /// Filter coefficient: 1
    Coeff1,
    /// Filter coefficient: 3
    Coeff3,
    /// Filter coefficient: 7
    Coeff7,
    /// Filter coefficient: 15
    Coeff15,
    /// Filter coefficient: 31
    Coeff31,
    /// Filter coefficient: 63
    Coeff63,
    /// Filter coefficient: 127
    Coeff127,
}

impl Filter {
    /// The 3-bit field value that selects this filter in `DSP_IIR`.
    pub open spec fn code(self) -> u8 {
        match self {
            Filter::Bypass => 0x00,
            Filter::Coeff1 => 0x01,
            Filter::Coeff3 => 0x02,
            Filter::Coeff7 => 0x03,
            Filter::Coeff15 => 0x04,
            Filter::Coeff31 => 0x05,
            Filter::Coeff63 => 0x06,
            Filter::Coeff127 => 0x07,
        }
    }

    /// The register field value of this filter.
    pub fn bits(&self) -> (b: u8)
        ensures
            b == self.code(),
            b < 8,
    {
        match self {
            Filter::Bypass => 0x00,
            Filter::Coeff1 => 0x01,
            Filter::Coeff3 => 0x02,
            Filter::Coeff7 => 0x03,
            Filter::Coeff15 => 0x04,
            Filter::Coeff31 => 0x05,
            Filter::Coeff63 => 0x06,
            Filter::Coeff127 => 0x07,
        }
    }
}

/// Distinct filters have distinct register codes, and every code fits in three bits.
pub proof fn lemma_filter_code_injective(a: Filter, b: Filter)
    ensures
        a.code() < 8,
        a.code() == b.code() <==> a == b,
{
}

/// The register codes of the filters are those of the datasheet: code `n`
/// selects the coefficient `2^n - 1`, code 0 bypasses the filter.
pub proof fn lemma_filter_datasheet()
    ensures
        Filter::Bypass.code() == 0u8,
        Filter::Coeff1.code() == 1u8,
        Filter::Coeff3.code() == 2u8,
        Filter::Coeff7.code() == 3u8,
        Filter::Coeff15.code() == 4u8,
        Filter::Coeff31.code() == 5u8,
        Filter::Coeff63.code() == 6u8,
        Filter::Coeff127.code() == 7u8,
{
}

/// IIR low-pass filtering configuration.
pub struct Iir {
    enabled: bool,
    iir_t: Filter,
    iir_p: Filter,
}

/// The value of an [`Iir`] configuration.
pub struct IirView {
    /// Whether the sensor outputs filtered values.
    pub enabled: bool,
    /// Filter for temperature measurements.
    pub temp: Filter,
    /// Filter for pressure measurements.
    pub pres: Filter,
}

impl View for Iir {
    type V = IirView;

    closed spec fn view(&self) -> IirView {
        IirView { enabled: self.enabled, temp: self.iir_t, pres: self.iir_p }
    }
}

impl Default for Iir {
    /// Filtering disabled, both filters bypassed.
    fn default() -> (r: Self)
        ensures
            r@ == (IirView { enabled: false, temp: Filter::Bypass, pres: Filter::Bypass }),
    {
        Iir { enabled: false, iir_t: Filter::Bypass, iir_p: Filter::Bypass }
    }
}

impl Iir {
    /// Enable or disable filtering.
    pub fn enable(self, enable: bool) -> (r: Self)
        ensures
            r@ == (IirView { enabled: enable, ..self@ }),
    {
        Iir { enabled: enable, iir_t: self.iir_t, iir_p: self.iir_p }
    }

    /// Set filtering for temperature measurements.
    pub fn temp(self, filter: Filter) -> (r: Self)
        ensures
            r@ == (IirView { temp: filter, ..self@ }),
    {
        Iir { enabled: self.enabled, iir_t: filter, iir_p: self.iir_p }
    }

    /// Set filtering for pressure measurements.
    pub fn pres(self, filter: Filter) -> (r: Self)
        ensures
            r@ == (IirView { pres: filter, ..self@ }),
    {
        Iir { enabled: self.enabled, iir_t: self.iir_t, iir_p: filter }
    }

    /// Whether filtering is enabled.
    pub fn is_enabled(&self) -> (b: bool)
        ensures
            b == self@.enabled,
    {
        self.enabled
    }

    /// The filter for temperature measurements.
    pub fn temp_filter(&self) -> (f: Filter)
        ensures
            f == self@.temp,
    {
        self.iir_t
    }

    /// The filter for pressure measurements.
    pub fn pres_filter(&self) -> (f: Filter)
        ensures
            f == self@.pres,
    {
        self.iir_p
    }
}

/// The `DSP_IIR` register value: pressure filter in bits 5..3, temperature filter in bits 2..0.
pub open spec fn iir_coeff_byte(temp: Filter, pres: Filter) -> u8 {
    (pres.code() << 3u8) | temp.code()
}

/// The `DSP_CONFIG` register value: all filtered outputs on when enabled;
/// otherwise only pressure and temperature compensation.
pub open spec fn dsp_config_byte(enabled: bool) -> u8 {
    if enabled { 0xFFu8 } else { 0x03u8 }
}

/// Configuring IIR filtering: first the coefficients, then the filtered outputs.
pub open spec fn iir_steps(v: IirView) -> Seq<StepView> {
    seq![
        StepView::Write(seq![DSP_IIR, iir_coeff_byte(v.temp, v.pres)]),
        StepView::Write(seq![DSP_CONFIG, dsp_config_byte(v.enabled)]),
    ]
}

/// The `DSP_IIR` value holds each filter in its own field, and `DSP_CONFIG`
/// keeps compensation on whether filtering is enabled or not.
pub proof fn lemma_iir_fields(temp: Filter, pres: Filter, enabled: bool)
    ensures
        iir_coeff_byte(temp, pres) & 7u8 == temp.code(),
        iir_coeff_byte(temp, pres) >> 3u8 == pres.code(),
        dsp_config_byte(enabled) & 0x03u8 == 0x03u8,
        (dsp_config_byte(enabled) & 0xFCu8 != 0u8) == enabled,
{
    let t = temp.code();
    let p = pres.code();
    assert(((p << 3u8) | t) & 7u8 == t) by (bit_vector)
        requires t < 8, p < 8;
    assert(((p << 3u8) | t) >> 3u8 == p) by (bit_vector)
        requires t < 8, p < 8;
    assert(0xFFu8 & 0x03u8 == 0x03u8) by (bit_vector);
    assert(0x03u8 & 0x03u8 == 0x03u8) by (bit_vector);
    assert(0xFFu8 & 0xFCu8 != 0u8) by (bit_vector);
    assert(0x03u8 & 0xFCu8 == 0u8) by (bit_vector);
}

/// Configuring the filter, for every configuration: `DSP_IIR` (0x31) gets the
/// temperature filter's code in bits 2..0 and the pressure filter's in bits
/// 5..3; then `DSP_CONFIG` (0x30) gets 0xFF (filtered outputs on) when
/// filtering is enabled and 0x03 (compensation only) when it is not.
pub proof fn lemma_iir_writes(v: IirView)
    ensures
        iir_steps(v).len() == 2,
        iir_steps(v)[0] matches StepView::Write(b) && b.len() == 2 && b[0] == 0x31u8 && b[1] & 7u8
            == v.temp.code() && b[1] >> 3u8 == v.pres.code(),
        writes(iir_steps(v)[1], 0x30u8, if v.enabled { 0xFFu8 } else { 0x03u8 }),
{
    lemma_iir_fields(v.temp, v.pres, v.enabled);
}

impl<I2C, D> Bmp5xx<I2C, D> {
    /// The bus sequence that configures IIR low-pass filtering for measurements.
    /// This affects all outputs of the sensor, even out-of-range detection.
    pub fn iir_transaction(&self, iir: Iir) -> (t: Transaction)
        ensures
            t@ == TxView::start(iir_steps(iir@)),
            t@.wf(),
    {
        let coeffs = (iir.iir_p.bits() << 3u8) | iir.iir_t.bits();
        let dsp: u8 = if iir.enabled { 0xFF } else { 0x03 };
        let mut v: Vec<Step> = Vec::new();
        push_write2(&mut v, DSP_IIR, coeffs);
        push_write2(&mut v, DSP_CONFIG, dsp);
        assert(step_views(v@) =~= iir_steps(iir@));
        Transaction::new(v)
    }
}

} // verus!
