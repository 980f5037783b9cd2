//! Continuous mode operations for BMP580/BMP581/BMP585 sensors.
//! Continuous mode does repeated measurements without any delay, outputting data as fast as possible.
use vstd::prelude::*;
use crate::{Bmp5xx, conf_osr_steps, push_conf_osr, push_stop, stop_steps};
use crate::osr::{Oversampling, lemma_conf_osr_writes, writes_osr};
use crate::register::ODR_CONFIG;
use crate::transaction::{Step, StepView, Transaction, TxView, push_write2, step_views, writes};

verus! {

/// Continuous mode: standby, oversampling, then power mode 3.
pub open spec fn start_continuous_steps(press_en: bool, osr_t: Oversampling, osr_p: Oversampling) -> Seq<StepView> {
    stop_steps() + conf_osr_steps(press_en, osr_t, osr_p) + seq![StepView::Write(seq![ODR_CONFIG, 0x03u8])]
}

/// Continuous mode, for every pressure setting and oversampling: standby,
/// the oversampling asked for, then power mode 3 (continuous) in `ODR_CONFIG` (0x37).
pub proof fn lemma_start_continuous_writes(press_en: bool, osr_t: Oversampling, osr_p: Oversampling)
    ensures
        start_continuous_steps(press_en, osr_t, osr_p).len() == 3,
        writes(start_continuous_steps(press_en, osr_t, osr_p)[0], 0x37u8, 0x00u8),
        writes_osr(start_continuous_steps(press_en, osr_t, osr_p)[1], press_en, osr_t, osr_p),
        writes(start_continuous_steps(press_en, osr_t, osr_p)[2], 0x37u8, 0x03u8),
{
    lemma_conf_osr_writes(press_en, osr_t, osr_p);
}

impl<I2C, D> Bmp5xx<I2C, D> {
    /// The bus sequence that puts the sensor into continuous mode, making new
    /// measurements non-stop, without any delay.
    pub fn start_continuous_transaction(&self, press_en: bool) -> (t: Transaction)
        ensures
            t@ == TxView::start(start_continuous_steps(press_en, self@.osr_t, self@.osr_p)),
            t@.wf(),
    {
        let mut v: Vec<Step> = Vec::new();
        push_stop(&mut v);
        push_conf_osr(&mut v, press_en, self.temp_oversampling(), self.pres_oversampling());
        push_write2(&mut v, ODR_CONFIG, 0x03);
        assert(step_views(v@) =~= start_continuous_steps(press_en, self@.osr_t, self@.osr_p));
        Transaction::new(v)
    }
}

} // verus!
