//! Real-time counter.

use vstd::prelude::*;
use crate::hal::nrf51822::clock::{start_lfc, start_lfc_steps};
use crate::hal::nrf51822::regs::{
    clear_step, task_step, Script, Step, RTC_CLEAR, RTC_COUNTER, RTC_EVTEN, RTC_EVTENSET,
    RTC_INTENSET, RTC_OVRFLW, RTC_POWER, RTC_PRESCALER, RTC_START, RTC_STOP, RTC_TICK,
};

verus! {

/// The real-time counter.
pub struct Rtc {}

/// The bits of the event routing word for the tick, the overflow and the
/// four compare events.
pub const RTC_EVENTS_MASK: u32 = 0x000f_0003;

impl Rtc {
    /// The steps that bring the counter into a known running state: power
    /// on, stop, forget an overflow, route no event, start.
    pub open spec fn init_steps() -> Seq<Step> {
        seq![
            Step::Write { addr: RTC_POWER, mask: 1, bits: 1 },
            task_step(RTC_STOP),
            clear_step(RTC_OVRFLW),
            Step::Write { addr: RTC_EVTEN, mask: RTC_EVENTS_MASK, bits: 0 },
            task_step(RTC_START),
        ]
    }

    /// The steps that set the prescaler and wait until it reads back.
    pub open spec fn set_prescaler_steps(prescaler: u32) -> Seq<Step> {
        seq![
            Step::Write { addr: RTC_PRESCALER, mask: 0xfff, bits: prescaler },
            Step::WaitFor { addr: RTC_PRESCALER, mask: 0xfff, bits: prescaler },
        ]
    }

    /// The steps that route the tick event and enable its interrupt.
    pub open spec fn enable_tick_steps() -> Seq<Step> {
        seq![
            Step::Write { addr: RTC_EVTENSET, mask: 1, bits: 1 },
            Step::Write { addr: RTC_INTENSET, mask: 1, bits: 1 },
        ]
    }

    /// The steps that start the counter: the low-frequency clock first.
    pub open spec fn start_steps() -> Seq<Step> {
        start_lfc_steps().push(task_step(RTC_START))
    }

    /// The steps that reset the counter to zero and wait until it reads so.
    pub open spec fn clear_steps() -> Seq<Step> {
        seq![task_step(RTC_CLEAR)] + Self::start_steps() + seq![
            Step::WaitFor { addr: RTC_COUNTER, mask: 0x00ff_ffff, bits: 0 },
        ]
    }

    /// Brings the counter into a known running state.
    pub fn init(&self, script: &mut Script)
        ensures
            final(script)@ == old(script)@ + Self::init_steps(),
    {
        assert(1u32 & !1u32 == 0 && 0u32 & !0x000f_0003u32 == 0) by (bit_vector);
        script.write(RTC_POWER, 1, 1);
        script.start_task(RTC_STOP);
        script.clear_event(RTC_OVRFLW);
        script.write(RTC_EVTEN, RTC_EVENTS_MASK, 0);
        script.start_task(RTC_START);
        assert(script@ =~= old(script)@ + Self::init_steps());
    }

    /// Sets the 12-bit prescaler: the counter then runs at
    /// 32768 / (prescaler + 1) Hz.
    pub fn set_prescaler(&self, script: &mut Script, prescaler: u32)
        requires
            prescaler <= 0xfff,
        ensures
            final(script)@ == old(script)@ + Self::set_prescaler_steps(prescaler),
    {
        assert(prescaler & !0xfffu32 == 0) by (bit_vector)
            requires
                prescaler <= 0xfff,
        ;
        script.write(RTC_PRESCALER, 0xfff, prescaler);
        script.wait_for(RTC_PRESCALER, 0xfff, prescaler);
        assert(script@ =~= old(script)@ + Self::set_prescaler_steps(prescaler));
    }

    /// Routes the tick event and enables its interrupt.
    pub fn enable_tick_iterrupt(&self, script: &mut Script)
        ensures
            final(script)@ == old(script)@ + Self::enable_tick_steps(),
    {
        assert(1u32 & !1u32 == 0) by (bit_vector);
        script.write(RTC_EVTENSET, 1, 1);
        script.write(RTC_INTENSET, 1, 1);
        assert(script@ =~= old(script)@ + Self::enable_tick_steps());
    }

    /// Acknowledges a tick.
    pub fn clear_tick(&self, script: &mut Script)
        ensures
            final(script)@ == old(script)@.push(clear_step(RTC_TICK)),
    {
        script.clear_event(RTC_TICK);
    }

    /// Samples the 24-bit counter.
    pub fn get_count(&self, script: &mut Script)
        ensures
            final(script)@ == old(script)@.push(
                Step::Read { addr: RTC_COUNTER, mask: 0x00ff_ffff },
            ),
    {
        script.read(RTC_COUNTER, 0x00ff_ffff);
    }

    /// Resets the counter to zero, with the counter running.
    pub fn clear(&self, script: &mut Script)
        ensures
            final(script)@ == old(script)@ + Self::clear_steps(),
    {
        script.start_task(RTC_CLEAR);
        self.start(script);
        assert(0u32 & !0x00ff_ffffu32 == 0) by (bit_vector);
        script.wait_for(RTC_COUNTER, 0x00ff_ffff, 0);
        assert(script@ =~= old(script)@ + Self::clear_steps());
    }

    /// Starts the counter.
    pub fn start(&self, script: &mut Script)
        ensures
            final(script)@ == old(script)@ + Self::start_steps(),
    {
        start_lfc(script);
        script.start_task(RTC_START);
        assert(script@ =~= old(script)@ + Self::start_steps());
    }

    /// Stops the counter.
    pub fn stop(&self, script: &mut Script)
        ensures
            final(script)@ == old(script)@.push(task_step(RTC_STOP)),
    {
        script.start_task(RTC_STOP);
    }
}

} // verus!
