//! Clock control.

use vstd::prelude::*;
use crate::hal::nrf51822::regs::{
    await_step, task_step, Script, Step, CLOCK_CTSTART, CLOCK_LFCLKRUN, CLOCK_LFCLKSTART,
};

verus! {

/// The steps that start the low-frequency clock and wait until it runs.
pub open spec fn start_lfc_steps() -> Seq<Step> {
    seq![task_step(CLOCK_LFCLKSTART), await_step(CLOCK_LFCLKRUN)]
}

/// Starts the low-frequency clock and waits until it runs.
pub fn start_lfc(script: &mut Script)
    ensures
        final(script)@ == old(script)@ + start_lfc_steps(),
{
    script.start_task(CLOCK_LFCLKSTART);
    script.await_event(CLOCK_LFCLKRUN);
    assert(script@ =~= old(script)@ + start_lfc_steps());
}

/// Starts the calibration timer.
pub fn calibrate(script: &mut Script)
    ensures
        final(script)@ == old(script)@.push(task_step(CLOCK_CTSTART)),
{
    script.start_task(CLOCK_CTSTART);
}

} // verus!
