//! Drivers for the peripherals of the nRF51822.
//!
//! A driver does not touch the hardware. It appends to a script the register
//! accesses that make up an operation, in the order in which they have to
//! happen; whoever owns the hardware runs the script.

use vstd::prelude::*;

pub mod clock;
pub mod pin;
pub mod rand;
pub mod regs;
pub mod rtc;
pub mod twi;

verus! {

/// The steps that bring the chip up: the low-frequency clock with its
/// calibration timer, then the random number generator without bias
/// correction.
pub open spec fn init_steps() -> Seq<regs::Step> {
    clock::start_lfc_steps() + seq![
        regs::task_step(regs::CLOCK_CTSTART),
        regs::Step::Write { addr: regs::RNG_CONFIG, mask: 1, bits: 0 },
        regs::task_step(regs::RNG_START),
    ]
}

/// Spins for `us` microseconds.
pub fn sleep_us(script: &mut regs::Script, us: u64)
    requires
        us > 0,
    ensures
        final(script)@ == old(script)@.push(regs::Step::Delay { us }),
{
    script.delay(us);
}

/// Brings the chip up.
pub fn init(script: &mut regs::Script)
    ensures
        final(script)@ == old(script)@ + init_steps(),
{
    clock::start_lfc(script);
    clock::calibrate(script);
    rand::set_error_correction(script, false);
    rand::start(script);
    assert(script@ =~= old(script)@ + init_steps());
}

} // verus!
