//! Hardware random number generator.

use vstd::prelude::*;
use crate::hal::nrf51822::regs::{
    await_step, clear_step, task_step, Script, Step, RNG_CONFIG, RNG_START, RNG_VALRDY, RNG_VALUE,
};

verus! {

/// The steps that fetch one random byte: wait for a value, sample it,
/// acknowledge it. The sample is the byte.
pub open spec fn rand_byte_steps() -> Seq<Step> {
    seq![
        await_step(RNG_VALRDY),
        Step::Read { addr: RNG_VALUE, mask: 0xff },
        clear_step(RNG_VALRDY),
    ]
}

/// The steps that fetch `count` random bytes one after the other.
pub open spec fn fill_rand_steps(count: nat) -> Seq<Step>
    decreases count,
{
    if count == 0 {
        Seq::empty()
    } else {
        fill_rand_steps((count - 1) as nat) + rand_byte_steps()
    }
}

/// Fetching `count` bytes takes three steps per byte, and every third step,
/// and no other, yields a sample.
pub proof fn lemma_fill_rand_steps(count: nat)
    ensures
        fill_rand_steps(count).len() == 3 * count,
        forall|i: int|
            0 <= i < 3 * count ==> ((#[trigger] fill_rand_steps(count)[i]) is Read <==> i % 3
                == 1),
    decreases count,
{
    if count > 0 {
        lemma_fill_rand_steps((count - 1) as nat);
    }
}

/// Starts the generator.
pub fn start(script: &mut Script)
    ensures
        final(script)@ == old(script)@.push(task_step(RNG_START)),
{
    script.start_task(RNG_START);
}

/// Switches the bias correction of the generator on or off.
pub fn set_error_correction(script: &mut Script, enable: bool)
    ensures
        final(script)@ == old(script)@.push(
            Step::Write { addr: RNG_CONFIG, mask: 1, bits: if enable { 1 } else { 0 } },
        ),
{
    let bits: u32 = if enable {
        1
    } else {
        0
    };
    assert(bits & !1u32 == 0) by (bit_vector)
        requires
            bits <= 1,
    ;
    script.write(RNG_CONFIG, 1, bits);
}

/// Fetches one random byte, which the script yields as a sample.
pub fn rand_byte(script: &mut Script)
    ensures
        final(script)@ == old(script)@ + rand_byte_steps(),
{
    script.await_event(RNG_VALRDY);
    script.read(RNG_VALUE, 0xff);
    script.clear_event(RNG_VALRDY);
    assert(script@ =~= old(script)@ + rand_byte_steps());
}

/// Fetches `count` random bytes, which the script yields as samples in the
/// order in which they are to fill a buffer.
pub fn fill_rand(script: &mut Script, count: usize)
    ensures
        final(script)@ == old(script)@ + fill_rand_steps(count as nat),
{
    let mut i: usize = 0;
    assert(script@ =~= old(script)@ + fill_rand_steps(0));
    while i < count
        invariant
            i <= count,
            script@ == old(script)@ + fill_rand_steps(i as nat),
        decreases count - i,
    {
        rand_byte(script);
        i += 1;
        assert(script@ =~= old(script)@ + fill_rand_steps(i as nat));
    }
}

} // verus!
