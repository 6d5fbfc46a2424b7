//! Register map of the nRF51822 and the vocabulary of register scripts.

use vstd::prelude::*;

verus! {

/// One step of a register script.
///
/// Registers are 32-bit words at byte addresses. A `mask` selects the bits of
/// a word that a step is about.
#[derive(Clone, Copy, Debug, PartialEq, Eq, Structural)]
pub enum Step {
    /// Replace the bits under `mask` of the word at `addr` by those of
    /// `bits`; the other bits of the word keep their value.
    Write { addr: u32, mask: u32, bits: u32 },
    /// Spin until the bits under `mask` of the word at `addr` equal `bits`.
    WaitFor { addr: u32, mask: u32, bits: u32 },
    /// Report the bits under `mask` of the word at `addr` as the next sample.
    Read { addr: u32, mask: u32 },
    /// Spin for `us` microseconds.
    Delay { us: u64 },
}

impl Step {
    /// A write or a wait names no bit outside its mask, and a delay is not
    /// empty: a delay of zero would never end.
    pub open spec fn wf(self) -> bool {
        match self {
            Step::Write { addr, mask, bits } => bits & !mask == 0,
            Step::WaitFor { addr, mask, bits } => bits & !mask == 0,
            Step::Read { addr, mask } => true,
            Step::Delay { us } => us > 0,
        }
    }
}

/// Every step is well formed.
pub open spec fn all_wf(steps: Seq<Step>) -> bool {
    forall|i: int| 0 <= i < steps.len() ==> (#[trigger] steps[i]).wf()
}

/// The word that a well-formed write leaves in a register that held `word`.
pub open spec fn written(word: u32, mask: u32, bits: u32) -> u32 {
    (word & !mask) | bits
}

/// A well-formed write gives the bits under its mask their new value and
/// leaves all other bits of the word as they were.
pub proof fn lemma_written(word: u32, mask: u32, bits: u32)
    requires
        bits & !mask == 0,
    ensures
        written(word, mask, bits) & mask == bits,
        written(word, mask, bits) & !mask == word & !mask,
{
    assert(((word & !mask) | bits) & mask == bits && ((word & !mask) | bits) & !mask == word
        & !mask) by (bit_vector)
        requires
            bits & !mask == 0,
    ;
}

/// Sets the output pins whose bits are written as one.
pub const GPIO_OUTSET: u32 = 0x5000_0508;

/// Clears the output pins whose bits are written as one.
pub const GPIO_OUTCLR: u32 = 0x5000_050c;

/// Levels of all 32 pins.
pub const GPIO_IN: u32 = 0x5000_0510;

/// Configuration word of pin 0; the words of the other pins follow.
pub const GPIO_PIN_CNF: u32 = 0x5000_0700;

/// Starts the low-frequency clock source.
pub const CLOCK_LFCLKSTART: u32 = 0x4000_0008;

/// Starts the calibration timer.
pub const CLOCK_CTSTART: u32 = 0x4000_0014;

/// Whether the start of the low-frequency clock has been triggered.
pub const CLOCK_LFCLKRUN: u32 = 0x4000_0414;

/// Starts the random number generator.
pub const RNG_START: u32 = 0x4000_d000;

/// Event: a new random value is ready.
pub const RNG_VALRDY: u32 = 0x4000_d100;

/// Configuration of the random number generator.
pub const RNG_CONFIG: u32 = 0x4000_d504;

/// The random value, in the low eight bits.
pub const RNG_VALUE: u32 = 0x4000_d508;

/// Starts the real-time counter.
pub const RTC_START: u32 = 0x4000_b000;

/// Stops the real-time counter.
pub const RTC_STOP: u32 = 0x4000_b004;

/// Clears the real-time counter.
pub const RTC_CLEAR: u32 = 0x4000_b008;

/// Event: the counter has ticked.
pub const RTC_TICK: u32 = 0x4000_b100;

/// Event: the counter has overflowed.
pub const RTC_OVRFLW: u32 = 0x4000_b104;

/// Enables interrupts for the events whose bits are written as one.
pub const RTC_INTENSET: u32 = 0x4000_b304;

/// Which events of the counter are routed.
pub const RTC_EVTEN: u32 = 0x4000_b340;

/// Routes the events whose bits are written as one.
pub const RTC_EVTENSET: u32 = 0x4000_b344;

/// The counter value, in the low 24 bits.
pub const RTC_COUNTER: u32 = 0x4000_b504;

/// The prescaler, in the low 12 bits.
pub const RTC_PRESCALER: u32 = 0x4000_b508;

/// Power switch of the real-time counter.
pub const RTC_POWER: u32 = 0x4000_bffc;

/// Starts a transmit sequence on the two-wire bus.
pub const TWI_STARTTX: u32 = 0x4000_3008;

/// Stops the transaction on the two-wire bus.
pub const TWI_STOP: u32 = 0x4000_3014;

/// Event: a byte has been sent.
pub const TWI_TXDSENT: u32 = 0x4000_311c;

/// Shortcuts between events and tasks of the two-wire bus.
pub const TWI_SHORTS: u32 = 0x4000_3200;

/// Enables the two-wire master, in the low three bits.
pub const TWI_ENABLE: u32 = 0x4000_3500;

/// Pin select for the clock line.
pub const TWI_PSELSCL: u32 = 0x4000_3508;

/// Pin select for the data line.
pub const TWI_PSELSDA: u32 = 0x4000_350c;

/// The byte to send, in the low eight bits.
pub const TWI_TXD: u32 = 0x4000_351c;

/// Bus frequency.
pub const TWI_FREQUENCY: u32 = 0x4000_3524;

/// Address of the device spoken to, in the low seven bits.
pub const TWI_ADDRESS: u32 = 0x4000_3588;

/// Power switch of the two-wire master.
pub const TWI_POWER: u32 = 0x4000_3ffc;

/// The step that writes a one to bit 0 of a task register.
pub open spec fn task_step(addr: u32) -> Step {
    Step::Write { addr, mask: 1, bits: 1 }
}

/// The step that resets bit 0 of an event register.
pub open spec fn clear_step(addr: u32) -> Step {
    Step::Write { addr, mask: 1, bits: 0 }
}

/// The step that waits for bit 0 of an event or status register to be set.
pub open spec fn await_step(addr: u32) -> Step {
    Step::WaitFor { addr, mask: 1, bits: 1 }
}

/// A list of well-formed steps, to be run in order.
pub struct Script {
    steps: Vec<Step>,
}

impl View for Script {
    type V = Seq<Step>;

    /// The steps, first to last.
    closed spec fn view(&self) -> Seq<Step> {
        self.steps@
    }
}

impl Script {
    /// Every step is well formed.
    #[verifier::type_invariant]
    spec fn wf(&self) -> bool {
        all_wf(self.steps@)
    }

    /// The empty script.
    pub fn new() -> (r: Script)
        ensures
            r@ == Seq::<Step>::empty(),
    {
        Script { steps: Vec::new() }
    }

    /// The steps, first to last.
    pub fn steps(&self) -> (r: &Vec<Step>)
        ensures
            r@ == self@,
            all_wf(r@),
    {
        proof {
            use_type_invariant(self);
        }
        &self.steps
    }

    /// Appends one well-formed step.
    fn push(&mut self, step: Step)
        requires
            step.wf(),
        ensures
            final(self)@ == old(self)@.push(step),
    {
        proof {
            use_type_invariant(&*self);
        }
        let mut steps: Vec<Step> = Vec::new();
        core::mem::swap(&mut steps, &mut self.steps);
        steps.push(step);
        self.steps = steps;
    }

    /// Appends a write of `bits` under `mask` to the word at `addr`.
    pub fn write(&mut self, addr: u32, mask: u32, bits: u32)
        requires
            bits & !mask == 0,
        ensures
            final(self)@ == old(self)@.push(Step::Write { addr, mask, bits }),
    {
        self.push(Step::Write { addr, mask, bits });
    }

    /// Appends a wait until the word at `addr` shows `bits` under `mask`.
    pub fn wait_for(&mut self, addr: u32, mask: u32, bits: u32)
        requires
            bits & !mask == 0,
        ensures
            final(self)@ == old(self)@.push(Step::WaitFor { addr, mask, bits }),
    {
        self.push(Step::WaitFor { addr, mask, bits });
    }

    /// Appends a sample of the bits under `mask` of the word at `addr`.
    pub fn read(&mut self, addr: u32, mask: u32)
        ensures
            final(self)@ == old(self)@.push(Step::Read { addr, mask }),
    {
        self.push(Step::Read { addr, mask });
    }

    /// Appends a delay of `us` microseconds.
    pub fn delay(&mut self, us: u64)
        requires
            us > 0,
        ensures
            final(self)@ == old(self)@.push(Step::Delay { us }),
    {
        self.push(Step::Delay { us });
    }

    /// Appends the trigger of the task at `addr`.
    pub fn start_task(&mut self, addr: u32)
        ensures
            final(self)@ == old(self)@.push(task_step(addr)),
    {
        assert(1u32 & !1u32 == 0) by (bit_vector);
        self.write(addr, 1, 1);
    }

    /// Appends the reset of the event at `addr`.
    pub fn clear_event(&mut self, addr: u32)
        ensures
            final(self)@ == old(self)@.push(clear_step(addr)),
    {
        assert(0u32 & !1u32 == 0) by (bit_vector);
        self.write(addr, 1, 0);
    }

    /// Appends the wait for the event or status bit at `addr`.
    pub fn await_event(&mut self, addr: u32)
        ensures
            final(self)@ == old(self)@.push(await_step(addr)),
    {
        assert(1u32 & !1u32 == 0) by (bit_vector);
        self.wait_for(addr, 1, 1);
    }
}

} // verus!
