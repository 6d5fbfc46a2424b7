//! Two-wire (I2C) master.

use vstd::prelude::*;
use crate::hal::nrf51822::pin::{Pin, PinConfig, PinDriveMode, PinPull, SenseMode};
use crate::hal::nrf51822::regs::{
    await_step, clear_step, task_step, Script, Step, TWI_ADDRESS, TWI_ENABLE, TWI_FREQUENCY,
    TWI_POWER, TWI_PSELSCL, TWI_PSELSDA, TWI_SHORTS, TWI_STARTTX, TWI_STOP, TWI_TXD, TWI_TXDSENT,
};
use crate::hal::pin::GpioDirection;

verus! {

/// The two-wire master.
pub struct Twi {}

/// Bus clock rates.
#[derive(Clone, Copy, Debug, PartialEq, Eq, Structural)]
pub enum Frequency {
    /// 100 kbit/s.
    K100,
    /// 250 kbit/s.
    K250,
    /// 400 kbit/s.
    K400,
}

impl Frequency {
    /// The value of the frequency register for this rate.
    pub open spec fn word(self) -> u32 {
        match self {
            Frequency::K100 => 0x0198_0000,
            Frequency::K250 => 0x0400_0000,
            Frequency::K400 => 0x0668_0000,
        }
    }

    /// The value of the frequency register for this rate.
    pub fn value(self) -> (r: u32)
        ensures
            r == self.word(),
    {
        match self {
            Frequency::K100 => 0x0198_0000,
            Frequency::K250 => 0x0400_0000,
            Frequency::K400 => 0x0668_0000,
        }
    }
}

/// Lines and clock rate of the bus.
#[derive(Clone, Copy)]
pub struct TwiConfig {
    /// Pin of the data line.
    pub sda_pin: u8,
    /// Pin of the clock line.
    pub scl_pin: u8,
    /// Clock rate.
    pub freq: Frequency,
}

impl Default for TwiConfig {
    /// Data on pin 30, clock on pin 0, 100 kbit/s.
    fn default() -> (r: TwiConfig)
        ensures
            r == (TwiConfig { sda_pin: 30, scl_pin: 0, freq: Frequency::K100 }),
    {
        TwiConfig { sda_pin: 30, scl_pin: 0, freq: Frequency::K100 }
    }
}

/// The value that connects a bus line to `pin`, or disconnects it when there
/// is no such pin.
pub open spec fn pin_select(pin: u8) -> u32 {
    if pin <= 31 {
        pin as u32
    } else {
        0xffff_ffff
    }
}

/// The bytes that a script loads into the transmit register, in order.
pub open spec fn sent(steps: Seq<Step>) -> Seq<u8>
    decreases steps.len(),
{
    if steps.len() == 0 {
        Seq::empty()
    } else {
        match steps.last() {
            Step::Write { addr, mask, bits } if addr == TWI_TXD => sent(steps.drop_last()).push(
                bits as u8,
            ),
            _ => sent(steps.drop_last()),
        }
    }
}

/// What two scripts send one after the other is what their concatenation
/// sends.
pub proof fn lemma_sent_concat(a: Seq<Step>, b: Seq<Step>)
    ensures
        sent(a + b) == sent(a) + sent(b),
    decreases b.len(),
{
    if b.len() == 0 {
        assert(a + b =~= a);
        assert(sent(a) + sent(b) =~= sent(a));
    } else {
        lemma_sent_concat(a, b.drop_last());
        assert((a + b).drop_last() =~= a + b.drop_last());
        assert((a + b).last() == b.last());
        match b.last() {
            Step::Write { addr, mask, bits } if addr == TWI_TXD => {
                assert(sent(a + b) =~= sent(a) + sent(b));
            },
            _ => {},
        }
    }
}

impl Twi {
    /// The pin configuration of a bus line: an input without pull, driven to
    /// zero at standard strength and released for one.
    pub open spec fn line_config() -> PinConfig {
        PinConfig {
            direction: GpioDirection::In,
            pull: PinPull::NoPull,
            input_connect: true,
            sense: SenseMode::Disabled,
            drive_low: PinDriveMode::Standard,
            drive_high: PinDriveMode::Disconnect,
        }
    }

    /// The steps that set the master up: power-cycle it, disable it,
    /// configure and connect both lines, set the clock rate, enable it and
    /// switch the shortcuts off.
    pub open spec fn configure_steps(config: TwiConfig) -> Seq<Step> {
        seq![
            Step::Write { addr: TWI_POWER, mask: 1, bits: 0 },
            Step::WaitFor { addr: TWI_POWER, mask: 1, bits: 0 },
            Step::Write { addr: TWI_POWER, mask: 1, bits: 1 },
            Step::Write { addr: TWI_ENABLE, mask: 7, bits: 0 },
            Pin::configure_step(config.scl_pin, Self::line_config()),
            Pin::configure_step(config.sda_pin, Self::line_config()),
            Step::Write { addr: TWI_PSELSDA, mask: 0xffff_ffff, bits: pin_select(config.sda_pin) },
            Step::Write { addr: TWI_PSELSCL, mask: 0xffff_ffff, bits: pin_select(config.scl_pin) },
            Step::Write { addr: TWI_FREQUENCY, mask: 0xffff_ffff, bits: config.freq.word() },
            Step::Write { addr: TWI_ENABLE, mask: 7, bits: 5 },
            Step::Write { addr: TWI_SHORTS, mask: 3, bits: 0 },
        ]
    }

    /// The steps that send one byte: load it, wait until it has gone out,
    /// acknowledge the event.
    pub open spec fn byte_steps(byte: u8) -> Seq<Step> {
        seq![
            Step::Write { addr: TWI_TXD, mask: 0xff, bits: byte as u32 },
            await_step(TWI_TXDSENT),
            clear_step(TWI_TXDSENT),
        ]
    }

    /// The steps that send `bytes` one after the other.
    pub open spec fn bytes_steps(bytes: Seq<u8>) -> Seq<Step>
        decreases bytes.len(),
    {
        if bytes.len() == 0 {
            Seq::empty()
        } else {
            Self::bytes_steps(bytes.drop_last()) + Self::byte_steps(bytes.last())
        }
    }

    /// The steps of one transfer: start, the bytes, stop.
    pub open spec fn transfer_steps(bytes: Seq<u8>) -> Seq<Step> {
        seq![task_step(TWI_STARTTX)] + Self::bytes_steps(bytes) + seq![task_step(TWI_STOP)]
    }

    /// A transfer sends exactly its bytes, in order.
    pub proof fn lemma_transfer_sends(bytes: Seq<u8>)
        ensures
            sent(Self::bytes_steps(bytes)) == bytes,
            sent(Self::transfer_steps(bytes)) == bytes,
        decreases bytes.len(),
    {
        reveal_with_fuel(sent, 4);
        if bytes.len() == 0 {
            assert(sent(Self::bytes_steps(bytes)) =~= bytes);
        } else {
            Self::lemma_transfer_sends(bytes.drop_last());
            lemma_sent_concat(Self::bytes_steps(bytes.drop_last()), Self::byte_steps(bytes.last()));
            let one = Self::byte_steps(bytes.last());
            assert(one.drop_last().drop_last() =~= seq![one[0]]);
            assert(seq![one[0]].drop_last() =~= Seq::<Step>::empty());
            assert(sent(one) =~= seq![bytes.last()]);
            assert(bytes.drop_last() + seq![bytes.last()] =~= bytes);
        }
        let start = seq![task_step(TWI_STARTTX)];
        let stop = seq![task_step(TWI_STOP)];
        assert(start.drop_last() =~= Seq::<Step>::empty());
        assert(stop.drop_last() =~= Seq::<Step>::empty());
        assert(sent(start) =~= Seq::<u8>::empty());
        assert(sent(stop) =~= Seq::<u8>::empty());
        lemma_sent_concat(start, Self::bytes_steps(bytes));
        lemma_sent_concat(start + Self::bytes_steps(bytes), stop);
        assert(sent(Self::transfer_steps(bytes)) =~= bytes);
    }

    /// Sets the master up for the lines and the clock rate of `config`.
    pub fn configure(&self, script: &mut Script, config: TwiConfig)
        requires
            config.scl_pin < 32,
            config.sda_pin < 32,
        ensures
            final(script)@ == old(script)@ + Self::configure_steps(config),
    {
        assert(0u32 & !1u32 == 0 && 1u32 & !1u32 == 0 && 0u32 & !7u32 == 0 && 5u32 & !7u32 == 0
            && 0u32 & !3u32 == 0) by (bit_vector);
        script.write(TWI_POWER, 1, 0);
        script.wait_for(TWI_POWER, 1, 0);
        script.write(TWI_POWER, 1, 1);
        script.write(TWI_ENABLE, 7, 0);
        Pin::new(config.scl_pin).configure(
            script,
            PinConfig {
                direction: GpioDirection::In,
                pull: PinPull::NoPull,
                input_connect: true,
                sense: SenseMode::Disabled,
                drive_low: PinDriveMode::Standard,
                drive_high: PinDriveMode::Disconnect,
            },
        );
        Pin::new(config.sda_pin).configure(
            script,
            PinConfig {
                direction: GpioDirection::In,
                pull: PinPull::NoPull,
                input_connect: true,
                sense: SenseMode::Disabled,
                drive_low: PinDriveMode::Standard,
                drive_high: PinDriveMode::Disconnect,
            },
        );
        let sda: u32 = if config.sda_pin <= 31 {
            config.sda_pin as u32
        } else {
            0xffff_ffff
        };
        let scl: u32 = if config.scl_pin <= 31 {
            config.scl_pin as u32
        } else {
            0xffff_ffff
        };
        let freq: u32 = config.freq.value();
        assert(sda & !0xffff_ffffu32 == 0 && scl & !0xffff_ffffu32 == 0 && freq & !0xffff_ffffu32
            == 0) by (bit_vector);
        script.write(TWI_PSELSDA, 0xffff_ffff, sda);
        script.write(TWI_PSELSCL, 0xffff_ffff, scl);
        script.write(TWI_FREQUENCY, 0xffff_ffff, freq);
        script.write(TWI_ENABLE, 7, 5);
        script.write(TWI_SHORTS, 3, 0);
        assert(script@ =~= old(script)@ + Self::configure_steps(config));
    }

    /// Selects the device that the following transfers speak to. Only the
    /// low seven bits of `to` are an address.
    pub fn set_address(&self, script: &mut Script, to: u8)
        ensures
            final(script)@ == old(script)@.push(
                Step::Write { addr: TWI_ADDRESS, mask: 0x7f, bits: (to & 0x7f) as u32 },
            ),
    {
        let bits: u32 = (to & 0x7f) as u32;
        assert(bits & !0x7fu32 == 0) by (bit_vector)
            requires
                bits == (to & 0x7f) as u32,
        ;
        script.write(TWI_ADDRESS, 0x7f, bits);
    }

    /// Sends one byte within a running transfer.
    pub fn write_byte(&self, script: &mut Script, byte: u8)
        ensures
            final(script)@ == old(script)@ + Self::byte_steps(byte),
    {
        let bits: u32 = byte as u32;
        assert(bits & !0xffu32 == 0) by (bit_vector)
            requires
                bits == byte as u32,
        ;
        script.write(TWI_TXD, 0xff, bits);
        script.await_event(TWI_TXDSENT);
        script.clear_event(TWI_TXDSENT);
        assert(script@ =~= old(script)@ + Self::byte_steps(byte));
    }

    /// Sends `bytes` as one transfer.
    pub fn write_bytes(&self, script: &mut Script, bytes: &[u8])
        ensures
            final(script)@ == old(script)@ + Self::transfer_steps(bytes@),
    {
        script.start_task(TWI_STARTTX);
        let mut i: usize = 0;
        while i < bytes.len()
            invariant
                i <= bytes@.len(),
                script@ == old(script)@ + seq![task_step(TWI_STARTTX)] + Self::bytes_steps(
                    bytes@.take(i as int),
                ),
            decreases bytes@.len() - i,
        {
            proof {
                assert(bytes@.take(i + 1).drop_last() =~= bytes@.take(i as int));
            }
            self.write_byte(script, bytes[i]);
            i += 1;
        }
        script.start_task(TWI_STOP);
        assert(bytes@.take(i as int) =~= bytes@);
        assert(script@ =~= old(script)@ + Self::transfer_steps(bytes@));
    }

    /// Sends `prefix` and then `bytes` as one transfer.
    pub fn write_bytes_prefix(&self, script: &mut Script, prefix: u8, bytes: &[u8])
        ensures
            final(script)@ == old(script)@ + Self::transfer_steps(seq![prefix] + bytes@),
    {
        let ghost all = seq![prefix] + bytes@;
        script.start_task(TWI_STARTTX);
        self.write_byte(script, prefix);
        proof {
            assert(all.take(1).drop_last() =~= Seq::<u8>::empty());
            assert(all.take(1).last() == prefix);
            assert(Self::bytes_steps(Seq::<u8>::empty()) =~= Seq::<Step>::empty());
            assert(Self::bytes_steps(all.take(1)) =~= Self::byte_steps(prefix));
        }
        let mut i: usize = 0;
        while i < bytes.len()
            invariant
                i <= bytes@.len(),
                all == seq![prefix] + bytes@,
                script@ == old(script)@ + seq![task_step(TWI_STARTTX)] + Self::bytes_steps(
                    all.take(i + 1),
                ),
            decreases bytes@.len() - i,
        {
            proof {
                assert(all.take(i + 2).drop_last() =~= all.take(i + 1));
                assert(all.take(i + 2).last() == bytes@[i as int]);
            }
            self.write_byte(script, bytes[i]);
            i += 1;
        }
        script.start_task(TWI_STOP);
        assert(all.take(i + 1) =~= all);
        assert(script@ =~= old(script)@ + Self::transfer_steps(all));
    }

    /// Selects the device `to` and sends it `data` as one transfer.
    pub fn send_bytes(&self, script: &mut Script, to: u8, data: &[u8])
        ensures
            final(script)@ == old(script)@.push(
                Step::Write { addr: TWI_ADDRESS, mask: 0x7f, bits: (to & 0x7f) as u32 },
            ) + Self::transfer_steps(data@),
    {
        self.set_address(script, to);
        self.write_bytes(script, data);
    }
}

} // verus!
