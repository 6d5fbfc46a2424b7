//! The wire protocol of the panel controller.
//!
//! Everything that reaches the controller travels over the two-wire bus as a
//! transfer whose first byte tells commands from pixel data. A flush names
//! the pages it is about to fill and then streams their bytes.

use vstd::prelude::*;
use vstd::slice::slice_subrange;
use crate::display::buffer::FrameBuffer;
use crate::display::dirty::DirtyRange;
use crate::hal::nrf51822::regs::{Script, Step, TWI_ADDRESS};
use crate::hal::nrf51822::sleep_us;
use crate::hal::nrf51822::twi::{lemma_sent_concat, sent, Frequency, Twi, TwiConfig};

verus! {

/// Bus address of the controller.
pub const DISPLAY_ID: u8 = 60;

/// First byte of a transfer that carries a command byte.
pub const COMMAND_PREFIX: u8 = 128;

/// First byte of a transfer that carries pixel data.
pub const DATA_PREFIX: u8 = 64;

/// Commands of the controller.
#[derive(Clone, Copy, Debug, PartialEq, Eq, Structural)]
pub enum Command {
    /// Switch the panel off.
    Off,
    /// Switch the panel on.
    On,
    /// Choose how the write position advances.
    MemoryAddressMode,
    /// Choose the window of columns.
    ColumnAddress,
    /// Choose the window of pages.
    PageAddress,
    /// Scan rows from the bottom to the top.
    BottomToTop,
    /// Scan rows from the top to the bottom.
    TopToBottom,
    /// Map columns from right to left.
    RightToLeft,
    /// Map columns from left to right.
    LeftToRight,
    /// Argument of `ChargePumpSet` that enables the pump.
    ChargePumpOn,
    /// Configure the charge pump.
    ChargePumpSet,
    /// Set the contrast.
    Contrast,
}

/// How the write position advances after each data byte.
#[derive(Clone, Copy, Debug, PartialEq, Eq, Structural)]
pub enum AddressMode {
    /// Along the columns of a page, then on to the next page.
    Horizontal,
    /// Down the pages of a column, then on to the next column.
    Vertical,
    /// Along the columns of one page only.
    Page,
}

impl Command {
    /// The command byte.
    pub open spec fn byte(self) -> u8 {
        match self {
            Command::Off => 174,
            Command::On => 175,
            Command::MemoryAddressMode => 0x20,
            Command::ColumnAddress => 0x21,
            Command::PageAddress => 0x22,
            Command::BottomToTop => 192,
            Command::TopToBottom => 200,
            Command::RightToLeft => 160,
            Command::LeftToRight => 161,
            Command::ChargePumpOn => 20,
            Command::ChargePumpSet => 141,
            Command::Contrast => 0x81,
        }
    }

    /// The command byte.
    pub fn code(self) -> (r: u8)
        ensures
            r == self.byte(),
    {
        match self {
            Command::Off => 174,
            Command::On => 175,
            Command::MemoryAddressMode => 0x20,
            Command::ColumnAddress => 0x21,
            Command::PageAddress => 0x22,
            Command::BottomToTop => 192,
            Command::TopToBottom => 200,
            Command::RightToLeft => 160,
            Command::LeftToRight => 161,
            Command::ChargePumpOn => 20,
            Command::ChargePumpSet => 141,
            Command::Contrast => 0x81,
        }
    }
}

impl AddressMode {
    /// The argument byte of `Command::MemoryAddressMode`.
    pub open spec fn byte(self) -> u8 {
        match self {
            AddressMode::Horizontal => 0,
            AddressMode::Vertical => 1,
            AddressMode::Page => 2,
        }
    }

    /// The argument byte of `Command::MemoryAddressMode`.
    pub fn code(self) -> (r: u8)
        ensures
            r == self.byte(),
    {
        match self {
            AddressMode::Horizontal => 0,
            AddressMode::Vertical => 1,
            AddressMode::Page => 2,
        }
    }
}

/// The steps that send one command byte: a transfer of the command prefix
/// and the byte.
pub open spec fn command_steps(byte: u8) -> Seq<Step> {
    Twi::transfer_steps(seq![COMMAND_PREFIX, byte])
}

/// The steps that set the contrast.
pub open spec fn brightness_steps(brightness: u8) -> Seq<Step> {
    command_steps(Command::Contrast.byte()) + command_steps(brightness)
}

/// The steps of a flush: nothing when no page is dirty; else the page window
/// from the first to the last dirty page, then one data transfer with the
/// bytes of exactly those pages.
pub open spec fn flush_steps(pixels: Seq<u8>, dirty: DirtyRange) -> Seq<Step> {
    if dirty.clean() {
        Seq::empty()
    } else {
        command_steps(Command::PageAddress.byte()) + command_steps(dirty.first_dirty)
            + command_steps(dirty.last_dirty) + Twi::transfer_steps(
            seq![DATA_PREFIX] + pixels.subrange(
                dirty.first_dirty * 128,
                (dirty.last_dirty + 1) * 128,
            ),
        )
    }
}

/// The bytes that a flush puts on the bus: none when no page is dirty; else
/// the three commands that name the page window, the data prefix, and the
/// bytes from the start of the first dirty page to the end of the last.
pub proof fn lemma_flush_sends(pixels: Seq<u8>, dirty: DirtyRange)
    requires
        pixels.len() == 1024,
        dirty.wf(),
    ensures
        dirty.clean() ==> flush_steps(pixels, dirty) == Seq::<Step>::empty(),
        sent(flush_steps(pixels, dirty)) == if dirty.clean() {
            Seq::<u8>::empty()
        } else {
            seq![
                COMMAND_PREFIX,
                Command::PageAddress.byte(),
                COMMAND_PREFIX,
                dirty.first_dirty,
                COMMAND_PREFIX,
                dirty.last_dirty,
                DATA_PREFIX,
            ] + pixels.subrange(dirty.first_dirty * 128, (dirty.last_dirty + 1) * 128)
        },
{
    if !dirty.clean() {
        let a = command_steps(Command::PageAddress.byte());
        let b = command_steps(dirty.first_dirty);
        let c = command_steps(dirty.last_dirty);
        let payload = seq![DATA_PREFIX] + pixels.subrange(
            dirty.first_dirty * 128,
            (dirty.last_dirty + 1) * 128,
        );
        let d = Twi::transfer_steps(payload);
        Twi::lemma_transfer_sends(seq![COMMAND_PREFIX, Command::PageAddress.byte()]);
        Twi::lemma_transfer_sends(seq![COMMAND_PREFIX, dirty.first_dirty]);
        Twi::lemma_transfer_sends(seq![COMMAND_PREFIX, dirty.last_dirty]);
        Twi::lemma_transfer_sends(payload);
        lemma_sent_concat(a, b);
        lemma_sent_concat(a + b, c);
        lemma_sent_concat(a + b + c, d);
        assert(sent(flush_steps(pixels, dirty)) =~= seq![
            COMMAND_PREFIX,
            Command::PageAddress.byte(),
            COMMAND_PREFIX,
            dirty.first_dirty,
            COMMAND_PREFIX,
            dirty.last_dirty,
            DATA_PREFIX,
        ] + pixels.subrange(dirty.first_dirty * 128, (dirty.last_dirty + 1) * 128));
    } else {
        assert(sent(Seq::<Step>::empty()) =~= Seq::<u8>::empty());
    }
}

/// With no page dirty a flush is silent: it adds no step, so a flush that
/// follows a flush with nothing painted in between sends nothing.
pub proof fn lemma_clean_flush_is_silent(pixels: Seq<u8>)
    ensures
        flush_steps(pixels, DirtyRange::none()) == Seq::<Step>::empty(),
{
}

/// Sends one command byte to the controller.
pub fn send_command(script: &mut Script, byte: u8)
    ensures
        final(script)@ == old(script)@ + command_steps(byte),
{
    let bytes: [u8; 2] = [COMMAND_PREFIX, byte];
    let twi = Twi {  };
    twi.write_bytes(script, bytes.as_slice());
    assert(bytes@ =~= seq![COMMAND_PREFIX, byte]);
}

impl FrameBuffer {
    /// Flushes the dirty pages to the controller and marks the store clean.
    ///
    /// With no page dirty nothing is sent. Afterwards the controller holds
    /// the store as it is.
    pub fn update_display(&mut self, script: &mut Script)
        ensures
            final(script)@ == old(script)@ + flush_steps(old(self)@, old(self).dirty()),
            final(self)@ == old(self)@,
            final(self).dirty() == DirtyRange::none(),
            final(self).flushed() == old(self)@,
    {
        proof {
            use_type_invariant(&*self);
            self.lemma_len();
            self.lemma_clean_pages_unchanged();
        }
        let dirty = self.dirty_range();
        if dirty.is_clean() {
            assert(script@ =~= old(script)@ + flush_steps(old(self)@, old(self).dirty()));
            assert(self.flushed() =~= self@);
            return ;
        }
        send_command(script, Command::PageAddress.code());
        send_command(script, dirty.first_dirty);
        send_command(script, dirty.last_dirty);
        let start_index: usize = (dirty.first_dirty as usize) * 128;
        let end_index: usize = ((dirty.last_dirty as usize) + 1) * 128;
        let twi = Twi {  };
        twi.write_bytes_prefix(
            script,
            DATA_PREFIX,
            slice_subrange(self.buffer().as_slice(), start_index, end_index),
        );
        self.mark_flushed();
        assert(script@ =~= old(script)@ + flush_steps(old(self)@, old(self).dirty()));
    }
}

/// The contrast setting of the panel, as last commanded.
pub struct Panel {
    /// The contrast last sent to the controller.
    pub cur_brightness: u8,
}

/// Number of contrast changes of a fade from `from` to `to`: the distance
/// between the two.
pub open spec fn fade_len(from: u8, to: u8) -> nat {
    if to >= from {
        (to - from) as nat
    } else {
        (from - to) as nat
    }
}

/// The rest after each step of a fade from `from` to `to` that takes
/// `over_us` microseconds in all.
pub open spec fn fade_pause(from: u8, to: u8, over_us: u64) -> u64 {
    if from == to {
        0
    } else {
        over_us / (fade_len(from, to) as u64)
    }
}

/// The contrast of step `i` of a fade from `from` towards `to`.
pub open spec fn fade_level(from: u8, to: u8, i: nat) -> u8 {
    if to >= from {
        (from + i) as u8
    } else {
        (from - i) as u8
    }
}

/// The first `count` steps of a fade from `from` towards `to`: each sets the
/// next contrast and then rests for `pause` microseconds.
pub open spec fn fade_steps(from: u8, to: u8, pause: u64, count: nat) -> Seq<Step>
    decreases count,
{
    if count == 0 {
        Seq::empty()
    } else {
        fade_steps(from, to, pause, (count - 1) as nat) + brightness_steps(
            fade_level(from, to, (count - 1) as nat),
        ).push(Step::Delay { us: pause })
    }
}

/// The steps that bring the controller up and show the store for the first
/// time.
pub open spec fn init_steps(pixels: Seq<u8>, dirty: DirtyRange) -> Seq<Step> {
    Twi::configure_steps(TwiConfig { sda_pin: 30, scl_pin: 0, freq: Frequency::K400 })
        + seq![
        Step::Delay { us: 100_000 },
        Step::Write { addr: TWI_ADDRESS, mask: 0x7f, bits: DISPLAY_ID as u32 },
    ]
        + command_steps(Command::Off.byte())
        + seq![Step::Delay { us: 10_000 }]
        + command_steps(Command::On.byte())
        + command_steps(Command::TopToBottom.byte())
        + command_steps(Command::LeftToRight.byte())
        + seq![Step::Delay { us: 10_000 }]
        + command_steps(Command::MemoryAddressMode.byte())
        + command_steps(AddressMode::Horizontal.byte())
        + command_steps(Command::ColumnAddress.byte())
        + command_steps(0)
        + command_steps(127)
        + brightness_steps(0)
        + flush_steps(pixels, dirty)
        + command_steps(Command::ChargePumpSet.byte())
        + command_steps(Command::ChargePumpOn.byte())
}

impl Panel {
    /// A panel whose contrast is taken to be zero.
    pub fn new() -> (r: Panel)
        ensures
            r.cur_brightness == 0,
    {
        Panel { cur_brightness: 0 }
    }

    /// Sets the contrast.
    pub fn set_brightness(&mut self, script: &mut Script, brightness: u8)
        ensures
            final(script)@ == old(script)@ + brightness_steps(brightness),
            final(self).cur_brightness == brightness,
    {
        send_command(script, Command::Contrast.code());
        send_command(script, brightness);
        self.cur_brightness = brightness;
        assert(script@ =~= old(script)@ + brightness_steps(brightness));
    }

    /// Fades the contrast from its current value towards `val`, one unit per
    /// step, over `over_us` microseconds in all.
    ///
    /// The fade starts at the current contrast and stops one unit short of
    /// `val`. Every step rests for the same time, which must not be zero.
    pub fn fade_to(&mut self, script: &mut Script, val: u8, over_us: u64)
        requires
            over_us >= fade_len(old(self).cur_brightness, val),
        ensures
            final(script)@ == old(script)@ + fade_steps(
                old(self).cur_brightness,
                val,
                fade_pause(old(self).cur_brightness, val, over_us),
                fade_len(old(self).cur_brightness, val),
            ),
            final(self).cur_brightness == if val == old(self).cur_brightness {
                val
            } else if val > old(self).cur_brightness {
                (val - 1) as u8
            } else {
                (val + 1) as u8
            },
    {
        let start_val: u8 = self.cur_brightness;
        let rising: bool = val >= start_val;
        let steps: u8 = if rising {
            val - start_val
        } else {
            start_val - val
        };
        if steps == 0 {
            assert(script@ =~= old(script)@ + fade_steps(start_val, val, 0, 0));
            return ;
        }
        let per_step_sleep: u64 = over_us / (steps as u64);
        assert(per_step_sleep > 0) by (nonlinear_arith)
            requires
                per_step_sleep == over_us / (steps as u64),
                over_us >= steps,
                steps > 0,
        ;
        let mut i: u8 = 0;
        assert(script@ =~= old(script)@ + fade_steps(start_val, val, per_step_sleep, 0));
        while i < steps
            invariant
                i <= steps,
                per_step_sleep > 0,
                rising == (val >= start_val),
                steps == fade_len(start_val, val),
                script@ == old(script)@ + fade_steps(start_val, val, per_step_sleep, i as nat),
                i > 0 ==> self.cur_brightness == fade_level(start_val, val, (i - 1) as nat),
            decreases steps - i,
        {
            let level: u8 = if rising {
                start_val + i
            } else {
                start_val - i
            };
            self.set_brightness(script, level);
            sleep_us(script, per_step_sleep);
            i += 1;
            assert(script@ =~= old(script)@ + fade_steps(
                start_val,
                val,
                per_step_sleep,
                i as nat,
            ));
        }
    }

    /// Brings the controller up: configures the bus for it, switches the
    /// panel on with rows top to bottom and columns left to right, selects
    /// horizontal addressing over all columns, sets the contrast to zero,
    /// flushes the store and enables the charge pump.
    pub fn init(&mut self, fb: &mut FrameBuffer, script: &mut Script)
        ensures
            final(script)@ == old(script)@ + init_steps(old(fb)@, old(fb).dirty()),
            final(self).cur_brightness == 0,
            final(fb)@ == old(fb)@,
            final(fb).dirty() == DirtyRange::none(),
            final(fb).flushed() == old(fb)@,
    {
        let i2c = Twi {  };
        i2c.configure(script, TwiConfig { sda_pin: 30, scl_pin: 0, freq: Frequency::K400 });
        sleep_us(script, 100_000);
        i2c.set_address(script, DISPLAY_ID);
        assert(DISPLAY_ID & 0x7f == DISPLAY_ID) by (bit_vector);
        send_command(script, Command::Off.code());
        sleep_us(script, 10_000);
        send_command(script, Command::On.code());
        send_command(script, Command::TopToBottom.code());
        send_command(script, Command::LeftToRight.code());
        sleep_us(script, 10_000);
        send_command(script, Command::MemoryAddressMode.code());
        send_command(script, AddressMode::Horizontal.code());
        send_command(script, Command::ColumnAddress.code());
        send_command(script, 0);
        send_command(script, 127);
        self.set_brightness(script, 0);
        fb.update_display(script);
        send_command(script, Command::ChargePumpSet.code());
        send_command(script, Command::ChargePumpOn.code());
        assert(script@ =~= old(script)@ + init_steps(old(fb)@, old(fb).dirty()));
    }
}

} // verus!
