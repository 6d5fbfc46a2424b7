//! Pin configuration and general-purpose input and output.
//!
//! Some pins that can be configured here may be missing from an actual chip,
//! depending on the package.

use vstd::prelude::*;
use crate::hal::nrf51822::regs::{
    Script, Step, GPIO_IN, GPIO_OUTCLR, GPIO_OUTSET, GPIO_PIN_CNF,
};
use crate::hal::pin::{GpioDirection, GpioLevel};

verus! {

/// A pin of the GPIO block.
#[derive(Clone, Copy)]
pub struct Pin {
    /// Pin index.
    pub index: u8,
}

/// Drive strength of a pin for one logic level.
#[derive(Clone, Copy, Debug, PartialEq, Eq, Structural)]
pub enum PinDriveMode {
    /// Standard drive.
    Standard,
    /// High drive.
    HighDrive,
    /// The level is not driven.
    Disconnect,
}

/// Pull resistor of a pin.
#[derive(Clone, Copy, Debug, PartialEq, Eq, Structural)]
pub enum PinPull {
    /// No pull resistor.
    NoPull,
    /// Pull down.
    Low,
    /// Pull up.
    High,
}

/// Level that wakes the chip.
#[derive(Clone, Copy, Debug, PartialEq, Eq, Structural)]
pub enum SenseMode {
    /// The pin does not wake the chip.
    Disabled,
    /// A high level wakes the chip.
    High,
    /// A low level wakes the chip.
    Low,
}

/// Everything that can be configured for one pin.
#[derive(Clone, Copy)]
pub struct PinConfig {
    /// Whether the pin senses or drives.
    pub direction: GpioDirection,
    /// Pull resistor.
    pub pull: PinPull,
    /// Whether the input buffer is connected.
    pub input_connect: bool,
    /// Level that wakes the chip.
    pub sense: SenseMode,
    /// Drive strength for logic zero.
    pub drive_low: PinDriveMode,
    /// Drive strength for logic one.
    pub drive_high: PinDriveMode,
}

/// The bits of a pin's configuration word that `Pin::configure` writes:
/// direction (bit 0), input buffer (bit 1), pull (bits 2 and 3), drive (bits
/// 8 to 10) and sense (bits 16 and 17).
pub const PIN_CNF_MASK: u32 = 0x0003_070f;

impl PinPull {
    /// The two-bit code of the pull field.
    pub open spec fn code(self) -> u32 {
        match self {
            PinPull::NoPull => 0,
            PinPull::Low => 1,
            PinPull::High => 2,
        }
    }
}

impl SenseMode {
    /// The two-bit code of the sense field.
    pub open spec fn code(self) -> u32 {
        match self {
            SenseMode::Disabled => 0,
            SenseMode::High => 1,
            SenseMode::Low => 2,
        }
    }
}

impl PinConfig {
    /// The three-bit code of the drive field. Disconnecting both levels is
    /// not a valid drive and is encoded as standard drive.
    pub open spec fn drive_code(self) -> u32 {
        match (self.drive_low, self.drive_high) {
            (PinDriveMode::Standard, PinDriveMode::Standard) => 0,
            (PinDriveMode::HighDrive, PinDriveMode::Standard) => 1,
            (PinDriveMode::Standard, PinDriveMode::HighDrive) => 2,
            (PinDriveMode::HighDrive, PinDriveMode::HighDrive) => 3,
            (PinDriveMode::Disconnect, PinDriveMode::Standard) => 4,
            (PinDriveMode::Disconnect, PinDriveMode::HighDrive) => 5,
            (PinDriveMode::Standard, PinDriveMode::Disconnect) => 6,
            (PinDriveMode::HighDrive, PinDriveMode::Disconnect) => 7,
            (PinDriveMode::Disconnect, PinDriveMode::Disconnect) => 0,
        }
    }

    /// The direction bit: one for an output.
    pub open spec fn dir_code(self) -> u32 {
        match self.direction {
            GpioDirection::In => 0,
            GpioDirection::Out => 1,
        }
    }

    /// The input bit: one disconnects the input buffer.
    pub open spec fn input_code(self) -> u32 {
        if self.input_connect {
            0
        } else {
            1
        }
    }

    /// The configuration word with every field in its place.
    pub open spec fn word(self) -> u32 {
        (self.dir_code() + 2 * self.input_code() + 4 * self.pull.code() + 256 * self.drive_code()
            + 65536 * self.sense.code()) as u32
    }

    /// Every field can be read back from the word at its bit position, and
    /// the word has no bit outside the mask.
    pub proof fn lemma_word_fields(self)
        ensures
            self.word() & 1 == self.dir_code(),
            (self.word() >> 1) & 1 == self.input_code(),
            (self.word() >> 2) & 3 == self.pull.code(),
            (self.word() >> 8) & 7 == self.drive_code(),
            (self.word() >> 16) & 3 == self.sense.code(),
            self.word() & !PIN_CNF_MASK == 0,
    {
        let d = self.dir_code();
        let i = self.input_code();
        let p = self.pull.code();
        let v = self.drive_code();
        let s = self.sense.code();
        let w = self.word();
        assert(w == d + 2 * i + 4 * p + 256 * v + 65536 * s);
        assert({
            &&& w & 1 == d
            &&& (w >> 1) & 1 == i
            &&& (w >> 2) & 3 == p
            &&& (w >> 8) & 7 == v
            &&& (w >> 16) & 3 == s
            &&& w & !0x0003_070fu32 == 0
        }) by (bit_vector)
            requires
                d < 2,
                i < 2,
                p < 4,
                v < 8,
                s < 4,
                w == d + 2 * i + 4 * p + 256 * v + 65536 * s,
        ;
    }
}

impl Default for PinConfig {
    /// A standard-drive output with a disconnected input buffer that wakes
    /// the chip on a high level.
    fn default() -> (r: PinConfig)
        ensures
            r == (PinConfig {
                direction: GpioDirection::Out,
                input_connect: false,
                pull: PinPull::NoPull,
                sense: SenseMode::High,
                drive_low: PinDriveMode::Standard,
                drive_high: PinDriveMode::Standard,
            }),
    {
        PinConfig {
            direction: GpioDirection::Out,
            input_connect: false,
            pull: PinPull::NoPull,
            sense: SenseMode::High,
            drive_low: PinDriveMode::Standard,
            drive_high: PinDriveMode::Standard,
        }
    }
}

/// The level that a sample of a pin's input bit stands for.
pub fn level_of(sample: u32) -> (r: GpioLevel)
    ensures
        r == if sample == 0 {
            GpioLevel::Low
        } else {
            GpioLevel::High
        },
{
    if sample == 0 {
        GpioLevel::Low
    } else {
        GpioLevel::High
    }
}

impl Pin {
    /// The configuration a pin gets when only its direction is chosen: an
    /// input is pulled up with its buffer connected, an output has neither.
    pub open spec fn direction_config(mode: GpioDirection) -> PinConfig {
        PinConfig {
            direction: mode,
            pull: match mode {
                GpioDirection::In => PinPull::High,
                GpioDirection::Out => PinPull::NoPull,
            },
            input_connect: mode == GpioDirection::In,
            sense: SenseMode::High,
            drive_low: PinDriveMode::Standard,
            drive_high: PinDriveMode::Standard,
        }
    }

    /// The step that configures pin `index`.
    pub open spec fn configure_step(index: u8, config: PinConfig) -> Step {
        Step::Write {
            addr: (GPIO_PIN_CNF + 4 * index) as u32,
            mask: PIN_CNF_MASK,
            bits: config.word(),
        }
    }

    /// The pin with the given index.
    pub fn new(pin_index: u8) -> (r: Pin)
        ensures
            r.index == pin_index,
    {
        Pin { index: pin_index }
    }

    /// Configures the pin.
    pub fn configure(&self, script: &mut Script, config: PinConfig)
        requires
            self.index < 32,
        ensures
            final(script)@ == old(script)@.push(Self::configure_step(self.index, config)),
    {
        let drive_mode: u32 = match (config.drive_low, config.drive_high) {
            (PinDriveMode::Standard, PinDriveMode::Standard) => 0,
            (PinDriveMode::HighDrive, PinDriveMode::Standard) => 1,
            (PinDriveMode::Standard, PinDriveMode::HighDrive) => 2,
            (PinDriveMode::HighDrive, PinDriveMode::HighDrive) => 3,
            (PinDriveMode::Disconnect, PinDriveMode::Standard) => 4,
            (PinDriveMode::Disconnect, PinDriveMode::HighDrive) => 5,
            (PinDriveMode::Standard, PinDriveMode::Disconnect) => 6,
            (PinDriveMode::HighDrive, PinDriveMode::Disconnect) => 7,
            (PinDriveMode::Disconnect, PinDriveMode::Disconnect) => 0,
        };
        let pull: u32 = match config.pull {
            PinPull::NoPull => 0,
            PinPull::Low => 1,
            PinPull::High => 2,
        };
        let input: u32 = if config.input_connect {
            0
        } else {
            1
        };
        let sense: u32 = match config.sense {
            SenseMode::Disabled => 0,
            SenseMode::High => 1,
            SenseMode::Low => 2,
        };
        let dir: u32 = match config.direction {
            GpioDirection::In => 0,
            GpioDirection::Out => 1,
        };
        proof {
            config.lemma_word_fields();
        }
        script.write(
            GPIO_PIN_CNF + 4 * (self.index as u32),
            PIN_CNF_MASK,
            dir + 2 * input + 4 * pull + 256 * drive_mode + 65536 * sense,
        );
    }

    /// Drives the pin high.
    pub fn set_high(&self, script: &mut Script)
        requires
            self.index < 32,
        ensures
            final(script)@ == old(script)@.push(
                Step::Write { addr: GPIO_OUTSET, mask: 0xffff_ffff, bits: 1u32 << self.index },
            ),
    {
        let bit: u32 = 1u32 << self.index;
        assert(bit & !0xffff_ffffu32 == 0) by (bit_vector);
        script.write(GPIO_OUTSET, 0xffff_ffff, bit);
    }

    /// Drives the pin low.
    pub fn set_low(&self, script: &mut Script)
        requires
            self.index < 32,
        ensures
            final(script)@ == old(script)@.push(
                Step::Write { addr: GPIO_OUTCLR, mask: 0xffff_ffff, bits: 1u32 << self.index },
            ),
    {
        let bit: u32 = 1u32 << self.index;
        assert(bit & !0xffff_ffffu32 == 0) by (bit_vector);
        script.write(GPIO_OUTCLR, 0xffff_ffff, bit);
    }

    /// Samples the pin; `level_of` turns the sample into a level.
    pub fn level(&self, script: &mut Script)
        requires
            self.index < 32,
        ensures
            final(script)@ == old(script)@.push(
                Step::Read { addr: GPIO_IN, mask: 1u32 << self.index },
            ),
    {
        let bit: u32 = 1u32 << self.index;
        script.read(GPIO_IN, bit);
    }

    /// Makes the pin an input or an output.
    pub fn set_direction(&self, script: &mut Script, new_mode: GpioDirection)
        requires
            self.index < 32,
        ensures
            final(script)@ == old(script)@.push(
                Self::configure_step(self.index, Self::direction_config(new_mode)),
            ),
    {
        let base = PinConfig::default();
        self.configure(
            script,
            PinConfig {
                direction: new_mode,
                pull: match new_mode {
                    GpioDirection::In => PinPull::High,
                    GpioDirection::Out => PinPull::NoPull,
                },
                input_connect: match new_mode {
                    GpioDirection::In => true,
                    GpioDirection::Out => false,
                },
                sense: base.sense,
                drive_low: base.drive_low,
                drive_high: base.drive_high,
            },
        );
    }
}

} // verus!
