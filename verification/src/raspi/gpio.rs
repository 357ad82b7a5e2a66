//! GPIO lines: which line stands behind a pin number, and what is written
//! to the registers of the boards that have their lines in memory.

use vstd::prelude::*;
use std::sync::Arc;
use crate::raspi::model::Model;

verus! {

/// The block of GPIO registers, named by its physical address.
#[derive(Debug, PartialEq, Eq)]
pub struct GpioBase(pub u32);

/// The direction of a line.
#[derive(Debug, Clone, Copy, PartialEq, Eq, Structural)]
pub enum Direction {
    Input,
    Output,
}

/// A line that can be driven and read.
pub trait Pin {
    fn set_direction(&mut self, direction: Direction);

    fn set(&self, value: bool);

    fn read(&self) -> bool;

    fn set_high(&self) {
        self.set(true);
    }

    fn set_low(&self) {
        self.set(false);
    }
}

/// The two ways to the lines: through the registers in memory, or through
/// the file system of the kernel.
pub enum Gpio {
    MemGpio { base: Arc<GpioBase>, pin_mapping: Option<Vec<usize>> },
    SysFsGpio { pin_mapping: Option<Vec<usize>> },
}

/// A line behind the registers in memory.
pub struct MemGpioPin {
    pub base: Arc<GpioBase>,
    pub number: usize,
    pub direction: Direction,
}

/// A line behind the file system of the kernel.
#[derive(Debug, Clone, Copy, PartialEq, Eq, Structural)]
pub struct SysFsPin {
    pub number: usize,
    pub direction: Direction,
}

/// A line as `Gpio::pin` gives it out.
pub enum GpioPin {
    Mem(MemGpioPin),
    SysFs(SysFsPin),
}

/// Register word of the function select field of a line.
pub const SELECT_REGISTER: usize = 0;

/// Register word through which lines are set high.
pub const SET_REGISTER: usize = 7;

/// Register word through which lines are set low.
pub const CLEAR_REGISTER: usize = 10;

/// Register word in which the levels of the lines are read.
pub const LEVEL_REGISTER: usize = 13;

/// The GPIO line behind a pin number: what the mapping names for it, and
/// the number itself where there is no mapping or none for that pin.
pub open spec fn mapped(mapping: Option<Seq<usize>>, number: usize) -> usize {
    match mapping {
        Some(pins) => if number < pins.len() {
            pins[number as int]
        } else {
            number
        },
        None => number,
    }
}

/// The function select word of a line after it is given a direction: the
/// three bits of the line are cleared, and the lowest of them is set for an
/// output.
pub open spec fn spec_select_word(word: u32, number: usize, direction: Direction) -> u32 {
    let shift = ((number % 10) * 3) as u32;
    match direction {
        Direction::Input => word & !(0b111u32 << shift),
        Direction::Output => (word & !(0b111u32 << shift)) | (0b1u32 << shift),
    }
}

fn map_pin(mapping: &Option<Vec<usize>>, number: usize) -> (line: usize)
    ensures
        line == mapped(
            match mapping {
                Some(pins) => Some(pins@),
                None => None,
            },
            number,
        ),
{
    match mapping {
        Some(pins) => if number < pins.len() {
            pins[number]
        } else {
            number
        },
        None => number,
    }
}

impl Gpio {
    /// The mapping from pin numbers to lines.
    pub open spec fn spec_mapping(&self) -> Option<Seq<usize>> {
        match self {
            Gpio::MemGpio { pin_mapping, .. } => match pin_mapping {
                Some(pins) => Some(pins@),
                None => None,
            },
            Gpio::SysFsGpio { pin_mapping } => match pin_mapping {
                Some(pins) => Some(pins@),
                None => None,
            },
        }
    }

    /// The way to the lines of a model: through memory where the model has
    /// its registers there, and through the file system where not.
    pub fn for_model(model: &Model) -> (gpio: Gpio)
        ensures
            gpio.spec_mapping() == model.spec_pin_mapping(),
            match model.spec_gpio_base() {
                Some(address) => gpio matches Gpio::MemGpio { base, .. } && base.0 == address,
                None => gpio is SysFsGpio,
            },
    {
        match model.gpio_base() {
            Some(address) => Gpio::MemGpio {
                base: Arc::new(GpioBase(address)),
                pin_mapping: model.pin_mapping(),
            },
            None => Gpio::SysFsGpio { pin_mapping: model.pin_mapping() },
        }
    }

    /// The line behind a pin number, with the direction that it is to have.
    pub fn pin(&self, number: usize, direction: Direction) -> (pin: GpioPin)
        ensures
            match pin {
                GpioPin::Mem(line) => self matches Gpio::MemGpio { base, .. } && line.base == base
                    && line.number == mapped(self.spec_mapping(), number) && line.direction
                    == direction,
                GpioPin::SysFs(line) => self is SysFsGpio && line.number == mapped(
                    self.spec_mapping(),
                    number,
                ) && line.direction == direction,
            },
    {
        match self {
            Gpio::MemGpio { base, pin_mapping } => {
                let line = map_pin(pin_mapping, number);
                GpioPin::Mem(MemGpioPin::new(base.clone(), line, direction))
            },
            Gpio::SysFsGpio { pin_mapping } => {
                let line = map_pin(pin_mapping, number);
                GpioPin::SysFs(SysFsPin { number: line, direction })
            },
        }
    }
}

impl MemGpioPin {
    pub fn new(base: Arc<GpioBase>, number: usize, direction: Direction) -> (pin: MemGpioPin)
        ensures
            pin.base == base,
            pin.number == number,
            pin.direction == direction,
    {
        MemGpioPin { base, number, direction }
    }

    /// The register word that holds the function select field of the line.
    pub fn select_register(&self) -> (word: usize)
        ensures
            word == SELECT_REGISTER + self.number / 10,
    {
        self.number / 10
    }

    /// Gives the line a direction: takes the function select word as it is
    /// and gives back the word to write in its place.
    pub fn set_direction(&mut self, direction: Direction, word: u32) -> (updated: u32)
        ensures
            updated == spec_select_word(word, old(self).number, direction),
            final(self).direction == direction,
            final(self).number == old(self).number,
            final(self).base == old(self).base,
    {
        self.direction = direction;
        let shift = ((self.number % 10) * 3) as u32;
        let cleared = word & !(0b111u32 << shift);
        match direction {
            Direction::Input => cleared,
            Direction::Output => cleared | (0b1u32 << shift),
        }
    }

    /// The register to write and the word to write to it to drive the line
    /// high or low. This is asked of an output with a line number below 32.
    pub fn set(&self, value: bool) -> (write: (usize, u32))
        requires
            self.direction == Direction::Output,
            self.number < 32,
        ensures
            write.0 == if value {
                SET_REGISTER
            } else {
                CLEAR_REGISTER
            },
            write.1 == 1u32 << (self.number as u32),
    {
        let mask = 1u32 << (self.number as u32);
        if value {
            (SET_REGISTER, mask)
        } else {
            (CLEAR_REGISTER, mask)
        }
    }

    /// The level of the line as the level register shows it. This is asked
    /// of an input with a line number below 32.
    pub fn read(&self, levels: u32) -> (high: bool)
        requires
            self.direction == Direction::Input,
            self.number < 32,
        ensures
            high == (levels & (1u32 << (self.number as u32)) != 0),
    {
        (levels & (1u32 << (self.number as u32))) != 0
    }
}

} // verus!
