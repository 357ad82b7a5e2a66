//! Keying the transmitter: over a GPIO line, over a control line of a
//! serial port, or over a GPIO of a CM108 sound chip.

use vstd::prelude::*;
use crate::config::{PttConfig, PttMethod};

verus! {

/// Vendor number of the CM108 sound chip.
pub const CM108_VENDOR: u16 = 0x0D8C;

/// The way to key the transmitter, with what it takes.
#[derive(Debug, Clone)]
pub enum Ptt {
    Gpio { pin: usize, inverted: bool },
    SerialDtr { port: String, inverted: bool },
    SerialRts { port: String, inverted: bool },
    HidRaw { device: String, gpio: u8, inverted: bool },
}

/// What is done to the hardware to key or unkey.
#[derive(Debug, Clone, Copy, PartialEq, Eq)]
pub enum PttAction {
    /// Drive the GPIO line to this level.
    SetPin(bool),
    /// Drive the DTR line of the serial port to this level.
    SetDtr(bool),
    /// Drive the RTS line of the serial port to this level.
    SetRts(bool),
    /// Write this report to the sound chip.
    WriteReport([u8; 5]),
}

/// The level of the keying line: high to key and low to unkey, and the
/// other way round where the line is inverted.
pub open spec fn spec_level(status: bool, inverted: bool) -> bool {
    status != inverted
}

/// The bit of a GPIO of the sound chip in its reports: GPIO 1 to 4 are bits
/// 0 to 3, and any other number is no GPIO and has no bit.
pub open spec fn spec_hid_mask(gpio: usize) -> u8 {
    if gpio == 1 {
        0x01
    } else if gpio == 2 {
        0x02
    } else if gpio == 3 {
        0x04
    } else if gpio == 4 {
        0x08
    } else {
        0x00
    }
}

/// The report that drives a GPIO of the sound chip: the GPIO is named as an
/// output in the fourth byte, and its level stands in the third.
pub open spec fn report_array(mask: u8, high: bool) -> [u8; 5] {
    if high {
        [0x00u8, 0x00u8, mask, mask, 0x00u8]
    } else {
        [0x00u8, 0x00u8, 0x00u8, mask, 0x00u8]
    }
}

/// The bit of a GPIO of the sound chip in its reports.
pub fn hid_mask(gpio: usize) -> (mask: u8)
    ensures
        mask == spec_hid_mask(gpio),
{
    if gpio == 1 {
        0x01
    } else if gpio == 2 {
        0x02
    } else if gpio == 3 {
        0x04
    } else if gpio == 4 {
        0x08
    } else {
        0x00
    }
}

/// Whether a device with these numbers is a CM108 that can key.
pub fn is_cm108(vendor_id: u16, product_id: u16) -> (supported: bool)
    ensures
        supported == (vendor_id == CM108_VENDOR && (product_id == 0x013C || product_id == 0x000C)),
{
    vendor_id == CM108_VENDOR && (product_id == 0x013C || product_id == 0x000C)
}

impl Ptt {
    /// The way to key that the settings ask for.
    pub open spec fn is_for(self, config: PttConfig) -> bool {
        match config.method {
            PttMethod::Gpio => self matches Ptt::Gpio { pin, inverted } && pin == config.gpio_pin
                && inverted == config.inverted,
            PttMethod::SerialDtr => self matches Ptt::SerialDtr { port, inverted } && port
                == config.serial_port && inverted == config.inverted,
            PttMethod::SerialRts => self matches Ptt::SerialRts { port, inverted } && port
                == config.serial_port && inverted == config.inverted,
            PttMethod::HidRaw => self matches Ptt::HidRaw { device, gpio, inverted } && device
                == config.hidraw_device && gpio == spec_hid_mask(config.hidraw_gpio_pin)
                && inverted == config.inverted,
        }
    }

    /// What keying or unkeying does to the hardware.
    pub open spec fn spec_set(self, status: bool) -> PttAction {
        match self {
            Ptt::Gpio { inverted, .. } => PttAction::SetPin(spec_level(status, inverted)),
            Ptt::SerialDtr { inverted, .. } => PttAction::SetDtr(spec_level(status, inverted)),
            Ptt::SerialRts { inverted, .. } => PttAction::SetRts(spec_level(status, inverted)),
            Ptt::HidRaw { gpio, inverted, .. } => PttAction::WriteReport(
                report_array(gpio, spec_level(status, inverted)),
            ),
        }
    }

    /// Chooses the way to key by the settings.
    pub fn from_config(config: &PttConfig) -> (ptt: Ptt)
        ensures
            ptt.is_for(*config),
    {
        match config.method {
            PttMethod::Gpio => Ptt::Gpio { pin: config.gpio_pin, inverted: config.inverted },
            PttMethod::SerialDtr => Ptt::SerialDtr {
                port: config.serial_port.clone(),
                inverted: config.inverted,
            },
            PttMethod::SerialRts => Ptt::SerialRts {
                port: config.serial_port.clone(),
                inverted: config.inverted,
            },
            PttMethod::HidRaw => Ptt::HidRaw {
                device: config.hidraw_device.clone(),
                gpio: hid_mask(config.hidraw_gpio_pin),
                inverted: config.inverted,
            },
        }
    }

    /// Keys the transmitter where `status` is set, and unkeys it where not:
    /// says what is to be done to the hardware.
    pub fn set(&self, status: bool) -> (action: PttAction)
        ensures
            action == self.spec_set(status),
    {
        match self {
            Ptt::Gpio { inverted, .. } => PttAction::SetPin(status != *inverted),
            Ptt::SerialDtr { inverted, .. } => PttAction::SetDtr(status != *inverted),
            Ptt::SerialRts { inverted, .. } => PttAction::SetRts(status != *inverted),
            Ptt::HidRaw { gpio, inverted, .. } => {
                let report = if status != *inverted {
                    [0x00, 0x00, *gpio, *gpio, 0x00]
                } else {
                    [0x00, 0x00, 0x00, *gpio, 0x00]
                };
                assert(report@ =~= report_array(*gpio, spec_level(status, *inverted))@);
                PttAction::WriteReport(report)
            },
        }
    }
}

} // verus!
