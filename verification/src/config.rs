//! The settings of the node and their defaults.

use vstd::prelude::*;

verus! {

/// The TCP port of the message broker on the fallback servers.
pub const BROKER_PORT: u16 = 5672;

/// The list holds the three fallback servers of the network with the port
/// of the message broker.
pub open spec fn is_default_fallback(servers: Seq<(String, u16)>) -> bool {
    &&& servers.len() == 3
    &&& servers[0].0@ == "dapnetdc1.db0sda.ampr.org"@
    &&& servers[1].0@ == "dapnetdc2.db0sda.ampr.org"@
    &&& servers[2].0@ == "dapnetdc3.db0sda.ampr.org"@
    &&& servers[0].1 == BROKER_PORT
    &&& servers[1].1 == BROKER_PORT
    &&& servers[2].1 == BROKER_PORT
}

/// The servers to turn to when the configured one cannot be reached.
pub fn default_fallback_servers() -> (servers: Vec<(String, u16)>)
    ensures
        is_default_fallback(servers@),
{
    let mut servers: Vec<(String, u16)> = Vec::new();
    servers.push(("dapnetdc1.db0sda.ampr.org".to_owned(), BROKER_PORT));
    servers.push(("dapnetdc2.db0sda.ampr.org".to_owned(), BROKER_PORT));
    servers.push(("dapnetdc3.db0sda.ampr.org".to_owned(), BROKER_PORT));
    servers
}

/// The modulation deviation that a RasPager starts with.
pub fn default_mod_deviation() -> (deviation: u16)
    ensures
        deviation == 13,
{
    13
}

#[derive(Clone, Debug)]
pub struct C9000Config {
    pub baudrate: u32,
    pub dummy_enabled: bool,
    pub dummy_port: String,
    pub dummy_pa_output_level: u8,
}

impl C9000Config {
    pub open spec fn is_default(self) -> bool {
        &&& self.baudrate == 38400
        &&& !self.dummy_enabled
        &&& self.dummy_port@ == "/dev/ttyUSB0"@
        &&& self.dummy_pa_output_level == 0
    }
}

impl Default for C9000Config {
    fn default() -> (config: C9000Config)
        ensures
            config.is_default(),
    {
        C9000Config {
            baudrate: 38400,
            dummy_enabled: false,
            dummy_port: "/dev/ttyUSB0".to_owned(),
            dummy_pa_output_level: 0,
        }
    }
}

#[derive(Clone, Debug)]
pub struct RaspagerConfig {
    pub freq: u32,
    pub freq_corr: i16,
    pub pa_output_level: u8,
    pub mod_deviation: u16,
}

impl RaspagerConfig {
    pub open spec fn is_default(self) -> bool {
        &&& self.freq == 439987500
        &&& self.freq_corr == 0
        &&& self.pa_output_level == 63
        &&& self.mod_deviation == 13
    }
}

impl Default for RaspagerConfig {
    fn default() -> (config: RaspagerConfig)
        ensures
            config.is_default(),
    {
        RaspagerConfig {
            freq: 439987500,
            freq_corr: 0,
            pa_output_level: 63,
            mod_deviation: default_mod_deviation(),
        }
    }
}

#[derive(Clone, Debug)]
pub struct RFM69Config {
    pub port: String,
}

impl RFM69Config {
    pub open spec fn is_default(self) -> bool {
        self.port@ == "/dev/ttyUSB0"@
    }
}

impl Default for RFM69Config {
    fn default() -> (config: RFM69Config)
        ensures
            config.is_default(),
    {
        RFM69Config { port: "/dev/ttyUSB0".to_owned() }
    }
}

#[derive(Clone, Debug)]
pub struct AudioConfig {
    pub device: String,
    pub level: u8,
    pub inverted: bool,
    pub tx_delay: usize,
    pub baudrate: usize,
}

impl AudioConfig {
    pub open spec fn is_default(self) -> bool {
        &&& self.device@ == "default"@
        &&& self.level == 127
        &&& !self.inverted
        &&& self.tx_delay == 0
        &&& self.baudrate == 1200
    }
}

impl Default for AudioConfig {
    fn default() -> (config: AudioConfig)
        ensures
            config.is_default(),
    {
        AudioConfig {
            device: "default".to_owned(),
            level: 127,
            inverted: false,
            tx_delay: 0,
            baudrate: 1200,
        }
    }
}

/// The ways to key the transmitter.
#[derive(Clone, Copy, Debug, PartialEq, Eq, Structural)]
pub enum PttMethod {
    Gpio,
    SerialDtr,
    SerialRts,
    HidRaw,
}

#[derive(Clone, Debug)]
pub struct PttConfig {
    pub method: PttMethod,
    pub inverted: bool,
    pub gpio_pin: usize,
    pub serial_port: String,
    pub hidraw_device: String,
    pub hidraw_gpio_pin: usize,
}

impl PttConfig {
    pub open spec fn is_default(self) -> bool {
        &&& self.method == PttMethod::Gpio
        &&& !self.inverted
        &&& self.gpio_pin == 0
        &&& self.serial_port@ == "/dev/ttyS0"@
        &&& self.hidraw_device@ == "/dev/hidraw0"@
        &&& self.hidraw_gpio_pin == 3
    }
}

impl Default for PttConfig {
    fn default() -> (config: PttConfig)
        ensures
            config.is_default(),
    {
        PttConfig {
            method: PttMethod::Gpio,
            inverted: false,
            gpio_pin: 0,
            serial_port: "/dev/ttyS0".to_owned(),
            hidraw_device: "/dev/hidraw0".to_owned(),
            hidraw_gpio_pin: 3,
        }
    }
}

#[derive(Clone, Debug)]
pub struct MasterConfig {
    pub server: String,
    pub port: u16,
    pub call: String,
    pub auth: String,
    pub fallback: Vec<(String, u16)>,
}

impl MasterConfig {
    pub open spec fn is_default(self) -> bool {
        &&& self.server@ == "dapnetdc2.db0sda.ampr.org"@
        &&& self.port == 80
        &&& self.call@ == Seq::<char>::empty()
        &&& self.auth@ == Seq::<char>::empty()
        &&& is_default_fallback(self.fallback@)
    }
}

impl Default for MasterConfig {
    fn default() -> (config: MasterConfig)
        ensures
            config.is_default(),
    {
        MasterConfig {
            server: "dapnetdc2.db0sda.ampr.org".to_owned(),
            port: 80,
            call: String::new(),
            auth: String::new(),
            fallback: default_fallback_servers(),
        }
    }
}

/// The transmitter back-ends.
#[derive(Copy, Clone, Debug, PartialEq, Eq, Structural)]
pub enum Transmitter {
    Dummy,
    Audio,
    C9000,
    Raspager,
    Raspager2,
    RFM69,
}

impl Default for Transmitter {
    fn default() -> (transmitter: Transmitter)
        ensures
            transmitter == Transmitter::Dummy,
    {
        Transmitter::Dummy
    }
}

impl Transmitter {
    /// The name of the back-end as it is shown.
    pub open spec fn spec_name(self) -> Seq<char> {
        match self {
            Transmitter::Dummy => "Dummy"@,
            Transmitter::Audio => "Audio"@,
            Transmitter::C9000 => "C9000"@,
            Transmitter::Raspager => "Raspager1"@,
            Transmitter::Raspager2 => "Raspager2"@,
            Transmitter::RFM69 => "RFM69"@,
        }
    }

    pub fn name(self) -> (name: &'static str)
        ensures
            name@ == self.spec_name(),
    {
        match self {
            Transmitter::Dummy => "Dummy",
            Transmitter::Audio => "Audio",
            Transmitter::C9000 => "C9000",
            Transmitter::Raspager => "Raspager1",
            Transmitter::Raspager2 => "Raspager2",
            Transmitter::RFM69 => "RFM69",
        }
    }
}

/// All settings of the node.
#[derive(Clone, Debug)]
pub struct Config {
    pub master: MasterConfig,
    pub transmitter: Transmitter,
    pub ptt: PttConfig,
    pub raspager: RaspagerConfig,
    pub c9000: C9000Config,
    pub audio: AudioConfig,
    pub rfm69: RFM69Config,
}

impl Config {
    /// The settings of a node that has not been set up: the dummy back-end,
    /// and for every part what it starts with.
    pub open spec fn is_default(self) -> bool {
        &&& self.master.is_default()
        &&& self.transmitter == Transmitter::Dummy
        &&& self.ptt.is_default()
        &&& self.raspager.is_default()
        &&& self.c9000.is_default()
        &&& self.audio.is_default()
        &&& self.rfm69.is_default()
    }
}

impl Default for Config {
    fn default() -> (config: Config)
        ensures
            config.is_default(),
    {
        Config {
            master: MasterConfig::default(),
            transmitter: Transmitter::default(),
            ptt: PttConfig::default(),
            raspager: RaspagerConfig::default(),
            c9000: C9000Config::default(),
            audio: AudioConfig::default(),
            rfm69: RFM69Config::default(),
        }
    }
}

} // verus!
