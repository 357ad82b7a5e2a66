//! The board models, told apart by the revision code of the processor.

use vstd::prelude::*;
use crate::text::{decimal, decimal_text};

verus! {

/// A board model.
#[derive(Clone, Copy, Debug, PartialEq, Eq, Structural)]
pub enum Model {
    V1A,
    V1B { rev: u8 },
    V1Aplus,
    V1Bplus,
    V2B,
    V3B,
    V3Bplus,
    V4B,
    Pi400,
    Zero,
    ZeroW,
    OrangePi,
    Unknown,
}

/// The model that a revision code stands for. The code counts with its low
/// 24 bits. Where the code is not known, a board of the Allwinner sun8i
/// family is an Orange Pi.
pub open spec fn spec_model(revision: u32, sun8i: bool) -> Model {
    let code = revision & 0x00FF_FFFF;
    if 0x2 <= code <= 0x3 {
        Model::V1B { rev: 1 }
    } else if 0x4 <= code <= 0x6 || 0xD <= code <= 0xF {
        Model::V1B { rev: 2 }
    } else if 0x7 <= code <= 0x9 {
        Model::V1A
    } else if code == 0x12 || code == 0x15 || code == 0x900021 {
        Model::V1Aplus
    } else if code == 0x10 || code == 0x13 || code == 0x900032 {
        Model::V1Bplus
    } else if code == 0xA01040 || code == 0xA01041 || code == 0xA21041 || code == 0xA22042 || code
        == 0xA02042 {
        Model::V2B
    } else if code == 0x900092 || code == 0x900093 || code == 0x920093 {
        Model::Zero
    } else if code == 0x9000C1 {
        Model::ZeroW
    } else if code == 0xA02082 || code == 0xA22082 || code == 0xA32082 {
        Model::V3B
    } else if code == 0xA020D3 {
        Model::V3Bplus
    } else if code == 0xA03111 || 0xB03111 <= code <= 0xB03114 || 0xC03111 <= code <= 0xC03114
        || code == 0xD03114 {
        Model::V4B
    } else if code == 0xC03130 {
        Model::Pi400
    } else if sun8i {
        Model::OrangePi
    } else {
        Model::Unknown
    }
}

/// The GPIO numbers behind the board's pin numbers on the first revision
/// of the model B.
pub open spec fn mapping_rev1() -> Seq<usize> {
    seq![17, 18, 21, 22, 23, 24, 25, 4, 0, 1, 8, 7, 10, 9, 11, 14, 15]
}

/// The GPIO numbers behind the pin numbers of the boards with the short
/// header.
pub open spec fn mapping_short() -> Seq<usize> {
    seq![17, 18, 27, 22, 23, 24, 25, 4, 2, 3, 8, 7, 10, 9, 11, 14, 15]
}

/// The GPIO numbers behind the pin numbers of the boards with the long
/// header.
pub open spec fn mapping_long() -> Seq<usize> {
    seq![
        17,
        18,
        27,
        22,
        23,
        24,
        25,
        4,
        2,
        3,
        8,
        7,
        10,
        9,
        11,
        14,
        15,
        0,
        0,
        0,
        0,
        5,
        6,
        13,
        19,
        26,
        12,
        16,
        20,
        21,
        0,
        1,
    ]
}

impl Model {
    /// Physical address of the GPIO registers, where the model has them in
    /// memory.
    pub open spec fn spec_gpio_base(self) -> Option<u32> {
        match self {
            Model::V1A | Model::V1B { .. } | Model::V1Aplus | Model::V1Bplus => Some(0x2020_0000u32),
            Model::V2B | Model::V3B | Model::V3Bplus => Some(0x3F20_0000u32),
            Model::V4B | Model::Pi400 => Some(0xFE20_0000u32),
            Model::Zero | Model::ZeroW => Some(0x2020_0000u32),
            Model::OrangePi | Model::Unknown => None,
        }
    }

    /// The GPIO numbers behind the board's pin numbers, where they are
    /// known.
    pub open spec fn spec_pin_mapping(self) -> Option<Seq<usize>> {
        match self {
            Model::V1B { rev } => if rev == 1 {
                Some(mapping_rev1())
            } else {
                Some(mapping_short())
            },
            Model::V1A | Model::V2B | Model::V1Aplus | Model::V1Bplus | Model::Zero | Model::ZeroW => Some(
                mapping_short(),
            ),
            Model::V3B | Model::V3Bplus | Model::V4B | Model::Pi400 => Some(mapping_long()),
            Model::OrangePi | Model::Unknown => None,
        }
    }

    /// The name of the model as it is shown.
    pub open spec fn spec_name(self) -> Seq<char> {
        match self {
            Model::V1A => "Raspberry Pi 1 Model A"@,
            Model::V1B { rev } => "Raspberry Pi 1 Model B Rev. "@ + decimal_text(rev as nat),
            Model::V1Aplus => "Raspberry Pi 1 Model A+"@,
            Model::V1Bplus => "Raspberry Pi 1 Model B+"@,
            Model::V2B => "Raspberry Pi 2 Model B"@,
            Model::V3B => "Raspberry Pi 3 Model B"@,
            Model::V3Bplus => "Raspberry Pi 3 Model B+"@,
            Model::V4B => "Raspberry Pi 4 Model B"@,
            Model::Pi400 => "Raspberry Pi 400"@,
            Model::Zero => "Raspberry Pi Zero"@,
            Model::ZeroW => "Raspberry Pi Zero W"@,
            Model::OrangePi => "Orange Pi"@,
            Model::Unknown => "Unknown Device"@,
        }
    }

    /// The model that a revision code stands for; `sun8i` says that the
    /// board names its hardware as of the Allwinner sun8i family.
    pub fn from_revision(revision: u32, sun8i: bool) -> (model: Model)
        ensures
            model == spec_model(revision, sun8i),
    {
        let code = revision & 0x00FF_FFFF;
        if 0x2 <= code && code <= 0x3 {
            Model::V1B { rev: 1 }
        } else if (0x4 <= code && code <= 0x6) || (0xD <= code && code <= 0xF) {
            Model::V1B { rev: 2 }
        } else if 0x7 <= code && code <= 0x9 {
            Model::V1A
        } else if code == 0x12 || code == 0x15 || code == 0x900021 {
            Model::V1Aplus
        } else if code == 0x10 || code == 0x13 || code == 0x900032 {
            Model::V1Bplus
        } else if code == 0xA01040 || code == 0xA01041 || code == 0xA21041 || code == 0xA22042
            || code == 0xA02042 {
            Model::V2B
        } else if code == 0x900092 || code == 0x900093 || code == 0x920093 {
            Model::Zero
        } else if code == 0x9000C1 {
            Model::ZeroW
        } else if code == 0xA02082 || code == 0xA22082 || code == 0xA32082 {
            Model::V3B
        } else if code == 0xA020D3 {
            Model::V3Bplus
        } else if code == 0xA03111 || (0xB03111 <= code && code <= 0xB03114) || (0xC03111 <= code
            && code <= 0xC03114) || code == 0xD03114 {
            Model::V4B
        } else if code == 0xC03130 {
            Model::Pi400
        } else if sun8i {
            Model::OrangePi
        } else {
            Model::Unknown
        }
    }

    pub fn gpio_base(&self) -> (base: Option<u32>)
        ensures
            base == self.spec_gpio_base(),
    {
        match self {
            Model::V1A | Model::V1B { .. } | Model::V1Aplus | Model::V1Bplus => Some(0x2020_0000),
            Model::V2B | Model::V3B | Model::V3Bplus => Some(0x3F20_0000),
            Model::V4B | Model::Pi400 => Some(0xFE20_0000),
            Model::Zero | Model::ZeroW => Some(0x2020_0000),
            Model::OrangePi | Model::Unknown => None,
        }
    }

    pub fn pin_mapping(&self) -> (mapping: Option<Vec<usize>>)
        ensures
            match mapping {
                Some(pins) => self.spec_pin_mapping() == Some(pins@),
                None => self.spec_pin_mapping().is_none(),
            },
    {
        match self {
            Model::V1B { rev } => {
                if *rev == 1 {
                    let pins: Vec<usize> = vec![17, 18, 21, 22, 23, 24, 25, 4, 0, 1, 8, 7, 10, 9, 11, 14, 15];
                    assert(pins@ =~= mapping_rev1());
                    Some(pins)
                } else {
                    let pins: Vec<usize> = vec![17, 18, 27, 22, 23, 24, 25, 4, 2, 3, 8, 7, 10, 9, 11, 14, 15];
                    assert(pins@ =~= mapping_short());
                    Some(pins)
                }
            },
            Model::V1A | Model::V2B | Model::V1Aplus | Model::V1Bplus | Model::Zero | Model::ZeroW => {
                let pins: Vec<usize> = vec![17, 18, 27, 22, 23, 24, 25, 4, 2, 3, 8, 7, 10, 9, 11, 14, 15];
                assert(pins@ =~= mapping_short());
                Some(pins)
            },
            Model::V3B | Model::V3Bplus | Model::V4B | Model::Pi400 => {
                let pins: Vec<usize> = vec![
                    17,
                    18,
                    27,
                    22,
                    23,
                    24,
                    25,
                    4,
                    2,
                    3,
                    8,
                    7,
                    10,
                    9,
                    11,
                    14,
                    15,
                    0,
                    0,
                    0,
                    0,
                    5,
                    6,
                    13,
                    19,
                    26,
                    12,
                    16,
                    20,
                    21,
                    0,
                    1,
                ];
                assert(pins@ =~= mapping_long());
                Some(pins)
            },
            Model::OrangePi | Model::Unknown => None,
        }
    }

    /// The serial port that the board's header carries.
    pub fn serial_port(&self) -> (port: &'static str)
        ensures
            port@ == "/dev/ttyAMA0"@,
    {
        "/dev/ttyAMA0"
    }

    pub fn name(&self) -> (name: String)
        ensures
            name@ == self.spec_name(),
    {
        match self {
            Model::V1A => "Raspberry Pi 1 Model A".to_owned(),
            Model::V1B { rev } => {
                let mut name = "Raspberry Pi 1 Model B Rev. ".to_owned();
                let number = decimal(*rev as u64);
                name.append(number.as_str());
                name
            },
            Model::V1Aplus => "Raspberry Pi 1 Model A+".to_owned(),
            Model::V1Bplus => "Raspberry Pi 1 Model B+".to_owned(),
            Model::V2B => "Raspberry Pi 2 Model B".to_owned(),
            Model::V3B => "Raspberry Pi 3 Model B".to_owned(),
            Model::V3Bplus => "Raspberry Pi 3 Model B+".to_owned(),
            Model::V4B => "Raspberry Pi 4 Model B".to_owned(),
            Model::Pi400 => "Raspberry Pi 400".to_owned(),
            Model::Zero => "Raspberry Pi Zero".to_owned(),
            Model::ZeroW => "Raspberry Pi Zero W".to_owned(),
            Model::OrangePi => "Orange Pi".to_owned(),
            Model::Unknown => "Unknown Device".to_owned(),
        }
    }
}

} // verus!
