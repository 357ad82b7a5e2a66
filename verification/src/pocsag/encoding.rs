//! Symbol encodings of the two POCSAG content types.

use vstd::prelude::*;
use crate::pocsag::message::MessageType;

verus! {

/// How the bytes of one content type become symbols on the air.
#[derive(Debug, Copy, Clone)]
pub struct Encoding {
    pub mtype: MessageType,
}

/// The symbol an alphanumeric byte is sent as: seven-bit ASCII unchanged,
/// anything above it as a question mark.
pub open spec fn spec_encode_alphanum(byte: u8) -> u8 {
    if byte <= 127 {
        byte
    } else {
        0x3F
    }
}

/// The symbol a numeric byte is sent as: the ten digits by value, then the
/// five special characters; anything else reads as a space.
pub open spec fn spec_encode_numeric(byte: u8) -> u8 {
    if 0x30 <= byte <= 0x39 {
        (byte - 0x30) as u8
    } else if byte == 0x2A {
        0xA
    } else if byte == 0x55 {
        0xB
    } else if byte == 0x20 {
        0xC
    } else if byte == 0x2D {
        0xD
    } else if byte == 0x29 {
        0xE
    } else if byte == 0x28 {
        0xF
    } else {
        0xC
    }
}

pub fn encode_alphanum(byte: u8) -> (sym: u8)
    ensures
        sym == spec_encode_alphanum(byte),
        sym < 128,
{
    if byte <= 127 {
        byte
    } else {
        0x3F
    }
}

pub fn encode_numeric(byte: u8) -> (sym: u8)
    ensures
        sym == spec_encode_numeric(byte),
        sym < 16,
{
    if 0x30 <= byte && byte <= 0x39 {
        byte - 0x30
    } else if byte == 0x2A {
        0xA
    } else if byte == 0x55 {
        0xB
    } else if byte == 0x20 {
        0xC
    } else if byte == 0x2D {
        0xD
    } else if byte == 0x29 {
        0xE
    } else if byte == 0x28 {
        0xF
    } else {
        0xC
    }
}

impl Encoding {
    /// Bits per symbol.
    pub open spec fn spec_bits(&self) -> nat {
        match self.mtype {
            MessageType::AlphaNum => 7,
            MessageType::Numeric => 4,
        }
    }

    /// The symbol that pads a message once its text is used up.
    pub open spec fn spec_trailing(&self) -> u8 {
        match self.mtype {
            MessageType::AlphaNum => 0x0,
            MessageType::Numeric => 0xC,
        }
    }

    /// The symbol for one byte of text.
    pub open spec fn spec_encode(&self, byte: u8) -> u8 {
        match self.mtype {
            MessageType::AlphaNum => spec_encode_alphanum(byte),
            MessageType::Numeric => spec_encode_numeric(byte),
        }
    }

    /// The encoding that belongs to a content type.
    pub fn of(mtype: MessageType) -> (e: Encoding)
        ensures
            e.mtype == mtype,
    {
        Encoding { mtype }
    }

    pub fn alphanum() -> (e: Encoding)
        ensures
            e.mtype == MessageType::AlphaNum,
    {
        Encoding { mtype: MessageType::AlphaNum }
    }

    pub fn numeric() -> (e: Encoding)
        ensures
            e.mtype == MessageType::Numeric,
    {
        Encoding { mtype: MessageType::Numeric }
    }

    pub fn bits(&self) -> (n: usize)
        ensures
            n == self.spec_bits(),
            n == 4 || n == 7,
    {
        match self.mtype {
            MessageType::AlphaNum => 7,
            MessageType::Numeric => 4,
        }
    }

    pub fn trailing(&self) -> (sym: u8)
        ensures
            sym == self.spec_trailing(),
    {
        match self.mtype {
            MessageType::AlphaNum => 0x0,
            MessageType::Numeric => 0xC,
        }
    }

    pub fn encode(&self, byte: u8) -> (sym: u8)
        ensures
            sym == self.spec_encode(byte),
    {
        match self.mtype {
            MessageType::AlphaNum => encode_alphanum(byte),
            MessageType::Numeric => encode_numeric(byte),
        }
    }
}

} // verus!
