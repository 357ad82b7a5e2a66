//! The payload of one POCSAG call.

use vstd::prelude::*;

verus! {

/// The two content types a POCSAG call can carry.
#[derive(Copy, Clone, Debug, PartialEq, Eq, Structural)]
pub enum MessageType {
    Numeric,
    AlphaNum,
}

/// One call: the pager address, the function bits and the text.
#[derive(Debug, Clone)]
pub struct Message {
    pub mtype: MessageType,
    pub speed: u32,
    pub ric: u32,
    pub func: u8,
    pub data: String,
}

impl Message {
    /// The bytes of the text as they go into the symbol encoder.
    pub open spec fn bytes(&self) -> Seq<u8> {
        vstd::utf8::encode_utf8(self.data@)
    }

    /// Length of the text in bytes.
    pub fn size(&self) -> (n: usize)
        ensures
            n == self.bytes().len(),
    {
        self.data.as_str().as_bytes().len()
    }
}

impl Default for Message {
    fn default() -> (m: Message)
        ensures
            m.mtype == MessageType::AlphaNum,
            m.speed == 1200,
            m.ric == 0,
            m.func == 3,
            m.data@ == Seq::<char>::empty(),
    {
        Message { mtype: MessageType::AlphaNum, speed: 1200, ric: 0, func: 3, data: String::new() }
    }
}

} // verus!
