//! The POCSAG wire format: symbol encodings, codewords and framing.

pub mod encoding;
pub mod message;
pub mod codeword;
pub mod timeslots;
pub mod generator;
pub mod framing;
pub mod testgenerator;
pub mod receiver;
pub mod transmission;
