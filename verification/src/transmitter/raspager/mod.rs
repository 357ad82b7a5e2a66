//! The RasPager board: an ADF7012 synthesiser behind a microcontroller.

pub mod adf7012;
pub mod pins;
pub mod transmitter;
