//! Driver core for SH1107-class OLED controllers: command encoding and the
//! transports that carry commands and pixel data over I2C or SPI.
use vstd::prelude::*;

pub mod builder;
pub mod bus;
pub mod command;
pub mod displayrotation;
pub mod displaysize;
pub mod interface;

pub use builder::{Builder, NoOutputPin};
pub use bus::{AddressedBus, OutputPin, StreamBus};
pub use command::{Command, NFrames, Page, VcomhLevel};
pub use displayrotation::DisplayRotation;
pub use displaysize::DisplaySize;
pub use interface::i2c::I2cInterface;
pub use interface::spi::SpiInterface;
pub use interface::DisplayInterface;

verus! {

/// A failure of a transport: either the bus or a control pin refused.
#[derive(Debug, PartialEq, Eq)]
pub enum Error<CommE, PinE> {
    /// The bus write failed.
    Comm(CommE),
    /// Setting a control pin failed.
    Pin(PinE),
}

} // verus!
