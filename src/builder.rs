//! Interface factory
//!
//! A `Builder` collects the display's size, rotation and I2C address, and
//! hands back the transport for the bus that the display is wired to.
use vstd::prelude::*;

use core::convert::Infallible;
use core::marker::PhantomData;

use crate::bus::{AddressedBus, OutputPin, StreamBus};
use crate::displayrotation::DisplayRotation;
use crate::displaysize::DisplaySize;
use crate::interface::i2c::I2cInterface;
use crate::interface::spi::{SpiEvent, SpiInterface};

verus! {

/// The I2C address that most displays answer on.
pub const DEFAULT_I2C_ADDR: u8 = 0x3c;

/// Builder struct. Driver options and interface are set using its methods.
#[derive(Clone, Copy)]
pub struct Builder {
    display_size: DisplaySize,
    rotation: DisplayRotation,
    i2c_addr: u8,
}

impl Builder {
    /// The display size that was set.
    pub closed spec fn size(self) -> DisplaySize {
        self.display_size
    }

    /// The rotation that was set.
    pub closed spec fn display_rotation(self) -> DisplayRotation {
        self.rotation
    }

    /// The I2C address that was set.
    pub closed spec fn address(self) -> u8 {
        self.i2c_addr
    }

    /// Create new builder with a default size of 128 x 64 pixels and no rotation.
    pub fn new() -> (r: Builder)
        ensures
            r.size() == DisplaySize::Display128x64,
            r.display_rotation() == DisplayRotation::Rotate0,
            r.address() == DEFAULT_I2C_ADDR,
    {
        Builder {
            display_size: DisplaySize::Display128x64,
            rotation: DisplayRotation::Rotate0,
            i2c_addr: DEFAULT_I2C_ADDR,
        }
    }

    /// Set the size of the display.
    pub fn with_size(self, display_size: DisplaySize) -> (r: Self)
        ensures
            r.size() == display_size,
            r.display_rotation() == self.display_rotation(),
            r.address() == self.address(),
    {
        Self { display_size, ..self }
    }

    /// Set the I2C address to use. Defaults to 0x3C which is the most common address.
    /// The other address specified in the datasheet is 0x3D. Ignored when using SPI interface.
    pub fn with_i2c_addr(self, i2c_addr: u8) -> (r: Self)
        ensures
            r.size() == self.size(),
            r.display_rotation() == self.display_rotation(),
            r.address() == i2c_addr,
    {
        Self { i2c_addr, ..self }
    }

    /// Set the rotation of the display to one of four values. Defaults to no rotation.
    pub fn with_rotation(self, rotation: DisplayRotation) -> (r: Self)
        ensures
            r.size() == self.size(),
            r.display_rotation() == rotation,
            r.address() == self.address(),
    {
        Self { rotation, ..self }
    }

    /// Finish the builder and use I2C to communicate with the display: the
    /// transport writes to the address that was set.
    pub fn connect_i2c<I2C: AddressedBus>(self, i2c: I2C) -> (r: I2cInterface<I2C>)
        ensures
            r.bus() == i2c,
            r.address() == self.address(),
            r.writes() == i2c.sent(),
    {
        I2cInterface::new(i2c, self.i2c_addr)
    }

    /// Finish the builder and use SPI to communicate with the display.
    ///
    /// If the Chip Select (CS) pin is not required, [`NoOutputPin`] can be used as a dummy argument
    pub fn connect_spi<SPI: StreamBus, DC: OutputPin, CS: OutputPin>(self, spi: SPI, dc: DC, cs: CS) -> (r: SpiInterface<SPI, DC, CS>)
        ensures
            r.bus() == spi,
            r.dc_pin() == dc,
            r.cs_pin() == cs,
            r.events() == Seq::<SpiEvent<SPI::Error, CS::Error>>::empty(),
    {
        SpiInterface::new(spi, dc, cs)
    }
}

impl Default for Builder {
    fn default() -> (r: Self)
        ensures
            r.size() == DisplaySize::Display128x64,
            r.display_rotation() == DisplayRotation::Rotate0,
            r.address() == DEFAULT_I2C_ADDR,
    {
        Self::new()
    }
}

/// Represents an unused output pin. Setting it always succeeds and drives
/// nothing; all it keeps is the record of levels asked for.
#[derive(Clone, Copy)]
pub struct NoOutputPin {
    _m: PhantomData<()>,
    record: Ghost<Seq<(bool, Result<(), Infallible>)>>,
}

impl NoOutputPin {
    /// Create a new instance of `NoOutputPin`
    pub fn new() -> (r: Self)
        ensures
            r.levels() == Seq::<(bool, Result<(), Infallible>)>::empty(),
    {
        Self { _m: PhantomData, record: Ghost(Seq::<(bool, Result<(), Infallible>)>::empty()) }
    }
}

impl OutputPin for NoOutputPin {
    type Error = Infallible;

    closed spec fn levels(&self) -> Seq<(bool, Result<(), Infallible>)> {
        self.record@
    }

    fn set_low(&mut self) -> (r: Result<(), Infallible>)
        ensures
            r is Ok,
    {
        proof {
            self.record@ = self.record@.push((false, Ok(())));
        }
        Ok(())
    }

    fn set_high(&mut self) -> (r: Result<(), Infallible>)
        ensures
            r is Ok,
    {
        proof {
            self.record@ = self.record@.push((true, Ok(())));
        }
        Ok(())
    }
}

} // verus!
