//! The hardware capabilities that the transports drive: an addressed bus,
//! a stream bus and a digital output pin. Their implementations live with
//! the hardware. Each keeps a record of the calls made on it and what they
//! returned; the transports' contracts are stated over those records, and
//! promise nothing about the outcome of a call.
//!
//! A verified implementation defines its record; the default, an empty
//! record, only lets implementations built outside verification (the
//! embedded-hal bridges, test doubles) compile, and nothing checks them
//! against the method contracts.
use vstd::prelude::*;

verus! {

/// One write transaction on an addressed bus, and what the bus returned.
pub struct BusWrite<E> {
    pub addr: u8,
    pub bytes: Seq<u8>,
    pub result: Result<(), E>,
}

/// A bus on which each write goes to a device address (I2C).
pub trait AddressedBus {
    /// The failure that a write reports.
    type Error;

    /// Every write made on this bus so far, oldest first.
    closed spec fn sent(&self) -> Seq<BusWrite<Self::Error>> {
        Seq::empty()
    }

    /// Writes `bytes` to the device at `address` in one transaction.
    fn write(&mut self, address: u8, bytes: &[u8]) -> (r: Result<(), Self::Error>)
        ensures
            final(self).sent() == old(self).sent().push(BusWrite { addr: address, bytes: bytes@, result: r }),
    ;
}

/// A bus that streams bytes to a device framed by chip select (SPI).
pub trait StreamBus {
    /// The failure that a write reports.
    type Error;

    /// Every transfer made on this bus so far, oldest first, with what it
    /// returned.
    closed spec fn sent(&self) -> Seq<(Seq<u8>, Result<(), Self::Error>)> {
        Seq::empty()
    }

    /// Writes `bytes` in one transfer.
    fn write(&mut self, bytes: &[u8]) -> (r: Result<(), Self::Error>)
        ensures
            final(self).sent() == old(self).sent().push((bytes@, r)),
    ;
}

/// A digital output pin.
pub trait OutputPin {
    /// The failure that setting the pin reports.
    type Error;

    /// Every level that the pin was asked for so far, oldest first (`true`
    /// for high), with what the request returned.
    closed spec fn levels(&self) -> Seq<(bool, Result<(), Self::Error>)> {
        Seq::empty()
    }

    /// Drives the pin low.
    fn set_low(&mut self) -> (r: Result<(), Self::Error>)
        ensures
            final(self).levels() == old(self).levels().push((false, r)),
    ;

    /// Drives the pin high.
    fn set_high(&mut self) -> (r: Result<(), Self::Error>)
        ensures
            final(self).levels() == old(self).levels().push((true, r)),
    ;
}

} // verus!
