//! Transports that carry commands and pixel data to the controller.
use vstd::prelude::*;

pub mod i2c;
pub mod spi;

verus! {

/// Largest pixel buffer that one `send_data` call carries over I2C: 256
/// chunks of 64 bytes, so that each chunk's page number fits in a byte.
pub const MAX_DATA_LEN: usize = 16384;

/// What every transport offers: setup, command bytes and pixel data.
///
/// Each transport says, through the three predicates, what a call did to it
/// and what it returned.
pub trait DisplayInterface: Sized {
    /// The failure that a call reports.
    type Error;

    /// Whether one `send_data` call carries a buffer of `n` bytes.
    spec fn takes_data_len(self, n: nat) -> bool;

    /// `after` is this transport once `init` returned `r`.
    spec fn initialised(self, after: Self, r: Result<(), Self::Error>) -> bool;

    /// `after` is this transport once `send_commands(cmds)` returned `r`.
    spec fn commands_sent(self, after: Self, cmds: Seq<u8>, r: Result<(), Self::Error>) -> bool;

    /// `after` is this transport once `send_data(buf)` returned `r`.
    spec fn data_sent(self, after: Self, buf: Seq<u8>, r: Result<(), Self::Error>) -> bool;

    /// One-time setup at the start of a session.
    fn init(&mut self) -> (r: Result<(), Self::Error>)
        ensures
            old(self).initialised(*final(self), r),
    ;

    /// Sends a short sequence of command bytes.
    fn send_commands(&mut self, cmds: &[u8]) -> (r: Result<(), Self::Error>)
        requires
            cmds@.len() <= 7,
        ensures
            old(self).commands_sent(*final(self), cmds@, r),
    ;

    /// Sends a buffer of pixel data.
    fn send_data(&mut self, buf: &[u8]) -> (r: Result<(), Self::Error>)
        requires
            old(self).takes_data_len(buf@.len()),
        ensures
            old(self).data_sent(*final(self), buf@, r),
    ;
}

} // verus!
