//! Transport over an I2C bus: frames carry a marker byte, and pixel data
//! goes out page by page in chunks of 64 bytes.
use vstd::prelude::*;

use super::{DisplayInterface, MAX_DATA_LEN};
use crate::bus::AddressedBus;
pub use crate::bus::BusWrite;
use crate::Error;
use core::convert::Infallible;

verus! {

/// Bytes of pixel data in one chunk: one page of the controller.
pub const CHUNK_LEN: usize = 64;

/// Number of chunks that a buffer of `n` bytes splits into.
pub open spec fn chunk_count(n: int) -> int {
    (n + 63) / 64
}

/// Chunk `i` of `buf`: 64 bytes from offset 64 * i, or what is left.
pub open spec fn chunk(buf: Seq<u8>, i: int) -> Seq<u8> {
    let start = 64 * i;
    let end = if start + 64 <= buf.len() { start + 64 } else { buf.len() as int };
    buf.subrange(start, end)
}

/// Control frame that selects `page` and resets the column to zero.
pub open spec fn page_select_frame(page: int) -> Seq<u8> {
    seq![0x00u8, page as u8, 0x00u8, 0x10u8]
}

/// Frame that carries command bytes.
pub open spec fn command_frame(cmds: Seq<u8>) -> Seq<u8> {
    seq![0x00u8] + cmds
}

/// Frame that carries pixel data.
pub open spec fn data_frame(bytes: Seq<u8>) -> Seq<u8> {
    seq![0x40u8] + bytes
}

/// The writes that sending `buf` as pixel data takes: for each chunk, in
/// order, a page select and then the chunk's data frame.
pub open spec fn data_frames(buf: Seq<u8>) -> Seq<Seq<u8>> {
    Seq::new(
        (2 * chunk_count(buf.len() as int)) as nat,
        |j: int|
            if j % 2 == 0 {
                page_select_frame(j / 2)
            } else {
                data_frame(chunk(buf, j / 2))
            },
    )
}

/// Each of `frames` written to `addr` with success.
pub open spec fn written<E>(addr: u8, frames: Seq<Seq<u8>>) -> Seq<BusWrite<E>> {
    Seq::new(frames.len(), |i: int| BusWrite { addr, bytes: frames[i], result: Ok(()) })
}

/// What a transport returns for a bus result: the bus's own error, as a
/// bus failure.
pub open spec fn comm_result<E>(res: Result<(), E>) -> Result<(), Error<E, Infallible>> {
    match res {
        Ok(()) => Ok(()),
        Err(e) => Err(Error::Comm(e)),
    }
}

/// `done` is what issuing `frames` to `addr` one by one, stopping at the
/// first failure, leaves when the call returned `r`: all of them with
/// success when `r` is `Ok`, else a prefix whose last write failed with the
/// very error that `r` carries.
pub open spec fn sent_in_order<E>(
    done: Seq<BusWrite<E>>,
    addr: u8,
    frames: Seq<Seq<u8>>,
    r: Result<(), Error<E, Infallible>>,
) -> bool {
    match r {
        Ok(()) => done == written::<E>(addr, frames),
        Err(Error::Comm(e)) => {
            &&& 1 <= done.len() <= frames.len()
            &&& done.drop_last() == written::<E>(addr, frames.take(done.len() - 1))
            &&& done.last() == (BusWrite { addr, bytes: frames[done.len() - 1], result: Err::<(), E>(e) })
        },
        Err(Error::Pin(_)) => false,
    }
}

/// A frame: `marker` followed by `bytes[start..end]`.
fn frame(marker: u8, bytes: &[u8], start: usize, end: usize) -> (r: Vec<u8>)
    requires
        start <= end <= bytes@.len(),
    ensures
        r@ == seq![marker] + bytes@.subrange(start as int, end as int),
{
    let mut r: Vec<u8> = Vec::new();
    r.push(marker);
    let mut i: usize = start;
    while i < end
        invariant
            start <= i <= end <= bytes@.len(),
            r@ == seq![marker] + bytes@.subrange(start as int, i as int),
        decreases end - i,
    {
        r.push(bytes[i]);
        i = i + 1;
        assert(r@ =~= seq![marker] + bytes@.subrange(start as int, i as int));
    }
    r
}

/// A log that ends in a write of frame `k` that failed with `e`, after the
/// frames before it went out, is what a send that stopped at that failure
/// leaves.
proof fn lemma_stopped_at<E>(before: Seq<BusWrite<E>>, log: Seq<BusWrite<E>>, addr: u8, frames: Seq<Seq<u8>>, k: int, e: E)
    requires
        0 <= k < frames.len(),
        log == before + written::<E>(addr, frames.take(k)).push(BusWrite { addr, bytes: frames[k], result: Err(e) }),
    ensures
        log.take(before.len() as int) == before,
        sent_in_order(log.skip(before.len() as int), addr, frames, Err(Error::Comm(e))),
{
    let done = log.skip(before.len() as int);
    assert(log.take(before.len() as int) =~= before);
    assert(done =~= written::<E>(addr, frames.take(k)).push(BusWrite { addr, bytes: frames[k], result: Err(e) }));
    assert(done.drop_last() =~= written::<E>(addr, frames.take(done.len() - 1)));
}

/// SH1107 I2C communication interface
pub struct I2cInterface<I2C: AddressedBus> {
    i2c: I2C,
    addr: u8,
}

impl<I2C: AddressedBus> I2cInterface<I2C> {
    /// The bus that the transport drives.
    pub closed spec fn bus(&self) -> I2C {
        self.i2c
    }

    /// The device address that every write goes to.
    pub closed spec fn address(&self) -> u8 {
        self.addr
    }

    /// The writes made on the bus so far, oldest first, each with what the
    /// bus returned: the bus's own record.
    pub closed spec fn writes(&self) -> Seq<BusWrite<I2C::Error>> {
        self.i2c.sent()
    }

    /// Create new sh1107 I2C interface
    pub fn new(i2c: I2C, addr: u8) -> (r: Self)
        ensures
            r.bus() == i2c,
            r.address() == addr,
            r.writes() == i2c.sent(),
    {
        Self { i2c, addr }
    }

    /// One write of `bytes` to the device.
    fn write_frame(&mut self, bytes: &[u8]) -> (res: Result<(), I2C::Error>)
        ensures
            final(self).addr == old(self).addr,
            final(self).i2c.sent() == old(self).i2c.sent().push(BusWrite { addr: old(self).addr, bytes: bytes@, result: res }),
    {
        self.i2c.write(self.addr, bytes)
    }
}

impl<I2C: AddressedBus> DisplayInterface for I2cInterface<I2C> {
    type Error = Error<I2C::Error, Infallible>;

    open spec fn takes_data_len(self, n: nat) -> bool {
        n <= MAX_DATA_LEN
    }

    open spec fn initialised(self, after: Self, r: Result<(), Self::Error>) -> bool {
        &&& after == self
        &&& r is Ok
    }

    open spec fn commands_sent(self, after: Self, cmds: Seq<u8>, r: Result<(), Self::Error>) -> bool {
        &&& after.address() == self.address()
        &&& after.writes().len() == self.writes().len() + 1
        &&& after.writes() == self.writes().push(
            BusWrite { addr: self.address(), bytes: command_frame(cmds), result: after.writes().last().result },
        )
        &&& r == comm_result(after.writes().last().result)
    }

    open spec fn data_sent(self, after: Self, buf: Seq<u8>, r: Result<(), Self::Error>) -> bool {
        let n = self.writes().len() as int;
        &&& after.address() == self.address()
        &&& n <= after.writes().len()
        &&& after.writes().take(n) == self.writes()
        &&& sent_in_order(after.writes().skip(n), self.address(), data_frames(buf), r)
    }

    fn init(&mut self) -> (r: Result<(), Self::Error>) {
        Ok(())
    }

    fn send_commands(&mut self, cmds: &[u8]) -> (r: Result<(), Self::Error>) {
        let f = frame(0x00, cmds, 0, cmds.len());
        proof {
            assert(cmds@.subrange(0, cmds@.len() as int) =~= cmds@);
        }
        match self.write_frame(f.as_slice()) {
            Ok(()) => Ok(()),
            Err(e) => Err(Error::Comm(e)),
        }
    }

    fn send_data(&mut self, buf: &[u8]) -> (r: Result<(), Self::Error>) {
        let ghost before = self.i2c.sent();
        let ghost frames = data_frames(buf@);
        let len = buf.len();
        let nchunks: usize = (len + 63) / 64;
        let mut idx: usize = 0;
        while idx < nchunks
            invariant
                len == buf@.len() <= MAX_DATA_LEN,
                nchunks == chunk_count(len as int),
                frames == data_frames(buf@),
                idx <= nchunks,
                self.addr == old(self).addr,
                before == old(self).i2c.sent(),
                self.i2c.sent() == before + written::<I2C::Error>(self.addr, frames.take(2 * idx)),
            decreases nchunks - idx,
        {
            let start: usize = idx * CHUNK_LEN;
            let end: usize = if len - start > CHUNK_LEN { start + CHUNK_LEN } else { len };
            let mut select: Vec<u8> = Vec::new();
            select.push(0x00);
            select.push(idx as u8);
            select.push(0x00);
            select.push(0x10);
            proof {
                assert(select@ =~= frames[2 * idx]);
            }
            let r1 = self.write_frame(select.as_slice());
            match r1 {
                Ok(()) => {
                    proof {
                        assert(r1->Ok_0 == ());
                    }
                },
                Err(e) => {
                    proof {
                        lemma_stopped_at(before, self.i2c.sent(), self.addr, frames, 2 * idx, e);
                    }
                    return Err(Error::Comm(e));
                },
            }
            let data = frame(0x40, buf, start, end);
            proof {
                assert(data@ =~= frames[2 * idx + 1]);
                assert(frames.take(2 * idx + 1) =~= frames.take(2 * idx).push(frames[2 * idx]));
                assert(written::<I2C::Error>(self.addr, frames.take(2 * idx + 1)) =~= written::<I2C::Error>(
                    self.addr,
                    frames.take(2 * idx),
                ).push(BusWrite { addr: self.addr, bytes: frames[2 * idx], result: Ok(()) }));
            }
            let r2 = self.write_frame(data.as_slice());
            match r2 {
                Ok(()) => {
                    proof {
                        assert(r2->Ok_0 == ());
                    }
                },
                Err(e) => {
                    proof {
                        lemma_stopped_at(before, self.i2c.sent(), self.addr, frames, 2 * idx + 1, e);
                    }
                    return Err(Error::Comm(e));
                },
            }
            proof {
                assert(frames.take(2 * idx + 2) =~= frames.take(2 * idx + 1).push(frames[2 * idx + 1]));
                assert(self.i2c.sent() =~= before + written::<I2C::Error>(self.addr, frames.take(2 * idx + 2)));
            }
            idx = idx + 1;
        }
        proof {
            assert(frames.take(2 * idx) =~= frames);
            assert(self.i2c.sent().take(before.len() as int) =~= before);
            assert(self.i2c.sent().skip(before.len() as int) =~= written::<I2C::Error>(self.addr, frames));
        }
        Ok(())
    }
}

/// A bus failure ends a data send at once: the failed write is the last one
/// the call issued, the call returns the error that the bus reported for it,
/// and every write before it in the call succeeded and carried the frame due
/// at that point.
pub proof fn lemma_failure_ends_send<I2C: AddressedBus>(
    s: I2cInterface<I2C>,
    t: I2cInterface<I2C>,
    buf: Seq<u8>,
    r: Result<(), Error<I2C::Error, Infallible>>,
    i: int,
)
    requires
        s.data_sent(t, buf, r),
        s.writes().len() <= i < t.writes().len(),
        t.writes()[i].result is Err,
    ensures
        i == t.writes().len() - 1,
        r == comm_result(t.writes()[i].result),
        forall|j: int|
            s.writes().len() <= j < i ==> {
                &&& t.writes()[j].result is Ok
                &&& t.writes()[j].addr == s.address()
                &&& t.writes()[j].bytes == data_frames(buf)[j - s.writes().len()]
            },
{
    let n = s.writes().len() as int;
    let done = t.writes().skip(n);
    assert(done[i - n] == t.writes()[i]);
    if r is Ok {
        assert(done[i - n] == written::<I2C::Error>(s.address(), data_frames(buf))[i - n]);
    }
    if i != t.writes().len() - 1 {
        assert(done.drop_last()[i - n] == done[i - n]);
    }
    assert forall|j: int| n <= j < i implies {
        &&& t.writes()[j].result is Ok
        &&& t.writes()[j].addr == s.address()
        &&& t.writes()[j].bytes == data_frames(buf)[j - n]
    } by {
        assert(done[j - n] == t.writes()[j]);
        assert(done.drop_last()[j - n] == done[j - n]);
    }
}

} // verus!
