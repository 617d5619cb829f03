//! Transport over an SPI bus: each send is one transfer framed by chip select.
use vstd::prelude::*;

use super::DisplayInterface;
use crate::bus::{OutputPin, StreamBus};
use crate::Error;

verus! {

/// One step that the transport took on the hardware, and what the hardware
/// returned for it.
#[allow(inconsistent_fields)]
pub enum SpiEvent<CE, PE> {
    /// Chip select driven low: the device is selected.
    Select { result: Result<(), PE> },
    /// Chip select driven high: the device is released.
    Deselect { result: Result<(), PE> },
    /// One transfer of `bytes` on the bus.
    Write { bytes: Seq<u8>, result: Result<(), CE> },
}

/// The steps of one send of `bytes` when the call returned `r`: select,
/// transfer, release, stopping at the first failure, whose error is the one
/// that `r` carries.
pub open spec fn framed_send<CE, PE>(ev: Seq<SpiEvent<CE, PE>>, bytes: Seq<u8>, r: Result<(), Error<CE, PE>>) -> bool {
    match r {
        Ok(()) => ev == seq![
            SpiEvent::<CE, PE>::Select { result: Ok(()) },
            SpiEvent::<CE, PE>::Write { bytes, result: Ok(()) },
            SpiEvent::<CE, PE>::Deselect { result: Ok(()) },
        ],
        Err(Error::Comm(c)) => ev == seq![
            SpiEvent::<CE, PE>::Select { result: Ok(()) },
            SpiEvent::<CE, PE>::Write { bytes, result: Err(c) },
        ],
        Err(Error::Pin(p)) => ev == seq![SpiEvent::<CE, PE>::Select { result: Err(p) }] || ev == seq![
            SpiEvent::<CE, PE>::Select { result: Ok(()) },
            SpiEvent::<CE, PE>::Write { bytes, result: Ok(()) },
            SpiEvent::<CE, PE>::Deselect { result: Err(p) },
        ],
    }
}

/// The calls that one send of `bytes` made, when the call returned `r`:
/// `transfers` is what the bus recorded during it, `levels` what the chip
/// select pin recorded. They are the calls of `framed_send`, step for step.
pub open spec fn framed_calls<CE, PE>(
    transfers: Seq<(Seq<u8>, Result<(), CE>)>,
    levels: Seq<(bool, Result<(), PE>)>,
    bytes: Seq<u8>,
    r: Result<(), Error<CE, PE>>,
) -> bool {
    match r {
        Ok(()) => {
            &&& transfers == seq![(bytes, Ok::<(), CE>(()))]
            &&& levels == seq![(false, Ok::<(), PE>(())), (true, Ok::<(), PE>(()))]
        },
        Err(Error::Comm(c)) => {
            &&& transfers == seq![(bytes, Err::<(), CE>(c))]
            &&& levels == seq![(false, Ok::<(), PE>(()))]
        },
        Err(Error::Pin(p)) => {
            ||| transfers.len() == 0 && levels == seq![(false, Err::<(), PE>(p))]
            ||| transfers == seq![(bytes, Ok::<(), CE>(()))] && levels == seq![
                (false, Ok::<(), PE>(())),
                (true, Err::<(), PE>(p)),
            ]
        },
    }
}

/// `after` is `before` once one send of `bytes` returned `r`: the data/command
/// pin untouched, and the steps appended to the event log made exactly the
/// calls that the bus and chip select pin recorded.
pub open spec fn sent_framed<SPI: StreamBus, DC: OutputPin, CS: OutputPin>(
    before: SpiInterface<SPI, DC, CS>,
    after: SpiInterface<SPI, DC, CS>,
    bytes: Seq<u8>,
    r: Result<(), Error<SPI::Error, CS::Error>>,
) -> bool {
    let n = before.events().len() as int;
    let nb = before.bus().sent().len() as int;
    let np = before.cs_pin().levels().len() as int;
    &&& after.dc_pin() == before.dc_pin()
    &&& n <= after.events().len()
    &&& after.events().take(n) == before.events()
    &&& framed_send(after.events().skip(n), bytes, r)
    &&& nb <= after.bus().sent().len()
    &&& after.bus().sent().take(nb) == before.bus().sent()
    &&& np <= after.cs_pin().levels().len()
    &&& after.cs_pin().levels().take(np) == before.cs_pin().levels()
    &&& framed_calls(after.bus().sent().skip(nb), after.cs_pin().levels().skip(np), bytes, r)
}

/// What a transport returns for a chip-select result: the pin's own error,
/// as a pin failure.
pub open spec fn pin_result<CE, PE>(res: Result<(), PE>) -> Result<(), Error<CE, PE>> {
    match res {
        Ok(()) => Ok(()),
        Err(p) => Err(Error::Pin(p)),
    }
}

/// Whether the device is selected after the steps of `log`: the level that
/// the last chip-select step set, or `None` where no step set it or the last
/// one failed.
pub open spec fn selected<CE, PE>(log: Seq<SpiEvent<CE, PE>>) -> Option<bool>
    decreases log.len(),
{
    if log.len() == 0 {
        None
    } else {
        match log.last() {
            SpiEvent::Select { result } => if result is Ok { Some(true) } else { None },
            SpiEvent::Deselect { result } => if result is Ok { Some(false) } else { None },
            SpiEvent::Write { .. } => selected(log.drop_last()),
        }
    }
}

/// SPI display interface.
///
/// This combines the SPI peripheral, a data/command pin and a chip select
/// pin. The data/command pin is held but never driven.
pub struct SpiInterface<SPI: StreamBus, DC: OutputPin, CS: OutputPin> {
    spi: SPI,
    dc: DC,
    cs: CS,
    log: Ghost<Seq<SpiEvent<SPI::Error, CS::Error>>>,
}

impl<SPI: StreamBus, DC: OutputPin, CS: OutputPin> SpiInterface<SPI, DC, CS> {
    /// The bus that the transport drives.
    pub closed spec fn bus(&self) -> SPI {
        self.spi
    }

    /// The data/command pin.
    pub closed spec fn dc_pin(&self) -> DC {
        self.dc
    }

    /// The chip select pin.
    pub closed spec fn cs_pin(&self) -> CS {
        self.cs
    }

    /// The steps taken on the hardware so far, oldest first, each with what
    /// the hardware returned. It gives the order of the calls; each step's
    /// call is also in the bus's or the chip select pin's own record, and the
    /// contracts tie the two.
    pub closed spec fn events(&self) -> Seq<SpiEvent<SPI::Error, CS::Error>> {
        self.log@
    }

    /// Create new SPI interface for communication with sh1107
    pub fn new(spi: SPI, dc: DC, cs: CS) -> (r: Self)
        ensures
            r.bus() == spi,
            r.dc_pin() == dc,
            r.cs_pin() == cs,
            r.events() == Seq::<SpiEvent<SPI::Error, CS::Error>>::empty(),
    {
        Self { spi, dc, cs, log: Ghost(Seq::<SpiEvent<SPI::Error, CS::Error>>::empty()) }
    }

    /// Drives chip select low, recording the step.
    fn select(&mut self) -> (res: Result<(), CS::Error>)
        ensures
            final(self).dc == old(self).dc,
            final(self).spi == old(self).spi,
            final(self).cs.levels() == old(self).cs.levels().push((false, res)),
            final(self).log@ == old(self).log@.push(SpiEvent::Select { result: res }),
    {
        let res = self.cs.set_low();
        proof {
            self.log@ = self.log@.push(SpiEvent::Select { result: res });
        }
        res
    }

    /// Drives chip select high, recording the step.
    fn deselect(&mut self) -> (res: Result<(), CS::Error>)
        ensures
            final(self).dc == old(self).dc,
            final(self).spi == old(self).spi,
            final(self).cs.levels() == old(self).cs.levels().push((true, res)),
            final(self).log@ == old(self).log@.push(SpiEvent::Deselect { result: res }),
    {
        let res = self.cs.set_high();
        proof {
            self.log@ = self.log@.push(SpiEvent::Deselect { result: res });
        }
        res
    }

    /// One transfer, recording the step.
    fn transfer(&mut self, bytes: &[u8]) -> (res: Result<(), SPI::Error>)
        ensures
            final(self).dc == old(self).dc,
            final(self).cs == old(self).cs,
            final(self).spi.sent() == old(self).spi.sent().push((bytes@, res)),
            final(self).log@ == old(self).log@.push(SpiEvent::Write { bytes: bytes@, result: res }),
    {
        let res = self.spi.write(bytes);
        proof {
            self.log@ = self.log@.push(SpiEvent::Write { bytes: bytes@, result: res });
        }
        res
    }

    /// Select, transfer `bytes`, release; the first failure ends it.
    fn framed(&mut self, bytes: &[u8]) -> (r: Result<(), Error<SPI::Error, CS::Error>>)
        ensures
            final(self).dc == old(self).dc,
            old(self).log@.len() <= final(self).log@.len(),
            final(self).log@.take(old(self).log@.len() as int) == old(self).log@,
            framed_send(final(self).log@.skip(old(self).log@.len() as int), bytes@, r),
            sent_framed(*old(self), *final(self), bytes@, r),
    {
        let ghost before = self.log@;
        let ghost bus0 = self.spi.sent();
        let ghost pin0 = self.cs.levels();
        let sel = self.select();
        match sel {
            Ok(()) => {
                proof {
                    assert(sel->Ok_0 == ());
                }
            },
            Err(p) => {
                proof {
                    assert(self.log@.take(before.len() as int) =~= before);
                    assert(self.spi.sent().take(bus0.len() as int) =~= bus0);
                    assert(self.spi.sent().skip(bus0.len() as int) =~= Seq::<(Seq<u8>, Result<(), SPI::Error>)>::empty());
                    assert(self.cs.levels().take(pin0.len() as int) =~= pin0);
                    assert(self.cs.levels().skip(pin0.len() as int) =~= seq![(false, Err::<(), CS::Error>(p))]);
                    assert(self.log@.skip(before.len() as int) =~= seq![
                        SpiEvent::<SPI::Error, CS::Error>::Select { result: Err(p) },
                    ]);
                }
                return Err(Error::Pin(p));
            },
        }
        let sent = self.transfer(bytes);
        match sent {
            Ok(()) => {
                proof {
                    assert(sent->Ok_0 == ());
                }
            },
            Err(c) => {
                proof {
                    assert(self.log@.take(before.len() as int) =~= before);
                    assert(self.spi.sent().take(bus0.len() as int) =~= bus0);
                    assert(self.spi.sent().skip(bus0.len() as int) =~= seq![(bytes@, Err::<(), SPI::Error>(c))]);
                    assert(self.cs.levels().take(pin0.len() as int) =~= pin0);
                    assert(self.cs.levels().skip(pin0.len() as int) =~= seq![(false, Ok::<(), CS::Error>(()))]);
                    assert(self.log@.skip(before.len() as int) =~= seq![
                        SpiEvent::<SPI::Error, CS::Error>::Select { result: Ok(()) },
                        SpiEvent::<SPI::Error, CS::Error>::Write { bytes: bytes@, result: Err(c) },
                    ]);
                }
                return Err(Error::Comm(c));
            },
        }
        let res = self.deselect();
        proof {
            assert(self.log@.take(before.len() as int) =~= before);
            assert(self.spi.sent().take(bus0.len() as int) =~= bus0);
            assert(self.spi.sent().skip(bus0.len() as int) =~= seq![(bytes@, Ok::<(), SPI::Error>(()))]);
            assert(self.cs.levels().take(pin0.len() as int) =~= pin0);
            assert(self.cs.levels().skip(pin0.len() as int) =~= seq![(false, Ok::<(), CS::Error>(())), (true, res)]);
            assert(self.log@.skip(before.len() as int) =~= seq![
                SpiEvent::<SPI::Error, CS::Error>::Select { result: Ok(()) },
                SpiEvent::<SPI::Error, CS::Error>::Write { bytes: bytes@, result: Ok(()) },
                SpiEvent::<SPI::Error, CS::Error>::Deselect { result: res },
            ]);
        }
        match res {
            Ok(()) => {
                proof {
                    assert(res->Ok_0 == ());
                }
                Ok(())
            },
            Err(p) => Err(Error::Pin(p)),
        }
    }
}

impl<SPI: StreamBus, DC: OutputPin, CS: OutputPin> DisplayInterface for SpiInterface<SPI, DC, CS> {
    type Error = Error<SPI::Error, CS::Error>;

    open spec fn takes_data_len(self, n: nat) -> bool {
        true
    }

    open spec fn initialised(self, after: Self, r: Result<(), Self::Error>) -> bool {
        let res = pin_result_of(after.events().last());
        &&& after.dc_pin() == self.dc_pin()
        &&& after.bus() == self.bus()
        &&& after.events().len() == self.events().len() + 1
        &&& after.events() == self.events().push(SpiEvent::Deselect { result: res })
        &&& after.cs_pin().levels() == self.cs_pin().levels().push((true, res))
        &&& r == pin_result::<SPI::Error, CS::Error>(res)
    }

    open spec fn commands_sent(self, after: Self, cmds: Seq<u8>, r: Result<(), Self::Error>) -> bool {
        sent_framed(self, after, cmds, r)
    }

    open spec fn data_sent(self, after: Self, buf: Seq<u8>, r: Result<(), Self::Error>) -> bool {
        sent_framed(self, after, buf, r)
    }

    fn init(&mut self) -> (r: Result<(), Self::Error>) {
        match self.deselect() {
            Ok(()) => Ok(()),
            Err(p) => Err(Error::Pin(p)),
        }
    }

    fn send_commands(&mut self, cmds: &[u8]) -> (r: Result<(), Self::Error>) {
        self.framed(cmds)
    }

    fn send_data(&mut self, buf: &[u8]) -> (r: Result<(), Self::Error>) {
        self.framed(buf)
    }
}

/// The pin result that a chip-select step records; a transfer records none.
pub open spec fn pin_result_of<CE, PE>(ev: SpiEvent<CE, PE>) -> Result<(), PE> {
    match ev {
        SpiEvent::Select { result } => result,
        SpiEvent::Deselect { result } => result,
        SpiEvent::Write { .. } => Ok(()),
    }
}

/// Chip select brackets every send that succeeds: the call issues exactly
/// one transfer, of the bytes it was given, while the device is selected,
/// and the device is released when the call returns.
pub proof fn lemma_chip_select_brackets_send<SPI: StreamBus, DC: OutputPin, CS: OutputPin>(
    s: SpiInterface<SPI, DC, CS>,
    t: SpiInterface<SPI, DC, CS>,
    bytes: Seq<u8>,
    r: Result<(), Error<SPI::Error, CS::Error>>,
)
    requires
        s.commands_sent(t, bytes, r) || s.data_sent(t, bytes, r),
        r is Ok,
    ensures
        t.events().len() == s.events().len() + 3,
        t.events()[s.events().len() + 1int] == (SpiEvent::<SPI::Error, CS::Error>::Write { bytes, result: Ok(()) }),
        selected(t.events().take(s.events().len() + 1int)) == Some(true),
        selected(t.events().take(s.events().len() + 2int)) == Some(true),
        selected(t.events()) == Some(false),
{
    let n = s.events().len() as int;
    let ev = t.events();
    let d = ev.skip(n);
    assert(framed_send(d, bytes, r));
    assert(d.len() == 3);
    assert(ev.skip(n)[1] == ev[n + 1]);
    assert(ev.take(n + 1).last() == ev.skip(n)[0]);
    assert(ev.take(n + 2).last() == ev.skip(n)[1]);
    assert(ev.take(n + 2).drop_last() =~= ev.take(n + 1));
    assert(ev.last() == ev.skip(n)[2]);
}

/// A successful setup leaves the device released.
pub proof fn lemma_init_releases<SPI: StreamBus, DC: OutputPin, CS: OutputPin>(
    s: SpiInterface<SPI, DC, CS>,
    t: SpiInterface<SPI, DC, CS>,
    r: Result<(), Error<SPI::Error, CS::Error>>,
)
    requires
        s.initialised(t, r),
        r is Ok,
    ensures
        selected(t.events()) == Some(false),
{
}

} // verus!
