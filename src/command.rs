//! Controller commands and their encoding into wire bytes.
use vstd::prelude::*;

use crate::interface::DisplayInterface;

verus! {

/// Numeric value of a flag on the wire: 1 when set, 0 otherwise.
pub open spec fn flag(b: bool) -> u8 {
    if b { 1u8 } else { 0u8 }
}

fn flag_byte(b: bool) -> (r: u8)
    ensures
        r == flag(b),
{
    if b { 1 } else { 0 }
}

/// Display page: one band of eight rows of display memory.
#[derive(Debug, Clone, Copy, PartialEq, Eq, Structural)]
pub enum Page {
    /// Page 0
    Page0,
    /// Page 1
    Page1,
    /// Page 2
    Page2,
    /// Page 3
    Page3,
    /// Page 4
    Page4,
    /// Page 5
    Page5,
    /// Page 6
    Page6,
    /// Page 7
    Page7,
    /// Page 8
    Page8,
    /// Page 9
    Page9,
    /// Page 10
    Page10,
    /// Page 11
    Page11,
    /// Page 12
    Page12,
    /// Page 13
    Page13,
    /// Page 14
    Page14,
    /// Page 15
    Page15,
}

/// The page that holds the given number, between 0 and 15.
pub open spec fn page_of(n: u8) -> Page
    recommends
        n < 16,
{
    match n {
        0 => Page::Page0,
        1 => Page::Page1,
        2 => Page::Page2,
        3 => Page::Page3,
        4 => Page::Page4,
        5 => Page::Page5,
        6 => Page::Page6,
        7 => Page::Page7,
        8 => Page::Page8,
        9 => Page::Page9,
        10 => Page::Page10,
        11 => Page::Page11,
        12 => Page::Page12,
        13 => Page::Page13,
        14 => Page::Page14,
        _ => Page::Page15,
    }
}

/// The number of a page, its byte on the wire.
pub open spec fn page_number(p: Page) -> u8 {
    match p {
        Page::Page0 => 0,
        Page::Page1 => 1,
        Page::Page2 => 2,
        Page::Page3 => 3,
        Page::Page4 => 4,
        Page::Page5 => 5,
        Page::Page6 => 6,
        Page::Page7 => 7,
        Page::Page8 => 8,
        Page::Page9 => 9,
        Page::Page10 => 10,
        Page::Page11 => 11,
        Page::Page12 => 12,
        Page::Page13 => 13,
        Page::Page14 => 14,
        Page::Page15 => 15,
    }
}

impl Page {
    /// The page that holds display row `val`: row divided by eight.
    /// Rows run from 0 to 127; a larger row lies on no page.
    pub fn from(val: u8) -> (r: Page)
        requires
            val < 128,
        ensures
            r == page_of(val / 8),
            page_number(r) == val / 8,
    {
        match val / 8 {
            0 => Page::Page0,
            1 => Page::Page1,
            2 => Page::Page2,
            3 => Page::Page3,
            4 => Page::Page4,
            5 => Page::Page5,
            6 => Page::Page6,
            7 => Page::Page7,
            8 => Page::Page8,
            9 => Page::Page9,
            10 => Page::Page10,
            11 => Page::Page11,
            12 => Page::Page12,
            13 => Page::Page13,
            14 => Page::Page14,
            _ => Page::Page15,
        }
    }

    /// The page's number, from 0 to 15.
    pub fn number(self) -> (r: u8)
        ensures
            r == page_number(self),
            r < 16,
    {
        match self {
            Page::Page0 => 0,
            Page::Page1 => 1,
            Page::Page2 => 2,
            Page::Page3 => 3,
            Page::Page4 => 4,
            Page::Page5 => 5,
            Page::Page6 => 6,
            Page::Page7 => 7,
            Page::Page8 => 8,
            Page::Page9 => 9,
            Page::Page10 => 10,
            Page::Page11 => 11,
            Page::Page12 => 12,
            Page::Page13 => 13,
            Page::Page14 => 14,
            Page::Page15 => 15,
        }
    }
}

/// Frame interval
#[derive(Debug, Clone, Copy, PartialEq, Eq, Structural)]
pub enum NFrames {
    /// 2 Frames
    F2,
    /// 3 Frames
    F3,
    /// 4 Frames
    F4,
    /// 5 Frames
    F5,
    /// 25 Frames
    F25,
    /// 64 Frames
    F64,
    /// 128 Frames
    F128,
    /// 256 Frames
    F256,
}

/// The controller's setting for a frame interval.
pub open spec fn nframes_bits(n: NFrames) -> u8 {
    match n {
        NFrames::F2 => 0b111,
        NFrames::F3 => 0b100,
        NFrames::F4 => 0b101,
        NFrames::F5 => 0b000,
        NFrames::F25 => 0b110,
        NFrames::F64 => 0b001,
        NFrames::F128 => 0b010,
        NFrames::F256 => 0b011,
    }
}

impl NFrames {
    /// The three-bit setting of this frame interval.
    pub fn bits(self) -> (r: u8)
        ensures
            r == nframes_bits(self),
    {
        match self {
            NFrames::F2 => 0b111,
            NFrames::F3 => 0b100,
            NFrames::F4 => 0b101,
            NFrames::F5 => 0b000,
            NFrames::F25 => 0b110,
            NFrames::F64 => 0b001,
            NFrames::F128 => 0b010,
            NFrames::F256 => 0b011,
        }
    }
}

/// Vcomh Deselect level
#[derive(Debug, Clone, Copy, PartialEq, Eq, Structural)]
pub enum VcomhLevel {
    /// 0.65 * Vcc
    V065,
    /// 0.77 * Vcc
    V077,
    /// 0.83 * Vcc
    V083,
    /// Auto
    Auto,
}

/// The byte that selects a VCOMH deselect level.
pub open spec fn vcomh_byte(l: VcomhLevel) -> u8 {
    match l {
        VcomhLevel::V065 => 0x22,
        VcomhLevel::V077 => 0x35,
        VcomhLevel::V083 => 0x3E,
        VcomhLevel::Auto => 0x40,
    }
}

impl VcomhLevel {
    /// The byte that selects this level.
    pub fn byte(self) -> (r: u8)
        ensures
            r == vcomh_byte(self),
    {
        match self {
            VcomhLevel::V065 => 0x22,
            VcomhLevel::V077 => 0x35,
            VcomhLevel::V083 => 0x3E,
            VcomhLevel::Auto => 0x40,
        }
    }
}

/// Commands of the controller
#[derive(Debug, Clone, Copy, PartialEq, Eq, Structural)]
pub enum Command {
    /// Set contrast. Higher number is higher contrast. Default = 0x7F
    Contrast(u8),
    /// Turn entire display on. If set, all pixels will
    /// be set to on, if not, the value in memory will be used.
    AllOn(bool),
    /// Invert display.
    Invert(bool),
    /// Turn display on or off.
    DisplayOn(bool),
    /// Set column address lower 4 bits
    ColumnAddressLow(u8),
    /// Set column address higher 4 bits
    ColumnAddressHigh(u8),
    /// Set Memory Addressing Mode
    MemAddressMode(u8),
    /// Set page address
    PageAddress(Page),
    /// Set display start line from 0-63
    StartLine(u8),
    /// Reverse columns from 127-0
    SegmentRemap(bool),
    /// Set multipex ratio from 15-63 (MUX-1)
    Multiplex(u8),
    /// Scan from COM[n-1] to COM0 (where N is mux ratio)
    ReverseComDir(bool),
    /// Set vertical shift
    DisplayOffset(u8),
    /// Setup com hardware configuration
    /// First value indicates sequential (false) or alternative (true)
    /// pin configuration.
    ComPinConfig(bool),
    /// Set up display clock.
    /// First value is oscillator frequency, increasing with higher value
    /// Second value is divide ratio - 1
    DisplayClockDiv(u8, u8),
    /// Set up phase 1 and 2 of precharge period. each value is from 0-63
    PreChargePeriod(u8, u8),
    /// Set Vcomh Deselect level
    VcomhDeselect(VcomhLevel),
    /// NOOP
    Noop,
    /// Enable charge pump
    ChargePump(bool),
}

/// Two four-bit fields packed into one byte, the first in the high nibble.
pub open spec fn nibbles(hi: u8, lo: u8) -> u8 {
    ((0xF & hi) << 4u8) | (0xF & lo)
}

/// The bytes that the controller expects for a command.
pub open spec fn command_bytes(c: Command) -> Seq<u8> {
    match c {
        Command::Contrast(v) => seq![0x81, v],
        Command::AllOn(on) => seq![0xA4 | flag(on)],
        Command::Invert(inv) => seq![0xA6 | flag(inv)],
        Command::DisplayOn(on) => seq![0xAE | flag(on)],
        Command::ColumnAddressLow(a) => seq![0xF & a],
        Command::ColumnAddressHigh(a) => seq![0x10 | (0xF & a)],
        Command::MemAddressMode(m) => seq![0x20 | m],
        Command::PageAddress(p) => seq![0xB0 | page_number(p)],
        Command::StartLine(l) => seq![0xDC, l],
        Command::SegmentRemap(r) => seq![0xA0 | flag(r)],
        Command::Multiplex(r) => seq![0xA8, r],
        Command::ReverseComDir(rev) => seq![0xC0 | (flag(rev) << 3u8)],
        Command::DisplayOffset(o) => seq![0xD3, o],
        Command::ComPinConfig(alt) => seq![0xDA, 0x02 | (flag(alt) << 4u8)],
        Command::DisplayClockDiv(f, d) => seq![0xD5, nibbles(f, d)],
        Command::PreChargePeriod(dis, pre) => seq![0xD9, nibbles(dis, pre)],
        Command::VcomhDeselect(l) => seq![0xDB, vcomh_byte(l)],
        Command::Noop => seq![0xE3],
        Command::ChargePump(en) => seq![0xAD, 0x8A | flag(en)],
    }
}

/// Room for the longest command encoding.
pub const COMMAND_BUF_LEN: usize = 7;

impl Command {
    /// The command's bytes in a fixed buffer, and how many of them are used.
    /// Bytes past the length are zero.
    pub fn encode(self) -> (r: ([u8; COMMAND_BUF_LEN], usize))
        ensures
            r.1 == command_bytes(self).len(),
            1 <= r.1 <= 2,
            r.0@.subrange(0, r.1 as int) == command_bytes(self),
            forall|i: int| r.1 <= i < COMMAND_BUF_LEN ==> r.0@[i] == 0,
    {
        let (data, len): ([u8; COMMAND_BUF_LEN], usize) = match self {
            Command::Contrast(val) => ([0x81, val, 0, 0, 0, 0, 0], 2),
            Command::AllOn(on) => ([0xA4 | flag_byte(on), 0, 0, 0, 0, 0, 0], 1),
            Command::Invert(inv) => ([0xA6 | flag_byte(inv), 0, 0, 0, 0, 0, 0], 1),
            Command::DisplayOn(on) => ([0xAE | flag_byte(on), 0, 0, 0, 0, 0, 0], 1),
            Command::ColumnAddressLow(addr) => ([0xF & addr, 0, 0, 0, 0, 0, 0], 1),
            Command::ColumnAddressHigh(addr) => ([0x10 | (0xF & addr), 0, 0, 0, 0, 0, 0], 1),
            Command::MemAddressMode(mode) => ([0x20 | mode, 0, 0, 0, 0, 0, 0], 1),
            Command::PageAddress(page) => ([0xB0 | page.number(), 0, 0, 0, 0, 0, 0], 1),
            Command::StartLine(line) => ([0xDC, line, 0, 0, 0, 0, 0], 2),
            Command::SegmentRemap(remap) => ([0xA0 | flag_byte(remap), 0, 0, 0, 0, 0, 0], 1),
            Command::Multiplex(ratio) => ([0xA8, ratio, 0, 0, 0, 0, 0], 2),
            Command::ReverseComDir(rev) => ([0xC0 | (flag_byte(rev) << 3u8), 0, 0, 0, 0, 0, 0], 1),
            Command::DisplayOffset(offset) => ([0xD3, offset, 0, 0, 0, 0, 0], 2),
            Command::ComPinConfig(alt) => ([0xDA, 0x02 | (flag_byte(alt) << 4u8), 0, 0, 0, 0, 0], 2),
            Command::DisplayClockDiv(fosc, div) => {
                ([0xD5, ((0xF & fosc) << 4u8) | (0xF & div), 0, 0, 0, 0, 0], 2)
            },
            Command::PreChargePeriod(discharge, precharge) => {
                ([0xD9, ((0xF & discharge) << 4u8) | (0xF & precharge), 0, 0, 0, 0, 0], 2)
            },
            Command::VcomhDeselect(level) => ([0xDB, level.byte(), 0, 0, 0, 0, 0], 2),
            Command::Noop => ([0xE3, 0, 0, 0, 0, 0, 0], 1),
            Command::ChargePump(en) => ([0xAD, 0x8A | flag_byte(en), 0, 0, 0, 0, 0], 2),
        };
        assert(data@.subrange(0, len as int) =~= command_bytes(self));
        (data, len)
    }

    /// Send command to sh1107: its bytes go out through `iface` as one
    /// command sequence.
    pub fn send<DI: DisplayInterface>(self, iface: &mut DI) -> (r: Result<(), DI::Error>)
        ensures
            old(iface).commands_sent(*final(iface), command_bytes(self), r),
    {
        let (data, len) = self.encode();
        iface.send_commands(&data[0..len])
    }
}

} // verus!
