use sh1107::{Command, NFrames, Page, VcomhLevel};

fn enc(c: Command) -> Vec<u8> {
    let (data, len) = c.encode();
    data[..len].to_vec()
}

#[test]
fn encodes_every_command() {
    assert_eq!(enc(Command::Contrast(0x50)), vec![0x81, 0x50]);
    assert_eq!(enc(Command::AllOn(true)), vec![0xA5]);
    assert_eq!(enc(Command::AllOn(false)), vec![0xA4]);
    assert_eq!(enc(Command::Invert(true)), vec![0xA7]);
    assert_eq!(enc(Command::Invert(false)), vec![0xA6]);
    assert_eq!(enc(Command::DisplayOn(true)), vec![0xAF]);
    assert_eq!(enc(Command::DisplayOn(false)), vec![0xAE]);
    assert_eq!(enc(Command::ColumnAddressLow(0x1A)), vec![0x0A]);
    assert_eq!(enc(Command::ColumnAddressHigh(0x2B)), vec![0x1B]);
    assert_eq!(enc(Command::MemAddressMode(0x01)), vec![0x21]);
    assert_eq!(enc(Command::PageAddress(Page::Page5)), vec![0xB5]);
    assert_eq!(enc(Command::PageAddress(Page::Page15)), vec![0xBF]);
    assert_eq!(enc(Command::StartLine(0x20)), vec![0xDC, 0x20]);
    assert_eq!(enc(Command::SegmentRemap(true)), vec![0xA1]);
    assert_eq!(enc(Command::SegmentRemap(false)), vec![0xA0]);
    assert_eq!(enc(Command::Multiplex(0x3F)), vec![0xA8, 0x3F]);
    assert_eq!(enc(Command::ReverseComDir(true)), vec![0xC8]);
    assert_eq!(enc(Command::ReverseComDir(false)), vec![0xC0]);
    assert_eq!(enc(Command::DisplayOffset(0x60)), vec![0xD3, 0x60]);
    assert_eq!(enc(Command::ComPinConfig(true)), vec![0xDA, 0x12]);
    assert_eq!(enc(Command::ComPinConfig(false)), vec![0xDA, 0x02]);
    assert_eq!(enc(Command::DisplayClockDiv(0x8, 0x0)), vec![0xD5, 0x80]);
    assert_eq!(enc(Command::DisplayClockDiv(0x1F, 0x23)), vec![0xD5, 0xF3]);
    assert_eq!(enc(Command::PreChargePeriod(0x2, 0x2)), vec![0xD9, 0x22]);
    assert_eq!(enc(Command::PreChargePeriod(0x1F, 0x11)), vec![0xD9, 0xF1]);
    assert_eq!(enc(Command::VcomhDeselect(VcomhLevel::V065)), vec![0xDB, 0x22]);
    assert_eq!(enc(Command::VcomhDeselect(VcomhLevel::V077)), vec![0xDB, 0x35]);
    assert_eq!(enc(Command::VcomhDeselect(VcomhLevel::V083)), vec![0xDB, 0x3E]);
    assert_eq!(enc(Command::VcomhDeselect(VcomhLevel::Auto)), vec![0xDB, 0x40]);
    assert_eq!(enc(Command::Noop), vec![0xE3]);
    assert_eq!(enc(Command::ChargePump(true)), vec![0xAD, 0x8B]);
    assert_eq!(enc(Command::ChargePump(false)), vec![0xAD, 0x8A]);
}

#[test]
fn encoding_pads_with_zeros() {
    let (data, len) = Command::Contrast(0x7F).encode();
    assert_eq!(len, 2);
    assert_eq!(data, [0x81, 0x7F, 0, 0, 0, 0, 0]);
}

#[test]
fn page_from_row() {
    for row in 0u8..8 {
        assert_eq!(Page::from(row), Page::Page0);
    }
    for row in 8u8..16 {
        assert_eq!(Page::from(row), Page::Page1);
    }
    assert_eq!(Page::from(63), Page::Page7);
    assert_eq!(Page::from(64), Page::Page8);
    assert_eq!(Page::from(127), Page::Page15);
    assert_eq!(Page::from(127).number(), 15);
}

#[test]
fn frame_interval_bits() {
    assert_eq!(NFrames::F2.bits(), 0b111);
    assert_eq!(NFrames::F5.bits(), 0b000);
    assert_eq!(NFrames::F256.bits(), 0b011);
}
