use sh1107::{AddressedBus, Builder, DisplayInterface, DisplayRotation, DisplaySize, NoOutputPin, OutputPin};
use std::cell::RefCell;
use std::rc::Rc;

struct SomeDriver<P: OutputPin> {
    #[allow(dead_code)]
    p: P,
}

#[test]
fn test_output_pin() {
    let p = NoOutputPin::new();
    let _d = SomeDriver { p };

    assert!(true);
}

#[test]
fn no_output_pin_always_succeeds() {
    let mut p = NoOutputPin::new();
    assert!(p.set_low().is_ok());
    assert!(p.set_high().is_ok());
}

struct Recorder {
    writes: Rc<RefCell<Vec<(u8, Vec<u8>)>>>,
}

impl AddressedBus for Recorder {
    type Error = ();
    fn write(&mut self, address: u8, bytes: &[u8]) -> Result<(), ()> {
        self.writes.borrow_mut().push((address, bytes.to_vec()));
        Ok(())
    }
}

#[test]
fn builder_default_address_is_0x3c() {
    let log = Rc::new(RefCell::new(Vec::new()));
    let mut iface = Builder::new().connect_i2c(Recorder { writes: log.clone() });
    iface.send_commands(&[0xE3]).unwrap();
    assert_eq!(*log.borrow(), vec![(0x3c, vec![0x00, 0xE3])]);
}

#[test]
fn builder_sets_address() {
    let log = Rc::new(RefCell::new(Vec::new()));
    let mut iface = Builder::default()
        .with_rotation(DisplayRotation::Rotate180)
        .with_i2c_addr(0x3D)
        .with_size(DisplaySize::Display128x32)
        .connect_i2c(Recorder { writes: log.clone() });
    iface.send_commands(&[0xAF]).unwrap();
    assert_eq!(*log.borrow(), vec![(0x3D, vec![0x00, 0xAF])]);
}

struct NullBus;

impl sh1107::StreamBus for NullBus {
    type Error = ();
    fn write(&mut self, _bytes: &[u8]) -> Result<(), ()> {
        Ok(())
    }
}

#[test]
fn builder_connects_spi() {
    let mut iface = Builder::new().connect_spi(NullBus, NoOutputPin::new(), NoOutputPin::new());
    assert!(iface.init().is_ok());
    assert!(iface.send_data(&[0xFF; 8]).is_ok());
}
