use sh1107::interface::i2c::CHUNK_LEN;
use sh1107::Error;
use sh1107::{AddressedBus, Command, DisplayInterface, I2cInterface, NoOutputPin, OutputPin, SpiInterface, StreamBus};
use std::cell::RefCell;
use std::rc::Rc;

type Log = Rc<RefCell<Vec<(u8, Vec<u8>)>>>;

/// An addressed bus that records each write and fails the write with the
/// given index.
struct MockI2c {
    writes: Log,
    fail_at: Option<usize>,
    calls: usize,
}

impl AddressedBus for MockI2c {
    type Error = u32;
    fn write(&mut self, address: u8, bytes: &[u8]) -> Result<(), u32> {
        let n = self.calls;
        self.calls += 1;
        self.writes.borrow_mut().push((address, bytes.to_vec()));
        if self.fail_at == Some(n) {
            Err(7)
        } else {
            Ok(())
        }
    }
}

fn i2c(fail_at: Option<usize>) -> (I2cInterface<MockI2c>, Log) {
    let log: Log = Rc::new(RefCell::new(Vec::new()));
    let bus = MockI2c { writes: log.clone(), fail_at, calls: 0 };
    (I2cInterface::new(bus, 0x3C), log)
}

fn data_write(bytes: &[u8]) -> Vec<u8> {
    let mut v = vec![0x40];
    v.extend_from_slice(bytes);
    v
}

#[test]
fn i2c_init_is_noop() {
    let (mut iface, log) = i2c(Some(0));
    assert_eq!(iface.init(), Ok(()));
    assert!(log.borrow().is_empty());
}

#[test]
fn i2c_commands_get_command_marker() {
    let (mut iface, log) = i2c(None);
    assert_eq!(iface.send_commands(&[0x81, 0x50]), Ok(()));
    assert_eq!(*log.borrow(), vec![(0x3C, vec![0x00, 0x81, 0x50])]);
}

#[test]
fn i2c_command_failure_is_comm() {
    let (mut iface, _log) = i2c(Some(0));
    assert_eq!(iface.send_commands(&[0xAF]), Err(Error::Comm(7)));
}

#[test]
fn command_send_through_i2c() {
    let (mut iface, log) = i2c(None);
    assert_eq!(Command::Multiplex(0x3F).send(&mut iface), Ok(()));
    assert_eq!(Command::Noop.send(&mut iface), Ok(()));
    assert_eq!(*log.borrow(), vec![(0x3C, vec![0x00, 0xA8, 0x3F]), (0x3C, vec![0x00, 0xE3])]);
}

#[test]
fn i2c_empty_data_writes_nothing() {
    let (mut iface, log) = i2c(Some(0));
    assert_eq!(iface.send_data(&[]), Ok(()));
    assert!(log.borrow().is_empty());
}

#[test]
fn i2c_one_chunk() {
    let buf: Vec<u8> = (0..64u8).collect();
    let (mut iface, log) = i2c(None);
    assert_eq!(iface.send_data(&buf), Ok(()));
    assert_eq!(
        *log.borrow(),
        vec![(0x3C, vec![0x00, 0, 0x00, 0x10]), (0x3C, data_write(&buf))]
    );
    assert_eq!(log.borrow()[1].1.len(), 65);
}

#[test]
fn i2c_three_chunks() {
    let buf: Vec<u8> = (0..130u32).map(|i| (i * 3) as u8).collect();
    let (mut iface, log) = i2c(None);
    assert_eq!(iface.send_data(&buf), Ok(()));
    assert_eq!(
        *log.borrow(),
        vec![
            (0x3C, vec![0x00, 0, 0x00, 0x10]),
            (0x3C, data_write(&buf[0..64])),
            (0x3C, vec![0x00, 1, 0x00, 0x10]),
            (0x3C, data_write(&buf[64..128])),
            (0x3C, vec![0x00, 2, 0x00, 0x10]),
            (0x3C, data_write(&buf[128..130])),
        ]
    );
    assert_eq!(CHUNK_LEN, 64);
}

#[test]
fn i2c_failure_on_second_chunk_stops() {
    let buf = vec![0xAAu8; 200];
    // The page select of the second chunk fails.
    let (mut iface, log) = i2c(Some(2));
    assert_eq!(iface.send_data(&buf), Err(Error::Comm(7)));
    assert_eq!(log.borrow().len(), 3);
    assert_eq!(log.borrow()[2].1, vec![0x00, 1, 0x00, 0x10]);
    // The data write of the second chunk fails.
    let (mut iface, log) = i2c(Some(3));
    assert_eq!(iface.send_data(&buf), Err(Error::Comm(7)));
    assert_eq!(log.borrow().len(), 4);
    assert_eq!(log.borrow()[3].1, data_write(&buf[64..128]));
}

type Trace = Rc<RefCell<Vec<String>>>;

struct MockSpi {
    trace: Trace,
    fail: bool,
}

impl StreamBus for MockSpi {
    type Error = &'static str;
    fn write(&mut self, bytes: &[u8]) -> Result<(), &'static str> {
        self.trace.borrow_mut().push(format!("write {:?}", bytes));
        if self.fail {
            Err("bus")
        } else {
            Ok(())
        }
    }
}

struct MockPin {
    trace: Trace,
    fail_high: bool,
}

impl OutputPin for MockPin {
    type Error = u8;
    fn set_low(&mut self) -> Result<(), u8> {
        self.trace.borrow_mut().push("cs low".to_string());
        Ok(())
    }
    fn set_high(&mut self) -> Result<(), u8> {
        self.trace.borrow_mut().push("cs high".to_string());
        if self.fail_high {
            Err(9)
        } else {
            Ok(())
        }
    }
}

fn spi(fail: bool, fail_high: bool) -> (SpiInterface<MockSpi, NoOutputPin, MockPin>, Trace) {
    let trace: Trace = Rc::new(RefCell::new(Vec::new()));
    let bus = MockSpi { trace: trace.clone(), fail };
    let cs = MockPin { trace: trace.clone(), fail_high };
    (SpiInterface::new(bus, NoOutputPin::new(), cs), trace)
}

#[test]
fn spi_chip_select_frames_each_send() {
    let (mut iface, trace) = spi(false, false);
    assert_eq!(iface.init(), Ok(()));
    assert_eq!(iface.send_commands(&[0xAE]), Ok(()));
    assert_eq!(iface.send_data(&[1, 2, 3]), Ok(()));
    assert_eq!(
        *trace.borrow(),
        vec!["cs high", "cs low", "write [174]", "cs high", "cs low", "write [1, 2, 3]", "cs high"]
    );
}

#[test]
fn spi_bus_failure_leaves_device_selected() {
    let (mut iface, trace) = spi(true, false);
    assert_eq!(iface.send_data(&[5]), Err(Error::Comm("bus")));
    assert_eq!(*trace.borrow(), vec!["cs low", "write [5]"]);
}

#[test]
fn spi_pin_failure_is_pin_error() {
    let (mut iface, _trace) = spi(false, true);
    assert_eq!(iface.init(), Err(Error::Pin(9)));
    assert_eq!(iface.send_commands(&[0xE3]), Err(Error::Pin(9)));
}

#[test]
fn i2c_data_failure_returns_bus_error() {
    let buf = vec![1u8; 10];
    let (mut iface, log) = i2c(Some(1));
    assert_eq!(iface.send_data(&buf), Err(Error::Comm(7)));
    assert_eq!(log.borrow().len(), 2);
}

#[test]
fn spi_long_buffer_is_one_transfer() {
    let buf = vec![0x55u8; 20000];
    let (mut iface, trace) = spi(false, false);
    assert_eq!(iface.send_data(&buf), Ok(()));
    assert_eq!(trace.borrow().len(), 3);
    assert_eq!(trace.borrow()[0], "cs low");
    assert_eq!(trace.borrow()[2], "cs high");
}
