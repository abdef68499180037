use std::cell::RefCell;
use std::rc::Rc;

use is31fl3731::{Bus, Delay, IS31FL3731};

const ADDR: u8 = 0x74;

/// A recording bus. The log and attempt counter sit behind `Rc` so a
/// test can keep reading them after the driver has taken ownership of
/// the bus (or dropped it on a failed construction).
struct MockBus {
    log: Rc<RefCell<Vec<(u8, Vec<u8>)>>>,
    attempts: Rc<RefCell<usize>>,
    fail_on_attempt: Option<usize>,
}

impl MockBus {
    fn new() -> MockBus {
        MockBus {
            log: Rc::new(RefCell::new(Vec::new())),
            attempts: Rc::new(RefCell::new(0)),
            fail_on_attempt: None,
        }
    }

    fn failing_on(n: usize) -> MockBus {
        let mut bus = MockBus::new();
        bus.fail_on_attempt = Some(n);
        bus
    }
}

impl Bus<u8> for MockBus {
    type BusErr = u8;

    fn write(&mut self, addr: u8, bytes: &[u8]) -> Result<(), u8> {
        *self.attempts.borrow_mut() += 1;
        if self.fail_on_attempt == Some(*self.attempts.borrow()) {
            return Err(0xEE);
        }
        self.log.borrow_mut().push((addr, bytes.to_vec()));
        Ok(())
    }
}

struct MockDelay {
    calls: Vec<u8>,
}

impl Delay for MockDelay {
    fn delay_ms(&mut self, ms: u8) {
        self.calls.push(ms);
    }
}

/// A driver around a fresh recording bus, built without going through
/// the init handshake, so tests see only the operation under test.
fn bare_driver() -> IS31FL3731<u8, MockBus> {
    IS31FL3731 { a: ADDR, i2c: MockBus::new(), current_frame: 0 }
}

fn log_of(drv: &IS31FL3731<u8, MockBus>) -> Vec<(u8, Vec<u8>)> {
    drv.i2c.log.borrow().clone()
}

#[test]
fn select_frame_keeps_in_range_values() {
    let mut drv = bare_driver();
    for frame in 0..=7u8 {
        drv.select_frame(frame);
        assert_eq!(drv.current_frame, frame);
    }
    assert!(log_of(&drv).is_empty());
}

#[test]
fn select_frame_clamps_out_of_range_to_zero() {
    let mut drv = bare_driver();
    for frame in [8u8, 9, 100, 255] {
        drv.select_frame(3);
        drv.select_frame(frame);
        assert_eq!(drv.current_frame, 0);
    }
    assert!(log_of(&drv).is_empty());
}

#[test]
fn display_frame_writes_picture_frame_register() {
    for frame in 0..=7u8 {
        let mut drv = bare_driver();
        drv.display_frame(frame).unwrap();
        let log = log_of(&drv);
        assert_eq!(log, vec![(ADDR, vec![0xFD, 0x0B]), (ADDR, vec![0x01, frame])]);
    }
}

#[test]
fn display_frame_clamps_out_of_range_to_zero() {
    let mut drv = bare_driver();
    drv.display_frame(9).unwrap();
    let log = log_of(&drv);
    assert_eq!(log, vec![(ADDR, vec![0xFD, 0x0B]), (ADDR, vec![0x01, 0x00])]);
}

#[test]
fn clear_sends_bank_select_then_one_181_byte_write() {
    let mut drv = bare_driver();
    drv.select_frame(2);
    drv.clear().unwrap();
    let log = log_of(&drv);
    assert_eq!(log.len(), 2);
    assert_eq!(log[0], (ADDR, vec![0xFD, 0x02]));
    let (addr, payload) = &log[1];
    assert_eq!(*addr, ADDR);
    assert_eq!(payload.len(), 181);
    assert_eq!(payload[0], 0x00);
    for i in 1..=18 {
        assert_eq!(payload[i], 0xFF, "LED-enable byte {i}");
    }
    for i in 19..=180 {
        assert_eq!(payload[i], 0x00, "blink/PWM byte {i}");
    }
}

#[test]
fn fill_sends_bank_select_then_one_145_byte_write() {
    let mut drv = bare_driver();
    drv.select_frame(5);
    drv.fill(0x42).unwrap();
    let log = log_of(&drv);
    assert_eq!(log.len(), 2);
    assert_eq!(log[0], (ADDR, vec![0xFD, 0x05]));
    let (addr, payload) = &log[1];
    assert_eq!(*addr, ADDR);
    assert_eq!(payload.len(), 145);
    assert_eq!(payload[0], 0x24);
    for i in 1..=144 {
        assert_eq!(payload[i], 0x42, "intensity byte {i}");
    }
}

#[test]
fn fill_propagates_bank_select_failure() {
    let mut drv = IS31FL3731 { a: ADDR, i2c: MockBus::failing_on(1), current_frame: 0 };
    assert_eq!(drv.fill(0x10), Err(0xEE));
    assert!(log_of(&drv).is_empty());
    assert_eq!(*drv.i2c.attempts.borrow(), 1);
}

#[test]
fn draw_pixel_example_origin() {
    // (0, 0) takes the x <= 7 branch: offset 7, register 0x24 + 7 = 0x2B.
    let mut drv = bare_driver();
    drv.draw_pixel(0, 0, 0xFF).unwrap();
    let log = log_of(&drv);
    assert_eq!(log, vec![(ADDR, vec![0xFD, 0x00]), (ADDR, vec![0x2B, 0xFF])]);
}

#[test]
fn draw_pixel_example_right_half() {
    // (8, 0) takes the x > 7 branch: offset 120, register 0x24 + 120 = 0x9C.
    let mut drv = bare_driver();
    drv.draw_pixel(8, 0, 0x10).unwrap();
    let log = log_of(&drv);
    assert_eq!(log, vec![(ADDR, vec![0xFD, 0x00]), (ADDR, vec![0x9C, 0x10])]);
}

#[test]
fn draw_pixel_targets_current_frame_bank() {
    let mut drv = bare_driver();
    drv.select_frame(6);
    drv.draw_pixel(3, 4, 0x7F).unwrap();
    let log = log_of(&drv);
    assert_eq!(log[0], (ADDR, vec![0xFD, 0x06]));
}

#[test]
fn pixel_mapping_is_a_bijection_onto_the_pwm_table() {
    // Drive every coordinate of the 16x8 grid through the driver and
    // read the register each one addresses off the bus: the 128 offsets
    // must be pairwise distinct and span exactly 0..=127.
    let mut seen = [false; 128];
    for x in 0..16i16 {
        for y in 0..8i16 {
            let mut drv = bare_driver();
            drv.draw_pixel(x, y, 0x01).unwrap();
            let log = log_of(&drv);
            let reg = log[1].1[0];
            assert!((0x24..=0xA3).contains(&reg), "register {reg:#x} outside PWM table");
            let offset = (reg - 0x24) as usize;
            assert!(!seen[offset], "offset {offset} hit twice");
            seen[offset] = true;
        }
    }
    assert!(seen.iter().all(|&hit| hit));
}

#[test]
fn draw_iter_draws_each_pixel_in_order() {
    let mut drv = bare_driver();
    drv.select_frame(1);
    drv.draw_iter(&[(0, 0, 0xFF), (8, 0, 0x10)]).unwrap();
    let log = log_of(&drv);
    assert_eq!(
        log,
        vec![
            (ADDR, vec![0xFD, 0x01]),
            (ADDR, vec![0x2B, 0xFF]),
            (ADDR, vec![0xFD, 0x01]),
            (ADDR, vec![0x9C, 0x10]),
        ]
    );
}

#[test]
fn draw_iter_stops_at_first_error() {
    let mut drv = IS31FL3731 { a: ADDR, i2c: MockBus::failing_on(3), current_frame: 0 };
    let r = drv.draw_iter(&[(0, 0, 0x01), (1, 0, 0x02), (2, 0, 0x03)]);
    assert_eq!(r, Err(0xEE));
    // First pixel completed (two writes), the second's bank select failed.
    assert_eq!(log_of(&drv).len(), 2);
    assert_eq!(*drv.i2c.attempts.borrow(), 3);
}

#[test]
fn size_reports_fifteen_by_seven() {
    let drv = bare_driver();
    assert_eq!(drv.size(), (15, 7));
}

#[test]
fn new_runs_the_full_init_sequence() {
    let bus = MockBus::new();
    let log = Rc::clone(&bus.log);
    let mut delay = MockDelay { calls: Vec::new() };
    let drv = IS31FL3731::new(bus, ADDR, &mut delay).unwrap();
    assert_eq!(drv.current_frame, 0);
    assert_eq!(drv.a, ADDR);
    assert_eq!(delay.calls, vec![10]);

    let log = log.borrow();
    // 2 writes each for: shutdown assert, shutdown release, audio sync;
    // 2 for the clear; 2 for each of the 8 * 18 LED-enable registers.
    assert_eq!(log.len(), 296);
    assert_eq!(log[0], (ADDR, vec![0xFD, 0x0B]));
    assert_eq!(log[1], (ADDR, vec![0x0A, 0x00]));
    assert_eq!(log[2], (ADDR, vec![0xFD, 0x0B]));
    assert_eq!(log[3], (ADDR, vec![0x0A, 0x01]));
    // the clear of frame 0
    assert_eq!(log[4], (ADDR, vec![0xFD, 0x00]));
    assert_eq!(log[5].1.len(), 181);
    // the LED-enable writes, frame bank by frame bank
    for f in 0..8u8 {
        for i in 0..18u8 {
            let k = 6 + 2 * (18 * f as usize + i as usize);
            assert_eq!(log[k], (ADDR, vec![0xFD, f]), "bank select for frame {f} reg {i}");
            assert_eq!(log[k + 1], (ADDR, vec![i, 0xFF]), "enable write for frame {f} reg {i}");
        }
    }
    assert_eq!(log[294], (ADDR, vec![0xFD, 0x0B]));
    assert_eq!(log[295], (ADDR, vec![0x06, 0x00]));
}

#[test]
fn new_stops_after_a_failure_on_the_third_write() {
    let bus = MockBus::failing_on(3);
    let log = Rc::clone(&bus.log);
    let attempts = Rc::clone(&bus.attempts);
    let mut delay = MockDelay { calls: Vec::new() };
    let r = IS31FL3731::new(bus, ADDR, &mut delay);
    assert_eq!(r.err(), Some(0xEE));
    // Exactly the two writes before the failing call went through, and
    // nothing was attempted after it.
    let log = log.borrow();
    assert_eq!(log.len(), 2);
    assert_eq!(log[0], (ADDR, vec![0xFD, 0x0B]));
    assert_eq!(log[1], (ADDR, vec![0x0A, 0x00]));
    assert_eq!(*attempts.borrow(), 3);
}
