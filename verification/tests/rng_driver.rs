//! The RNG driver's acquisition and fill logic, run against the simulated
//! register block, and the module-identification field split.

use lpc55_hal::rng::{acquire_word, fill_bytes, module_id_from_word};
use lpc55_hal::sim::SimRng;

#[test]
fn module_id_splits_the_word() {
    let m = module_id_from_word(0xabcd_3210);
    assert_eq!(m.id, 0xabcd);
    assert_eq!(m.maj_rev, 0x3);
    assert_eq!(m.min_rev, 0x2);
    assert_eq!(m.aperture, 0x10);
}

#[test]
fn module_id_of_the_registers_reset_value() {
    let m = module_id_from_word(0xa0b8_3200);
    assert_eq!(m.id, 0xa0b8);
    assert_eq!(m.maj_rev, 3);
    assert_eq!(m.min_rev, 2);
    assert_eq!(m.aperture, 0);
}

#[test]
fn acquire_waits_for_the_refresh_counter() {
    let mut sim = SimRng::new(5, 0xdead_beef);
    let w = acquire_word(&mut sim);
    assert_eq!(w, 0xdead_beef);
    // five polls observe a zero refresh count, then thirty-two observe a
    // non-zero one
    assert_eq!(sim.total_polls(), 37);
    assert_eq!(sim.delivered_words(), 1);
}

#[test]
fn acquire_polls_thirty_two_times_when_always_ready() {
    let mut sim = SimRng::new(0, 7);
    let w = acquire_word(&mut sim);
    assert_eq!(w, 7);
    assert_eq!(sim.total_polls(), 32);
    assert_eq!(sim.delivered_words(), 1);
}

#[test]
fn fill_of_length_zero_reads_no_word() {
    let mut sim = SimRng::new(3, 99);
    let mut buffer: Vec<u8> = Vec::new();
    let r = fill_bytes(&mut sim, &mut buffer);
    assert!(r.is_ok());
    assert_eq!(buffer.len(), 0);
    assert_eq!(sim.total_polls(), 0);
    assert_eq!(sim.delivered_words(), 0);
}

#[test]
fn fill_of_six_bytes_reads_two_words() {
    let mut sim = SimRng::new(0, 0x0403_0201);
    let mut buffer: Vec<u8> = vec![0; 6];
    let r = fill_bytes(&mut sim, &mut buffer);
    assert!(r.is_ok());
    assert_eq!(sim.delivered_words(), 2);
    assert_eq!(sim.total_polls(), 64);
    // the first word, low byte first, then the low two bytes of the second
    // word 0x0403_0202
    assert_eq!(buffer, vec![0x01, 0x02, 0x03, 0x04, 0x02, 0x02]);
}

#[test]
fn fill_of_a_whole_multiple_uses_full_words() {
    let mut sim = SimRng::new(0, 0x0403_0201);
    let mut buffer: Vec<u8> = vec![0; 8];
    let r = fill_bytes(&mut sim, &mut buffer);
    assert!(r.is_ok());
    assert_eq!(sim.delivered_words(), 2);
    assert_eq!(buffer, vec![0x01, 0x02, 0x03, 0x04, 0x02, 0x02, 0x03, 0x04]);
}

#[test]
fn fill_of_one_byte_takes_the_low_byte() {
    let mut sim = SimRng::new(2, 0xcafe_f00d);
    let mut buffer: Vec<u8> = vec![0; 1];
    let r = fill_bytes(&mut sim, &mut buffer);
    assert!(r.is_ok());
    assert_eq!(buffer, vec![0x0d]);
    assert_eq!(sim.delivered_words(), 1);
    assert_eq!(sim.total_polls(), 34);
}
