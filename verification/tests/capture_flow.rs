use mickey_mouse::capture::{accumulate_samples, on_btn_toggle, CaptureHistory, EdgeDetector};
use mickey_mouse::config::{
    MAGIC_PREFIX, MAX_REPETITION_INTERVAL, PREAMBLE_REFERENCE, PREAMBLE_TOLERANCE,
};
use mickey_mouse::remote::decode_keycode;

/// The 52 line levels that encode `payload`, first sample = most significant bit.
fn bits_of(payload: u64) -> Vec<bool> {
    let mut samples = Vec::new();
    for i in (0..52).rev() {
        samples.push((payload >> i) & 1 == 1);
    }
    samples
}

#[test]
fn accumulate_builds_the_payload_msb_first() {
    let payload = ((MAGIC_PREFIX as u64) << 32) | 0x5109_4A97;
    assert_eq!(accumulate_samples(&bits_of(payload)), payload);
}

#[test]
fn accumulate_edge_patterns() {
    assert_eq!(accumulate_samples(&vec![false; 52]), 0);
    assert_eq!(accumulate_samples(&vec![true; 52]), 0x000F_FFFF_FFFF_FFFF);
    // a single leading one lands in bit 51
    let mut samples = vec![false; 52];
    samples[0] = true;
    assert_eq!(accumulate_samples(&samples), 1 << 51);
    // a single trailing one lands in bit 0
    let mut samples = vec![false; 52];
    samples[51] = true;
    assert_eq!(accumulate_samples(&samples), 1);
}

#[test]
fn equal_payloads_within_the_interval_repeat() {
    let payload = 0x57AA_5109_4A97;
    let mut h = CaptureHistory::new();
    let first = h.finish_capture(payload, 1_000_000);
    assert!(!decode_keycode(first).2);
    let second = h.finish_capture(payload, 1_000_000 + MAX_REPETITION_INTERVAL - 1);
    assert!(decode_keycode(second).2);
}

#[test]
fn equal_payloads_too_far_apart_do_not_repeat() {
    let payload = 0x57AA_5109_4A97;
    let mut h = CaptureHistory::new();
    h.finish_capture(payload, 1_000_000);
    let second = h.finish_capture(payload, 1_000_000 + MAX_REPETITION_INTERVAL);
    assert!(!decode_keycode(second).2);
}

#[test]
fn different_payloads_never_repeat() {
    let mut h = CaptureHistory::new();
    h.finish_capture(0x57AA_5109_4A97, 1_000_000);
    let second = h.finish_capture(0x57AA_5012_AA97, 1_000_100);
    assert!(!decode_keycode(second).2);
}

#[test]
fn finish_capture_keeps_address_and_data() {
    let payload = ((MAGIC_PREFIX as u64) << 32) | 0x5012_AA97;
    let mut h = CaptureHistory::new();
    let word = h.finish_capture(payload, 42);
    let (address, data, _) = decode_keycode(word);
    assert_eq!(address, MAGIC_PREFIX);
    assert_eq!(data, 0x5012_AA97);
}

#[test]
fn preamble_window_bounds() {
    let base = 10_000_000u64;
    // a pulse exactly at the lower bound triggers
    let mut d = EdgeDetector::new();
    d.on_ir_edge(base, true);
    assert!(d.on_ir_edge(base + PREAMBLE_REFERENCE - PREAMBLE_TOLERANCE, true));
    // the upper bound is exclusive
    let mut d = EdgeDetector::new();
    d.on_ir_edge(base, true);
    assert!(!d.on_ir_edge(base + PREAMBLE_REFERENCE + PREAMBLE_TOLERANCE, true));
    // a matching pulse while acquisition is disabled does not trigger
    let mut d = EdgeDetector::new();
    d.on_ir_edge(base, true);
    assert!(!d.on_ir_edge(base + PREAMBLE_REFERENCE, false));
    // a matching delta across timer wrap-around still triggers
    let mut d = EdgeDetector::new();
    d.on_ir_edge(u64::MAX - 1_000, true);
    assert!(d.on_ir_edge(u64::MAX.wrapping_add(PREAMBLE_REFERENCE).wrapping_sub(1_000), true));
}

#[test]
fn short_and_long_pulses_are_ignored() {
    let base = 5_000_000u64;
    let mut d = EdgeDetector::new();
    d.on_ir_edge(base, true);
    assert!(!d.on_ir_edge(base + 100, true));
    let mut d = EdgeDetector::new();
    d.on_ir_edge(base, true);
    assert!(!d.on_ir_edge(base + 10 * PREAMBLE_REFERENCE, true));
}

#[test]
fn toggle_flips_the_enabled_flag_and_drives_the_indicator() {
    let mut enabled = true;
    // indicator lights up when acquisition goes off
    assert_eq!(on_btn_toggle(&mut enabled, true), Some(true));
    assert!(!enabled);
    assert_eq!(on_btn_toggle(&mut enabled, true), Some(false));
    assert!(enabled);
    // an edge without a press changes nothing
    assert_eq!(on_btn_toggle(&mut enabled, false), None);
    assert!(enabled);
}
