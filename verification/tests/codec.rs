use joycon_bridge::state::{decode_left_report, decode_right_report};
use joycon_bridge::stick::decode_stick;
use joycon_bridge::Commands;

fn report(b2: u8, b3: u8, b5: u8, b6: u8, b7: u8) -> Vec<u8> {
    vec![0x00, 0x00, b2, b3, 0x00, b5, b6, b7]
}

#[test]
fn set_led_encodes_exact_frame() {
    let bytes = Commands::SetLED(0b1001).to_bytes();
    assert_eq!(
        bytes,
        vec![
            0x09, 0x91, 0x00, 0x07, 0x00, 0x08, 0x00, 0x00, 0x09, 0x00, 0x00, 0x00, 0x00, 0x00,
            0x00, 0x00,
        ]
    );
}

#[test]
fn vibration_encodes_exact_frame() {
    let bytes = Commands::SendVibration.to_bytes();
    assert_eq!(
        bytes,
        vec![0x0A, 0x91, 0x01, 0x02, 0x00, 0x04, 0x00, 0x00, 0x03, 0x00, 0x00, 0x00]
    );
}

#[test]
fn set_led_varies_only_in_intensity_byte() {
    let dim = Commands::SetLED(0x00).to_bytes();
    let bright = Commands::SetLED(0xFF).to_bytes();
    assert_eq!(dim.len(), 16);
    assert_eq!(bright.len(), 16);
    for i in 0..16 {
        if i == 8 {
            assert_eq!(dim[i], 0x00);
            assert_eq!(bright[i], 0xFF);
        } else {
            assert_eq!(dim[i], bright[i]);
        }
    }
}

#[test]
fn stick_all_zero_bytes_saturate_to_minus_one() {
    let (x, y) = decode_stick(0x00, 0x00, 0x00);
    assert_eq!(x, -32767);
    assert_eq!(y, -32767);
}

#[test]
fn stick_midrange_x_is_centered() {
    // x_raw = 0x7E4 = 2020, the midpoint of the 780..3260 calibration range.
    let (x, _) = decode_stick(0xE4, 0x07, 0x00);
    assert_eq!(x, 0);
}

#[test]
fn stick_full_scale_bytes_saturate_to_plus_one() {
    // Both raw values decode to 4095, above both calibration ranges.
    let (x, y) = decode_stick(0xFF, 0xFF, 0xFF);
    assert_eq!(x, 32767);
    assert_eq!(y, 32767);
}

#[test]
fn stick_output_always_within_unit_range() {
    for b0 in (0..=255u16).step_by(15) {
        for b1 in (0..=255u16).step_by(15) {
            for b2 in (0..=255u16).step_by(15) {
                let (x, y) = decode_stick(b0 as u8, b1 as u8, b2 as u8);
                assert!((-32767..=32767).contains(&x));
                assert!((-32767..=32767).contains(&y));
            }
        }
    }
}

#[test]
fn stick_x_monotone_in_raw_value() {
    // Walk x_raw upward with the y bytes fixed; the axis never decreases.
    let mut last = i16::MIN;
    for raw in 0..=0xFFFu16 {
        let b0 = (raw & 0xFF) as u8;
        let b1 = ((raw >> 8) & 0x0F) as u8;
        let (x, _) = decode_stick(b0, b1, 0x00);
        assert!(x >= last);
        last = x;
    }
    assert_eq!(last, 32767);
}

#[test]
fn left_report_buttons_follow_masks() {
    let s = decode_left_report(&report(0xFF, 0xC1, 0, 0, 0));
    assert!(s.stick);
    assert!(s.minus);
    assert!(s.zl);
    assert!(s.l);
    assert!(s.up);
    assert!(s.left);
    assert!(s.right);
    assert!(s.down);
    assert!(s.sl);
    assert!(s.sr);
    assert!(s.capture);

    let s = decode_left_report(&report(0x08, 0x00, 0, 0, 0));
    assert!(s.up);
    assert!(!s.down && !s.left && !s.right);
    assert!(!s.stick && !s.minus && !s.zl && !s.l);
    assert!(!s.sl && !s.sr && !s.capture);
}

#[test]
fn right_report_buttons_follow_masks() {
    let s = decode_right_report(&report(0xFF, 0xD1, 0, 0, 0));
    assert!(s.stick);
    assert!(s.plus);
    assert!(s.zr);
    assert!(s.r);
    assert!(s.x);
    assert!(s.y);
    assert!(s.a);
    assert!(s.b);
    assert!(s.sl);
    assert!(s.sr);
    assert!(s.c);
    assert!(s.home);

    let s = decode_right_report(&report(0x02, 0x10, 0, 0, 0));
    assert!(s.a);
    assert!(s.c);
    assert!(!s.b && !s.x && !s.y);
    assert!(!s.stick && !s.plus && !s.zr && !s.r);
    assert!(!s.sl && !s.sr && !s.home);
}

#[test]
fn decode_is_deterministic() {
    let bytes = report(0xA5, 0x41, 0xE4, 0x07, 0x80);
    let first = decode_left_report(&bytes);
    let second = decode_left_report(&bytes);
    assert_eq!(first, second);
    let first = decode_right_report(&bytes);
    let second = decode_right_report(&bytes);
    assert_eq!(first, second);
}

#[test]
fn report_stick_bytes_feed_the_stick_decoder() {
    let s = decode_left_report(&report(0x00, 0x00, 0xE4, 0x07, 0x00));
    let (x, y) = decode_stick(0xE4, 0x07, 0x00);
    assert_eq!(s.stick_x, x);
    assert_eq!(s.stick_y, y);
    assert_eq!(s.stick_x, 0);
}
