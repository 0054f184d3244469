use guitar_pad::mask::{apply_buttons, mask_report_bytes, with_analog, with_button};

#[test]
fn with_button_sets_and_clears_one_bit() {
    assert_eq!(with_button(0, 3, true), 0b1000);
    assert_eq!(with_button(0b1111, 1, false), 0b1101);
    // Setting a bit that is already set changes nothing.
    assert_eq!(with_button(0b1000, 3, true), 0b1000);
    // Clearing a clear bit changes nothing.
    assert_eq!(with_button(0b1000, 0, false), 0b1000);
}

#[test]
fn with_button_preserves_the_analog_range() {
    let mask = 0x0007_ff00u32 | 0b0101;
    let r = with_button(mask, 1, true);
    assert_eq!(r >> 8, 0x0007_ff);
    assert_eq!(r & 0xff, 0b0111);
}

#[test]
fn with_analog_preserves_the_button_byte() {
    let mask = 0x0000_00a5u32;
    let r = with_analog(mask, 0x7ff);
    assert_eq!(r & 0xff, 0xa5);
    assert_eq!(r >> 8, 0x7ff);
    // A second sample overwrites the first without touching the buttons.
    let r = with_analog(r, 0x123);
    assert_eq!(r & 0xff, 0xa5);
    assert_eq!(r >> 8, 0x123);
}

#[test]
fn apply_buttons_writes_the_snapshot() {
    let states = vec![true, false, true, false, false, false, true, false];
    let r = apply_buttons(0, &states);
    assert_eq!(r, 0b0100_0101);
    // Bits above the snapshot keep their old value.
    let r = apply_buttons(0xbeef_00u32, &states);
    assert_eq!(r, 0xbeef_00 | 0b0100_0101);
}

#[test]
fn apply_buttons_overwrites_old_button_state() {
    let held = vec![true; 8];
    let r = apply_buttons(0, &held);
    assert_eq!(r, 0xff);
    let released = vec![false; 8];
    assert_eq!(apply_buttons(r, &released), 0);
}

#[test]
fn mask_report_bytes_are_little_endian() {
    let mask = (0x7ffu32 << 8) | 0x25;
    assert_eq!(mask_report_bytes(mask), vec![0x25, 0xff, 0x07]);
    assert_eq!(mask_report_bytes(0), vec![0, 0, 0]);
}
