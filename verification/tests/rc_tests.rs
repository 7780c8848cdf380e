use rc_ctl::rc::{RcCtl, SwValue};

/// Sticks and roller at rest, both switches up, no mouse, no keys.
const NEUTRAL: [u8; 18] = [0, 4, 32, 0, 1, 88, 0, 0, 0, 0, 0, 0, 0, 0, 0, 0, 0, 4];

/// r_horiz 660, r_verti -660, l_horiz 123, l_verti -321, right switch mid,
/// left switch down, mouse (-1, 300, -32768), left button, keys 0xA5C3,
/// roller -17.
const FRAME_A: [u8; 18] = [
    148, 102, 203, 30, 127, 181, 255, 255, 44, 1, 0, 128, 1, 0, 195, 165, 239, 3,
];

/// r_horiz -660, r_verti 660, l_horiz -660, l_verti 660, right switch down,
/// left switch mid, mouse (32767, -2, 5), right button, keys 0xFFFF,
/// roller 660.
const FRAME_B: [u8; 18] = [
    108, 161, 52, 91, 40, 237, 255, 127, 254, 255, 5, 0, 0, 1, 255, 255, 148, 6,
];

fn expect_a() -> RcCtl {
    RcCtl {
        ch_l_horiz: 123,
        ch_l_verti: -321,
        ch_r_horiz: 660,
        ch_r_verti: -660,
        ch_roller: -17,
        sw_left: SwValue::SwDown,
        sw_right: SwValue::SwMid,
        mouse_x: -1,
        mouse_y: 300,
        mouse_z: -32768,
        mouse_left: 1,
        mouse_right: 0,
        key_value: 0xA5C3,
    }
}

fn expect_b() -> RcCtl {
    RcCtl {
        ch_l_horiz: -660,
        ch_l_verti: 660,
        ch_r_horiz: -660,
        ch_r_verti: 660,
        ch_roller: 660,
        sw_left: SwValue::SwMid,
        sw_right: SwValue::SwDown,
        mouse_x: 32767,
        mouse_y: -2,
        mouse_z: 5,
        mouse_left: 0,
        mouse_right: 1,
        key_value: 0xFFFF,
    }
}

fn zero_state() -> RcCtl {
    RcCtl {
        ch_l_horiz: 0,
        ch_l_verti: 0,
        ch_r_horiz: 0,
        ch_r_verti: 0,
        ch_roller: 0,
        sw_left: SwValue::SwMid,
        sw_right: SwValue::SwMid,
        mouse_x: 0,
        mouse_y: 0,
        mouse_z: 0,
        mouse_left: 0,
        mouse_right: 0,
        key_value: 0,
    }
}

fn updated(mut s: RcCtl, data: &[u8]) -> RcCtl {
    assert!(RcCtl::accepts(data));
    s.update(data);
    s
}

#[test]
fn new_is_all_zero_with_switches_mid() {
    assert_eq!(RcCtl::new(), zero_state());
}

#[test]
fn default_equals_new() {
    assert_eq!(RcCtl::default(), RcCtl::new());
    assert_eq!(SwValue::default(), SwValue::SwMid);
}

#[test]
fn neutral_frame_decodes_to_rest() {
    let s = updated(RcCtl::new(), &NEUTRAL);
    let mut expected = zero_state();
    expected.sw_left = SwValue::SwUp;
    expected.sw_right = SwValue::SwUp;
    assert_eq!(s, expected);
}

#[test]
fn frame_a_decodes_every_field() {
    assert_eq!(updated(RcCtl::new(), &FRAME_A), expect_a());
}

#[test]
fn frame_b_decodes_every_field() {
    assert_eq!(updated(RcCtl::new(), &FRAME_B), expect_b());
}

#[test]
fn small_channel_values_cross_byte_boundaries() {
    // r_horiz 1, r_verti 2, l_horiz 3, l_verti 4, right switch up, left
    // switch mid, mouse (10, 20, 30), both buttons, keys 7, roller 8.
    let frame: [u8; 18] = [1, 20, 224, 0, 9, 216, 10, 0, 20, 0, 30, 0, 1, 1, 7, 0, 8, 4];
    let s = updated(RcCtl::new(), &frame);
    assert_eq!(s.ch_r_horiz, 1);
    assert_eq!(s.ch_r_verti, 2);
    assert_eq!(s.ch_l_horiz, 3);
    assert_eq!(s.ch_l_verti, 4);
    assert_eq!(s.sw_right, SwValue::SwUp);
    assert_eq!(s.sw_left, SwValue::SwMid);
    assert_eq!((s.mouse_x, s.mouse_y, s.mouse_z), (10, 20, 30));
    assert_eq!((s.mouse_left, s.mouse_right), (1, 1));
    assert_eq!(s.key_value, 7);
    assert_eq!(s.ch_roller, 8);
}

#[test]
fn roller_ignores_top_bits_of_byte_17() {
    let mut frame = NEUTRAL;
    frame[17] = 0xFC;
    let s = updated(RcCtl::new(), &frame);
    assert_eq!(s.ch_roller, 0);
}

#[test]
fn two_frame_input_decodes_second_frame() {
    let mut data = [0u8; 36];
    data[..18].copy_from_slice(&FRAME_A);
    data[18..].copy_from_slice(&FRAME_B);
    assert_eq!(updated(RcCtl::new(), &data), expect_b());
}

#[test]
fn two_frame_input_ignores_invalid_first_frame() {
    let mut data = [0xFFu8; 36];
    data[18..].copy_from_slice(&FRAME_A);
    assert!(RcCtl::accepts(&data));
    assert_eq!(updated(RcCtl::new(), &data), expect_a());
}

#[test]
fn other_lengths_leave_state_unchanged() {
    let before = updated(RcCtl::new(), &FRAME_A);
    for len in [0usize, 1, 17, 19, 35, 37, 48] {
        let data = vec![0xFFu8; len];
        assert!(RcCtl::accepts(&data));
        assert_eq!(updated(before, &data), before);
    }
}

#[test]
fn frame_overwrites_previous_state() {
    let from_zero = updated(RcCtl::new(), &FRAME_B);
    let from_a = updated(updated(RcCtl::new(), &FRAME_A), &FRAME_B);
    assert_eq!(from_zero, from_a);
}

#[test]
fn update_is_idempotent() {
    let once = updated(RcCtl::new(), &FRAME_A);
    let twice = updated(once, &FRAME_A);
    assert_eq!(once, twice);
}

#[test]
fn channel_out_of_range_is_not_accepted() {
    // r_horiz raw 1685 = 1024 + 661
    let mut frame = NEUTRAL;
    frame[0] = (1685 & 0xFF) as u8;
    frame[1] = (frame[1] & 0xF8) | ((1685 >> 8) as u8);
    assert!(!RcCtl::accepts(&frame));
    // roller raw 363 = 1024 - 661
    let mut frame = NEUTRAL;
    frame[16] = (363 & 0xFF) as u8;
    frame[17] = (363 >> 8) as u8;
    assert!(!RcCtl::accepts(&frame));
}

#[test]
fn switch_code_zero_is_not_accepted() {
    let mut frame = NEUTRAL;
    frame[5] &= 0x3F; // left switch code 0
    assert!(!RcCtl::accepts(&frame));
    let mut frame = NEUTRAL;
    frame[5] &= 0xCF; // right switch code 0
    assert!(!RcCtl::accepts(&frame));
}

#[test]
fn mouse_button_above_one_is_not_accepted() {
    let mut frame = NEUTRAL;
    frame[12] = 2;
    assert!(!RcCtl::accepts(&frame));
    let mut frame = NEUTRAL;
    frame[13] = 0x80;
    assert!(!RcCtl::accepts(&frame));
}

#[test]
fn invalid_second_frame_is_not_accepted() {
    let mut data = [0u8; 36];
    data[..18].copy_from_slice(&NEUTRAL);
    data[18..].copy_from_slice(&NEUTRAL);
    data[18 + 12] = 3;
    assert!(!RcCtl::accepts(&data));
}

#[test]
fn extreme_valid_frames_are_accepted() {
    assert!(RcCtl::accepts(&NEUTRAL));
    assert!(RcCtl::accepts(&FRAME_A));
    assert!(RcCtl::accepts(&FRAME_B));
}
