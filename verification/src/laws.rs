//! Properties of the decoder, stated over `updated`, the state that
//! `RcCtl::update` leaves, and `input_accepted`, the inputs that it takes,
//! in terms of the bytes of the input; and of the refusal of over-long GSA
//! sentences.

use vstd::prelude::*;

use crate::gps::gsa_list_too_long;
use crate::rc::{frame_of, input_accepted, updated, RcCtl, SwValue, FRAME_LEN};

verus! {

/// An input that carries a frame sets the whole state: two states that take
/// the same such input end equal, whatever they held before.
pub proof fn law_frame_overwrites_state(s1: RcCtl, s2: RcCtl, data: Seq<u8>)
    requires
        frame_of(data) is Some,
    ensures
        updated(s1, data) == updated(s2, data),
{
}

/// Taking the same input twice leaves the state that taking it once leaves.
pub proof fn law_update_idempotent(s: RcCtl, data: Seq<u8>)
    ensures
        updated(updated(s, data), data) == updated(s, data),
{
}

/// An input whose length is neither one nor two frames leaves the state as
/// it was.
pub proof fn law_other_lengths_ignored(s: RcCtl, data: Seq<u8>)
    requires
        data.len() != FRAME_LEN,
        data.len() != 2 * FRAME_LEN,
    ensures
        updated(s, data) == s,
{
}

/// An input of two frames acts as its second frame alone: it is accepted
/// exactly when that frame is, and leaves the same state.
pub proof fn law_two_frames_act_as_second(s: RcCtl, data: Seq<u8>)
    requires
        data.len() == 2 * FRAME_LEN,
    ensures
        ({
            let second = data.subrange(FRAME_LEN as int, 2 * FRAME_LEN as int);
            &&& input_accepted(data) == input_accepted(second)
            &&& updated(s, data) == updated(s, second)
        }),
{
    let second = data.subrange(FRAME_LEN as int, 2 * FRAME_LEN as int);
    assert(second.len() == FRAME_LEN);
    assert(frame_of(second) == Some(second));
}

/// Every accepted input keeps the state well formed: its channels within
/// +-660 and its mouse buttons 0 or 1.
pub proof fn law_update_keeps_wf(s: RcCtl, data: Seq<u8>)
    requires
        s.wf(),
        input_accepted(data),
    ensures
        updated(s, data).wf(),
{
}


/// The low 11 bits of each channel's bytes, taken as arithmetic on the bytes.
proof fn lemma_channel_bits(f: Seq<u8>)
    requires
        f.len() == FRAME_LEN,
    ensures
        (f[0] + 256 * f[1]) % 2048 == f[0] + 256 * (f[1] % 8),
        (f[1] / 8 + 32 * f[2]) % 2048 == f[1] / 8 + 32 * (f[2] % 64),
        (f[2] / 64 + 4 * f[3] + 1024 * f[4]) % 2048 == f[2] / 64 + 4 * f[3] + 1024 * (f[4] % 2),
        (f[4] / 2 + 128 * f[5]) % 2048 == f[4] / 2 + 128 * (f[5] % 16),
        (f[16] + 256 * f[17]) % 2048 == f[16] + 256 * (f[17] % 8),
{
    let (b0, b1, b2, b3, b4, b5, b16, b17) = (f[0], f[1], f[2], f[3], f[4], f[5], f[16], f[17]);
    assert((b0 as int + 256 * b1 as int) % 2048 == b0 as int + 256 * (b1 as int % 8))
        by (bit_vector);
    assert((b1 as int / 8 + 32 * b2 as int) % 2048 == b1 as int / 8 + 32 * (b2 as int % 64))
        by (bit_vector);
    assert((b2 as int / 64 + 4 * b3 as int + 1024 * b4 as int) % 2048 == b2 as int / 64 + 4
        * b3 as int + 1024 * (b4 as int % 2)) by (bit_vector);
    assert((b4 as int / 2 + 128 * b5 as int) % 2048 == b4 as int / 2 + 128 * (b5 as int % 16))
        by (bit_vector);
    assert((b16 as int + 256 * b17 as int) % 2048 == b16 as int + 256 * (b17 as int % 8))
        by (bit_vector);
}

/// The mouse motion of a frame is three little-endian two's-complement
/// 16-bit numbers in bytes 6..12; the buttons are bytes 12 and 13; the key
/// mask is the little-endian unsigned 16-bit number in bytes 14 and 15.
pub proof fn law_mouse_and_keys(s: RcCtl, f: Seq<u8>)
    requires
        f.len() == FRAME_LEN,
    ensures
        updated(s, f).mouse_x as int == (if f[6] + 256 * f[7] < 32768 {
            f[6] + 256 * f[7]
        } else {
            f[6] + 256 * f[7] - 65536
        }),
        updated(s, f).mouse_y as int == (if f[8] + 256 * f[9] < 32768 {
            f[8] + 256 * f[9]
        } else {
            f[8] + 256 * f[9] - 65536
        }),
        updated(s, f).mouse_z as int == (if f[10] + 256 * f[11] < 32768 {
            f[10] + 256 * f[11]
        } else {
            f[10] + 256 * f[11] - 65536
        }),
        updated(s, f).mouse_left == f[12],
        updated(s, f).mouse_right == f[13],
        updated(s, f).key_value as int == f[14] + 256 * f[15],
{
}

/// Each channel is its own 11 bits of the frame, less 1024: bits 0..11 for
/// the right stick's horizontal axis, 11..22 for its vertical axis, 22..33
/// and 33..44 for the left stick, and bits 0..11 of bytes 16 and 17 for the
/// roller. Bits that belong to another field never change a channel.
pub proof fn law_channels_own_bits(s: RcCtl, f: Seq<u8>)
    requires
        f.len() == FRAME_LEN,
    ensures
        updated(s, f).ch_r_horiz == f[0] + 256 * (f[1] % 8) - 1024,
        updated(s, f).ch_r_verti == f[1] / 8 + 32 * (f[2] % 64) - 1024,
        updated(s, f).ch_l_horiz == f[2] / 64 + 4 * f[3] + 1024 * (f[4] % 2) - 1024,
        updated(s, f).ch_l_verti == f[4] / 2 + 128 * (f[5] % 16) - 1024,
        updated(s, f).ch_roller == f[16] + 256 * (f[17] % 8) - 1024,
{
    lemma_channel_bits(f);
}

/// The left switch is bits 7..6 of byte 5 and the right switch bits 5..4:
/// code 1 is up, 3 the middle and 2 down, each read on its own.
pub proof fn law_switch_positions(s: RcCtl, f: Seq<u8>)
    requires
        f.len() == FRAME_LEN,
    ensures
        f[5] / 64 == 1 ==> updated(s, f).sw_left == SwValue::SwUp,
        f[5] / 64 == 3 ==> updated(s, f).sw_left == SwValue::SwMid,
        f[5] / 64 == 2 ==> updated(s, f).sw_left == SwValue::SwDown,
        (f[5] / 16) % 4 == 1 ==> updated(s, f).sw_right == SwValue::SwUp,
        (f[5] / 16) % 4 == 3 ==> updated(s, f).sw_right == SwValue::SwMid,
        (f[5] / 16) % 4 == 2 ==> updated(s, f).sw_right == SwValue::SwDown,
{
}

/// A frame is taken exactly when each of its five raw 11-bit channels lies
/// in 364..=1684 (within +-660 of 1024), each switch code is, on its own,
/// one of 1, 2 and 3, and both mouse-button bytes are 0 or 1.
pub proof fn law_accepted_frames(f: Seq<u8>)
    requires
        f.len() == FRAME_LEN,
    ensures
        input_accepted(f) <==> {
            &&& 364 <= f[0] + 256 * (f[1] % 8) <= 1684
            &&& 364 <= f[1] / 8 + 32 * (f[2] % 64) <= 1684
            &&& 364 <= f[2] / 64 + 4 * f[3] + 1024 * (f[4] % 2) <= 1684
            &&& 364 <= f[4] / 2 + 128 * (f[5] % 16) <= 1684
            &&& 364 <= f[16] + 256 * (f[17] % 8) <= 1684
            &&& 1 <= f[5] / 64 <= 3
            &&& 1 <= (f[5] / 16) % 4 <= 3
            &&& f[12] <= 1
            &&& f[13] <= 1
        },
{
    lemma_channel_bits(f);
    assert(frame_of(f) == Some(f));
}


/// The state of a fresh controller, `new()` and `default()`: every channel,
/// mouse value, button and the key mask zero, both switches in the middle.
pub proof fn law_fresh_state_is_at_rest()
    ensures
        RcCtl::zeroed().ch_l_horiz == 0 && RcCtl::zeroed().ch_l_verti == 0,
        RcCtl::zeroed().ch_r_horiz == 0 && RcCtl::zeroed().ch_r_verti == 0,
        RcCtl::zeroed().ch_roller == 0,
        RcCtl::zeroed().sw_left == SwValue::SwMid && RcCtl::zeroed().sw_right == SwValue::SwMid,
        RcCtl::zeroed().mouse_x == 0 && RcCtl::zeroed().mouse_y == 0 && RcCtl::zeroed().mouse_z
            == 0,
        RcCtl::zeroed().mouse_left == 0 && RcCtl::zeroed().mouse_right == 0,
        RcCtl::zeroed().key_value == 0,
{
}

/// Only a GSA sentence, with `GSA,` at bytes 3..7, is ever refused before it
/// reaches the parser.
pub proof fn law_only_gsa_refused(s: Seq<u8>)
    requires
        s.len() < 7 || s[3] != 0x47u8 || s[4] != 0x53u8 || s[5] != 0x41u8 || s[6] != 0x2Cu8,
    ensures
        !gsa_list_too_long(s),
{
}

} // verus!
