//! The state of the remote controller and the decoding of its frames.
//!
//! A frame is 18 bytes long. The four stick channels and the roller are
//! 11-bit fields centred at 1024; bytes 6..12 carry the mouse motion as
//! little-endian `i16`s, bytes 12 and 13 the two mouse buttons, and bytes 14
//! and 15 the keyboard bit mask. The two switches sit in the top four bits of
//! byte 5.

use vstd::prelude::*;

use crate::bits::{
    lemma_as_i16, lemma_l_horiz, lemma_l_verti, lemma_low11, lemma_r_verti, lemma_switch_codes,
    lemma_u16_le,
};

verus! {

/// Length of one frame of the receiver.
pub const FRAME_LEN: usize = 18;

/// The raw value of a channel at rest.
pub const CH_VALUE_OFFSET: i16 = 1024;

/// The largest deflection, either way, that a channel can report.
pub const CH_VALUE_MAX: i16 = 660;

/// Position of a three-position switch on the transmitter.
#[derive(Debug, Clone, Copy, PartialEq, Eq)]
pub enum SwValue {
    SwMid,
    SwUp,
    SwDown,
}

impl Default for SwValue {
    fn default() -> (r: Self)
        ensures
            r == SwValue::SwMid,
    {
        SwValue::SwMid
    }
}

/// The decoded state of the remote controller.
#[derive(Debug, Clone, Copy, PartialEq, Eq)]
pub struct RcCtl {
    pub ch_l_horiz: i16,
    pub ch_l_verti: i16,
    pub ch_r_horiz: i16,
    pub ch_r_verti: i16,
    pub ch_roller: i16,
    pub sw_left: SwValue,
    pub sw_right: SwValue,
    pub mouse_x: i16,
    pub mouse_y: i16,
    pub mouse_z: i16,
    pub mouse_left: u8,
    pub mouse_right: u8,
    pub key_value: u16,
}

// ---------------------------------------------------------------------------
// The frame format, stated on the bytes.
// ---------------------------------------------------------------------------

/// The frame that an input of the receiver carries: an input of one frame
/// is that frame, an input of two frames carries the second one, and any
/// other length carries none.
pub open spec fn frame_of(data: Seq<u8>) -> Option<Seq<u8>> {
    if data.len() == FRAME_LEN {
        Some(data)
    } else if data.len() == 2 * FRAME_LEN {
        Some(data.subrange(FRAME_LEN as int, 2 * FRAME_LEN as int))
    } else {
        None
    }
}

/// A channel value: the low 11 bits of `raw`, less the value at rest.
pub open spec fn channel(raw: int) -> int {
    raw % 2048 - CH_VALUE_OFFSET
}

/// The unsigned little-endian 16-bit number made of two bytes.
pub open spec fn u16_le(lo: u8, hi: u8) -> int {
    lo + 256 * hi
}

/// The signed (two's complement) little-endian 16-bit number made of two bytes.
pub open spec fn i16_le(lo: u8, hi: u8) -> int {
    let v = u16_le(lo, hi);
    if v < 0x8000 {
        v
    } else {
        v - 0x10000
    }
}

pub open spec fn ch_r_horiz_of(f: Seq<u8>) -> int {
    channel(f[0] + 256 * f[1])
}

pub open spec fn ch_r_verti_of(f: Seq<u8>) -> int {
    channel(f[1] / 8 + 32 * f[2])
}

pub open spec fn ch_l_horiz_of(f: Seq<u8>) -> int {
    channel(f[2] / 64 + 4 * f[3] + 1024 * f[4])
}

pub open spec fn ch_l_verti_of(f: Seq<u8>) -> int {
    channel(f[4] / 2 + 128 * f[5])
}

pub open spec fn ch_roller_of(f: Seq<u8>) -> int {
    channel(f[16] + 256 * f[17])
}

/// The two-bit code of the left switch: bits 7 and 6 of byte 5.
pub open spec fn sw_left_code(f: Seq<u8>) -> int {
    f[5] as int / 64
}

/// The two-bit code of the right switch: bits 5 and 4 of byte 5.
pub open spec fn sw_right_code(f: Seq<u8>) -> int {
    (f[5] as int / 16) % 4
}

/// The switch position that a two-bit code stands for; code 0 stands for none.
pub open spec fn switch_of(code: int) -> Option<SwValue> {
    if code == 1 {
        Some(SwValue::SwUp)
    } else if code == 3 {
        Some(SwValue::SwMid)
    } else if code == 2 {
        Some(SwValue::SwDown)
    } else {
        None
    }
}

/// A channel value that the transmitter can send.
pub open spec fn channel_in_range(v: int) -> bool {
    -CH_VALUE_MAX <= v <= CH_VALUE_MAX
}

/// A frame whose every field holds a value that the receiver can send: the
/// five channels within +-660, both switch codes standing for a position,
/// and both mouse buttons 0 or 1.
pub open spec fn frame_valid(f: Seq<u8>) -> bool {
    &&& f.len() == FRAME_LEN
    &&& channel_in_range(ch_r_horiz_of(f))
    &&& channel_in_range(ch_r_verti_of(f))
    &&& channel_in_range(ch_l_horiz_of(f))
    &&& channel_in_range(ch_l_verti_of(f))
    &&& channel_in_range(ch_roller_of(f))
    &&& switch_of(sw_left_code(f)) is Some
    &&& switch_of(sw_right_code(f)) is Some
    &&& f[12] < 2
    &&& f[13] < 2
}

/// An input that `RcCtl::update` takes: one whose frame, if it carries one,
/// is valid.
pub open spec fn input_accepted(data: Seq<u8>) -> bool {
    frame_of(data) matches Some(f) ==> frame_valid(f)
}

/// The state that a valid frame describes.
pub open spec fn decode(f: Seq<u8>) -> RcCtl {
    RcCtl {
        ch_l_horiz: ch_l_horiz_of(f) as i16,
        ch_l_verti: ch_l_verti_of(f) as i16,
        ch_r_horiz: ch_r_horiz_of(f) as i16,
        ch_r_verti: ch_r_verti_of(f) as i16,
        ch_roller: ch_roller_of(f) as i16,
        sw_left: switch_of(sw_left_code(f)).unwrap(),
        sw_right: switch_of(sw_right_code(f)).unwrap(),
        mouse_x: i16_le(f[6], f[7]) as i16,
        mouse_y: i16_le(f[8], f[9]) as i16,
        mouse_z: i16_le(f[10], f[11]) as i16,
        mouse_left: f[12],
        mouse_right: f[13],
        key_value: u16_le(f[14], f[15]) as u16,
    }
}

/// The state after `s` takes the input `data`: the state that the frame of
/// `data` describes, or `s` itself where `data` carries no frame.
pub open spec fn updated(s: RcCtl, data: Seq<u8>) -> RcCtl {
    match frame_of(data) {
        Some(f) => decode(f),
        None => s,
    }
}

impl RcCtl {
    /// The state in which every field is zero and both switches are in the
    /// middle.
    pub open spec fn zeroed() -> RcCtl {
        RcCtl {
            ch_l_horiz: 0,
            ch_l_verti: 0,
            ch_r_horiz: 0,
            ch_r_verti: 0,
            ch_roller: 0,
            sw_left: SwValue::SwMid,
            sw_right: SwValue::SwMid,
            mouse_x: 0,
            mouse_y: 0,
            mouse_z: 0,
            mouse_left: 0,
            mouse_right: 0,
            key_value: 0,
        }
    }

    /// The state holds values that the transmitter can send: every channel
    /// within +-660 and both mouse buttons 0 or 1.
    pub open spec fn wf(self) -> bool {
        &&& channel_in_range(self.ch_l_horiz as int)
        &&& channel_in_range(self.ch_l_verti as int)
        &&& channel_in_range(self.ch_r_horiz as int)
        &&& channel_in_range(self.ch_r_verti as int)
        &&& channel_in_range(self.ch_roller as int)
        &&& self.mouse_left < 2
        &&& self.mouse_right < 2
    }
}

// ---------------------------------------------------------------------------
// Decoding of the fields.
// ---------------------------------------------------------------------------

/// Centres the low 11 bits of `raw` at zero.
fn channel_value(raw: u16) -> (r: i16)
    ensures
        r == channel(raw as int),
{
    proof {
        lemma_low11(raw);
    }
    let bits: i16 = (raw as i16) & 0x7FF;
    bits - CH_VALUE_OFFSET
}

/// Whether a channel value lies within +-660.
fn in_range(v: i16) -> (r: bool)
    ensures
        r == channel_in_range(v as int),
{
    -CH_VALUE_MAX <= v && v <= CH_VALUE_MAX
}

/// The switch position of a two-bit code that stands for one.
fn switch_value(code: u8) -> (r: SwValue)
    requires
        switch_of(code as int) is Some,
    ensures
        switch_of(code as int) == Some(r),
{
    if code == 1 {
        SwValue::SwUp
    } else if code == 3 {
        SwValue::SwMid
    } else {
        SwValue::SwDown
    }
}

/// The little-endian `u16` made of two bytes.
fn le_u16(lo: u8, hi: u8) -> (r: u16)
    ensures
        r as int == u16_le(lo, hi),
{
    proof {
        lemma_u16_le(lo, hi);
    }
    (lo as u16) | ((hi as u16) << 8u16)
}

/// The little-endian `i16` made of two bytes.
fn le_i16(lo: u8, hi: u8) -> (r: i16)
    ensures
        r as int == i16_le(lo, hi),
{
    let v: u16 = le_u16(lo, hi);
    proof {
        lemma_as_i16(v);
    }
    v as i16
}

/// The five channel values of a frame.
struct Channels {
    r_horiz: i16,
    r_verti: i16,
    l_horiz: i16,
    l_verti: i16,
    roller: i16,
}

/// Where the frame that `data` carries starts: 0 for an input of one frame,
/// 18 for an input of two, and none for any other length.
fn frame_start(data: &[u8]) -> (r: Option<usize>)
    ensures
        match r {
            Some(base) => frame_of(data@) == Some(
                data@.subrange(base as int, base + FRAME_LEN as int),
            ) && base + FRAME_LEN <= data@.len(),
            None => frame_of(data@) is None,
        },
{
    if data.len() == FRAME_LEN {
        assert(data@.subrange(0, FRAME_LEN as int) =~= data@);
        Some(0)
    } else if data.len() == 2 * FRAME_LEN {
        Some(FRAME_LEN)
    } else {
        None
    }
}

/// The channel values of the frame at `data[base..base + 18]`.
fn frame_channels(data: &[u8], base: usize) -> (r: Channels)
    requires
        base + FRAME_LEN <= data@.len(),
    ensures
        ({
            let f = data@.subrange(base as int, base + FRAME_LEN as int);
            &&& r.r_horiz == ch_r_horiz_of(f)
            &&& r.r_verti == ch_r_verti_of(f)
            &&& r.l_horiz == ch_l_horiz_of(f)
            &&& r.l_verti == ch_l_verti_of(f)
            &&& r.roller == ch_roller_of(f)
        }),
{
    let ghost f = data@.subrange(base as int, base + FRAME_LEN as int);
    assert(forall|i: int| 0 <= i < FRAME_LEN ==> f[i] == data@[base + i]);
    proof {
        lemma_r_verti(data[base + 1], data[base + 2]);
        lemma_l_horiz(data[base + 2], data[base + 3], data[base + 4]);
        lemma_l_verti(data[base + 4], data[base + 5]);
    }
    let r_horiz: i16 = channel_value(le_u16(data[base], data[base + 1]));
    let r_verti: i16 = channel_value(
        ((data[base + 1] as u16) >> 3u16) | ((data[base + 2] as u16) << 5u16),
    );
    let l_horiz: i16 = channel_value(
        ((data[base + 2] as u16) >> 6u16) | ((data[base + 3] as u16) << 2u16) | ((data[base
            + 4] as u16) << 10u16),
    );
    let l_verti: i16 = channel_value(
        ((data[base + 4] as u16) >> 1u16) | ((data[base + 5] as u16) << 7u16),
    );
    let roller: i16 = channel_value(le_u16(data[base + 16], data[base + 17]));
    Channels { r_horiz, r_verti, l_horiz, l_verti, roller }
}

/// The two-bit codes of the left and the right switch in byte 5 of a frame.
fn switch_codes(b: u8) -> (r: (u8, u8))
    ensures
        r.0 as int == b as int / 64,
        r.1 as int == (b as int / 16) % 4,
{
    proof {
        lemma_switch_codes(b);
    }
    ((b >> 6u8) & 0x3, (b >> 4u8) & 0x3)
}

/// Whether a mouse button byte is 0 or 1.
fn button_ok(b: u8) -> (r: bool)
    ensures
        r == (b < 2),
{
    proof {
        lemma_switch_codes(b);
    }
    (b >> 1u8) == 0
}

impl RcCtl {
    /// A controller state with every field zero and both switches in the
    /// middle.
    pub fn new() -> (r: Self)
        ensures
            r == RcCtl::zeroed(),
            r.wf(),
    {
        RcCtl {
            ch_l_horiz: 0,
            ch_l_verti: 0,
            ch_r_horiz: 0,
            ch_r_verti: 0,
            ch_roller: 0,
            sw_left: SwValue::SwMid,
            sw_right: SwValue::SwMid,
            mouse_x: 0,
            mouse_y: 0,
            mouse_z: 0,
            mouse_left: 0,
            mouse_right: 0,
            key_value: 0,
        }
    }

    /// Whether `update` takes `data`: true unless `data` carries a frame
    /// (it is one or two frames long) and that frame is not valid.
    pub fn accepts(data: &[u8]) -> (r: bool)
        ensures
            r == input_accepted(data@),
    {
        let base: usize = match frame_start(data) {
            Some(base) => base,
            None => return true,
        };
        let ghost f = frame_of(data@).unwrap();
        assert(forall|i: int| 0 <= i < FRAME_LEN ==> f[i] == data@[base + i]);
        let ch = frame_channels(data, base);
        let (left_code, right_code): (u8, u8) = switch_codes(data[base + 5]);
        let channels_ok: bool = in_range(ch.r_horiz) && in_range(ch.r_verti) && in_range(
            ch.l_horiz,
        ) && in_range(ch.l_verti) && in_range(ch.roller);
        let switches_ok: bool = left_code != 0 && right_code != 0;
        let buttons_ok: bool = button_ok(data[base + 12]) && button_ok(data[base + 13]);
        channels_ok && switches_ok && buttons_ok
    }

    /// Decodes the frame that `data` carries into the state. An input one
    /// frame long is that frame; an input two frames long is decoded from
    /// its second frame; an input of any other length leaves the state as
    /// it was.
    pub fn update(&mut self, data: &[u8])
        requires
            input_accepted(data@),
        ensures
            *final(self) == updated(*old(self), data@),
            frame_of(data@) is Some ==> final(self).wf(),
            old(self).wf() ==> final(self).wf(),
    {
        let base: usize = match frame_start(data) {
            Some(base) => base,
            None => return,
        };
        let ghost f = frame_of(data@).unwrap();
        assert(forall|i: int| 0 <= i < FRAME_LEN ==> f[i] == data@[base + i]);
        let ch = frame_channels(data, base);
        let (left_code, right_code): (u8, u8) = switch_codes(data[base + 5]);

        self.ch_r_horiz = ch.r_horiz;
        self.ch_r_verti = ch.r_verti;
        self.ch_l_horiz = ch.l_horiz;
        self.ch_l_verti = ch.l_verti;
        self.ch_roller = ch.roller;

        self.sw_left = switch_value(left_code);
        self.sw_right = switch_value(right_code);

        self.key_value = le_u16(data[base + 14], data[base + 15]);
        self.mouse_x = le_i16(data[base + 6], data[base + 7]);
        self.mouse_y = le_i16(data[base + 8], data[base + 9]);
        self.mouse_z = le_i16(data[base + 10], data[base + 11]);

        self.mouse_left = data[base + 12];
        self.mouse_right = data[base + 13];
    }
}

impl Default for RcCtl {
    fn default() -> (r: Self)
        ensures
            r == RcCtl::zeroed(),
    {
        RcCtl::new()
    }
}

} // verus!
