//! Facts about the bit operations that pick the fields out of a frame,
//! stated as plain arithmetic on the bytes.

use vstd::prelude::*;

verus! {

pub proof fn lemma_u16_le(lo: u8, hi: u8)
    ensures
        ((lo as u16) | ((hi as u16) << 8u16)) as int == lo as int + 256 * hi as int,
{
    assert(((lo as u16) | ((hi as u16) << 8u16)) as int == lo as int + 256 * hi as int) by (bit_vector);
}

pub proof fn lemma_low11(v: u16)
    ensures
        ((v as i16) & 0x7FFi16) as int == (v as int) % 2048,
{
    assert(((v as i16) & 0x7FFi16) as int == (v as int) % 2048) by (bit_vector);
}

pub proof fn lemma_as_i16(v: u16)
    ensures
        (v as i16) as int == if v < 0x8000 { v as int } else { v as int - 0x10000 },
{
    assert((v as i16) as int == if v < 0x8000 { v as int } else { v as int - 0x10000 }) by (bit_vector);
}


pub proof fn lemma_r_verti(b1: u8, b2: u8)
    ensures
        (((b1 as u16) >> 3u16) | ((b2 as u16) << 5u16)) as int == b1 as int / 8 + 32 * b2 as int,
{
    assert((((b1 as u16) >> 3u16) | ((b2 as u16) << 5u16)) as int == b1 as int / 8 + 32 * b2 as int)
        by (bit_vector);
}

pub proof fn lemma_l_horiz(b2: u8, b3: u8, b4: u8)
    ensures
        ((((b2 as u16) >> 6u16) | ((b3 as u16) << 2u16) | ((b4 as u16) << 10u16)) as int) % 2048
            == (b2 as int / 64 + 4 * b3 as int + 1024 * b4 as int) % 2048,
{
    assert(((((b2 as u16) >> 6u16) | ((b3 as u16) << 2u16) | ((b4 as u16) << 10u16)) as int) % 2048
        == (b2 as int / 64 + 4 * b3 as int + 1024 * b4 as int) % 2048) by (bit_vector);
}

pub proof fn lemma_l_verti(b4: u8, b5: u8)
    ensures
        (((b4 as u16) >> 1u16) | ((b5 as u16) << 7u16)) as int == b4 as int / 2 + 128 * b5 as int,
{
    assert((((b4 as u16) >> 1u16) | ((b5 as u16) << 7u16)) as int == b4 as int / 2 + 128 * b5 as int)
        by (bit_vector);
}

pub proof fn lemma_switch_codes(b: u8)
    ensures
        ((b >> 6u8) & 0x3u8) as int == b as int / 64,
        ((b >> 4u8) & 0x3u8) as int == (b as int / 16) % 4,
        ((b >> 1u8) == 0u8) == (b < 2),
{
    assert(((b >> 6u8) & 0x3u8) as int == b as int / 64) by (bit_vector);
    assert(((b >> 4u8) & 0x3u8) as int == (b as int / 16) % 4) by (bit_vector);
    assert(((b >> 1u8) == 0u8) == (b < 2)) by (bit_vector);
}

} // verus!
