//! Facts about single bits of a byte, proved once by bit-blasting.
use vstd::prelude::*;

verus! {

/// Bit 2 of the status byte under the operations that touch the byte.
pub proof fn lemma_stat_bit2(stat: u8, val: u8)
    by (bit_vector)
    ensures
        (stat | 0x04) & 0x04 != 0,
        (stat & 0xFB) & 0x04 == 0,
        ((val & 0xF8) | (stat & 0x07)) & 0x04 == stat & 0x04,
{
}

/// Writing the mode into the low two bits of the status byte leaves bit 2
/// alone, and the mode can be read back.
pub proof fn lemma_mode_bits(stat: u8, mode: u8)
    by (bit_vector)
    requires
        mode <= 3,
    ensures
        ((stat & 0xFC) | mode) & 0x04 == stat & 0x04,
        ((stat & 0xFC) | mode) & 0x03 == mode,
        (stat & 0xFC) & 0x03 == 0,
        (stat | 0x04) & 0x03 == stat & 0x03,
        (stat & 0xFB) & 0x03 == stat & 0x03,
        stat & 0x03 <= 3,
{
}

/// What the registers with forced or unused bits read after a write of
/// `v`: the bits that can be written come back, the forced bits are set.
/// `s` stands for the byte held before, `d` and `b` for the two rows of the
/// joypad matrix, `st` for the status nibble of the sound unit.
pub proof fn lemma_masked_round_trip(v: u8, s: u8, d: u8, b: u8, st: u8)
    by (bit_vector)
    requires
        st <= 15,
    ensures
        v & 0xFF == v,
        v & 0x00 == 0x00,
        ((v & 0x07) | 0xF8) & 0x07 == v & 0x07,
        ((v & 0x07) | 0xF8) & 0xF8 == 0xF8,
        ((v | 0xE0) | 0xE0) & 0x1F == v & 0x1F,
        ((v | 0xE0) | 0xE0) & 0xE0 == 0xE0,
        (((v & 0xF8) | (s & 0x07)) | 0x80) & 0x78 == v & 0x78,
        (((v & 0xF8) | (s & 0x07)) | 0x80) & 0x80 == 0x80,
        ((0xC0 | ((v & 0x30) & 0x30)) | ((0x0F & d) & b)) & 0x30 == v & 0x30,
        ((0xC0 | ((v & 0x30) & 0x30)) | ((0x0F & d) & b)) & 0xC0 == 0xC0,
        (v | 0x80) & 0x7F == v & 0x7F,
        (v | 0x80) & 0x80 == 0x80,
        (v | 0x3F) & 0xC0 == v & 0xC0,
        (v | 0x3F) & 0x3F == 0x3F,
        (v | 0xBF) & 0x40 == v & 0x40,
        (v | 0xBF) & 0xBF == 0xBF,
        (v | 0x7F) & 0x80 == v & 0x80,
        (v | 0x7F) & 0x7F == 0x7F,
        (v | 0x9F) & 0x60 == v & 0x60,
        (v | 0x9F) & 0x9F == 0x9F,
        (((((s & 0x7F) | (v & 0x80)) & 0x80) | 0x70) | st) & 0x80 == v & 0x80,
        (((((s & 0x7F) | (v & 0x80)) & 0x80) | 0x70) | st) & 0x70 == 0x70,
        (v & 0x80 != 0) == (((s & 0x7F) | (v & 0x80)) & 0x80 != 0),
{
}

/// Requesting one interrupt leaves the request bits of the others alone.
pub proof fn lemma_request_bits(flag: u8)
    by (bit_vector)
    ensures
        (flag | 0x01) & 0x01 != 0,
        (flag | 0x02) & 0x01 == flag & 0x01,
        ((flag | 0x02) | 0x01) & 0x01 != 0,
{
}

/// Eight bytes that each hold one bit or nothing, ORed together: every bit
/// of the result is the bit of its byte.
pub proof fn lemma_button_bits(b0: u8, b1: u8, b2: u8, b3: u8, b4: u8, b5: u8, b6: u8, b7: u8)
    by (bit_vector)
    requires
        b0 == 0 || b0 == 0x01,
        b1 == 0 || b1 == 0x02,
        b2 == 0 || b2 == 0x04,
        b3 == 0 || b3 == 0x08,
        b4 == 0 || b4 == 0x10,
        b5 == 0 || b5 == 0x20,
        b6 == 0 || b6 == 0x40,
        b7 == 0 || b7 == 0x80,
    ensures
        ((b0 | b1 | b2 | b3 | b4 | b5 | b6 | b7) & 0x01 == 0) == (b0 == 0),
        ((b0 | b1 | b2 | b3 | b4 | b5 | b6 | b7) & 0x02 == 0) == (b1 == 0),
        ((b0 | b1 | b2 | b3 | b4 | b5 | b6 | b7) & 0x04 == 0) == (b2 == 0),
        ((b0 | b1 | b2 | b3 | b4 | b5 | b6 | b7) & 0x08 == 0) == (b3 == 0),
        ((b0 | b1 | b2 | b3 | b4 | b5 | b6 | b7) & 0x10 == 0) == (b4 == 0),
        ((b0 | b1 | b2 | b3 | b4 | b5 | b6 | b7) & 0x20 == 0) == (b5 == 0),
        ((b0 | b1 | b2 | b3 | b4 | b5 | b6 | b7) & 0x40 == 0) == (b6 == 0),
        ((b0 | b1 | b2 | b3 | b4 | b5 | b6 | b7) & 0x80 == 0) == (b7 == 0),
        ((b0 | b1 | b2 | b3 | b4 | b5 | b6 | b7) == 0xFF) == (b0 != 0 && b1 != 0 && b2 != 0 && b3 != 0
            && b4 != 0 && b5 != 0 && b6 != 0 && b7 != 0),
{
}

/// Among five request bits that are not all clear one is set, and clearing
/// one of them in a flag byte leaves the others as they are.
pub proof fn lemma_interrupt_bits(fired: u8, flag: u8)
    by (bit_vector)
    ensures
        fired & 0x1F != 0 ==> ((fired & 0x1F) & 0x01 != 0 || (fired & 0x1F) & 0x02 != 0 || (fired & 0x1F)
            & 0x04 != 0 || (fired & 0x1F) & 0x08 != 0 || (fired & 0x1F) & 0x10 != 0),
        (flag & 0xFE) & 0x01 == 0 && (flag & 0xFE) | 0x01 == flag | 0x01,
        (flag & 0xFD) & 0x02 == 0 && (flag & 0xFD) | 0x02 == flag | 0x02,
        (flag & 0xFB) & 0x04 == 0 && (flag & 0xFB) | 0x04 == flag | 0x04,
        (flag & 0xF7) & 0x08 == 0 && (flag & 0xF7) | 0x08 == flag | 0x08,
        (flag & 0xEF) & 0x10 == 0 && (flag & 0xEF) | 0x10 == flag | 0x10,
{
}

/// The low bits of the ROM bank number under the writes that select a bank:
/// the low part that a write gives is never 0 and stays as given, and a
/// write of the high part leaves the low part alone.
pub proof fn lemma_bank_bits(bank: u16, val: u8)
    by (bit_vector)
    ensures
        1u16 & 0x1F != 0 && 1u16 & 0x7F != 0,
        val & 0x1F != 0 ==> ((bank & 0x60) | ((val & 0x1F) as u16)) & 0x1F == (val & 0x1F) as u16,
        val & 0x1F != 0 ==> ((val & 0x1F) as u16) != 0,
        ((bank & 0x60) | 1u16) & 0x1F == 1,
        ((bank & 0x1F) | (((val & 0x03) as u16) << 5u16)) & 0x1F == bank & 0x1F,
        val & 0x7F != 0 ==> ((val & 0x7F) as u16) & 0x7F == (val & 0x7F) as u16 && ((val & 0x7F) as u16)
            != 0,
        ((bank & 0x100) | (val as u16)) & 0xFF == val as u16,
{
}

/// The status byte at power-on has its coincidence bit set.
pub proof fn lemma_power_on_stat()
    by (bit_vector)
    ensures
        0x85u8 & 0x04 != 0,
{
}

} // verus!
