//! Arithmetic of the processor, on plain bytes: each operation gives its
//! result and the flag byte it leaves.  Results are stated by ordinary
//! arithmetic on integers, so that a carry is a sum that does not fit.
use vstd::prelude::*;

verus! {

/// The flag byte with Z in bit 7, N in bit 6, H in bit 5 and C in bit 4;
/// its low nibble is zero.
pub open spec fn flags(z: bool, n: bool, h: bool, c: bool) -> u8 {
    ((if z { 128int } else { 0 }) + (if n { 64int } else { 0 }) + (if h { 32int } else { 0 }) + (if c {
        16int
    } else {
        0
    })) as u8
}

pub open spec fn flag_z(f: u8) -> bool {
    f >= 128
}

pub open spec fn flag_n(f: u8) -> bool {
    (f / 64) % 2 == 1
}

pub open spec fn flag_h(f: u8) -> bool {
    (f / 32) % 2 == 1
}

pub open spec fn flag_c(f: u8) -> bool {
    (f / 16) % 2 == 1
}

/// Packing and reading the flags are inverse, and a packed byte has a zero
/// low nibble.
pub proof fn lemma_flags_round_trip(z: bool, n: bool, h: bool, c: bool)
    ensures
        flag_z(flags(z, n, h, c)) == z,
        flag_n(flags(z, n, h, c)) == n,
        flag_h(flags(z, n, h, c)) == h,
        flag_c(flags(z, n, h, c)) == c,
        flags(z, n, h, c) % 16 == 0,
{
}

pub fn pack_flags(z: bool, n: bool, h: bool, c: bool) -> (f: u8)
    ensures
        f == flags(z, n, h, c),
        f % 16 == 0,
{
    let zb: u8 = if z { 128 } else { 0 };
    let nb: u8 = if n { 64 } else { 0 };
    let hb: u8 = if h { 32 } else { 0 };
    let cb: u8 = if c { 16 } else { 0 };
    zb + nb + hb + cb
}

pub fn is_z(f: u8) -> (r: bool)
    ensures
        r == flag_z(f),
{
    f >= 128
}

pub fn is_n(f: u8) -> (r: bool)
    ensures
        r == flag_n(f),
{
    (f / 64) % 2 == 1
}

pub fn is_h(f: u8) -> (r: bool)
    ensures
        r == flag_h(f),
{
    (f / 32) % 2 == 1
}

pub fn is_c(f: u8) -> (r: bool)
    ensures
        r == flag_c(f),
{
    (f / 16) % 2 == 1
}

/// The byte that an integer wraps to.
pub open spec fn wrap8(x: int) -> u8 {
    (x % 256) as u8
}

/// The 16-bit word that an integer wraps to.
pub open spec fn wrap16(x: int) -> u16 {
    (x % 0x10000) as u16
}

/// A byte read as a signed offset, `-128..=127`.
pub open spec fn signed(e: u8) -> int {
    if e < 128 { e as int } else { e - 256 }
}

/// The word with high byte `hi` and low byte `lo`.
pub open spec fn pair(hi: u8, lo: u8) -> u16 {
    (hi * 256 + lo) as u16
}

pub fn make_pair(hi: u8, lo: u8) -> (w: u16)
    ensures
        w == pair(hi, lo),
        w / 256 == hi,
        w % 256 == lo,
{
    (hi as u16) * 256 + lo as u16
}

pub fn high_byte(w: u16) -> (b: u8)
    ensures
        b == w / 256,
{
    (w / 256) as u8
}

pub fn low_byte(w: u16) -> (b: u8)
    ensures
        b == w % 256,
{
    (w % 256) as u8
}

/// `w + 1`, wrapped.
pub fn inc16(w: u16) -> (r: u16)
    ensures
        r == wrap16(w + 1),
{
    if w == 0xFFFF { 0 } else { w + 1 }
}

/// `w - 1`, wrapped.
pub fn dec16(w: u16) -> (r: u16)
    ensures
        r == wrap16(w - 1),
{
    if w == 0 { 0xFFFF } else { w - 1 }
}

/// `w` moved by the signed offset `e`, wrapped.
pub fn offset16(w: u16, e: u8) -> (r: u16)
    ensures
        r == wrap16(w + signed(e)),
{
    let base: u32 = w as u32 + 0x10000 + e as u32;
    let moved: u32 = if e < 128 { base } else { base - 256 };
    (moved % 0x10000) as u16
}

/// `a + v + carry`: the sum wrapped to a byte; H is the carry out of bit 3,
/// C the carry out of bit 7.
pub open spec fn add8_spec(a: u8, v: u8, carry: bool) -> (u8, u8) {
    let c: int = if carry { 1 } else { 0 };
    let res = wrap8(a + v + c);
    (res, flags(res == 0, false, a % 16 + v % 16 + c > 15, a + v + c > 255))
}

pub fn add8(a: u8, v: u8, carry: bool) -> (r: (u8, u8))
    ensures
        r == add8_spec(a, v, carry),
        r.1 % 16 == 0,
{
    let c: u16 = if carry { 1 } else { 0 };
    let sum: u16 = a as u16 + v as u16 + c;
    let res: u8 = (sum % 256) as u8;
    let half: bool = (a % 16) as u16 + (v % 16) as u16 + c > 15;
    (res, pack_flags(res == 0, false, half, sum > 255))
}

/// `a - v - carry`: the difference wrapped to a byte; H is the borrow into
/// bit 3, C the borrow into bit 7.
pub open spec fn sub8_spec(a: u8, v: u8, carry: bool) -> (u8, u8) {
    let c: int = if carry { 1 } else { 0 };
    let res = wrap8(a - v - c);
    (res, flags(res == 0, true, a % 16 < v % 16 + c, a < v + c))
}

pub fn sub8(a: u8, v: u8, carry: bool) -> (r: (u8, u8))
    ensures
        r == sub8_spec(a, v, carry),
        r.1 % 16 == 0,
{
    let c: u16 = if carry { 1 } else { 0 };
    let diff: u16 = 0x100 + a as u16 - v as u16 - c;
    let res: u8 = (diff % 256) as u8;
    let half: bool = ((a % 16) as u16) < (v % 16) as u16 + c;
    (res, pack_flags(res == 0, true, half, (a as u16) < v as u16 + c))
}

/// `a & v`, with H set.
pub open spec fn and8_spec(a: u8, v: u8) -> (u8, u8) {
    (a & v, flags(a & v == 0, false, true, false))
}

pub fn and8(a: u8, v: u8) -> (r: (u8, u8))
    ensures
        r == and8_spec(a, v),
        r.1 % 16 == 0,
{
    let res: u8 = a & v;
    (res, pack_flags(res == 0, false, true, false))
}

/// `a ^ v`.
pub open spec fn xor8_spec(a: u8, v: u8) -> (u8, u8) {
    (a ^ v, flags(a ^ v == 0, false, false, false))
}

pub fn xor8(a: u8, v: u8) -> (r: (u8, u8))
    ensures
        r == xor8_spec(a, v),
        r.1 % 16 == 0,
{
    let res: u8 = a ^ v;
    (res, pack_flags(res == 0, false, false, false))
}

/// `a | v`.
pub open spec fn or8_spec(a: u8, v: u8) -> (u8, u8) {
    (a | v, flags(a | v == 0, false, false, false))
}

pub fn or8(a: u8, v: u8) -> (r: (u8, u8))
    ensures
        r == or8_spec(a, v),
        r.1 % 16 == 0,
{
    let res: u8 = a | v;
    (res, pack_flags(res == 0, false, false, false))
}

/// The eight accumulator operations by their three-bit code: ADD, ADC,
/// SUB, SBC, AND, XOR, OR, CP.  CP subtracts and keeps the accumulator.
pub open spec fn alu_spec(code: u8, a: u8, v: u8, f: u8) -> (u8, u8) {
    if code == 0 {
        add8_spec(a, v, false)
    } else if code == 1 {
        add8_spec(a, v, flag_c(f))
    } else if code == 2 {
        sub8_spec(a, v, false)
    } else if code == 3 {
        sub8_spec(a, v, flag_c(f))
    } else if code == 4 {
        and8_spec(a, v)
    } else if code == 5 {
        xor8_spec(a, v)
    } else if code == 6 {
        or8_spec(a, v)
    } else {
        (a, sub8_spec(a, v, false).1)
    }
}

pub fn alu(code: u8, a: u8, v: u8, f: u8) -> (r: (u8, u8))
    ensures
        r == alu_spec(code, a, v, f),
        r.1 % 16 == 0,
{
    if code == 0 {
        add8(a, v, false)
    } else if code == 1 {
        add8(a, v, is_c(f))
    } else if code == 2 {
        sub8(a, v, false)
    } else if code == 3 {
        sub8(a, v, is_c(f))
    } else if code == 4 {
        and8(a, v)
    } else if code == 5 {
        xor8(a, v)
    } else if code == 6 {
        or8(a, v)
    } else {
        (a, sub8(a, v, false).1)
    }
}

/// `v + 1` with Z, N and H; C is kept.
pub open spec fn inc8_spec(v: u8, f: u8) -> (u8, u8) {
    let res = wrap8(v + 1);
    (res, flags(res == 0, false, v % 16 == 15, flag_c(f)))
}

pub fn inc8(v: u8, f: u8) -> (r: (u8, u8))
    ensures
        r == inc8_spec(v, f),
        r.1 % 16 == 0,
{
    let res: u8 = if v == 255 { 0 } else { v + 1 };
    (res, pack_flags(res == 0, false, v % 16 == 15, is_c(f)))
}

/// `v - 1` with Z, N and H; C is kept.
pub open spec fn dec8_spec(v: u8, f: u8) -> (u8, u8) {
    let res = wrap8(v - 1);
    (res, flags(res == 0, true, v % 16 == 0, flag_c(f)))
}

pub fn dec8(v: u8, f: u8) -> (r: (u8, u8))
    ensures
        r == dec8_spec(v, f),
        r.1 % 16 == 0,
{
    let res: u8 = if v == 0 { 255 } else { v - 1 };
    (res, pack_flags(res == 0, true, v % 16 == 0, is_c(f)))
}

/// `hl + v` on 16 bits: Z is kept, H is the carry out of bit 11, C the
/// carry out of bit 15.
pub open spec fn add16_spec(hl: u16, v: u16, f: u8) -> (u16, u8) {
    (wrap16(hl + v), flags(flag_z(f), false, hl % 0x1000 + v % 0x1000 > 0xFFF, hl + v > 0xFFFF))
}

pub fn add16(hl: u16, v: u16, f: u8) -> (r: (u16, u8))
    ensures
        r == add16_spec(hl, v, f),
        r.1 % 16 == 0,
{
    let sum: u32 = hl as u32 + v as u32;
    let half: bool = (hl % 0x1000) as u32 + (v % 0x1000) as u32 > 0xFFF;
    ((sum % 0x10000) as u16, pack_flags(is_z(f), false, half, sum > 0xFFFF))
}

/// `sp + e` for a signed offset: Z and N are clear, H and C are the carries
/// out of bit 3 and bit 7 of the low byte of `sp` plus `e` taken unsigned.
pub open spec fn add_sp_spec(sp: u16, e: u8) -> (u16, u8) {
    (wrap16(sp + signed(e)), flags(false, false, sp % 16 + e % 16 > 15, sp % 256 + e > 255))
}

pub fn add_sp(sp: u16, e: u8) -> (r: (u16, u8))
    ensures
        r == add_sp_spec(sp, e),
        r.1 % 16 == 0,
{
    let half: bool = (sp % 16) + (e % 16) as u16 > 15;
    let carry: bool = (sp % 256) + e as u16 > 255;
    (offset16(sp, e), pack_flags(false, false, half, carry))
}

/// Decimal adjust after an addition: `0x60` is added if C is set or the
/// byte is above `0x99`, which also sets C; then `0x06` is added if H is
/// set or the low nibble is above 9.  Gives the byte and the new C.
pub open spec fn daa_add_spec(a: u8, h: bool, c: bool) -> (u8, bool) {
    let high = c || a > 0x99;
    let a1: int = if high { a + 0x60 } else { a as int };
    let a2: int = if h || a1 % 16 > 9 { a1 + 0x06 } else { a1 };
    (wrap8(a2), high)
}

/// Decimal adjust after a subtraction: `0x60` is taken off if C is set and
/// `0x06` if H is set.
pub open spec fn daa_sub_spec(a: u8, h: bool, c: bool) -> u8 {
    let a1: int = if c { a - 0x60 } else { a as int };
    let a2: int = if h { a1 - 0x06 } else { a1 };
    wrap8(a2)
}

/// Decimal adjust of the accumulator after an addition or a subtraction of
/// packed decimals, as N says: Z follows the result, N is kept, H is
/// cleared, and C may be set but is never cleared.
pub open spec fn daa_spec(a: u8, f: u8) -> (u8, u8) {
    if !flag_n(f) {
        let r = daa_add_spec(a, flag_h(f), flag_c(f));
        (r.0, flags(r.0 == 0, false, false, r.1))
    } else {
        let r = daa_sub_spec(a, flag_h(f), flag_c(f));
        (r, flags(r == 0, true, false, flag_c(f)))
    }
}

pub fn daa_add(a: u8, h: bool, c: bool) -> (r: (u8, bool))
    ensures
        r == daa_add_spec(a, h, c),
        c ==> r.1,
{
    let high: bool = c || a > 0x99;
    let a1: u16 = if high { a as u16 + 0x60 } else { a as u16 };
    let a2: u16 = if h || a1 % 16 > 9 { a1 + 0x06 } else { a1 };
    ((a2 % 256) as u8, high)
}

pub fn daa_sub(a: u8, h: bool, c: bool) -> (r: u8)
    ensures
        r == daa_sub_spec(a, h, c),
{
    let a1: u16 = if c { 0x200 + a as u16 - 0x60 } else { 0x200 + a as u16 };
    let a2: u16 = if h { a1 - 0x06 } else { a1 };
    (a2 % 256) as u8
}

pub fn daa8(a: u8, f: u8) -> (r: (u8, u8))
    ensures
        r == daa_spec(a, f),
        r.1 % 16 == 0,
        flag_c(f) ==> flag_c(r.1),
        !flag_h(r.1),
{
    let h: bool = is_h(f);
    let c: bool = is_c(f);
    if !is_n(f) {
        let r = daa_add(a, h, c);
        proof {
            lemma_flags_round_trip(r.0 == 0, false, false, r.1);
        }
        (r.0, pack_flags(r.0 == 0, false, false, r.1))
    } else {
        let r = daa_sub(a, h, c);
        proof {
            lemma_flags_round_trip(r == 0, true, false, c);
        }
        (r, pack_flags(r == 0, true, false, c))
    }
}

/// The eight rotates and shifts by their three-bit code: RLC, RRC, RL, RR,
/// SLA, SRA, SWAP, SRL.  Gives the result and the bit that goes to C.
pub open spec fn rotate_spec(code: u8, v: u8, carry: bool) -> (u8, bool) {
    let c: int = if carry { 1 } else { 0 };
    if code == 0 {
        (((v % 128) * 2 + v / 128) as u8, v >= 128)
    } else if code == 1 {
        ((v / 2 + (v % 2) * 128) as u8, v % 2 == 1)
    } else if code == 2 {
        (((v % 128) * 2 + c) as u8, v >= 128)
    } else if code == 3 {
        ((v / 2 + c * 128) as u8, v % 2 == 1)
    } else if code == 4 {
        (((v % 128) * 2) as u8, v >= 128)
    } else if code == 5 {
        ((v / 2 + (v / 128) * 128) as u8, v % 2 == 1)
    } else if code == 6 {
        (((v % 16) * 16 + v / 16) as u8, false)
    } else {
        (v / 2, v % 2 == 1)
    }
}

pub fn rotate(code: u8, v: u8, carry: bool) -> (r: (u8, bool))
    ensures
        r == rotate_spec(code, v, carry),
{
    let c: u8 = if carry { 1 } else { 0 };
    if code == 0 {
        ((v % 128) * 2 + v / 128, v >= 128)
    } else if code == 1 {
        (v / 2 + (v % 2) * 128, v % 2 == 1)
    } else if code == 2 {
        ((v % 128) * 2 + c, v >= 128)
    } else if code == 3 {
        (v / 2 + c * 128, v % 2 == 1)
    } else if code == 4 {
        ((v % 128) * 2, v >= 128)
    } else if code == 5 {
        (v / 2 + (v / 128) * 128, v % 2 == 1)
    } else if code == 6 {
        ((v % 16) * 16 + v / 16, false)
    } else {
        (v / 2, v % 2 == 1)
    }
}

/// The value of bit `b`, for `b < 8`.
pub open spec fn bit_weight(b: u8) -> u8 {
    if b == 0 { 1 } else if b == 1 { 2 } else if b == 2 { 4 } else if b == 3 { 8 }
    else if b == 4 { 16 } else if b == 5 { 32 } else if b == 6 { 64 } else { 128 }
}

/// Whether bit `b` of `v` is set.
pub open spec fn bit_is_set(v: u8, b: u8) -> bool {
    (v / bit_weight(b)) % 2 == 1
}

pub fn weight_of(b: u8) -> (w: u8)
    ensures
        w == bit_weight(b),
{
    if b == 0 { 1 } else if b == 1 { 2 } else if b == 2 { 4 } else if b == 3 { 8 }
    else if b == 4 { 16 } else if b == 5 { 32 } else if b == 6 { 64 } else { 128 }
}

pub fn test_bit(v: u8, b: u8) -> (r: bool)
    ensures
        r == bit_is_set(v, b),
{
    (v / weight_of(b)) % 2 == 1
}

/// `v` with bit `b` cleared.
pub open spec fn res_spec(v: u8, b: u8) -> u8 {
    if bit_is_set(v, b) { (v - bit_weight(b)) as u8 } else { v }
}

pub fn clear_bit(v: u8, b: u8) -> (r: u8)
    ensures
        r == res_spec(v, b),
        !bit_is_set(r, b),
{
    let w: u8 = weight_of(b);
    if (v / w) % 2 == 1 { v - w } else { v }
}

/// `v` with bit `b` set.
pub open spec fn set_spec(v: u8, b: u8) -> u8 {
    if bit_is_set(v, b) { v } else { (v + bit_weight(b)) as u8 }
}

pub fn set_bit(v: u8, b: u8) -> (r: u8)
    ensures
        r == set_spec(v, b),
        bit_is_set(r, b),
{
    let w: u8 = weight_of(b);
    if (v / w) % 2 == 1 { v } else { v + w }
}

} // verus!
