//! The processor: its register file, interrupt dispatch, and `step`, which
//! decodes and executes one instruction and returns the cycles it took.
//!
//! `step_spec` is the instruction set as a function from the state before
//! to the state after and the cycle count; `step` is proved to compute it.
//! Opcodes are decoded by their octal fields `y = (op / 8) % 8` and
//! `z = op % 8`.
use vstd::prelude::*;
use crate::alu::{
    add16, add16_spec, add_sp, add_sp_spec, alu, alu_spec, clear_bit, daa8, daa_spec, dec16, dec8,
    dec8_spec, flag_c, flag_h, flag_n, flag_z, flags, high_byte, inc16, inc8, inc8_spec, is_c, is_z,
    low_byte, make_pair, offset16, pack_flags, pair, res_spec, rotate, rotate_spec, set_bit,
    set_spec, signed, test_bit, bit_is_set, wrap16, wrap8,
};
use crate::mmu::MMU;

verus! {

#[derive(Clone, Copy, Debug)]
pub struct Registers {
    pub a: u8,
    pub f: u8,
    pub b: u8,
    pub c: u8,
    pub d: u8,
    pub e: u8,
    pub h: u8,
    pub l: u8,
    pub pc: u16,
    pub sp: u16,
}

impl Registers {
    /// The 8-bit register with index `idx`: 0 B, 1 C, 2 D, 3 E, 4 H, 5 L,
    /// 7 A.  Index 6 stands for the byte at HL and is no register.
    pub open spec fn get8(self, idx: u8) -> u8 {
        if idx == 0 { self.b } else if idx == 1 { self.c } else if idx == 2 { self.d }
        else if idx == 3 { self.e } else if idx == 4 { self.h } else if idx == 5 { self.l }
        else { self.a }
    }

    pub open spec fn set8(self, idx: u8, v: u8) -> Registers {
        if idx == 0 { Registers { b: v, ..self } } else if idx == 1 { Registers { c: v, ..self } }
        else if idx == 2 { Registers { d: v, ..self } } else if idx == 3 { Registers { e: v, ..self } }
        else if idx == 4 { Registers { h: v, ..self } } else if idx == 5 { Registers { l: v, ..self } }
        else { Registers { a: v, ..self } }
    }

    pub open spec fn bc(self) -> u16 {
        pair(self.b, self.c)
    }

    pub open spec fn de(self) -> u16 {
        pair(self.d, self.e)
    }

    pub open spec fn hl(self) -> u16 {
        pair(self.h, self.l)
    }

    pub open spec fn af(self) -> u16 {
        pair(self.a, self.f)
    }

    pub open spec fn set_bc(self, v: u16) -> Registers {
        Registers { b: (v / 256) as u8, c: (v % 256) as u8, ..self }
    }

    pub open spec fn set_de(self, v: u16) -> Registers {
        Registers { d: (v / 256) as u8, e: (v % 256) as u8, ..self }
    }

    pub open spec fn set_hl(self, v: u16) -> Registers {
        Registers { h: (v / 256) as u8, l: (v % 256) as u8, ..self }
    }

    /// AF takes a word with the low nibble of F forced to zero.
    pub open spec fn set_af(self, v: u16) -> Registers {
        Registers { a: (v / 256) as u8, f: (v % 256 - v % 16) as u8, ..self }
    }

    /// The register pair with index `p`: 0 BC, 1 DE, 2 HL, 3 SP.
    pub open spec fn rp(self, p: u8) -> u16 {
        if p == 0 { self.bc() } else if p == 1 { self.de() } else if p == 2 { self.hl() } else { self.sp }
    }

    pub open spec fn set_rp(self, p: u8, v: u16) -> Registers {
        if p == 0 { self.set_bc(v) } else if p == 1 { self.set_de(v) } else if p == 2 { self.set_hl(v) }
        else { Registers { sp: v, ..self } }
    }

    /// The register pair that PUSH and POP name with index `p`: 0 BC, 1 DE,
    /// 2 HL, 3 AF.
    pub open spec fn rp2(self, p: u8) -> u16 {
        if p == 3 { self.af() } else { self.rp(p) }
    }

    pub open spec fn set_rp2(self, p: u8, v: u16) -> Registers {
        if p == 3 { self.set_af(v) } else { self.set_rp(p, v) }
    }

    /// The condition with code `cc`: 0 NZ, 1 Z, 2 NC, 3 C.
    pub open spec fn cond(self, cc: u8) -> bool {
        if cc == 0 { !flag_z(self.f) } else if cc == 1 { flag_z(self.f) }
        else if cc == 2 { !flag_c(self.f) } else { flag_c(self.f) }
    }
}

/// The registers as the boot program leaves them.
pub open spec fn boot_registers() -> Registers {
    Registers {
        a: 0x01, f: 0xB0, b: 0x00, c: 0x13, d: 0x00, e: 0xD8, h: 0x01, l: 0x4D,
        pc: 0x0100, sp: 0xFFFE,
    }
}

/// Whether `op` is an instruction; eleven opcodes are not.
pub open spec fn opcode_defined(op: u8) -> bool {
    !(op == 0xD3 || op == 0xDB || op == 0xDD || op == 0xE3 || op == 0xE4 || op == 0xEB
        || op == 0xEC || op == 0xED || op == 0xF4 || op == 0xFC || op == 0xFD)
}

pub fn is_opcode_defined(op: u8) -> (r: bool)
    ensures
        r == opcode_defined(op),
{
    !(op == 0xD3 || op == 0xDB || op == 0xDD || op == 0xE3 || op == 0xE4 || op == 0xEB
        || op == 0xEC || op == 0xED || op == 0xF4 || op == 0xFC || op == 0xFD)
}

pub struct CPU {
    pub registers: Registers,
    pub bus: MMU,
    /// The interrupt master enable.
    pub ime: bool,
    pub halted: bool,
    /// Set by EI; the next step turns it into `ime`.
    pub interrupt_enable_delay: bool,
}

impl CPU {
    /// The bus is well formed and the low nibble of F is zero.
    pub open spec fn wf(self) -> bool {
        self.bus.wf() && self.registers.f % 16 == 0
    }

    /// Whether the state is well formed.
    pub fn is_wf(&self) -> (r: bool)
        ensures
            r == self.wf(),
    {
        self.bus.is_wf() && self.registers.f % 16 == 0
    }

    // ----- the state, read and changed -----

    pub open spec fn regs(self, r: Registers) -> CPU {
        CPU { registers: r, ..self }
    }

    pub open spec fn with_bus(self, bus: MMU) -> CPU {
        CPU { bus: bus, ..self }
    }

    pub open spec fn with_a(self, a: u8) -> CPU {
        self.regs(Registers { a: a, ..self.registers })
    }

    pub open spec fn with_f(self, f: u8) -> CPU {
        self.regs(Registers { f: f, ..self.registers })
    }

    pub open spec fn with_pc(self, pc: u16) -> CPU {
        self.regs(Registers { pc: pc, ..self.registers })
    }

    pub open spec fn with_sp(self, sp: u16) -> CPU {
        self.regs(Registers { sp: sp, ..self.registers })
    }

    pub open spec fn with_hl(self, v: u16) -> CPU {
        self.regs(self.registers.set_hl(v))
    }

    pub open spec fn with_rp(self, p: u8, v: u16) -> CPU {
        self.regs(self.registers.set_rp(p, v))
    }

    pub open spec fn with_rp2(self, p: u8, v: u16) -> CPU {
        self.regs(self.registers.set_rp2(p, v))
    }

    /// The operand with index `idx`: a register, or for 6 the byte at HL.
    pub open spec fn reg(self, idx: u8) -> u8 {
        if idx == 6 { self.bus.read_spec(self.registers.hl()) } else { self.registers.get8(idx) }
    }

    pub open spec fn with_reg(self, idx: u8, v: u8) -> CPU {
        if idx == 6 {
            self.with_bus(self.bus.write_spec(self.registers.hl(), v))
        } else {
            self.regs(self.registers.set8(idx, v))
        }
    }

    pub open spec fn store(self, addr: u16, v: u8) -> CPU {
        self.with_bus(self.bus.write_spec(addr, v))
    }

    /// The byte at PC.
    pub open spec fn imm8(self) -> u8 {
        self.bus.read_spec(self.registers.pc)
    }

    /// The word at PC, low byte first.
    pub open spec fn imm16(self) -> u16 {
        pair(self.bus.read_spec(wrap16(self.registers.pc + 1)), self.bus.read_spec(self.registers.pc))
    }

    /// PC moved on by `n` bytes.
    pub open spec fn skip(self, n: int) -> CPU {
        self.with_pc(wrap16(self.registers.pc + n))
    }

    /// The state after `v` is pushed: the high byte goes to `SP - 1`, the
    /// low byte to `SP - 2`, and SP ends two lower.
    pub open spec fn push_spec(self, v: u16) -> CPU {
        let sp1 = wrap16(self.registers.sp - 1);
        let sp2 = wrap16(self.registers.sp - 2);
        self.with_sp(sp2).with_bus(
            self.bus.write_spec(sp1, (v / 256) as u8).write_spec(sp2, (v % 256) as u8),
        )
    }

    /// The word on top of the stack.
    pub open spec fn pop_value(self) -> u16 {
        pair(self.bus.read_spec(wrap16(self.registers.sp + 1)), self.bus.read_spec(self.registers.sp))
    }

    /// The state after a word is popped: SP ends two higher.
    pub open spec fn pop_state(self) -> CPU {
        self.with_sp(wrap16(self.registers.sp + 2))
    }

    // ----- construction -----

    /// A processor on `bus` in the state the boot program leaves: interrupts
    /// off, not halted, PC at `0x0100`.
    pub fn new(bus: MMU) -> (cpu: CPU)
        ensures
            cpu.registers == boot_registers(),
            cpu.bus == bus,
            !cpu.ime && !cpu.halted && !cpu.interrupt_enable_delay,
            bus.wf() ==> cpu.wf(),
    {
        CPU {
            registers: Registers {
                a: 0x01, f: 0xB0, b: 0x00, c: 0x13, d: 0x00, e: 0xD8, h: 0x01, l: 0x4D,
                pc: 0x0100, sp: 0xFFFE,
            },
            bus,
            ime: false,
            halted: false,
            interrupt_enable_delay: false,
        }
    }

    // ----- register access -----

    pub fn get_bc(&self) -> (v: u16)
        ensures
            v == self.registers.bc(),
    {
        make_pair(self.registers.b, self.registers.c)
    }

    pub fn set_bc(&mut self, value: u16)
        ensures
            *final(self) == old(self).regs(old(self).registers.set_bc(value)),
            final(self).registers.bc() == value,
    {
        self.registers.b = high_byte(value);
        self.registers.c = low_byte(value);
    }

    pub fn get_de(&self) -> (v: u16)
        ensures
            v == self.registers.de(),
    {
        make_pair(self.registers.d, self.registers.e)
    }

    pub fn set_de(&mut self, value: u16)
        ensures
            *final(self) == old(self).regs(old(self).registers.set_de(value)),
            final(self).registers.de() == value,
    {
        self.registers.d = high_byte(value);
        self.registers.e = low_byte(value);
    }

    pub fn get_hl(&self) -> (v: u16)
        ensures
            v == self.registers.hl(),
    {
        make_pair(self.registers.h, self.registers.l)
    }

    pub fn set_hl(&mut self, value: u16)
        ensures
            *final(self) == old(self).with_hl(value),
            final(self).registers.hl() == value,
    {
        self.registers.h = high_byte(value);
        self.registers.l = low_byte(value);
    }

    /// Reads the pair with index `p`: 0 BC, 1 DE, 2 HL, 3 SP.
    pub fn get_rp(&self, p: u8) -> (v: u16)
        ensures
            v == self.registers.rp(p),
    {
        if p == 0 { self.get_bc() } else if p == 1 { self.get_de() } else if p == 2 { self.get_hl() }
        else { self.registers.sp }
    }

    pub fn set_rp(&mut self, p: u8, value: u16)
        ensures
            *final(self) == old(self).with_rp(p, value),
    {
        if p == 0 {
            self.set_bc(value);
        } else if p == 1 {
            self.set_de(value);
        } else if p == 2 {
            self.set_hl(value);
        } else {
            self.registers.sp = value;
        }
    }

    /// Reads the pair that PUSH names with index `p`: 0 BC, 1 DE, 2 HL, 3 AF.
    pub fn get_rp2(&self, p: u8) -> (v: u16)
        ensures
            v == self.registers.rp2(p),
    {
        if p == 3 { make_pair(self.registers.a, self.registers.f) } else { self.get_rp(p) }
    }

    /// Writes the pair that POP names; the low nibble of F stays zero.
    pub fn set_rp2(&mut self, p: u8, value: u16)
        ensures
            *final(self) == old(self).with_rp2(p, value),
            p == 3 ==> final(self).registers.f % 16 == 0,
    {
        if p == 3 {
            let lo: u8 = low_byte(value);
            self.registers.a = high_byte(value);
            self.registers.f = lo - lo % 16;
        } else {
            self.set_rp(p, value);
        }
    }

    /// Reads the operand with index `index`; 6 reads the byte at HL.
    pub fn get_reg_by_index(&self, index: u8) -> (v: u8)
        requires
            self.wf(),
        ensures
            v == self.reg(index),
    {
        if index == 0 { self.registers.b } else if index == 1 { self.registers.c }
        else if index == 2 { self.registers.d } else if index == 3 { self.registers.e }
        else if index == 4 { self.registers.h } else if index == 5 { self.registers.l }
        else if index == 6 { self.bus.read_byte(self.get_hl()) } else { self.registers.a }
    }

    /// Writes the operand with index `index`; 6 writes the byte at HL.
    pub fn set_reg_by_index(&mut self, index: u8, val: u8)
        requires
            old(self).wf(),
        ensures
            *final(self) == old(self).with_reg(index, val),
            final(self).wf(),
    {
        if index == 0 {
            self.registers.b = val;
        } else if index == 1 {
            self.registers.c = val;
        } else if index == 2 {
            self.registers.d = val;
        } else if index == 3 {
            self.registers.e = val;
        } else if index == 4 {
            self.registers.h = val;
        } else if index == 5 {
            self.registers.l = val;
        } else if index == 6 {
            let addr: u16 = self.get_hl();
            self.bus.write_byte(addr, val);
        } else {
            self.registers.a = val;
        }
    }

    /// Whether the condition with code `cc` holds: 0 NZ, 1 Z, 2 NC, 3 C.
    pub fn condition(&self, cc: u8) -> (r: bool)
        ensures
            r == self.registers.cond(cc),
    {
        if cc == 0 { !is_z(self.registers.f) } else if cc == 1 { is_z(self.registers.f) }
        else if cc == 2 { !is_c(self.registers.f) } else { is_c(self.registers.f) }
    }

    // ----- fetch and stack -----

    /// Reads the byte at PC and moves PC past it.
    pub fn fetch_byte(&mut self) -> (byte: u8)
        requires
            old(self).wf(),
        ensures
            byte == old(self).imm8(),
            *final(self) == old(self).skip(1),
            final(self).wf(),
    {
        let byte: u8 = self.bus.read_byte(self.registers.pc);
        self.registers.pc = inc16(self.registers.pc);
        byte
    }

    /// Reads the word at PC, low byte first, and moves PC past it.
    pub fn fetch_u16(&mut self) -> (word: u16)
        requires
            old(self).wf(),
        ensures
            word == old(self).imm16(),
            *final(self) == old(self).skip(2),
            final(self).wf(),
    {
        let low: u8 = self.fetch_byte();
        let high: u8 = self.fetch_byte();
        make_pair(high, low)
    }

    /// Pushes `value`, high byte first.
    #[verifier::rlimit(40)]
    pub fn push_u16(&mut self, value: u16)
        requires
            old(self).wf(),
        ensures
            *final(self) == old(self).push_spec(value),
            final(self).wf(),
    {
        self.registers.sp = dec16(self.registers.sp);
        self.bus.write_byte(self.registers.sp, high_byte(value));
        self.registers.sp = dec16(self.registers.sp);
        self.bus.write_byte(self.registers.sp, low_byte(value));
    }

    /// Pops a word, low byte first.
    pub fn pop_u16(&mut self) -> (value: u16)
        requires
            old(self).wf(),
        ensures
            value == old(self).pop_value(),
            *final(self) == old(self).pop_state(),
            final(self).wf(),
    {
        let low: u8 = self.bus.read_byte(self.registers.sp);
        self.registers.sp = inc16(self.registers.sp);
        let high: u8 = self.bus.read_byte(self.registers.sp);
        self.registers.sp = inc16(self.registers.sp);
        make_pair(high, low)
    }

    // ----- arithmetic on the accumulator -----

    /// The state after the accumulator operation with code `code` on `value`.
    pub open spec fn alu_apply(self, code: u8, value: u8) -> CPU {
        let r = alu_spec(code, self.registers.a, value, self.registers.f);
        self.regs(Registers { a: r.0, f: r.1, ..self.registers })
    }

    /// Applies the accumulator operation with code `code`: 0 ADD, 1 ADC,
    /// 2 SUB, 3 SBC, 4 AND, 5 XOR, 6 OR, 7 CP.
    pub fn alu_op(&mut self, code: u8, value: u8)
        ensures
            *final(self) == old(self).alu_apply(code, value),
            final(self).registers.f % 16 == 0,
    {
        let r = alu(code, self.registers.a, value, self.registers.f);
        self.registers.a = r.0;
        self.registers.f = r.1;
    }

    /// `A + value`.
    pub fn add_a(&mut self, value: u8)
        ensures
            *final(self) == old(self).alu_apply(0, value),
            final(self).registers.f % 16 == 0,
    {
        self.alu_op(0, value);
    }

    /// `A + value + C`.
    pub fn adc_a(&mut self, value: u8)
        ensures
            *final(self) == old(self).alu_apply(1, value),
            final(self).registers.f % 16 == 0,
    {
        self.alu_op(1, value);
    }

    /// `A - value`.
    pub fn sub_a(&mut self, value: u8)
        ensures
            *final(self) == old(self).alu_apply(2, value),
            final(self).registers.f % 16 == 0,
    {
        self.alu_op(2, value);
    }

    /// `A - value - C`.
    pub fn sbc_a(&mut self, value: u8)
        ensures
            *final(self) == old(self).alu_apply(3, value),
            final(self).registers.f % 16 == 0,
    {
        self.alu_op(3, value);
    }

    /// `A & value`; H is set.
    pub fn and_a(&mut self, value: u8)
        ensures
            *final(self) == old(self).alu_apply(4, value),
            final(self).registers.f % 16 == 0,
    {
        self.alu_op(4, value);
    }

    /// `A ^ value`.
    pub fn xor_a(&mut self, value: u8)
        ensures
            *final(self) == old(self).alu_apply(5, value),
            final(self).registers.f % 16 == 0,
    {
        self.alu_op(5, value);
    }

    /// `A | value`.
    pub fn or_a(&mut self, value: u8)
        ensures
            *final(self) == old(self).alu_apply(6, value),
            final(self).registers.f % 16 == 0,
    {
        self.alu_op(6, value);
    }

    /// Sets the flags of `A - value` and keeps A.
    pub fn compare(&mut self, value: u8)
        ensures
            *final(self) == old(self).alu_apply(7, value),
            final(self).registers.f % 16 == 0,
    {
        self.alu_op(7, value);
    }

    /// `val + 1`; F takes Z, N and H and keeps C.
    pub fn inc_8bit(&mut self, val: u8) -> (res: u8)
        ensures
            res == inc8_spec(val, old(self).registers.f).0,
            *final(self) == old(self).with_f(inc8_spec(val, old(self).registers.f).1),
            final(self).registers.f % 16 == 0,
            flag_c(final(self).registers.f) == flag_c(old(self).registers.f),
    {
        let r = inc8(val, self.registers.f);
        proof {
            crate::alu::lemma_flags_round_trip(r.0 == 0, false, val % 16 == 15, flag_c(self.registers.f));
        }
        self.registers.f = r.1;
        r.0
    }

    /// `val - 1`; F takes Z, N and H and keeps C.
    pub fn dec_8bit(&mut self, val: u8) -> (res: u8)
        ensures
            res == dec8_spec(val, old(self).registers.f).0,
            *final(self) == old(self).with_f(dec8_spec(val, old(self).registers.f).1),
            final(self).registers.f % 16 == 0,
            flag_c(final(self).registers.f) == flag_c(old(self).registers.f),
    {
        let r = dec8(val, self.registers.f);
        proof {
            crate::alu::lemma_flags_round_trip(r.0 == 0, true, val % 16 == 0, flag_c(self.registers.f));
        }
        self.registers.f = r.1;
        r.0
    }

    /// The flag byte that a prefixed rotate or shift leaves: Z by the
    /// result, C by the bit shifted out.
    pub open spec fn shift_flags(code: u8, val: u8, f: u8) -> u8 {
        let r = rotate_spec(code, val, flag_c(f));
        flags(r.0 == 0, false, false, r.1)
    }

    /// Rotates or shifts `val` by the operation with code `code` and sets F.
    pub fn shift_8bit(&mut self, code: u8, val: u8) -> (res: u8)
        ensures
            res == rotate_spec(code, val, flag_c(old(self).registers.f)).0,
            *final(self) == old(self).with_f(Self::shift_flags(code, val, old(self).registers.f)),
            final(self).registers.f % 16 == 0,
    {
        let r = rotate(code, val, is_c(self.registers.f));
        self.registers.f = pack_flags(r.0 == 0, false, false, r.1);
        r.0
    }

    /// SLA: `val` shifted left, bit 7 to C.
    pub fn sla_8bit(&mut self, val: u8) -> (res: u8)
        ensures
            res == ((val % 128) * 2) as u8,
            *final(self) == old(self).with_f(flags(res == 0, false, false, val >= 128)),
    {
        self.shift_8bit(4, val)
    }

    /// SRA: `val` shifted right with bit 7 kept, bit 0 to C.
    pub fn sra_8bit(&mut self, val: u8) -> (res: u8)
        ensures
            res == (val / 2 + (val / 128) * 128) as u8,
            *final(self) == old(self).with_f(flags(res == 0, false, false, val % 2 == 1)),
    {
        self.shift_8bit(5, val)
    }

    /// The state after DAA.
    pub open spec fn daa_apply(self) -> CPU {
        let r = daa_spec(self.registers.a, self.registers.f);
        self.regs(Registers { a: r.0, f: r.1, ..self.registers })
    }

    /// Decimal adjust of the accumulator.
    pub fn daa(&mut self)
        ensures
            *final(self) == old(self).daa_apply(),
            final(self).registers.f % 16 == 0,
            !flag_h(final(self).registers.f),
            flag_c(old(self).registers.f) ==> flag_c(final(self).registers.f),
    {
        let r = daa8(self.registers.a, self.registers.f);
        self.registers.a = r.0;
        self.registers.f = r.1;
    }

    /// The state after `HL + value`.
    pub open spec fn add_hl_apply(self, value: u16) -> CPU {
        let r = add16_spec(self.registers.hl(), value, self.registers.f);
        self.with_f(r.1).with_hl(r.0)
    }

    /// `HL + value`; Z is kept.
    pub fn add_hl(&mut self, value: u16)
        ensures
            *final(self) == old(self).add_hl_apply(value),
            final(self).registers.f % 16 == 0,
    {
        let r = add16(self.get_hl(), value, self.registers.f);
        self.registers.f = r.1;
        self.set_hl(r.0);
    }

    /// Pushes PC and jumps to `address`; 16 cycles.
    pub fn rst(&mut self, address: u16) -> (cycles: u8)
        requires
            old(self).wf(),
        ensures
            *final(self) == old(self).push_spec(old(self).registers.pc).with_pc(address),
            cycles == 16,
            final(self).wf(),
    {
        let pc: u16 = self.registers.pc;
        self.push_u16(pc);
        self.registers.pc = address;
        16
    }

    // ----- interrupts -----

    /// The requested interrupts that are enabled, one bit each.
    pub open spec fn pending(self) -> u8 {
        (self.bus.interrupt_flag & self.bus.interrupt_enable) & 0x1F
    }

    /// The interrupt that is served first among `fired`: the lowest bit set.
    pub open spec fn first_interrupt(fired: u8) -> u8 {
        if fired & 0x01 != 0 { 0 } else if fired & 0x02 != 0 { 1 } else if fired & 0x04 != 0 { 2 }
        else if fired & 0x08 != 0 { 3 } else { 4 }
    }

    /// The byte that clears bit `i` of IF when ANDed with it.
    pub open spec fn acknowledge_mask(i: u8) -> u8 {
        if i == 0 { 0xFE } else if i == 1 { 0xFD } else if i == 2 { 0xFB } else if i == 3 { 0xF7 }
        else { 0xEF }
    }

    /// Interrupt dispatch.  A pending interrupt ends HALT whatever IME says.
    /// With IME set, the first pending interrupt is served: IME and its bit
    /// of IF are cleared, PC is pushed, PC becomes `0x40 + 8 * i`, and 20
    /// cycles are charged.  Otherwise nothing is charged.
    pub open spec fn handle_interrupts_spec(self) -> (CPU, u8) {
        let fired = self.pending();
        if fired == 0 {
            (self, 0)
        } else if !self.ime {
            (CPU { halted: false, ..self }, 0)
        } else {
            let i = Self::first_interrupt(fired);
            let taken = CPU {
                halted: false,
                ime: false,
                bus: MMU {
                    interrupt_flag: self.bus.interrupt_flag & Self::acknowledge_mask(i),
                    ..self.bus
                },
                ..self
            };
            (taken.push_spec(self.registers.pc).with_pc((0x40 + 8 * i) as u16), 20)
        }
    }

    /// Serves at most one interrupt and returns the cycles it cost: 20 if
    /// one was served, 0 if not.
    pub fn handle_interrupts(&mut self) -> (cycles: u8)
        requires
            old(self).wf(),
        ensures
            (*final(self), cycles) == old(self).handle_interrupts_spec(),
            final(self).wf(),
            cycles == 0 || cycles == 20,
    {
        let fired: u8 = (self.bus.interrupt_flag & self.bus.interrupt_enable) & 0x1F;
        if fired == 0 {
            return 0;
        }
        self.halted = false;
        if !self.ime {
            return 0;
        }
        self.ime = false;
        let i: u8 = if fired & 0x01 != 0 { 0 } else if fired & 0x02 != 0 { 1 } else if fired & 0x04 != 0 { 2 }
            else if fired & 0x08 != 0 { 3 } else { 4 };
        let mask: u8 = if i == 0 { 0xFE } else if i == 1 { 0xFD } else if i == 2 { 0xFB }
            else if i == 3 { 0xF7 } else { 0xEF };
        self.bus.interrupt_flag = self.bus.interrupt_flag & mask;
        let pc: u16 = self.registers.pc;
        self.push_u16(pc);
        self.registers.pc = 0x40 + 8 * (i as u16);
        20
    }

    // ----- prefixed instructions -----

    /// Cycles of a prefixed instruction: 8 on a register; on the byte at HL
    /// 12 for BIT and 16 for the others.
    pub open spec fn cb_cycles(cb: u8) -> u8 {
        if cb % 8 != 6 { 8 } else if cb / 64 == 1 { 12 } else { 16 }
    }

    /// A prefixed instruction.  With `x = cb / 64`, `y = (cb / 8) % 8` and
    /// `z = cb % 8` it works on operand `z`: for `x = 0` the rotate or shift
    /// with code `y`, for `x = 1` BIT `y`, for `x = 2` RES `y`, for `x = 3`
    /// SET `y`.  BIT sets Z to the complement of the bit, clears N, sets H
    /// and keeps C; RES and SET leave F alone.
    pub open spec fn execute_cb_spec(self, cb: u8) -> (CPU, u8) {
        let x = cb / 64;
        let y = (cb / 8) % 8;
        let z = cb % 8;
        let v = self.reg(z);
        let f = self.registers.f;
        let after = if x == 0 {
            self.with_f(Self::shift_flags(y, v, f)).with_reg(z, rotate_spec(y, v, flag_c(f)).0)
        } else if x == 1 {
            self.with_f(flags(!bit_is_set(v, y), false, true, flag_c(f)))
        } else if x == 2 {
            self.with_reg(z, res_spec(v, y))
        } else {
            self.with_reg(z, set_spec(v, y))
        };
        (after, Self::cb_cycles(cb))
    }

    /// Executes the prefixed instruction `cb_opcode`.
    pub fn execute_cb(&mut self, cb_opcode: u8) -> (cycles: u8)
        requires
            old(self).wf(),
        ensures
            (*final(self), cycles) == old(self).execute_cb_spec(cb_opcode),
            final(self).wf(),
    {
        let x: u8 = cb_opcode / 64;
        let y: u8 = (cb_opcode / 8) % 8;
        let z: u8 = cb_opcode % 8;
        let v: u8 = self.get_reg_by_index(z);
        if x == 0 {
            let res: u8 = self.shift_8bit(y, v);
            self.set_reg_by_index(z, res);
        } else if x == 1 {
            self.registers.f = pack_flags(!test_bit(v, y), false, true, is_c(self.registers.f));
        } else if x == 2 {
            self.set_reg_by_index(z, clear_bit(v, y));
        } else {
            self.set_reg_by_index(z, set_bit(v, y));
        }
        if z != 6 { 8 } else if x == 1 { 12 } else { 16 }
    }

    // ----- the first quarter of the opcodes, 0x00..=0x3F -----

    /// Column `z = 0`: NOP, LD (nn),SP, STOP, JR e and JR cc,e.  PC stands
    /// behind the opcode.
    pub open spec fn relative_spec(self, y: u8) -> (CPU, u8) {
        let after = self.skip(1);
        let target = after.with_pc(wrap16(after.registers.pc + signed(self.imm8())));
        if y == 0 {
            (self, 4)
        } else if y == 1 {
            let sp = self.registers.sp;
            (
                self.skip(2).store(self.imm16(), (sp % 256) as u8).store(
                    wrap16(self.imm16() + 1),
                    (sp / 256) as u8,
                ),
                20,
            )
        } else if y == 2 {
            (after, 4)
        } else if y == 3 {
            (target, 12)
        } else if self.registers.cond((y - 4) as u8) {
            (target, 12)
        } else {
            (after, 8)
        }
    }

    fn exec_relative(&mut self, y: u8) -> (cycles: u8)
        requires
            old(self).wf(),
            y < 8,
        ensures
            (*final(self), cycles) == old(self).relative_spec(y),
            final(self).wf(),
    {
        if y == 0 {
            4
        } else if y == 1 {
            let addr: u16 = self.fetch_u16();
            let sp: u16 = self.registers.sp;
            self.bus.write_byte(addr, low_byte(sp));
            self.bus.write_byte(inc16(addr), high_byte(sp));
            20
        } else if y == 2 {
            let _ = self.fetch_byte();
            4
        } else {
            let e: u8 = self.fetch_byte();
            if y == 3 || self.condition(y - 4) {
                self.registers.pc = offset16(self.registers.pc, e);
                12
            } else {
                8
            }
        }
    }

    /// Column `z = 1`: LD rp,nn for even `y`, ADD HL,rp for odd `y`.
    pub open spec fn pair_load_spec(self, y: u8) -> (CPU, u8) {
        let p = y / 2;
        if y % 2 == 0 {
            (self.skip(2).with_rp(p, self.imm16()), 12)
        } else {
            (self.add_hl_apply(self.registers.rp(p)), 8)
        }
    }

    fn exec_pair_load(&mut self, y: u8) -> (cycles: u8)
        requires
            old(self).wf(),
            y < 8,
        ensures
            (*final(self), cycles) == old(self).pair_load_spec(y),
            final(self).wf(),
    {
        let p: u8 = y / 2;
        if y % 2 == 0 {
            let v: u16 = self.fetch_u16();
            self.set_rp(p, v);
            12
        } else {
            let v: u16 = self.get_rp(p);
            self.add_hl(v);
            8
        }
    }

    /// The address that column `z = 2` works on: BC, DE, HL, HL.
    pub open spec fn indirect_address(self, p: u8) -> u16 {
        if p == 0 { self.registers.bc() } else if p == 1 { self.registers.de() } else { self.registers.hl() }
    }

    /// Column `z = 2`: A to or from the byte at BC, DE, HL+ or HL-.  Even
    /// `y` stores A, odd `y` loads it; HL+ and HL- move HL afterwards.
    pub open spec fn indirect_spec(self, y: u8) -> (CPU, u8) {
        let p = y / 2;
        let addr = self.indirect_address(p);
        let moved = if y % 2 == 0 {
            self.store(addr, self.registers.a)
        } else {
            self.with_a(self.bus.read_spec(addr))
        };
        let after = if p == 2 {
            moved.with_hl(wrap16(addr + 1))
        } else if p == 3 {
            moved.with_hl(wrap16(addr - 1))
        } else {
            moved
        };
        (after, 8)
    }

    fn exec_indirect(&mut self, y: u8) -> (cycles: u8)
        requires
            old(self).wf(),
            y < 8,
        ensures
            (*final(self), cycles) == old(self).indirect_spec(y),
            final(self).wf(),
    {
        let p: u8 = y / 2;
        let addr: u16 = if p == 0 { self.get_bc() } else if p == 1 { self.get_de() } else { self.get_hl() };
        if y % 2 == 0 {
            self.bus.write_byte(addr, self.registers.a);
        } else {
            self.registers.a = self.bus.read_byte(addr);
        }
        if p == 2 {
            self.set_hl(inc16(addr));
        } else if p == 3 {
            self.set_hl(dec16(addr));
        }
        8
    }

    /// Column `z = 3`: INC rp for even `y`, DEC rp for odd `y`; no flag
    /// changes.
    pub open spec fn pair_step_spec(self, y: u8) -> (CPU, u8) {
        let p = y / 2;
        let v = self.registers.rp(p);
        (self.with_rp(p, if y % 2 == 0 { wrap16(v + 1) } else { wrap16(v - 1) }), 8)
    }

    fn exec_pair_step(&mut self, y: u8) -> (cycles: u8)
        requires
            y < 8,
        ensures
            (*final(self), cycles) == old(self).pair_step_spec(y),
            final(self).registers.f == old(self).registers.f,
            final(self).bus == old(self).bus,
    {
        let p: u8 = y / 2;
        let v: u16 = self.get_rp(p);
        self.set_rp(p, if y % 2 == 0 { inc16(v) } else { dec16(v) });
        8
    }

    /// Columns `z = 4` and `z = 5`: INC and DEC of operand `y`.
    pub open spec fn byte_step_spec(self, y: u8, down: bool) -> (CPU, u8) {
        let v = self.reg(y);
        let r = if down { dec8_spec(v, self.registers.f) } else { inc8_spec(v, self.registers.f) };
        (self.with_f(r.1).with_reg(y, r.0), if y == 6 { 12u8 } else { 4u8 })
    }

    fn exec_byte_step(&mut self, y: u8, down: bool) -> (cycles: u8)
        requires
            old(self).wf(),
            y < 8,
        ensures
            (*final(self), cycles) == old(self).byte_step_spec(y, down),
            final(self).wf(),
    {
        let v: u8 = self.get_reg_by_index(y);
        let res: u8 = if down { self.dec_8bit(v) } else { self.inc_8bit(v) };
        self.set_reg_by_index(y, res);
        if y == 6 { 12 } else { 4 }
    }

    /// Column `z = 6`: LD of the byte behind the opcode into operand `y`.
    pub open spec fn load_immediate_spec(self, y: u8) -> (CPU, u8) {
        (self.skip(1).with_reg(y, self.imm8()), if y == 6 { 12u8 } else { 8u8 })
    }

    fn exec_load_immediate(&mut self, y: u8) -> (cycles: u8)
        requires
            old(self).wf(),
            y < 8,
        ensures
            (*final(self), cycles) == old(self).load_immediate_spec(y),
            final(self).wf(),
    {
        let v: u8 = self.fetch_byte();
        self.set_reg_by_index(y, v);
        if y == 6 { 12 } else { 8 }
    }

    /// Column `z = 7`: RLCA, RRCA, RLA, RRA, which rotate A and clear Z;
    /// DAA; CPL, which complements A and sets N and H; SCF and CCF, which
    /// set and complement C and clear N and H.
    pub open spec fn accumulator_spec(self, y: u8) -> (CPU, u8) {
        let a = self.registers.a;
        let f = self.registers.f;
        let after = if y < 4 {
            let r = rotate_spec(y, a, flag_c(f));
            self.regs(Registers { a: r.0, f: flags(false, false, false, r.1), ..self.registers })
        } else if y == 4 {
            self.daa_apply()
        } else if y == 5 {
            self.regs(
                Registers { a: (255 - a) as u8, f: flags(flag_z(f), true, true, flag_c(f)), ..self.registers },
            )
        } else if y == 6 {
            self.with_f(flags(flag_z(f), false, false, true))
        } else {
            self.with_f(flags(flag_z(f), false, false, !flag_c(f)))
        };
        (after, 4)
    }

    fn exec_accumulator(&mut self, y: u8) -> (cycles: u8)
        requires
            y < 8,
        ensures
            (*final(self), cycles) == old(self).accumulator_spec(y),
            final(self).registers.f % 16 == 0,
            final(self).bus == old(self).bus,
    {
        let f: u8 = self.registers.f;
        if y < 4 {
            let r = rotate(y, self.registers.a, is_c(f));
            self.registers.a = r.0;
            self.registers.f = pack_flags(false, false, false, r.1);
        } else if y == 4 {
            self.daa();
        } else if y == 5 {
            self.registers.a = 255 - self.registers.a;
            self.registers.f = pack_flags(is_z(f), true, true, is_c(f));
        } else if y == 6 {
            self.registers.f = pack_flags(is_z(f), false, false, true);
        } else {
            self.registers.f = pack_flags(is_z(f), false, false, !is_c(f));
        }
        4
    }

    /// The opcodes `0x00..=0x3F`, by column.
    pub open spec fn quarter0_spec(self, op: u8) -> (CPU, u8) {
        let y = (op / 8) % 8;
        let z = op % 8;
        if z == 0 {
            self.relative_spec(y)
        } else if z == 1 {
            self.pair_load_spec(y)
        } else if z == 2 {
            self.indirect_spec(y)
        } else if z == 3 {
            self.pair_step_spec(y)
        } else if z == 4 {
            self.byte_step_spec(y, false)
        } else if z == 5 {
            self.byte_step_spec(y, true)
        } else if z == 6 {
            self.load_immediate_spec(y)
        } else {
            self.accumulator_spec(y)
        }
    }

    fn exec_quarter0(&mut self, op: u8) -> (cycles: u8)
        requires
            old(self).wf(),
        ensures
            (*final(self), cycles) == old(self).quarter0_spec(op),
            final(self).wf(),
    {
        let y: u8 = (op / 8) % 8;
        let z: u8 = op % 8;
        if z == 0 {
            self.exec_relative(y)
        } else if z == 1 {
            self.exec_pair_load(y)
        } else if z == 2 {
            self.exec_indirect(y)
        } else if z == 3 {
            self.exec_pair_step(y)
        } else if z == 4 {
            self.exec_byte_step(y, false)
        } else if z == 5 {
            self.exec_byte_step(y, true)
        } else if z == 6 {
            self.exec_load_immediate(y)
        } else {
            self.exec_accumulator(y)
        }
    }

    // ----- the middle half, 0x40..=0xBF -----

    /// The opcodes `0x40..=0x7F`: LD of operand `z` into operand `y`, and
    /// HALT at `0x76`.
    pub open spec fn quarter1_spec(self, op: u8) -> (CPU, u8) {
        let y = (op / 8) % 8;
        let z = op % 8;
        if op == 0x76 {
            (CPU { halted: true, ..self }, 4)
        } else {
            (self.with_reg(y, self.reg(z)), if y == 6 || z == 6 { 8u8 } else { 4u8 })
        }
    }

    fn exec_quarter1(&mut self, op: u8) -> (cycles: u8)
        requires
            old(self).wf(),
        ensures
            (*final(self), cycles) == old(self).quarter1_spec(op),
            final(self).wf(),
    {
        let y: u8 = (op / 8) % 8;
        let z: u8 = op % 8;
        if op == 0x76 {
            self.halted = true;
            4
        } else {
            let v: u8 = self.get_reg_by_index(z);
            self.set_reg_by_index(y, v);
            if y == 6 || z == 6 { 8 } else { 4 }
        }
    }

    /// The opcodes `0x80..=0xBF`: the accumulator operation with code `y`
    /// on operand `z`.
    pub open spec fn quarter2_spec(self, op: u8) -> (CPU, u8) {
        let y = (op / 8) % 8;
        let z = op % 8;
        (self.alu_apply(y, self.reg(z)), if z == 6 { 8u8 } else { 4u8 })
    }

    fn exec_quarter2(&mut self, op: u8) -> (cycles: u8)
        requires
            old(self).wf(),
        ensures
            (*final(self), cycles) == old(self).quarter2_spec(op),
            final(self).wf(),
    {
        let y: u8 = (op / 8) % 8;
        let z: u8 = op % 8;
        let v: u8 = self.get_reg_by_index(z);
        self.alu_op(y, v);
        if z == 6 { 8 } else { 4 }
    }

    // ----- the last quarter, 0xC0..=0xFF -----

    /// The state after a return: PC is the word popped.
    pub open spec fn return_spec(self) -> CPU {
        self.pop_state().with_pc(self.pop_value())
    }

    /// The state after a call of `target`: PC is pushed, then PC is `target`.
    pub open spec fn call_spec(self, target: u16) -> CPU {
        self.push_spec(self.registers.pc).with_pc(target)
    }

    /// The address `0xFF00 + low` in the high page.
    pub open spec fn high_page(low: u8) -> u16 {
        (0xFF00 + low) as u16
    }

    /// Column `z = 0`: RET cc, LDH (n),A, ADD SP,e, LDH A,(n), LD HL,SP+e.
    pub open spec fn column0_spec(self, y: u8) -> (CPU, u8) {
        let r = add_sp_spec(self.registers.sp, self.imm8());
        if y < 4 {
            if self.registers.cond(y) { (self.return_spec(), 20) } else { (self, 8) }
        } else if y == 4 {
            (self.skip(1).store(Self::high_page(self.imm8()), self.registers.a), 12)
        } else if y == 5 {
            (self.skip(1).with_f(r.1).with_sp(r.0), 16)
        } else if y == 6 {
            (self.skip(1).with_a(self.bus.read_spec(Self::high_page(self.imm8()))), 12)
        } else {
            (self.skip(1).with_f(r.1).with_hl(r.0), 12)
        }
    }

    fn exec_column0(&mut self, y: u8) -> (cycles: u8)
        requires
            old(self).wf(),
            y < 8,
        ensures
            (*final(self), cycles) == old(self).column0_spec(y),
            final(self).wf(),
    {
        if y < 4 {
            if self.condition(y) {
                let pc: u16 = self.pop_u16();
                self.registers.pc = pc;
                20
            } else {
                8
            }
        } else if y == 4 {
            let n: u8 = self.fetch_byte();
            self.bus.write_byte(0xFF00 + n as u16, self.registers.a);
            12
        } else if y == 5 {
            let e: u8 = self.fetch_byte();
            let r = add_sp(self.registers.sp, e);
            self.registers.f = r.1;
            self.registers.sp = r.0;
            16
        } else if y == 6 {
            let n: u8 = self.fetch_byte();
            self.registers.a = self.bus.read_byte(0xFF00 + n as u16);
            12
        } else {
            let e: u8 = self.fetch_byte();
            let r = add_sp(self.registers.sp, e);
            self.registers.f = r.1;
            self.set_hl(r.0);
            12
        }
    }

    /// Column `z = 1`: POP for even `y`; RET, RETI, JP HL and LD SP,HL for
    /// odd `y`.  POP AF clears the low nibble of F; RETI sets IME at once.
    pub open spec fn column1_spec(self, y: u8) -> (CPU, u8) {
        let p = y / 2;
        if y % 2 == 0 {
            (self.pop_state().with_rp2(p, self.pop_value()), 12)
        } else if p == 0 {
            (self.return_spec(), 16)
        } else if p == 1 {
            (CPU { ime: true, ..self.return_spec() }, 16)
        } else if p == 2 {
            (self.with_pc(self.registers.hl()), 4)
        } else {
            (self.with_sp(self.registers.hl()), 8)
        }
    }

    fn exec_column1(&mut self, y: u8) -> (cycles: u8)
        requires
            old(self).wf(),
            y < 8,
        ensures
            (*final(self), cycles) == old(self).column1_spec(y),
            final(self).wf(),
    {
        let p: u8 = y / 2;
        if y % 2 == 0 {
            let v: u16 = self.pop_u16();
            self.set_rp2(p, v);
            12
        } else if p == 0 {
            let pc: u16 = self.pop_u16();
            self.registers.pc = pc;
            16
        } else if p == 1 {
            let pc: u16 = self.pop_u16();
            self.registers.pc = pc;
            self.ime = true;
            16
        } else if p == 2 {
            self.registers.pc = self.get_hl();
            4
        } else {
            self.registers.sp = self.get_hl();
            8
        }
    }

    /// Column `z = 2`: JP cc,nn, and A to or from the byte at `0xFF00 + C`
    /// or at `nn`.
    pub open spec fn column2_spec(self, y: u8) -> (CPU, u8) {
        let c_page = Self::high_page(self.registers.c);
        if y < 4 {
            if self.registers.cond(y) { (self.with_pc(self.imm16()), 16) } else { (self.skip(2), 12) }
        } else if y == 4 {
            (self.store(c_page, self.registers.a), 8)
        } else if y == 5 {
            (self.skip(2).store(self.imm16(), self.registers.a), 16)
        } else if y == 6 {
            (self.with_a(self.bus.read_spec(c_page)), 8)
        } else {
            (self.skip(2).with_a(self.bus.read_spec(self.imm16())), 16)
        }
    }

    fn exec_column2(&mut self, y: u8) -> (cycles: u8)
        requires
            old(self).wf(),
            y < 8,
        ensures
            (*final(self), cycles) == old(self).column2_spec(y),
            final(self).wf(),
    {
        if y < 4 {
            let target: u16 = self.fetch_u16();
            if self.condition(y) {
                self.registers.pc = target;
                16
            } else {
                12
            }
        } else if y == 4 {
            self.bus.write_byte(0xFF00 + self.registers.c as u16, self.registers.a);
            8
        } else if y == 5 {
            let addr: u16 = self.fetch_u16();
            self.bus.write_byte(addr, self.registers.a);
            16
        } else if y == 6 {
            self.registers.a = self.bus.read_byte(0xFF00 + self.registers.c as u16);
            8
        } else {
            let addr: u16 = self.fetch_u16();
            self.registers.a = self.bus.read_byte(addr);
            16
        }
    }

    /// Column `z = 3`: JP nn, the prefix `0xCB`, DI and EI.  DI clears IME
    /// and a waiting EI; EI only sets the latch that the next step turns
    /// into IME.
    pub open spec fn column3_spec(self, y: u8) -> (CPU, u8) {
        if y == 0 {
            (self.with_pc(self.imm16()), 16)
        } else if y == 1 {
            self.skip(1).execute_cb_spec(self.imm8())
        } else if y == 6 {
            (CPU { ime: false, interrupt_enable_delay: false, ..self }, 4)
        } else {
            (CPU { interrupt_enable_delay: true, ..self }, 4)
        }
    }

    fn exec_column3(&mut self, y: u8) -> (cycles: u8)
        requires
            old(self).wf(),
            y == 0 || y == 1 || y == 6 || y == 7,
        ensures
            (*final(self), cycles) == old(self).column3_spec(y),
            final(self).wf(),
    {
        if y == 0 {
            let target: u16 = self.fetch_u16();
            self.registers.pc = target;
            16
        } else if y == 1 {
            let cb: u8 = self.fetch_byte();
            self.execute_cb(cb)
        } else if y == 6 {
            self.ime = false;
            self.interrupt_enable_delay = false;
            4
        } else {
            self.interrupt_enable_delay = true;
            4
        }
    }

    /// Column `z = 4`: CALL cc,nn.
    pub open spec fn column4_spec(self, y: u8) -> (CPU, u8) {
        if self.registers.cond(y) {
            (self.skip(2).call_spec(self.imm16()), 24)
        } else {
            (self.skip(2), 12)
        }
    }

    fn exec_column4(&mut self, y: u8) -> (cycles: u8)
        requires
            old(self).wf(),
            y < 4,
        ensures
            (*final(self), cycles) == old(self).column4_spec(y),
            final(self).wf(),
    {
        let target: u16 = self.fetch_u16();
        if self.condition(y) {
            let _ = self.rst(target);
            24
        } else {
            12
        }
    }

    /// Column `z = 5`: PUSH for even `y`, CALL nn for `y = 1`.
    pub open spec fn column5_spec(self, y: u8) -> (CPU, u8) {
        if y % 2 == 0 {
            (self.push_spec(self.registers.rp2(y / 2)), 16)
        } else {
            (self.skip(2).call_spec(self.imm16()), 24)
        }
    }

    fn exec_column5(&mut self, y: u8) -> (cycles: u8)
        requires
            old(self).wf(),
            y % 2 == 0 || y == 1,
            y < 8,
        ensures
            (*final(self), cycles) == old(self).column5_spec(y),
            final(self).wf(),
    {
        if y % 2 == 0 {
            let v: u16 = self.get_rp2(y / 2);
            self.push_u16(v);
            16
        } else {
            let target: u16 = self.fetch_u16();
            let _ = self.rst(target);
            24
        }
    }

    /// The opcodes `0xC0..=0xFF`, by column.  Column 6 applies the
    /// accumulator operation with code `y` to the byte behind the opcode;
    /// column 7 is RST to `8 * y`.
    pub open spec fn quarter3_spec(self, op: u8) -> (CPU, u8) {
        let y = (op / 8) % 8;
        let z = op % 8;
        if z == 0 {
            self.column0_spec(y)
        } else if z == 1 {
            self.column1_spec(y)
        } else if z == 2 {
            self.column2_spec(y)
        } else if z == 3 {
            self.column3_spec(y)
        } else if z == 4 {
            self.column4_spec(y)
        } else if z == 5 {
            self.column5_spec(y)
        } else if z == 6 {
            (self.skip(1).alu_apply(y, self.imm8()), 8)
        } else {
            (self.call_spec((8 * y) as u16), 16)
        }
    }

    fn exec_quarter3(&mut self, op: u8) -> (cycles: u8)
        requires
            old(self).wf(),
            opcode_defined(op),
            op >= 0xC0,
        ensures
            (*final(self), cycles) == old(self).quarter3_spec(op),
            final(self).wf(),
    {
        let y: u8 = (op / 8) % 8;
        let z: u8 = op % 8;
        if z == 0 {
            self.exec_column0(y)
        } else if z == 1 {
            self.exec_column1(y)
        } else if z == 2 {
            self.exec_column2(y)
        } else if z == 3 {
            self.exec_column3(y)
        } else if z == 4 {
            self.exec_column4(y)
        } else if z == 5 {
            self.exec_column5(y)
        } else if z == 6 {
            let v: u8 = self.fetch_byte();
            self.alu_op(y, v);
            8
        } else {
            self.rst(8 * (y as u16))
        }
    }

    // ----- one instruction -----

    /// The instruction `op`, with PC standing behind the opcode.  An opcode
    /// that is no instruction has no effect here; `step` does not take one.
    pub open spec fn execute_spec(self, op: u8) -> (CPU, u8) {
        if !opcode_defined(op) {
            (self, 0)
        } else if op < 0x40 {
            self.quarter0_spec(op)
        } else if op < 0x80 {
            self.quarter1_spec(op)
        } else if op < 0xC0 {
            self.quarter2_spec(op)
        } else {
            self.quarter3_spec(op)
        }
    }

    /// The opcode that the next step decodes.
    pub open spec fn next_opcode(self) -> u8 {
        self.imm8()
    }

    /// Whether the next step has an instruction to execute: the processor is
    /// halted, or the byte at PC is a defined opcode.
    pub open spec fn can_step(self) -> bool {
        self.halted || opcode_defined(self.next_opcode())
    }

    /// The state in which an instruction is decoded: a waiting EI has set IME.
    pub open spec fn enabled(self) -> CPU {
        CPU {
            ime: self.ime || self.interrupt_enable_delay,
            interrupt_enable_delay: false,
            ..self
        }
    }

    /// One step.  A halted processor does nothing for 4 cycles.  Otherwise a
    /// waiting EI takes effect, the opcode at PC is fetched and the
    /// instruction is executed.
    #[verifier::opaque]
    pub open spec fn step_spec(self) -> (CPU, u8) {
        if self.halted {
            (self, 4)
        } else {
            self.enabled().skip(1).execute_spec(self.next_opcode())
        }
    }

    /// Whether `step` may be called: see `can_step`.
    pub fn next_opcode_defined(&self) -> (r: bool)
        requires
            self.wf(),
        ensures
            r == self.can_step(),
    {
        self.halted || is_opcode_defined(self.bus.read_byte(self.registers.pc))
    }

    /// Executes one instruction and returns the cycles it took.
    pub fn step(&mut self) -> (cycles: u8)
        requires
            old(self).wf(),
            old(self).can_step(),
        ensures
            (*final(self), cycles) == old(self).step_spec(),
            final(self).wf(),
            cycles % 4 == 0,
            4 <= cycles <= 24,
            !old(self).halted ==> cycles == old(self).table_cycles(
                old(self).next_opcode(),
                old(self).skip(1).imm8(),
            ),
    {
        proof {
            reveal(CPU::step_spec);
            old(self).lemma_step_cycles();
        }
        if self.halted {
            return 4;
        }
        if self.interrupt_enable_delay {
            self.ime = true;
            self.interrupt_enable_delay = false;
        }
        let op: u8 = self.fetch_byte();
        if op < 0x40 {
            self.exec_quarter0(op)
        } else if op < 0x80 {
            self.exec_quarter1(op)
        } else if op < 0xC0 {
            self.exec_quarter2(op)
        } else {
            self.exec_quarter3(op)
        }
    }

    // ----- cycle counts -----

    // ----- laws of dispatch -----

    /// The bit of interrupt `i` in IF and IE.
    pub open spec fn interrupt_bit(i: u8) -> u8 {
        if i == 0 { 0x01 } else if i == 1 { 0x02 } else if i == 2 { 0x04 } else if i == 3 { 0x08 }
        else { 0x10 }
    }

    /// Where an interrupt is pending, the one that dispatch picks is
    /// pending and none before it is; acknowledging it clears its bit of IF
    /// and no other.
    pub proof fn lemma_first_interrupt_is_pending(self)
        requires
            self.pending() != 0,
        ensures
            ({
                let i = Self::first_interrupt(self.pending());
                let flag = self.bus.interrupt_flag;
                &&& i <= 4
                &&& self.pending() & Self::interrupt_bit(i) != 0
                &&& forall|j: u8| j < i ==> self.pending() & #[trigger] Self::interrupt_bit(j) == 0
                &&& (flag & Self::acknowledge_mask(i)) & Self::interrupt_bit(i) == 0
                &&& (flag & Self::acknowledge_mask(i)) | Self::interrupt_bit(i) == flag
                    | Self::interrupt_bit(i)
            }),
    {
        crate::bits::lemma_interrupt_bits(
            self.bus.interrupt_flag & self.bus.interrupt_enable,
            self.bus.interrupt_flag,
        );
    }

    /// A dispatch that serves an interrupt clears IME, ends HALT, jumps to
    /// the vector `0x40 + 8 * i` and costs 20 cycles; one that serves none
    /// costs nothing and leaves PC alone.
    pub proof fn lemma_dispatch_outcome(self)
        ensures
            ({
                let r = self.handle_interrupts_spec();
                let i = Self::first_interrupt(self.pending());
                if self.pending() != 0 && self.ime {
                    &&& r.1 == 20
                    &&& !r.0.ime
                    &&& !r.0.halted
                    &&& r.0.registers.pc == 0x40 + 8 * i
                    &&& r.0.registers.sp == wrap16(self.registers.sp - 2)
                } else {
                    &&& r.1 == 0
                    &&& r.0.registers == self.registers
                    &&& r.0.bus == self.bus
                    &&& r.0.ime == self.ime
                    &&& r.0.halted == (self.halted && self.pending() == 0)
                }
            }),
    {
    }

    // ----- laws of the stack -----

    /// POP AF leaves the low nibble of F at zero, whatever word is popped.
    pub proof fn lemma_pop_af_masks(self)
        ensures
            self.column1_spec(6).0.registers.f % 16 == 0,
            self.column1_spec(6).1 == 12,
            forall|v: u16| (#[trigger] self.registers.set_af(v)).f % 16 == 0,
    {
    }

    /// PUSH of a register pair followed by POP of the same pair leaves
    /// every register as it was, SP included, where the two bytes below SP
    /// are work RAM or high RAM.
    #[verifier::rlimit(40)]
    pub proof fn lemma_push_pop_identity(self, p: u8)
        requires
            p < 4,
            self.registers.f % 16 == 0,
            MMU::is_ram(wrap16(self.registers.sp - 1)),
            MMU::is_ram(wrap16(self.registers.sp - 2)),
        ensures
            self.column5_spec((2 * p) as u8).0.column1_spec((2 * p) as u8).0.registers
                == self.registers,
            self.push_spec(self.registers.rp2(p)).pop_value() == self.registers.rp2(p),
            self.push_spec(self.registers.rp2(p)).pop_state().registers.sp == self.registers.sp,
    {
        let v = self.registers.rp2(p);
        let sp1 = wrap16(self.registers.sp - 1);
        let sp2 = wrap16(self.registers.sp - 2);
        let hi = (v / 256) as u8;
        let lo = (v % 256) as u8;
        let pushed = self.push_spec(v);
        let first = self.bus.write_spec(sp1, hi);
        assert(pushed.bus == first.write_spec(sp2, lo));
        assert(pushed.registers.sp == sp2);
        assert(wrap16(sp2 + 1) == sp1);
        assert(wrap16(sp2 + 2) == self.registers.sp);
        first.lemma_ram_reads_own_write(sp2, lo);
        first.lemma_ram_keeps_under_other_write(sp1, sp2, lo);
        self.bus.lemma_ram_reads_own_write(sp1, hi);
        assert(pushed.pop_value() == pair(hi, lo));
        assert(pair(hi, lo) == v);
        assert(self.column5_spec((2 * p) as u8).0 == pushed);
        let popped = pushed.pop_state().with_rp2(p, pushed.pop_value());
        assert(pushed.column1_spec((2 * p) as u8).0 == popped);
        assert(popped.registers == self.registers);
    }

    // ----- cycle counts -----

    /// The table's entry for `op` in this state, where `cb` is the byte
    /// behind a prefix.
    pub open spec fn table_cycles(self, op: u8, cb: u8) -> int {
        canonical_cycles(op, cb, self.registers.cond((op / 8) % 4))
    }

    #[verifier::rlimit(40)]
    proof fn lemma_quarter0_cycles(self, op: u8)
        requires
            op < 0x40,
        ensures
            self.quarter0_spec(op).1 == self.table_cycles(op, self.imm8()),
    {
        let y = (op / 8) % 8;
        let z = op % 8;
        assert(op == y * 8 + z);
        if z == 0 {
            assert(self.quarter0_spec(op).1 == self.relative_spec(y).1);
        } else if z == 1 {
            assert(self.quarter0_spec(op).1 == self.pair_load_spec(y).1);
        } else if z == 2 {
            assert(self.quarter0_spec(op).1 == self.indirect_spec(y).1);
        } else if z == 3 {
            assert(self.quarter0_spec(op).1 == self.pair_step_spec(y).1);
        } else if z == 4 {
            assert(self.quarter0_spec(op).1 == self.byte_step_spec(y, false).1);
        } else if z == 5 {
            assert(self.quarter0_spec(op).1 == self.byte_step_spec(y, true).1);
        } else if z == 6 {
            assert(self.quarter0_spec(op).1 == self.load_immediate_spec(y).1);
        } else {
            assert(self.quarter0_spec(op).1 == self.accumulator_spec(y).1);
        }
    }

    proof fn lemma_middle_cycles(self, op: u8)
        requires
            0x40 <= op < 0xC0,
        ensures
            self.execute_spec(op).1 == self.table_cycles(op, self.imm8()),
    {
        let y = (op / 8) % 8;
        let z = op % 8;
        assert(op == (op / 64) * 64 + y * 8 + z);
    }

    #[verifier::rlimit(40)]
    proof fn lemma_quarter3_cycles(self, op: u8)
        requires
            0xC0 <= op,
            opcode_defined(op),
        ensures
            self.quarter3_spec(op).1 == self.table_cycles(op, self.imm8()),
    {
        let y = (op / 8) % 8;
        let z = op % 8;
        assert(op == 0xC0 + y * 8 + z);
        if z == 0 {
            assert(self.quarter3_spec(op).1 == self.column0_spec(y).1);
        } else if z == 1 {
            assert(self.quarter3_spec(op).1 == self.column1_spec(y).1);
        } else if z == 2 {
            assert(self.quarter3_spec(op).1 == self.column2_spec(y).1);
        } else if z == 3 {
            assert(self.quarter3_spec(op).1 == self.column3_spec(y).1);
            if y == 1 {
                assert(self.column3_spec(y).1 == Self::cb_cycles(self.imm8()));
            }
        } else if z == 4 {
            assert(self.quarter3_spec(op).1 == self.column4_spec(y).1);
        } else if z == 5 {
            assert(self.quarter3_spec(op).1 == self.column5_spec(y).1);
        } else {
        }
    }

    /// The cycles of an instruction are those of the table.
    pub proof fn lemma_execute_cycles(self, op: u8)
        requires
            opcode_defined(op),
        ensures
            self.execute_spec(op).1 == self.table_cycles(op, self.imm8()),
            self.execute_spec(op).1 % 4 == 0,
            4 <= self.execute_spec(op).1 <= 24,
    {
        if op < 0x40 {
            self.lemma_quarter0_cycles(op);
        } else if op < 0xC0 {
            self.lemma_middle_cycles(op);
        } else {
            self.lemma_quarter3_cycles(op);
        }
        lemma_table_range(op, self.imm8(), self.registers.cond((op / 8) % 4));
    }

    /// The cycles of a step are those of the table: a multiple of 4, and for
    /// a processor that is not halted the entry of the opcode at PC.
    pub proof fn lemma_step_cycles(self)
        requires
            self.can_step(),
        ensures
            self.step_spec().1 % 4 == 0,
            4 <= self.step_spec().1 <= 24,
            !self.halted ==> self.step_spec().1 == self.table_cycles(
                self.next_opcode(),
                self.skip(1).imm8(),
            ),
    {
        reveal(CPU::step_spec);
        if !self.halted {
            let s = self.enabled().skip(1);
            assert(s.registers.f == self.registers.f);
            assert(s.imm8() == self.skip(1).imm8());
            s.lemma_execute_cycles(self.next_opcode());
        }
    }
}

/// Every entry of the table for an instruction is a multiple of 4 between
/// 4 and 24.
pub proof fn lemma_table_range(op: u8, cb: u8, taken: bool)
    requires
        opcode_defined(op),
    ensures
        canonical_cycles(op, cb, taken) % 4 == 0,
        4 <= canonical_cycles(op, cb, taken) <= 24,
{
    assert(op == (op / 16) * 16 + op % 16);
}

/// Entry `col` of a row of sixteen.
pub open spec fn pick16(
    col: u8,
    c0: u8, c1: u8, c2: u8, c3: u8, c4: u8, c5: u8, c6: u8, c7: u8,
    c8: u8, c9: u8, ca: u8, cb: u8, cc: u8, cd: u8, ce: u8, cf: u8,
) -> u8 {
    if col == 0 { c0 } else if col == 1 { c1 } else if col == 2 { c2 } else if col == 3 { c3 }
    else if col == 4 { c4 } else if col == 5 { c5 } else if col == 6 { c6 } else if col == 7 { c7 }
    else if col == 8 { c8 } else if col == 9 { c9 } else if col == 10 { ca } else if col == 11 { cb }
    else if col == 12 { cc } else if col == 13 { cd } else if col == 14 { ce } else { cf }
}

/// The cycle table of the unprefixed opcodes, one row per high nibble, with
/// a conditional instruction at its count when the condition fails.  The
/// prefix `0xCB` and the opcodes that are no instruction stand at 0.
pub open spec fn base_cycles(op: u8) -> u8 {
    let row = op / 16;
    let col = op % 16;
    if row == 0 {
        pick16(col, 4, 12, 8, 8, 4, 4, 8, 4, 20, 8, 8, 8, 4, 4, 8, 4)
    } else if row == 1 {
        pick16(col, 4, 12, 8, 8, 4, 4, 8, 4, 12, 8, 8, 8, 4, 4, 8, 4)
    } else if row == 2 {
        pick16(col, 8, 12, 8, 8, 4, 4, 8, 4, 8, 8, 8, 8, 4, 4, 8, 4)
    } else if row == 3 {
        pick16(col, 8, 12, 8, 8, 12, 12, 12, 4, 8, 8, 8, 8, 4, 4, 8, 4)
    } else if row == 4 {
        pick16(col, 4, 4, 4, 4, 4, 4, 8, 4, 4, 4, 4, 4, 4, 4, 8, 4)
    } else if row == 5 {
        pick16(col, 4, 4, 4, 4, 4, 4, 8, 4, 4, 4, 4, 4, 4, 4, 8, 4)
    } else if row == 6 {
        pick16(col, 4, 4, 4, 4, 4, 4, 8, 4, 4, 4, 4, 4, 4, 4, 8, 4)
    } else if row == 7 {
        pick16(col, 8, 8, 8, 8, 8, 8, 4, 8, 4, 4, 4, 4, 4, 4, 8, 4)
    } else if row == 8 {
        pick16(col, 4, 4, 4, 4, 4, 4, 8, 4, 4, 4, 4, 4, 4, 4, 8, 4)
    } else if row == 9 {
        pick16(col, 4, 4, 4, 4, 4, 4, 8, 4, 4, 4, 4, 4, 4, 4, 8, 4)
    } else if row == 10 {
        pick16(col, 4, 4, 4, 4, 4, 4, 8, 4, 4, 4, 4, 4, 4, 4, 8, 4)
    } else if row == 11 {
        pick16(col, 4, 4, 4, 4, 4, 4, 8, 4, 4, 4, 4, 4, 4, 4, 8, 4)
    } else if row == 12 {
        pick16(col, 8, 12, 12, 16, 12, 16, 8, 16, 8, 16, 12, 0, 12, 24, 8, 16)
    } else if row == 13 {
        pick16(col, 8, 12, 12, 0, 12, 16, 8, 16, 8, 16, 12, 0, 12, 0, 8, 16)
    } else if row == 14 {
        pick16(col, 12, 12, 8, 0, 0, 16, 8, 16, 16, 4, 16, 0, 0, 0, 8, 16)
    } else {
        pick16(col, 12, 12, 8, 4, 0, 16, 8, 16, 12, 8, 16, 4, 0, 0, 8, 16)
    }
}

/// The cycles that a conditional instruction adds when its condition holds:
/// 4 for JR cc and JP cc, 12 for RET cc and CALL cc.
pub open spec fn taken_cycles(op: u8) -> u8 {
    if op == 0x20 || op == 0x28 || op == 0x30 || op == 0x38 {
        4
    } else if op == 0xC2 || op == 0xCA || op == 0xD2 || op == 0xDA {
        4
    } else if op == 0xC0 || op == 0xC8 || op == 0xD0 || op == 0xD8 {
        12
    } else if op == 0xC4 || op == 0xCC || op == 0xD4 || op == 0xDC {
        12
    } else {
        0
    }
}

/// The cycles of the instruction with opcode `op`, prefixed opcode `cb`
/// where `op` is the prefix, and its condition holding or not.
pub open spec fn canonical_cycles(op: u8, cb: u8, taken: bool) -> int {
    if op == 0xCB {
        CPU::cb_cycles(cb) as int
    } else if taken {
        base_cycles(op) + taken_cycles(op)
    } else {
        base_cycles(op) as int
    }
}

} // verus!
