//! The memory bus: address decoding over the 16-bit address space, the
//! cartridge mappers, OAM DMA, the timer registers and the joypad matrix.
//!
//! `read_spec` and `write_spec` say what a read returns and what a write
//! leaves; `read_byte` and `write_byte` are proved to compute them, for
//! every address.
use vstd::prelude::*;
use crate::apu::APU;

verus! {

/// Smallest cartridge image that is accepted: two banks of 16 KiB.
pub const MIN_ROM_LEN: usize = 0x8000;

/// Room for the largest external RAM, sixteen banks of 8 KiB.
pub const MAX_RAM_LEN: usize = 0x20000;

/// The bank controller of a cartridge, by the header byte at `0x0147`.
#[derive(Clone, Copy, Debug, PartialEq, Eq, Structural)]
pub enum Mapper {
    /// No controller, or one that is not known: bank 1 is fixed and there is
    /// no external RAM.
    Fixed,
    Mbc1,
    Mbc3,
    Mbc5,
}

pub open spec fn mapper_of(mbc_type: u8) -> Mapper {
    if 0x01 <= mbc_type <= 0x03 {
        Mapper::Mbc1
    } else if 0x0F <= mbc_type <= 0x13 {
        Mapper::Mbc3
    } else if 0x19 <= mbc_type <= 0x1E {
        Mapper::Mbc5
    } else {
        Mapper::Fixed
    }
}

pub fn mapper_kind(mbc_type: u8) -> (m: Mapper)
    ensures
        m == mapper_of(mbc_type),
{
    if 0x01 <= mbc_type && mbc_type <= 0x03 {
        Mapper::Mbc1
    } else if 0x0F <= mbc_type && mbc_type <= 0x13 {
        Mapper::Mbc3
    } else if 0x19 <= mbc_type && mbc_type <= 0x1E {
        Mapper::Mbc5
    } else {
        Mapper::Fixed
    }
}

/// Bytes of external RAM for the header byte at `0x0149`.
pub open spec fn ram_len_of(code: u8) -> int {
    if code == 1 {
        0x800
    } else if code == 2 {
        0x2000
    } else if code == 3 {
        0x8000
    } else if code == 4 {
        0x20000
    } else if code == 5 {
        0x10000
    } else {
        0
    }
}

pub fn ram_len_for(code: u8) -> (n: usize)
    ensures
        n == ram_len_of(code),
        n <= MAX_RAM_LEN,
{
    if code == 1 {
        0x800
    } else if code == 2 {
        0x2000
    } else if code == 3 {
        0x8000
    } else if code == 4 {
        0x20000
    } else if code == 5 {
        0x10000
    } else {
        0
    }
}

/// Cycles per increment of TIMA for the low two bits of TAC.
pub open spec fn timer_threshold(tac: u8) -> u32 {
    let select = tac % 4;
    if select == 0 { 1024 } else if select == 1 { 16 } else if select == 2 { 64 } else { 256 }
}

pub fn tima_period(tac: u8) -> (t: u32)
    ensures
        t == timer_threshold(tac),
        16 <= t <= 1024,
{
    let select: u8 = tac % 4;
    if select == 0 { 1024 } else if select == 1 { 16 } else if select == 2 { 64 } else { 256 }
}

/// Whether a byte of the header's title is a visible ASCII character.
pub open spec fn is_title_byte(b: u8) -> bool {
    0x21 <= b <= 0x7E
}

/// How many of the title's sixteen bytes, from byte `n` on, are visible
/// ASCII characters without a gap.
pub open spec fn title_len(rom: Seq<u8>, n: int) -> int
    decreases 16 - n,
{
    if n < 0 || n >= 16 || !is_title_byte(rom[0x0134 + n]) {
        0
    } else {
        1 + title_len(rom, n + 1)
    }
}

/// The title of the cartridge image `rom`.
pub open spec fn title_of(rom: Seq<u8>) -> Seq<u8> {
    rom.subrange(0x0134, 0x0134 + title_len(rom, 0))
}

/// The bus and everything it owns.
pub struct MMU {
    /// The cartridge image.
    pub rom: Vec<u8>,
    pub vram: [u8; 0x2000],
    pub oam: [u8; 0xA0],
    pub wram: [u8; 0x2000],
    pub hram: [u8; 0x7F],
    /// IF, at `0xFF0F`.
    pub interrupt_flag: u8,
    /// IE, at `0xFFFF`.
    pub interrupt_enable: u8,
    pub div: u8,
    pub tima: u8,
    pub tma: u8,
    pub tac: u8,
    /// The free-running counter whose high byte is DIV.
    pub div_counter: u16,
    /// Cycles gathered towards the next increment of TIMA.
    pub tima_counter: u32,
    pub lcdc: u8,
    pub stat: u8,
    pub scy: u8,
    pub scx: u8,
    pub ly: u8,
    pub lyc: u8,
    pub bgp: u8,
    pub obp0: u8,
    pub obp1: u8,
    pub wy: u8,
    pub wx: u8,
    /// One bit per button, 0 while it is held: bit 0 Right, 1 Left, 2 Up,
    /// 3 Down, 4 A, 5 B, 6 Select, 7 Start.
    pub joypad_state: u8,
    /// Bits 4 and 5 as last written to `0xFF00`.
    pub joyp_sel: u8,
    pub rom_bank: u16,
    pub ram_enabled: bool,
    /// MBC1 banking mode: 0 ROM banking, 1 RAM banking.
    pub mode: u8,
    pub ram_bank: u8,
    /// External RAM; only the first `ram_len` bytes exist on the cartridge.
    pub eram: [u8; 0x20000],
    pub ram_len: usize,
    pub rtc_registers: [u8; 5],
    pub rtc_sel: u8,
    pub mbc_type: u8,
    /// Set by every write into cartridge RAM, cleared once it is saved.
    pub save_dirty: bool,
    pub apu: APU,
}

impl MMU {
    /// Ranges that every reachable state keeps; the coincidence bit of STAT,
    /// which mirrors `LY == LYC`; and the low bits of the ROM bank number,
    /// which are never all 0 on an MBC1 or an MBC3.
    pub open spec fn wf(self) -> bool {
        &&& self.apu.wf()
        &&& self.ram_len <= MAX_RAM_LEN
        &&& self.tima_counter < 1024
        &&& self.ly < 154
        &&& (self.stat & 0x04 != 0) == (self.ly == self.lyc)
        &&& self.mapper() == Mapper::Mbc1 ==> self.rom_bank & 0x1F != 0
        &&& self.mapper() == Mapper::Mbc3 ==> self.rom_bank & 0x7F != 0
    }

    /// Whether the state keeps its ranges and its coincidence bit.
    pub fn is_wf(&self) -> (r: bool)
        ensures
            r == self.wf(),
    {
        let mapper = mapper_kind(self.mbc_type);
        self.apu.is_wf() && self.ram_len <= MAX_RAM_LEN && self.tima_counter < 1024 && self.ly < 154
            && (self.stat & 0x04 != 0) == (self.ly == self.lyc) && (mapper != Mapper::Mbc1
            || self.rom_bank & 0x1F != 0) && (mapper != Mapper::Mbc3 || self.rom_bank & 0x7F != 0)
    }

    pub open spec fn mapper(self) -> Mapper {
        mapper_of(self.mbc_type)
    }

    // ----- reads -----

    /// The ROM bank that `0x4000..=0x7FFF` shows.
    pub open spec fn effective_rom_bank(self) -> u16 {
        match self.mapper() {
            Mapper::Mbc1 => if self.mode == 0 { self.rom_bank } else { self.rom_bank & 0x1F },
            Mapper::Mbc3 => self.rom_bank & 0x7F,
            Mapper::Mbc5 => self.rom_bank & 0x1FF,
            Mapper::Fixed => self.rom_bank,
        }
    }

    /// The offset into the cartridge image that a ROM address shows.
    pub open spec fn rom_offset(self, addr: u16) -> int {
        if addr < 0x4000 {
            addr as int
        } else {
            self.effective_rom_bank() * 0x4000 + (addr - 0x4000)
        }
    }

    /// A read from `0x0000..=0x7FFF`: the byte of the image, `0xFF` past its end.
    pub open spec fn read_rom_spec(self, addr: u16) -> u8 {
        let offset = self.rom_offset(addr);
        if offset < self.rom@.len() { self.rom@[offset] } else { 0xFF }
    }

    /// The RAM bank that `0xA000..=0xBFFF` shows, if it shows one.
    pub open spec fn selected_ram_bank(self) -> Option<u8> {
        match self.mapper() {
            Mapper::Mbc1 => Some(if self.mode == 1 { self.ram_bank } else { 0u8 }),
            Mapper::Mbc3 => if self.rtc_sel <= 0x03 { Some(self.rtc_sel) } else { None },
            Mapper::Mbc5 => Some(self.ram_bank),
            Mapper::Fixed => None,
        }
    }

    /// The byte of external RAM that an address in `0xA000..=0xBFFF`
    /// reaches: RAM is enabled, a bank is selected, and the byte exists.
    pub open spec fn ram_offset(self, addr: u16) -> Option<int> {
        match self.selected_ram_bank() {
            Some(bank) => {
                let offset = bank * 0x2000 + (addr - 0xA000);
                if self.ram_enabled && offset < self.ram_len { Some(offset) } else { None }
            },
            None => None,
        }
    }

    /// The clock register that `0xA000..=0xBFFF` shows on an MBC3, if any.
    pub open spec fn rtc_index(self) -> Option<int> {
        if self.ram_enabled && self.mapper() == Mapper::Mbc3 && 0x08 <= self.rtc_sel <= 0x0C {
            Some(self.rtc_sel - 0x08)
        } else {
            None
        }
    }

    /// A read from `0xA000..=0xBFFF`.
    pub open spec fn read_external_spec(self, addr: u16) -> u8 {
        match self.ram_offset(addr) {
            Some(offset) => self.eram@[offset],
            None => match self.rtc_index() {
                Some(i) => self.rtc_registers@[i],
                None => 0xFF,
            },
        }
    }

    /// A read of `0xFF00`: bits 6-7 set, the select bits as written, and in
    /// the low nibble the AND of the rows whose select bit is 0.
    pub open spec fn read_joypad_spec(self) -> u8 {
        let directions: u8 = if self.joyp_sel & 0x10 == 0 { self.joypad_state & 0x0F } else { 0x0F };
        let buttons: u8 = if self.joyp_sel & 0x20 == 0 { (self.joypad_state >> 4u8) & 0x0F } else { 0x0F };
        (0xC0 | (self.joyp_sel & 0x30)) | ((0x0F & directions) & buttons)
    }

    /// A read from `0xFF00..=0xFF7F` outside the sound unit, or of `0xFFFF`.
    pub open spec fn read_io_spec(self, addr: u16) -> u8 {
        if addr == 0xFF00 { self.read_joypad_spec() }
        else if addr == 0xFF04 { self.div }
        else if addr == 0xFF05 { self.tima }
        else if addr == 0xFF06 { self.tma }
        else if addr == 0xFF07 { self.tac | 0xF8 }
        else if addr == 0xFF0F { self.interrupt_flag | 0xE0 }
        else if addr == 0xFF40 { self.lcdc }
        else if addr == 0xFF41 { self.stat | 0x80 }
        else if addr == 0xFF42 { self.scy }
        else if addr == 0xFF43 { self.scx }
        else if addr == 0xFF44 { self.ly }
        else if addr == 0xFF45 { self.lyc }
        else if addr == 0xFF47 { self.bgp }
        else if addr == 0xFF48 { self.obp0 }
        else if addr == 0xFF49 { self.obp1 }
        else if addr == 0xFF4A { self.wy }
        else if addr == 0xFF4B { self.wx }
        else if addr == 0xFFFF { self.interrupt_enable }
        else { 0xFF }
    }

    /// What a read of `addr` returns.
    #[verifier::opaque]
    pub open spec fn read_spec(self, addr: u16) -> u8 {
        if addr < 0x8000 {
            self.read_rom_spec(addr)
        } else if addr < 0xA000 {
            self.vram@[addr - 0x8000]
        } else if addr < 0xC000 {
            self.read_external_spec(addr)
        } else if addr < 0xE000 {
            self.wram@[addr - 0xC000]
        } else if addr < 0xFE00 {
            self.wram@[addr - 0xE000]
        } else if addr < 0xFEA0 {
            self.oam@[addr - 0xFE00]
        } else if 0xFF10 <= addr <= 0xFF3F {
            self.apu.read_register_spec(addr)
        } else if 0xFF80 <= addr <= 0xFFFE {
            self.hram@[addr - 0xFF80]
        } else {
            self.read_io_spec(addr)
        }
    }

    fn read_rom(&self, addr: u16) -> (r: u8)
        requires
            addr < 0x8000,
        ensures
            r == self.read_rom_spec(addr),
    {
        let offset: usize = if addr < 0x4000 {
            addr as usize
        } else {
            let bank: u16 = match mapper_kind(self.mbc_type) {
                Mapper::Mbc1 => if self.mode == 0 { self.rom_bank } else { self.rom_bank & 0x1F },
                Mapper::Mbc3 => self.rom_bank & 0x7F,
                Mapper::Mbc5 => self.rom_bank & 0x1FF,
                Mapper::Fixed => self.rom_bank,
            };
            (bank as usize) * 0x4000 + (addr - 0x4000) as usize
        };
        if offset < self.rom.len() { self.rom[offset] } else { 0xFF }
    }

    /// The index into external RAM that `addr` reaches, if it reaches one.
    fn ram_index(&self, addr: u16) -> (r: Option<usize>)
        requires
            0xA000 <= addr < 0xC000,
            self.ram_len <= MAX_RAM_LEN,
        ensures
            match r {
                Some(i) => self.ram_offset(addr) == Some(i as int) && i < MAX_RAM_LEN,
                None => self.ram_offset(addr) is None,
            },
    {
        let bank: Option<u8> = match mapper_kind(self.mbc_type) {
            Mapper::Mbc1 => Some(if self.mode == 1 { self.ram_bank } else { 0u8 }),
            Mapper::Mbc3 => if self.rtc_sel <= 0x03 { Some(self.rtc_sel) } else { None },
            Mapper::Mbc5 => Some(self.ram_bank),
            Mapper::Fixed => None,
        };
        match bank {
            Some(b) => {
                let offset: usize = (b as usize) * 0x2000 + (addr - 0xA000) as usize;
                if self.ram_enabled && offset < self.ram_len { Some(offset) } else { None }
            },
            None => None,
        }
    }

    /// The index of the clock register that `0xA000..=0xBFFF` shows, if any.
    fn rtc_slot(&self) -> (r: Option<usize>)
        ensures
            match r {
                Some(i) => self.rtc_index() == Some(i as int) && i < 5,
                None => self.rtc_index() is None,
            },
    {
        if self.ram_enabled && mapper_kind(self.mbc_type) == Mapper::Mbc3 && 0x08 <= self.rtc_sel
            && self.rtc_sel <= 0x0C {
            Some((self.rtc_sel - 0x08) as usize)
        } else {
            None
        }
    }

    fn read_io(&self, addr: u16) -> (r: u8)
        ensures
            r == self.read_io_spec(addr),
    {
        match addr {
            0xFF00 => {
                let directions: u8 = if self.joyp_sel & 0x10 == 0 { self.joypad_state & 0x0F } else { 0x0F };
                let buttons: u8 = if self.joyp_sel & 0x20 == 0 { (self.joypad_state >> 4u8) & 0x0F } else { 0x0F };
                (0xC0 | (self.joyp_sel & 0x30)) | ((0x0F & directions) & buttons)
            }
            0xFF04 => self.div,
            0xFF05 => self.tima,
            0xFF06 => self.tma,
            0xFF07 => self.tac | 0xF8,
            0xFF0F => self.interrupt_flag | 0xE0,
            0xFF40 => self.lcdc,
            0xFF41 => self.stat | 0x80,
            0xFF42 => self.scy,
            0xFF43 => self.scx,
            0xFF44 => self.ly,
            0xFF45 => self.lyc,
            0xFF47 => self.bgp,
            0xFF48 => self.obp0,
            0xFF49 => self.obp1,
            0xFF4A => self.wy,
            0xFF4B => self.wx,
            0xFFFF => self.interrupt_enable,
            _ => 0xFF,
        }
    }

    /// Reads the byte at `addr`.  Every address answers; one that holds
    /// nothing reads `0xFF`.
    pub fn read_byte(&self, addr: u16) -> (r: u8)
        requires
            self.wf(),
        ensures
            r == self.read_spec(addr),
    {
        reveal(MMU::read_spec);
        if addr < 0x8000 {
            self.read_rom(addr)
        } else if addr < 0xA000 {
            self.vram[(addr - 0x8000) as usize]
        } else if addr < 0xC000 {
            match self.ram_index(addr) {
                Some(i) => self.eram[i],
                None => match self.rtc_slot() {
                    Some(i) => self.rtc_registers[i],
                    None => 0xFF,
                },
            }
        } else if addr < 0xE000 {
            self.wram[(addr - 0xC000) as usize]
        } else if addr < 0xFE00 {
            self.wram[(addr - 0xE000) as usize]
        } else if addr < 0xFEA0 {
            self.oam[(addr - 0xFE00) as usize]
        } else if 0xFF10 <= addr && addr <= 0xFF3F {
            self.apu.read_register(addr)
        } else if 0xFF80 <= addr && addr <= 0xFFFE {
            self.hram[(addr - 0xFF80) as usize]
        } else {
            self.read_io(addr)
        }
    }

    // ----- writes -----

    /// A write to `0x0000..=0x7FFF`, which only the mapper sees.
    pub open spec fn write_mapper_spec(self, addr: u16, val: u8) -> MMU {
        let low5: u16 = if val & 0x1F == 0 { 1u16 } else { (val & 0x1F) as u16 };
        let low7: u16 = if val & 0x7F == 0 { 1u16 } else { (val & 0x7F) as u16 };
        match self.mapper() {
            Mapper::Fixed => self,
            Mapper::Mbc1 => {
                if addr < 0x2000 {
                    MMU { ram_enabled: val & 0x0F == 0x0A, ..self }
                } else if addr < 0x4000 {
                    MMU { rom_bank: (self.rom_bank & 0x60) | low5, ..self }
                } else if addr < 0x6000 {
                    if self.mode == 1 {
                        MMU { ram_bank: val & 0x03, ..self }
                    } else {
                        MMU { rom_bank: (self.rom_bank & 0x1F) | (((val & 0x03) as u16) << 5u16), ..self }
                    }
                } else {
                    MMU { mode: val & 0x01, ..self }
                }
            },
            Mapper::Mbc3 => {
                if addr < 0x2000 {
                    MMU { ram_enabled: val & 0x0F == 0x0A, ..self }
                } else if addr < 0x4000 {
                    MMU { rom_bank: low7, ..self }
                } else if addr < 0x6000 {
                    MMU { rtc_sel: val, ..self }
                } else {
                    self
                }
            },
            Mapper::Mbc5 => {
                if addr < 0x2000 {
                    MMU { ram_enabled: val & 0x0F == 0x0A, ..self }
                } else if addr < 0x3000 {
                    MMU { rom_bank: (self.rom_bank & 0x100) | (val as u16), ..self }
                } else if addr < 0x4000 {
                    MMU { rom_bank: (self.rom_bank & 0xFF) | (((val & 0x01) as u16) << 8u16), ..self }
                } else if addr < 0x6000 {
                    MMU { ram_bank: val & 0x0F, ..self }
                } else {
                    self
                }
            },
        }
    }

    fn write_mapper(&mut self, addr: u16, val: u8)
        requires
            addr < 0x8000,
        ensures
            *final(self) == old(self).write_mapper_spec(addr, val),
    {
        let low5: u16 = if val & 0x1F == 0 { 1u16 } else { (val & 0x1F) as u16 };
        let low7: u16 = if val & 0x7F == 0 { 1u16 } else { (val & 0x7F) as u16 };
        match mapper_kind(self.mbc_type) {
            Mapper::Fixed => {},
            Mapper::Mbc1 => {
                if addr < 0x2000 {
                    self.ram_enabled = val & 0x0F == 0x0A;
                } else if addr < 0x4000 {
                    self.rom_bank = (self.rom_bank & 0x60) | low5;
                } else if addr < 0x6000 {
                    if self.mode == 1 {
                        self.ram_bank = val & 0x03;
                    } else {
                        self.rom_bank = (self.rom_bank & 0x1F) | (((val & 0x03) as u16) << 5u16);
                    }
                } else {
                    self.mode = val & 0x01;
                }
            },
            Mapper::Mbc3 => {
                if addr < 0x2000 {
                    self.ram_enabled = val & 0x0F == 0x0A;
                } else if addr < 0x4000 {
                    self.rom_bank = low7;
                } else if addr < 0x6000 {
                    self.rtc_sel = val;
                }
            },
            Mapper::Mbc5 => {
                if addr < 0x2000 {
                    self.ram_enabled = val & 0x0F == 0x0A;
                } else if addr < 0x3000 {
                    self.rom_bank = (self.rom_bank & 0x100) | (val as u16);
                } else if addr < 0x4000 {
                    self.rom_bank = (self.rom_bank & 0xFF) | (((val & 0x01) as u16) << 8u16);
                } else if addr < 0x6000 {
                    self.ram_bank = val & 0x0F;
                }
            },
        }
    }

    /// A write to `0xA000..=0xBFFF`: into the selected byte of external RAM
    /// or clock register, which marks the cartridge RAM as changed.
    pub open spec fn write_external_spec(self, addr: u16, val: u8) -> MMU {
        match self.ram_offset(addr) {
            Some(offset) => MMU {
                eram: vstd::array::spec_array_update(self.eram, offset, val),
                save_dirty: true,
                ..self
            },
            None => match self.rtc_index() {
                Some(i) => MMU {
                    rtc_registers: vstd::array::spec_array_update(self.rtc_registers, i, val),
                    save_dirty: true,
                    ..self
                },
                None => self,
            },
        }
    }

    fn write_external(&mut self, addr: u16, val: u8)
        requires
            0xA000 <= addr < 0xC000,
            old(self).ram_len <= MAX_RAM_LEN,
        ensures
            *final(self) == old(self).write_external_spec(addr, val),
    {
        match self.ram_index(addr) {
            Some(i) => {
                self.eram[i] = val;
                self.save_dirty = true;
            },
            None => match self.rtc_slot() {
                Some(i) => {
                    self.rtc_registers[i] = val;
                    self.save_dirty = true;
                },
                None => {},
            },
        }
    }

    /// OAM with its first `n` bytes replaced by the bytes read from `base`
    /// onwards.
    pub open spec fn dma_fill(self, base: u16, n: nat) -> [u8; 0xA0]
        decreases n,
    {
        if n == 0 {
            self.oam
        } else {
            vstd::array::spec_array_update(
                self.dma_fill(base, (n - 1) as nat),
                n - 1,
                self.read_spec((base + n - 1) as u16),
            )
        }
    }

    /// The start of the 160 bytes that a DMA started by `val` copies.
    pub open spec fn dma_base(val: u8) -> u16 {
        (val as int * 0x100) as u16
    }

    /// A write of `val` to `0xFF46`: OAM takes the 160 bytes that read from
    /// `val * 0x100` onwards, in one go.
    pub open spec fn dma_spec(self, val: u8) -> MMU {
        MMU { oam: self.dma_fill(Self::dma_base(val), 0xA0), ..self }
    }

    /// After a DMA, byte `i` of OAM is what a read of `val * 0x100 + i` gave
    /// when the DMA was started.
    pub proof fn lemma_dma_copies(self, val: u8, i: int)
        requires
            0 <= i < 0xA0,
        ensures
            self.dma_spec(val).oam@[i] == self.read_spec((val * 0x100 + i) as u16),
    {
        self.lemma_dma_fill(Self::dma_base(val), 0xA0, i);
    }

    proof fn lemma_dma_fill(self, base: u16, n: nat, i: int)
        requires
            n <= 0xA0,
            0 <= i < 0xA0,
        ensures
            self.dma_fill(base, n)@[i] == if i < n {
                self.read_spec((base + i) as u16)
            } else {
                self.oam@[i]
            },
        decreases n,
    {
        if n > 0 {
            self.lemma_dma_fill(base, (n - 1) as nat, i);
        }
    }

    fn dma(&mut self, val: u8)
        requires
            old(self).wf(),
        ensures
            *final(self) == old(self).dma_spec(val),
    {
        let base: u16 = (val as u16) * 0x100;
        let mut image: [u8; 0xA0] = self.oam;
        let mut i: u16 = 0;
        while i < 0xA0
            invariant
                i <= 0xA0,
                self.wf(),
                *self == *old(self),
                base == Self::dma_base(val),
                base <= 0xFF00,
                image == self.dma_fill(base, i as nat),
            decreases 0xA0 - i,
        {
            image[i as usize] = self.read_byte(base + i);
            i = i + 1;
        }
        self.oam = image;
    }

    /// A write of LYC: the coincidence bit of STAT follows, and where the
    /// lines come to coincide with the LCD on and bit 6 of STAT set, the
    /// STAT interrupt is requested.
    pub open spec fn write_lyc_spec(self, val: u8) -> MMU {
        if self.ly == val {
            MMU {
                lyc: val,
                stat: self.stat | 0x04,
                interrupt_flag: if self.stat & 0x04 == 0 && self.stat & 0x40 != 0 && self.lcdc & 0x80 != 0 {
                    self.interrupt_flag | 0x02
                } else {
                    self.interrupt_flag
                },
                ..self
            }
        } else {
            MMU { lyc: val, stat: self.stat & 0xFB, ..self }
        }
    }

    /// A write to a register in `0xFF00..=0xFF7F` outside the sound unit, or
    /// to `0xFFFF`.  Only bits 4-5 of the joypad register, bits 0-2 of TAC
    /// and bits 3-7 of STAT take the value; any write to DIV clears the
    /// counter behind it; LY is read-only.
    pub open spec fn write_io_spec(self, addr: u16, val: u8) -> MMU {
        if addr == 0xFF00 { MMU { joyp_sel: val & 0x30, ..self } }
        else if addr == 0xFF04 { MMU { div: 0, div_counter: 0, ..self } }
        else if addr == 0xFF05 { MMU { tima: val, ..self } }
        else if addr == 0xFF06 { MMU { tma: val, ..self } }
        else if addr == 0xFF07 { MMU { tac: val & 0x07, ..self } }
        else if addr == 0xFF0F { MMU { interrupt_flag: val | 0xE0, ..self } }
        else if addr == 0xFF40 { MMU { lcdc: val, ..self } }
        else if addr == 0xFF41 { MMU { stat: (val & 0xF8) | (self.stat & 0x07), ..self } }
        else if addr == 0xFF42 { MMU { scy: val, ..self } }
        else if addr == 0xFF43 { MMU { scx: val, ..self } }
        else if addr == 0xFF45 { self.write_lyc_spec(val) }
        else if addr == 0xFF46 { self.dma_spec(val) }
        else if addr == 0xFF47 { MMU { bgp: val, ..self } }
        else if addr == 0xFF48 { MMU { obp0: val, ..self } }
        else if addr == 0xFF49 { MMU { obp1: val, ..self } }
        else if addr == 0xFF4A { MMU { wy: val, ..self } }
        else if addr == 0xFF4B { MMU { wx: val, ..self } }
        else if addr == 0xFFFF { MMU { interrupt_enable: val, ..self } }
        else { self }
    }

    fn write_io(&mut self, addr: u16, val: u8)
        requires
            old(self).wf(),
        ensures
            *final(self) == old(self).write_io_spec(addr, val),
    {
        match addr {
            0xFF00 => { self.joyp_sel = val & 0x30; }
            0xFF04 => {
                self.div = 0;
                self.div_counter = 0;
            }
            0xFF05 => { self.tima = val; }
            0xFF06 => { self.tma = val; }
            0xFF07 => { self.tac = val & 0x07; }
            0xFF0F => { self.interrupt_flag = val | 0xE0; }
            0xFF40 => { self.lcdc = val; }
            0xFF41 => { self.stat = (val & 0xF8) | (self.stat & 0x07); }
            0xFF42 => { self.scy = val; }
            0xFF43 => { self.scx = val; }
            0xFF45 => {
                if self.ly == val {
                    if self.stat & 0x04 == 0 && self.stat & 0x40 != 0 && self.lcdc & 0x80 != 0 {
                        self.interrupt_flag = self.interrupt_flag | 0x02;
                    }
                    self.stat = self.stat | 0x04;
                } else {
                    self.stat = self.stat & 0xFB;
                }
                self.lyc = val;
            }
            0xFF46 => { self.dma(val); }
            0xFF47 => { self.bgp = val; }
            0xFF48 => { self.obp0 = val; }
            0xFF49 => { self.obp1 = val; }
            0xFF4A => { self.wy = val; }
            0xFF4B => { self.wx = val; }
            0xFFFF => { self.interrupt_enable = val; }
            _ => {}
        }
    }

    /// The bus after a write of `val` to `addr`.  A write to ROM addresses
    /// changes only the mapper; `0xE000..=0xFDFF` mirrors work RAM;
    /// `0xFEA0..=0xFEFF` takes nothing.
    #[verifier::opaque]
    pub open spec fn write_spec(self, addr: u16, val: u8) -> MMU {
        if addr < 0x8000 {
            self.write_mapper_spec(addr, val)
        } else if addr < 0xA000 {
            MMU { vram: vstd::array::spec_array_update(self.vram, addr - 0x8000, val), ..self }
        } else if addr < 0xC000 {
            self.write_external_spec(addr, val)
        } else if addr < 0xE000 {
            MMU { wram: vstd::array::spec_array_update(self.wram, addr - 0xC000, val), ..self }
        } else if addr < 0xFE00 {
            MMU { wram: vstd::array::spec_array_update(self.wram, addr - 0xE000, val), ..self }
        } else if addr < 0xFEA0 {
            MMU { oam: vstd::array::spec_array_update(self.oam, addr - 0xFE00, val), ..self }
        } else if 0xFF10 <= addr <= 0xFF3F {
            MMU { apu: self.apu.write_register_spec(addr, val), ..self }
        } else if 0xFF80 <= addr <= 0xFFFE {
            MMU { hram: vstd::array::spec_array_update(self.hram, addr - 0xFF80, val), ..self }
        } else {
            self.write_io_spec(addr, val)
        }
    }

    /// Writes `val` to `addr`.  Every address takes a write; none faults.
    pub fn write_byte(&mut self, addr: u16, val: u8)
        requires
            old(self).wf(),
        ensures
            *final(self) == old(self).write_spec(addr, val),
            final(self).wf(),
    {
        reveal(MMU::write_spec);
        if addr < 0x8000 {
            self.write_mapper(addr, val);
        } else if addr < 0xA000 {
            self.vram[(addr - 0x8000) as usize] = val;
        } else if addr < 0xC000 {
            self.write_external(addr, val);
        } else if addr < 0xE000 {
            self.wram[(addr - 0xC000) as usize] = val;
        } else if addr < 0xFE00 {
            self.wram[(addr - 0xE000) as usize] = val;
        } else if addr < 0xFEA0 {
            self.oam[(addr - 0xFE00) as usize] = val;
        } else if 0xFF10 <= addr && addr <= 0xFF3F {
            self.apu.write_register(addr, val);
        } else if 0xFF80 <= addr && addr <= 0xFFFE {
            self.hram[(addr - 0xFF80) as usize] = val;
        } else {
            self.write_io(addr, val);
        }
        proof {
            old(self).lemma_write_keeps_wf(addr, val);
        }
    }

    /// Writes keep the ranges and the coincidence bit.
    pub proof fn lemma_write_keeps_wf(self, addr: u16, val: u8)
        requires
            self.wf(),
        ensures
            self.write_spec(addr, val).wf(),
    {
        reveal(MMU::write_spec);
        crate::bits::lemma_bank_bits(self.rom_bank, val);
        crate::bits::lemma_stat_bit2(self.stat, val);
        if 0xFF10 <= addr <= 0xFF3F {
            self.apu.lemma_write_keeps_wf(addr, val);
        }
    }

    // ----- timer -----

    /// TIMA after the cycles gathered in `tima_counter` are spent, one
    /// increment per `threshold` cycles; an increment from `0xFF` reloads TMA
    /// and requests the timer interrupt.
    pub open spec fn run_tima(self, threshold: u32) -> MMU
        decreases self.tima_counter,
    {
        if threshold > 0 && self.tima_counter >= threshold {
            MMU {
                tima_counter: (self.tima_counter - threshold) as u32,
                tima: if self.tima == 0xFF { self.tma } else { (self.tima + 1) as u8 },
                interrupt_flag: if self.tima == 0xFF {
                    self.interrupt_flag | 0x04
                } else {
                    self.interrupt_flag
                },
                ..self
            }.run_tima(threshold)
        } else {
            self
        }
    }

    /// The timer registers after `cycles` cycles: the counter behind DIV
    /// moves on by `cycles`, DIV is its high byte, and TIMA runs if bit 2 of
    /// TAC is set.
    pub open spec fn tick_spec(self, cycles: u8) -> MMU {
        let counter = ((self.div_counter + cycles) % 0x10000) as u16;
        let divided = MMU { div_counter: counter, div: (counter / 256) as u8, ..self };
        if self.tac & 0x04 != 0 {
            MMU { tima_counter: (self.tima_counter + cycles) as u32, ..divided }.run_tima(
                timer_threshold(self.tac),
            )
        } else {
            divided
        }
    }

    /// Advances DIV and TIMA by `cycles` cycles.
    pub fn tick(&mut self, cycles: u8)
        requires
            old(self).wf(),
        ensures
            *final(self) == old(self).tick_spec(cycles),
            final(self).wf(),
    {
        let counter: u32 = (self.div_counter as u32 + cycles as u32) % 0x10000;
        self.div_counter = counter as u16;
        self.div = (counter / 256) as u8;
        if self.tac & 0x04 != 0 {
            self.tima_counter = self.tima_counter + cycles as u32;
            let threshold: u32 = tima_period(self.tac);
            let ghost start = *self;
            while self.tima_counter >= threshold
                invariant
                    threshold == timer_threshold(self.tac),
                    16 <= threshold <= 1024,
                    self.tima_counter < 1024 + 256,
                    self.run_tima(threshold) == start.run_tima(threshold),
                    self.apu == start.apu,
                    self.ram_len == start.ram_len,
                    self.rom_bank == start.rom_bank,
                    self.mbc_type == start.mbc_type,
                    self.ly == start.ly,
                    self.lyc == start.lyc,
                    self.stat == start.stat,
                decreases self.tima_counter,
            {
                self.tima_counter = self.tima_counter - threshold;
                if self.tima == 0xFF {
                    self.tima = self.tma;
                    self.interrupt_flag = self.interrupt_flag | 0x04;
                } else {
                    self.tima = self.tima + 1;
                }
            }
        }
    }

    // ----- joypad -----

    /// The bus after the host has reported the buttons: the state byte is
    /// taken, and the joypad interrupt is requested if a button that was up
    /// is now held.
    pub open spec fn set_joypad_spec(self, state: u8) -> MMU {
        MMU {
            joypad_state: state,
            interrupt_flag: if self.joypad_state & !state != 0 {
                self.interrupt_flag | 0x10
            } else {
                self.interrupt_flag
            },
            ..self
        }
    }

    /// Takes the host's button byte, one bit per button, 0 while held.
    pub fn set_joypad(&mut self, state: u8)
        ensures
            *final(self) == old(self).set_joypad_spec(state),
            old(self).wf() ==> final(self).wf(),
    {
        if self.joypad_state & !state != 0 {
            self.interrupt_flag = self.interrupt_flag | 0x10;
        }
        self.joypad_state = state;
    }

    // ----- cartridge -----

    /// The state in which a cartridge starts: memories cleared, registers at
    /// their values after the boot program, bank 1 selected, RAM disabled.
    pub open spec fn is_power_on(self, rom: Seq<u8>) -> bool {
        &&& self.rom@ == rom
        &&& self.mbc_type == rom[0x0147]
        &&& self.ram_len == ram_len_of(rom[0x0149])
        &&& forall|i: int| 0 <= i < 0x2000 ==> self.vram@[i] == 0
        &&& forall|i: int| 0 <= i < 0xA0 ==> self.oam@[i] == 0
        &&& forall|i: int| 0 <= i < 0x2000 ==> self.wram@[i] == 0
        &&& forall|i: int| 0 <= i < 0x7F ==> self.hram@[i] == 0
        &&& forall|i: int| 0 <= i < 0x20000 ==> self.eram@[i] == 0
        &&& forall|i: int| 0 <= i < 5 ==> self.rtc_registers@[i] == 0
        &&& self.interrupt_flag == 0xE1 && self.interrupt_enable == 0
        &&& self.div == 0 && self.tima == 0 && self.tma == 0 && self.tac == 0
        &&& self.div_counter == 0 && self.tima_counter == 0
        &&& self.lcdc == 0x91 && self.stat == 0x85 && self.scy == 0 && self.scx == 0
        &&& self.ly == 0 && self.lyc == 0
        &&& self.bgp == 0xFC && self.obp0 == 0xFF && self.obp1 == 0xFF
        &&& self.wy == 0 && self.wx == 0
        &&& self.joypad_state == 0xFF && self.joyp_sel == 0x30
        &&& self.rom_bank == 1 && !self.ram_enabled && self.mode == 0 && self.ram_bank == 0
        &&& self.rtc_sel == 0 && !self.save_dirty
        &&& self.apu.is_power_on()
    }

    /// Takes a cartridge image.  An image shorter than 32 KiB is refused;
    /// any other is accepted, with the mapper from header byte `0x0147` and
    /// the size of the external RAM from header byte `0x0149`.
    pub fn new(rom: Vec<u8>) -> (r: Option<MMU>)
        ensures
            r is None <==> rom@.len() < MIN_ROM_LEN,
            r is Some ==> r->0.is_power_on(rom@) && r->0.wf(),
    {
        if rom.len() < MIN_ROM_LEN {
            return None;
        }
        let mbc_type: u8 = rom[0x0147];
        let ram_len: usize = ram_len_for(rom[0x0149]);
        proof {
            crate::bits::lemma_power_on_stat();
            crate::bits::lemma_bank_bits(1, 0);
        }
        Some(MMU {
            rom,
            vram: [0; 0x2000],
            oam: [0; 0xA0],
            wram: [0; 0x2000],
            hram: [0; 0x7F],
            interrupt_flag: 0xE1,
            interrupt_enable: 0x00,
            div: 0,
            tima: 0,
            tma: 0,
            tac: 0,
            div_counter: 0,
            tima_counter: 0,
            lcdc: 0x91,
            stat: 0x85,
            scy: 0x00,
            scx: 0x00,
            ly: 0x00,
            lyc: 0x00,
            bgp: 0xFC,
            obp0: 0xFF,
            obp1: 0xFF,
            wy: 0x00,
            wx: 0x00,
            joypad_state: 0xFF,
            joyp_sel: 0x30,
            rom_bank: 1,
            ram_enabled: false,
            mode: 0,
            ram_bank: 0,
            eram: [0; 0x20000],
            ram_len,
            rtc_registers: [0; 5],
            rtc_sel: 0,
            mbc_type,
            save_dirty: false,
            apu: APU::new(),
        })
    }

    /// The title in the cartridge header: the bytes from `0x0134` on, up to
    /// the first of the sixteen that is no visible ASCII character.
    pub fn title(&self) -> (t: Vec<u8>)
        requires
            self.rom@.len() >= MIN_ROM_LEN,
        ensures
            t@ == title_of(self.rom@),
            t@.len() <= 16,
            forall|i: int| 0 <= i < t@.len() ==> is_title_byte(#[trigger] t@[i]),
            t@.len() < 16 ==> !is_title_byte(self.rom@[0x0134 + t@.len() as int]),
    {
        let mut t: Vec<u8> = Vec::new();
        let mut i: usize = 0;
        while i < 16 && 0x21 <= self.rom[0x0134 + i] && self.rom[0x0134 + i] <= 0x7E
            invariant
                i <= 16,
                self.rom@.len() >= MIN_ROM_LEN,
                t@ == self.rom@.subrange(0x0134, 0x0134 + i),
                title_len(self.rom@, 0) == i + title_len(self.rom@, i as int),
                forall|j: int| 0 <= j < i ==> is_title_byte(#[trigger] t@[j]),
            decreases 16 - i,
        {
            t.push(self.rom[0x0134 + i]);
            i = i + 1;
            assert(t@ =~= self.rom@.subrange(0x0134, 0x0134 + i));
        }
        t
    }

    /// The bytes of external RAM that exist on the cartridge.
    pub open spec fn save_image(self) -> Seq<u8> {
        self.eram@.subrange(0, self.ram_len as int)
    }

    /// Whether any byte of external RAM is not zero.
    pub fn has_save_data(&self) -> (r: bool)
        requires
            self.wf(),
        ensures
            r <==> exists|i: int| 0 <= i < self.ram_len && self.eram@[i] != 0,
    {
        let mut i: usize = 0;
        while i < self.ram_len
            invariant
                i <= self.ram_len <= MAX_RAM_LEN,
                forall|j: int| 0 <= j < i ==> self.eram@[j] == 0,
            decreases self.ram_len - i,
        {
            if self.eram[i] != 0 {
                return true;
            }
            i = i + 1;
        }
        false
    }

    /// Loads a saved image into external RAM: as many bytes as both the
    /// image and the cartridge's RAM hold, from the start.  Nothing else
    /// changes.
    pub fn load_save(&mut self, data: &[u8])
        requires
            old(self).wf(),
        ensures
            *final(self) == (MMU { eram: final(self).eram, ..*old(self) }),
            forall|i: int| 0 <= i < 0x20000 ==> final(self).eram@[i] == if i < data@.len() && i < old(
                self,
            ).ram_len {
                data@[i]
            } else {
                old(self).eram@[i]
            },
            final(self).wf(),
    {
        let n: usize = if data.len() < self.ram_len { data.len() } else { self.ram_len };
        let mut i: usize = 0;
        while i < n
            invariant
                i <= n,
                n <= data@.len(),
                n <= self.ram_len <= MAX_RAM_LEN,
                n == data@.len() || n == self.ram_len,
                *self == (MMU { eram: self.eram, ..*old(self) }),
                forall|j: int| 0 <= j < 0x20000 ==> self.eram@[j] == if j < i {
                    data@[j]
                } else {
                    old(self).eram@[j]
                },
            decreases n - i,
        {
            self.eram[i] = data[i];
            i = i + 1;
        }
    }

    /// The image to store: a copy of the external RAM that exists.
    pub fn save_ram(&self) -> (image: Vec<u8>)
        requires
            self.wf(),
        ensures
            image@ == self.save_image(),
    {
        let mut image: Vec<u8> = Vec::new();
        let mut i: usize = 0;
        while i < self.ram_len
            invariant
                i <= self.ram_len <= MAX_RAM_LEN,
                image@ == self.eram@.subrange(0, i as int),
            decreases self.ram_len - i,
        {
            image.push(self.eram[i]);
            i = i + 1;
            assert(image@ =~= self.eram@.subrange(0, i as int));
        }
        image
    }

    /// Records that the image handed out by `save_ram` has been stored.
    pub fn mark_saved(&mut self)
        ensures
            *final(self) == (MMU { save_dirty: false, ..*old(self) }),
    {
        self.save_dirty = false;
    }

    // ----- laws -----

    /// Whether `addr` is a byte of work RAM or of high RAM.
    pub open spec fn is_ram(addr: u16) -> bool {
        (0xC000 <= addr <= 0xDFFF) || (0xFF80 <= addr <= 0xFFFE)
    }

    /// Whether a write to `other` reaches the byte of RAM at `addr`: it is
    /// the same address, or its mirror in the echo range.
    pub open spec fn aliases(addr: u16, other: u16) -> bool {
        other == addr || (addr <= 0xDDFF && other == addr + 0x2000)
    }

    /// A byte of work RAM or high RAM reads what was written to it.
    pub proof fn lemma_ram_reads_own_write(self, addr: u16, val: u8)
        requires
            Self::is_ram(addr),
        ensures
            self.write_spec(addr, val).read_spec(addr) == val,
    {
        reveal(MMU::read_spec);
        reveal(MMU::write_spec);
    }

    /// A byte of work RAM or high RAM keeps its value under a write to any
    /// address that is neither its own nor its mirror.
    pub proof fn lemma_ram_keeps_under_other_write(self, addr: u16, other: u16, val: u8)
        requires
            Self::is_ram(addr),
            !Self::aliases(addr, other),
        ensures
            self.write_spec(other, val).read_spec(addr) == self.read_spec(addr),
    {
        reveal(MMU::read_spec);
        reveal(MMU::write_spec);
    }

    /// The echo range mirrors work RAM: a write to either address of a pair
    /// is read back at both.
    pub proof fn lemma_echo_mirrors(self, addr: u16, val: u8)
        requires
            0xC000 <= addr <= 0xDDFF,
        ensures
            self.write_spec(addr, val).read_spec((addr + 0x2000) as u16) == val,
            self.write_spec((addr + 0x2000) as u16, val).read_spec(addr) == val,
            self.read_spec((addr + 0x2000) as u16) == self.read_spec(addr),
    {
        reveal(MMU::read_spec);
        reveal(MMU::write_spec);
    }

    /// A request for ROM bank 0 selects bank 1 on an MBC1 and an MBC3, and
    /// bank 0 on an MBC5.
    pub proof fn lemma_bank_zero(self, addr: u16, val: u8)
        requires
            0x2000 <= addr < 0x3000,
        ensures
            self.mapper() == Mapper::Mbc1 && val & 0x1F == 0 ==> self.write_spec(addr, val).rom_bank
                & 0x1F == 1,
            self.mapper() == Mapper::Mbc3 && val & 0x7F == 0 ==> self.write_spec(addr, val).rom_bank
                == 1,
            self.mapper() == Mapper::Mbc5 && val == 0 ==> self.write_spec(addr, val).rom_bank & 0xFF
                == 0,
    {
        reveal(MMU::write_spec);
        crate::bits::lemma_bank_bits(self.rom_bank, val);
    }

    /// No write changes the cartridge image: a write to a ROM address is
    /// taken by the mapper only.
    pub proof fn lemma_rom_is_never_written(self, addr: u16, val: u8)
        ensures
            self.write_spec(addr, val).rom == self.rom,
            self.write_spec(addr, val).mbc_type == self.mbc_type,
            self.write_spec(addr, val).ram_len == self.ram_len,
            addr < 0x8000 ==> self.write_spec(addr, val) == self.write_mapper_spec(addr, val),
    {
        reveal(MMU::write_spec);
    }

    /// The bus after the writes of `writes`, first to last.
    pub open spec fn write_all(self, writes: Seq<(u16, u8)>) -> MMU
        decreases writes.len(),
    {
        if writes.len() == 0 {
            self
        } else {
            self.write_all(writes.drop_last()).write_spec(writes.last().0, writes.last().1)
        }
    }

    /// After any sequence of writes, a byte of work RAM or high RAM reads
    /// the value of the last write to its address, where no later write
    /// went to its mirror in the echo range.
    pub proof fn lemma_last_write_wins(self, writes: Seq<(u16, u8)>, k: int, addr: u16)
        requires
            Self::is_ram(addr),
            0 <= k < writes.len(),
            writes[k].0 == addr,
            forall|j: int| k < j < writes.len() ==> !Self::aliases(addr, #[trigger] writes[j].0),
        ensures
            self.write_all(writes).read_spec(addr) == writes[k].1,
        decreases writes.len(),
    {
        let before = self.write_all(writes.drop_last());
        if k == writes.len() - 1 {
            before.lemma_ram_reads_own_write(addr, writes[k].1);
        } else {
            assert forall|j: int| k < j < writes.drop_last().len() implies !Self::aliases(
                addr,
                #[trigger] writes.drop_last()[j].0,
            ) by {
                assert(writes.drop_last()[j] == writes[j]);
            }
            self.lemma_last_write_wins(writes.drop_last(), k, addr);
            assert(!Self::aliases(addr, writes[writes.len() - 1].0));
            before.lemma_ram_keeps_under_other_write(addr, writes.last().0, writes.last().1);
        }
    }

    /// The registers outside the sound unit that can be written and read.
    pub open spec fn is_rw_register(addr: u16) -> bool {
        addr == 0xFF00 || addr == 0xFF05 || addr == 0xFF06 || addr == 0xFF07 || addr == 0xFF0F
            || addr == 0xFF40 || addr == 0xFF41 || addr == 0xFF42 || addr == 0xFF43 || addr == 0xFF45
            || addr == 0xFF47 || addr == 0xFF48 || addr == 0xFF49 || addr == 0xFF4A || addr == 0xFF4B
            || addr == 0xFFFF
    }

    /// The bits of a register that a write stores and a read returns.
    pub open spec fn register_mask(addr: u16) -> u8 {
        if 0xFF10 <= addr <= 0xFF3F { APU::register_mask(addr) }
        else if addr == 0xFF00 { 0x30 }
        else if addr == 0xFF07 { 0x07 }
        else if addr == 0xFF0F { 0x1F }
        else if addr == 0xFF41 { 0x78 }
        else { 0xFF }
    }

    /// The bits of a register that always read 1.
    pub open spec fn register_ones(addr: u16) -> u8 {
        if 0xFF10 <= addr <= 0xFF3F { APU::register_ones(addr) }
        else if addr == 0xFF00 { 0xC0 }
        else if addr == 0xFF07 { 0xF8 }
        else if addr == 0xFF0F { 0xE0 }
        else if addr == 0xFF41 { 0x80 }
        else { 0x00 }
    }

    /// A register that is written and then read gives back the written bits
    /// under its mask, with its forced bits set: bit 7 of STAT, bits 5-7
    /// of IF, bits 3-7 of TAC and bits 6-7 of the joypad register read 1.
    /// A sound register other than NR52 does so while the sound unit is
    /// switched on.
    #[verifier::rlimit(40)]
    pub proof fn lemma_register_round_trip(self, addr: u16, val: u8)
        requires
            self.wf(),
            Self::is_rw_register(addr) || (APU::is_readable_register(addr) && (self.apu.powered()
                || addr == 0xFF26)),
        ensures
            self.write_spec(addr, val).read_spec(addr) & Self::register_mask(addr) == val
                & Self::register_mask(addr),
            self.write_spec(addr, val).read_spec(addr) & Self::register_ones(addr)
                == Self::register_ones(addr),
    {
        reveal(MMU::read_spec);
        reveal(MMU::write_spec);
        let after = self.write_spec(addr, val);
        if 0xFF10 <= addr <= 0xFF3F {
            self.apu.lemma_register_round_trip(addr, val);
        } else {
            let directions: u8 = if after.joyp_sel & 0x10 == 0 { after.joypad_state & 0x0F } else { 0x0F };
            let buttons: u8 = if after.joyp_sel & 0x20 == 0 {
                (after.joypad_state >> 4u8) & 0x0F
            } else {
                0x0F
            };
            crate::bits::lemma_masked_round_trip(val, self.stat, directions, buttons, 0);
        }
    }
}

} // verus!
