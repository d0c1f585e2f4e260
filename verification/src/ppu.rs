//! The pixel unit: the scanline state machine and the rasterizer.
//!
//! A scanline lasts 456 cycles and passes through modes 2, 3 and 0; lines
//! 144 to 153 are spent in mode 1.  When a line enters mode 3 its 160
//! pixels are drawn: background, window on top, sprites on top of both.
//! `pixel_spec` says what each pixel of a line is.
use vstd::prelude::*;
use crate::alu::{bit_is_set, test_bit};
use crate::mmu::MMU;

verus! {

/// Pixels of a line.
pub const SCREEN_WIDTH: usize = 160;

/// Lines of the screen.
pub const SCREEN_HEIGHT: usize = 144;

/// Cycles of one scanline.
pub const LINE_CYCLES: u32 = 456;

/// Cycles of one frame, `456 * 154`.
pub const FRAME_CYCLES: u32 = 70224;

pub const WHITE: u32 = 0xFFFFFFFF;

pub const LIGHT_GRAY: u32 = 0xFFAAAAAA;

pub const DARK_GRAY: u32 = 0xFF555555;

pub const BLACK: u32 = 0xFF000000;

/// The shade that a palette byte gives a colour index: the two-bit field
/// `(2c + 1, 2c)` of the palette picks one of the four shades.
pub open spec fn palette_shade(palette: u8, color: u8) -> u32 {
    let weight: int = if color == 0 { 1 } else if color == 1 { 4 } else if color == 2 { 16 } else { 64 };
    let shade = (palette as int / weight) % 4;
    if shade == 0 { WHITE } else if shade == 1 { LIGHT_GRAY } else if shade == 2 { DARK_GRAY } else { BLACK }
}

pub fn get_color(palette: u8, color_id: u8) -> (shade: u32)
    ensures
        shade == palette_shade(palette, color_id),
{
    let weight: u8 = if color_id == 0 { 1 } else if color_id == 1 { 4 } else if color_id == 2 { 16 } else { 64 };
    let shade: u8 = (palette / weight) % 4;
    if shade == 0 { WHITE } else if shade == 1 { LIGHT_GRAY } else if shade == 2 { DARK_GRAY } else { BLACK }
}

/// The colour index of one pixel of a tile row: bit `bit` of the high plane
/// is its bit 1, bit `bit` of the low plane its bit 0.
pub open spec fn plane_color(low: u8, high: u8, bit: u8) -> u8 {
    ((if bit_is_set(high, bit) { 2int } else { 0 }) + (if bit_is_set(low, bit) { 1int } else { 0 })) as u8
}

pub fn color_of_planes(low: u8, high: u8, bit: u8) -> (c: u8)
    ensures
        c == plane_color(low, high, bit),
        c <= 3,
{
    let hi: u8 = if test_bit(high, bit) { 2 } else { 0 };
    let lo: u8 = if test_bit(low, bit) { 1 } else { 0 };
    hi + lo
}

/// Where in video RAM row `row` of tile `tile_id` lies.  With bit 4 of LCDC
/// set, tiles count up from `0x8000`; with it clear, `tile_id` is signed
/// and counts from `0x9000`.  The result is an offset from `0x8000`.
pub open spec fn tile_row_offset(lcdc: u8, tile_id: u8, row: u8) -> int {
    if lcdc & 0x10 != 0 || tile_id >= 128 {
        tile_id * 16 + row * 2
    } else {
        0x1000 + tile_id * 16 + row * 2
    }
}

pub fn get_tile_data_addr(lcdc: u8, tile_id: u8, row: u8) -> (offset: usize)
    requires
        row < 8,
    ensures
        offset == tile_row_offset(lcdc, tile_id, row),
        offset + 1 < 0x1800,
{
    if lcdc & 0x10 != 0 || tile_id >= 128 {
        (tile_id as usize) * 16 + (row as usize) * 2
    } else {
        0x1000 + (tile_id as usize) * 16 + (row as usize) * 2
    }
}

/// The colour index at `(tx, ty)` of the 256 by 256 picture that a tile map
/// shows; `high_map` picks the map at `0x9C00` over the one at `0x9800`.
pub open spec fn map_color(mmu: MMU, high_map: bool, tx: u8, ty: u8) -> u8 {
    let map: int = if high_map { 0x1C00 } else { 0x1800 };
    let tile_id = mmu.vram@[map + (ty / 8) * 32 + tx / 8];
    let offset = tile_row_offset(mmu.lcdc, tile_id, ty % 8);
    plane_color(mmu.vram@[offset], mmu.vram@[offset + 1], (7 - tx % 8) as u8)
}

pub fn map_color_at(mmu: &MMU, high_map: bool, tx: u8, ty: u8) -> (c: u8)
    ensures
        c == map_color(*mmu, high_map, tx, ty),
        c <= 3,
{
    let map: usize = if high_map { 0x1C00 } else { 0x1800 };
    let tile_id: u8 = mmu.vram[map + (ty as usize / 8) * 32 + tx as usize / 8];
    let offset: usize = get_tile_data_addr(mmu.lcdc, tile_id, ty % 8);
    color_of_planes(mmu.vram[offset], mmu.vram[offset + 1], 7 - tx % 8)
}

/// The colour index of the background at screen column `x` of line LY.
pub open spec fn background_color(mmu: MMU, x: int) -> u8 {
    map_color(mmu, mmu.lcdc & 0x08 != 0, ((x + mmu.scx) % 256) as u8, ((mmu.ly + mmu.scy) % 256) as u8)
}

pub fn background_color_at(mmu: &MMU, x: u8) -> (c: u8)
    ensures
        c == background_color(*mmu, x as int),
        c <= 3,
{
    let tx: u8 = ((x as u16 + mmu.scx as u16) % 256) as u8;
    let ty: u8 = ((mmu.ly as u16 + mmu.scy as u16) % 256) as u8;
    map_color_at(mmu, mmu.lcdc & 0x08 != 0, tx, ty)
}

/// Whether the window shows on line LY: bit 5 of LCDC, `LY >= WY` and
/// `WX <= 166`.
pub open spec fn window_on_line(mmu: MMU) -> bool {
    mmu.lcdc & 0x20 != 0 && mmu.ly >= mmu.wy && mmu.wx <= 166
}

/// Whether the window covers screen column `x` of line LY: it shows on the
/// line, and `x >= WX - 7`.
pub open spec fn window_covers(mmu: MMU, x: int) -> bool {
    window_on_line(mmu) && x + 7 >= mmu.wx
}

/// The colour index of the window at screen column `x`, on the window's
/// own line `window_line`.
pub open spec fn window_color(mmu: MMU, window_line: u8, x: int) -> u8 {
    map_color(mmu, mmu.lcdc & 0x40 != 0, (x + 7 - mmu.wx) as u8, window_line)
}

/// The colour index under the sprites at column `x`: the window's where it
/// covers the column, else the background's.
pub open spec fn base_color(mmu: MMU, window_line: u8, x: int) -> u8 {
    if window_covers(mmu, x) { window_color(mmu, window_line, x) } else { background_color(mmu, x) }
}

pub fn base_color_at(mmu: &MMU, window_line: u8, x: u8) -> (c: u8)
    requires
        x < 160,
    ensures
        c == base_color(*mmu, window_line, x as int),
        c <= 3,
{
    if mmu.lcdc & 0x20 != 0 && mmu.ly >= mmu.wy && mmu.wx <= 166 && x + 7 >= mmu.wx {
        map_color_at(mmu, mmu.lcdc & 0x40 != 0, x + 7 - mmu.wx, window_line)
    } else {
        background_color_at(mmu, x)
    }
}

/// Height of the sprites: 16 with bit 2 of LCDC set, else 8.
pub open spec fn sprite_height(mmu: MMU) -> int {
    if mmu.lcdc & 0x04 != 0 { 16 } else { 8 }
}

/// Whether sprite `i` lies on line LY: sprites are on (bit 1 of LCDC) and
/// LY is one of the `height` lines from `y - 16` on, `y` being the first
/// byte of the entry.
pub open spec fn sprite_on_line(mmu: MMU, i: int) -> bool {
    let y = mmu.oam@[4 * i];
    mmu.lcdc & 0x02 != 0 && y <= mmu.ly + 16 < y + sprite_height(mmu)
}

/// The row of tile data that sprite `i` shows on line LY, as an offset from
/// `0x8000`: the row is counted from the bottom with Y-flip (bit 6 of the
/// attributes), and a sprite 16 high takes its rows from the even tile and
/// the one after it.
pub open spec fn sprite_row_offset(mmu: MMU, i: int) -> int {
    let height = sprite_height(mmu);
    let tile = mmu.oam@[4 * i + 2];
    let attributes = mmu.oam@[4 * i + 3];
    let line = mmu.ly + 16 - mmu.oam@[4 * i];
    let row = if attributes & 0x40 != 0 { height - 1 - line } else { line };
    let first = if height == 16 { tile - tile % 2 } else { tile as int };
    (first + row / 8) * 16 + (row % 8) * 2
}

/// The colour index of sprite `i` at its own column `px`, `0..8`, from the
/// left; X-flip (bit 5 of the attributes) mirrors the columns.
pub open spec fn sprite_color(mmu: MMU, i: int, px: int) -> u8 {
    let offset = sprite_row_offset(mmu, i);
    let attributes = mmu.oam@[4 * i + 3];
    let bit = if attributes & 0x20 != 0 { px } else { 7 - px };
    plane_color(mmu.vram@[offset], mmu.vram@[offset + 1], bit as u8)
}

/// The shade that sprite `i` puts on screen column `x` of line LY, if it
/// puts one there: the sprite lies on the line, covers the column with a
/// colour other than 0, and is not hidden behind a base colour other than 0
/// by bit 7 of its attributes.  Bit 4 picks OBP1 over OBP0.
pub open spec fn sprite_shade(mmu: MMU, window_line: u8, i: int, x: int) -> Option<u32> {
    let attributes = mmu.oam@[4 * i + 3];
    let px = x + 8 - mmu.oam@[4 * i + 1];
    if !sprite_on_line(mmu, i) || px < 0 || px >= 8 {
        None
    } else if sprite_color(mmu, i, px) == 0 {
        None
    } else if attributes & 0x80 != 0 && base_color(mmu, window_line, x) != 0 {
        None
    } else {
        Some(
            palette_shade(
                if attributes & 0x10 != 0 { mmu.obp1 } else { mmu.obp0 },
                sprite_color(mmu, i, px),
            ),
        )
    }
}

/// The shade of column `x` once the sprites from `first` on are drawn over
/// the shade `under`: the sprite with the lowest index that puts a shade
/// there wins, and where none does `under` stays.
pub open spec fn sprites_over(mmu: MMU, window_line: u8, x: int, first: int, under: u32) -> u32
    decreases 40 - first,
{
    if first >= 40 {
        under
    } else {
        match sprite_shade(mmu, window_line, first, x) {
            Some(shade) => shade,
            None => sprites_over(mmu, window_line, x, first + 1, under),
        }
    }
}

/// The shade of the background at column `x`, through BGP.
pub open spec fn background_shade(mmu: MMU, x: int) -> u32 {
    palette_shade(mmu.bgp, background_color(mmu, x))
}

/// The shade under the sprites at column `x`, through BGP.
pub open spec fn base_shade(mmu: MMU, window_line: u8, x: int) -> u32 {
    palette_shade(mmu.bgp, base_color(mmu, window_line, x))
}

/// The shade of screen column `x` of line LY: background, window on top,
/// all forty sprites on top of both.
pub open spec fn pixel_spec(mmu: MMU, window_line: u8, x: int) -> u32 {
    sprites_over(mmu, window_line, x, 0, base_shade(mmu, window_line, x))
}

/// The start of line `ly` in the frame buffer.
pub open spec fn line_start(ly: u8) -> int {
    ly * 160
}

/// Whether index `j` of the frame buffer lies in line `ly`.
pub open spec fn in_line(ly: u8, j: int) -> bool {
    line_start(ly) <= j < line_start(ly) + 160
}


/// Whether the LCD is on: bit 7 of LCDC.
pub open spec fn lcd_on(mmu: MMU) -> bool {
    mmu.lcdc & 0x80 != 0
}

/// Whether STAT selects an interrupt for the entry into `mode`: bit 3 for
/// H-blank (mode 0), bit 4 for V-blank (mode 1), bit 5 for the OAM scan
/// (mode 2).
pub open spec fn stat_selects(stat: u8, mode: u8) -> bool {
    (mode == 0 && stat & 0x08 != 0) || (mode == 1 && stat & 0x10 != 0) || (mode == 2 && stat
        & 0x20 != 0)
}

/// The bus after the unit has entered `mode`: the mode bits of STAT hold
/// it, and the STAT interrupt is requested where STAT selects it.
pub open spec fn with_mode(mmu: MMU, mode: u8) -> MMU {
    let stat = (mmu.stat & 0xFC) | mode;
    MMU {
        stat: stat,
        interrupt_flag: if stat_selects(stat, mode) {
            mmu.interrupt_flag | 0x02
        } else {
            mmu.interrupt_flag
        },
        ..mmu
    }
}

/// The line after `ly`.
pub open spec fn next_line(ly: u8) -> u8 {
    ((ly + 1) % 154) as u8
}

/// The bus after LY has become `ly`: the coincidence bit of STAT says
/// whether `ly` is LYC, and where it is and bit 6 of STAT is set the STAT
/// interrupt is requested.
pub open spec fn with_line(mmu: MMU, ly: u8) -> MMU {
    if ly == mmu.lyc {
        MMU {
            ly: ly,
            stat: mmu.stat | 0x04,
            interrupt_flag: if mmu.stat & 0x40 != 0 {
                mmu.interrupt_flag | 0x02
            } else {
                mmu.interrupt_flag
            },
            ..mmu
        }
    } else {
        MMU { ly: ly, stat: mmu.stat & 0xFB, ..mmu }
    }
}

/// The bus while the LCD is off: LY is 0 and the mode bits of STAT are
/// clear; the coincidence bit follows LY, and no interrupt is requested.
pub open spec fn lcd_off(mmu: MMU) -> MMU {
    MMU {
        ly: 0,
        stat: if mmu.lyc == 0 { (mmu.stat & 0xFC) | 0x04 } else { (mmu.stat & 0xFC) & 0xFB },
        ..mmu
    }
}

/// The mode of a visible line at `clock` cycles into it: 2 up to cycle 80,
/// 3 for the 172 cycles after it, then 0 to the end of the line.
pub open spec fn target_mode(clock: u32) -> u8 {
    if clock <= 80 { 2 } else if clock <= 252 { 3 } else { 0 }
}

pub struct PPU {
    /// 160 by 144 pixels, line by line, each `0xAARRGGBB`.
    pub frame_buffer: [u32; 23040],
    /// Cycles into the current scanline.
    pub mode_clock: u32,
    /// The window's own line counter: it moves on only on lines that show
    /// the window, and starts again with each frame.
    pub window_line: u8,
}

impl PPU {
    pub open spec fn wf(self) -> bool {
        self.mode_clock < LINE_CYCLES
    }

    /// Whether the state is well formed.
    pub fn is_wf(&self) -> (r: bool)
        ensures
            r == self.wf(),
    {
        self.mode_clock < LINE_CYCLES
    }

    pub fn new() -> (ppu: PPU)
        ensures
            ppu.wf(),
            ppu.mode_clock == 0,
            ppu.window_line == 0,
            forall|j: int| 0 <= j < 23040 ==> ppu.frame_buffer@[j] == WHITE,
    {
        PPU { frame_buffer: [0xFFFFFFFF; 23040], mode_clock: 0, window_line: 0 }
    }

    // ----- timing -----

    /// Whether `cycles` more cycles end the current scanline.
    pub open spec fn line_ends(self, cycles: u8) -> bool {
        self.mode_clock + cycles >= LINE_CYCLES
    }

    /// Cycles into the scanline after `cycles` more cycles.
    pub open spec fn clock_after(self, cycles: u8) -> u32 {
        if self.line_ends(cycles) {
            (self.mode_clock + cycles - LINE_CYCLES) as u32
        } else {
            (self.mode_clock + cycles) as u32
        }
    }

    /// The bus after the end of a scanline: LY moves on, and on the step to
    /// line 144 out of any mode but 1 the unit enters mode 1 and requests
    /// the V-blank interrupt.
    pub open spec fn line_change(mmu: MMU) -> MMU {
        let moved = with_line(mmu, next_line(mmu.ly));
        if moved.ly >= 144 && mmu.stat & 0x03 != 1 {
            let blank = with_mode(moved, 1);
            MMU { interrupt_flag: blank.interrupt_flag | 0x01, ..blank }
        } else {
            moved
        }
    }

    /// The bus after a tick of `cycles` cycles with the LCD on, before any
    /// change of mode on a visible line.
    pub open spec fn bus_after_line(self, mmu: MMU, cycles: u8) -> MMU {
        if self.line_ends(cycles) { Self::line_change(mmu) } else { mmu }
    }

    /// Whether a tick of `cycles` cycles draws a line: the LCD is on and a
    /// visible line enters mode 3.
    pub open spec fn draws(self, mmu: MMU, cycles: u8) -> bool {
        lcd_on(mmu) && self.bus_after_line(mmu, cycles).ly < 144 && target_mode(
            self.clock_after(cycles),
        ) == 3 && mmu.stat & 0x03 != 3
    }

    /// The bus after a tick of `cycles` cycles.
    pub open spec fn bus_after(self, mmu: MMU, cycles: u8) -> MMU {
        if !lcd_on(mmu) {
            lcd_off(mmu)
        } else {
            let lined = self.bus_after_line(mmu, cycles);
            let target = target_mode(self.clock_after(cycles));
            if lined.ly < 144 && mmu.stat & 0x03 != target { with_mode(lined, target) } else { lined }
        }
    }

    /// The window's line counter at the start of the line that a tick is in:
    /// 0 while the LCD is off and on line 0.
    pub open spec fn window_line_before_draw(self, mmu: MMU, cycles: u8) -> u8 {
        if !lcd_on(mmu) {
            0
        } else if self.line_ends(cycles) && next_line(mmu.ly) == 0 {
            0
        } else {
            self.window_line
        }
    }

    /// The window's line counter after a tick: a line that is drawn and
    /// shows the window moves it on.
    pub open spec fn window_line_after(self, mmu: MMU, cycles: u8) -> u8 {
        let before = self.window_line_before_draw(mmu, cycles);
        if self.draws(mmu, cycles) && window_on_line(self.bus_after(mmu, cycles)) {
            ((before + 1) % 256) as u8
        } else {
            before
        }
    }

    /// The frame buffer after line LY of `mmu` has been drawn into `frame`.
    pub open spec fn frame_with_line(frame: Seq<u32>, mmu: MMU, window_line: u8) -> Seq<u32> {
        Seq::new(
            23040,
            |j: int|
                if in_line(mmu.ly, j) {
                    pixel_spec(mmu, window_line, j - line_start(mmu.ly))
                } else {
                    frame[j]
                },
        )
    }

    /// The frame buffer after a tick of `cycles` cycles.
    pub open spec fn frame_after(self, mmu: MMU, cycles: u8) -> Seq<u32> {
        if self.draws(mmu, cycles) {
            Self::frame_with_line(
                self.frame_buffer@,
                self.bus_after(mmu, cycles),
                self.window_line_before_draw(mmu, cycles),
            )
        } else {
            self.frame_buffer@
        }
    }

    /// The frame buffer that holds the pixels `frame`.
    pub open spec fn frame_of(frame: Seq<u32>) -> [u32; 23040] {
        choose|a: [u32; 23040]| a@ == frame
    }

    /// The unit and the bus after a tick of `cycles` cycles.
    pub open spec fn tick_spec(self, mmu: MMU, cycles: u8) -> (PPU, MMU) {
        (
            PPU {
                frame_buffer: Self::frame_of(self.frame_after(mmu, cycles)),
                mode_clock: if lcd_on(mmu) { self.clock_after(cycles) } else { 0 },
                window_line: self.window_line_after(mmu, cycles),
            },
            self.bus_after(mmu, cycles),
        )
    }

    /// Enters `mode`.
    pub fn set_mode(mmu: &mut MMU, mode: u8)
        requires
            mode <= 3,
        ensures
            *final(mmu) == with_mode(*old(mmu), mode),
            old(mmu).wf() ==> final(mmu).wf(),
    {
        proof {
            crate::bits::lemma_mode_bits(mmu.stat, mode);
        }
        mmu.stat = (mmu.stat & 0xFC) | mode;
        let requested: bool = (mode == 0 && mmu.stat & 0x08 != 0) || (mode == 1 && mmu.stat & 0x10
            != 0) || (mode == 2 && mmu.stat & 0x20 != 0);
        if requested {
            mmu.interrupt_flag = mmu.interrupt_flag | 0x02;
        }
    }

    /// Ends a scanline.
    fn end_line(mmu: &mut MMU)
        requires
            old(mmu).wf(),
        ensures
            *final(mmu) == Self::line_change(*old(mmu)),
            final(mmu).wf(),
            final(mmu).lcdc == old(mmu).lcdc,
    {
        let mode: u8 = mmu.stat & 0x03;
        proof {
            crate::bits::lemma_stat_bit2(mmu.stat, 0);
        }
        let ly: u8 = ((mmu.ly as u16 + 1) % 154) as u8;
        mmu.ly = ly;
        if ly == mmu.lyc {
            if mmu.stat & 0x40 != 0 {
                mmu.interrupt_flag = mmu.interrupt_flag | 0x02;
            }
            mmu.stat = mmu.stat | 0x04;
        } else {
            mmu.stat = mmu.stat & 0xFB;
        }
        if ly >= 144 && mode != 1 {
            Self::set_mode(mmu, 1);
            mmu.interrupt_flag = mmu.interrupt_flag | 0x01;
        }
    }

    /// Holds the unit still while the LCD is off.
    fn hold(&mut self, mmu: &mut MMU)
        requires
            old(mmu).wf(),
        ensures
            *final(mmu) == lcd_off(*old(mmu)),
            final(mmu).wf(),
            final(self).mode_clock == 0,
            final(self).window_line == 0,
            final(self).frame_buffer == old(self).frame_buffer,
    {
        proof {
            crate::bits::lemma_mode_bits(mmu.stat, 0);
            crate::bits::lemma_stat_bit2(mmu.stat & 0xFC, 0);
        }
        mmu.ly = 0;
        mmu.stat = if mmu.lyc == 0 { (mmu.stat & 0xFC) | 0x04 } else { (mmu.stat & 0xFC) & 0xFB };
        self.mode_clock = 0;
        self.window_line = 0;
    }

    // ----- drawing -----

    /// Draws the background of line LY: every pixel of the line takes the
    /// background's shade.
    pub fn render_background(&mut self, mmu: &MMU)
        requires
            mmu.ly < 144,
        ensures
            final(self).mode_clock == old(self).mode_clock,
            final(self).window_line == old(self).window_line,
            forall|j: int|
                0 <= j < 23040 ==> final(self).frame_buffer@[j] == if in_line(mmu.ly, j) {
                    background_shade(*mmu, j - line_start(mmu.ly))
                } else {
                    old(self).frame_buffer@[j]
                },
    {
        let start: usize = mmu.ly as usize * 160;
        let mut x: u8 = 0;
        while x < 160
            invariant
                x <= 160,
                mmu.ly < 144,
                start == line_start(mmu.ly),
                self.mode_clock == old(self).mode_clock,
                self.window_line == old(self).window_line,
                forall|j: int|
                    0 <= j < 23040 ==> self.frame_buffer@[j] == if start <= j < start + x {
                        background_shade(*mmu, j - start)
                    } else {
                        old(self).frame_buffer@[j]
                    },
            decreases 160 - x,
        {
            let color: u8 = background_color_at(mmu, x);
            self.frame_buffer[start + x as usize] = get_color(mmu.bgp, color);
            x = x + 1;
        }
    }

    /// Draws the window over line LY where it covers the line, on the
    /// window's own line, and moves the window's line counter on if the
    /// window shows on this line.
    pub fn render_window(&mut self, mmu: &MMU)
        requires
            mmu.ly < 144,
        ensures
            final(self).mode_clock == old(self).mode_clock,
            final(self).window_line == if window_on_line(*mmu) {
                ((old(self).window_line + 1) % 256) as u8
            } else {
                old(self).window_line
            },
            forall|j: int|
                0 <= j < 23040 ==> final(self).frame_buffer@[j] == if in_line(mmu.ly, j)
                    && window_covers(*mmu, j - line_start(mmu.ly)) {
                    palette_shade(
                        mmu.bgp,
                        window_color(*mmu, old(self).window_line, j - line_start(mmu.ly)),
                    )
                } else {
                    old(self).frame_buffer@[j]
                },
    {
        if mmu.lcdc & 0x20 == 0 || mmu.ly < mmu.wy || mmu.wx > 166 {
            return;
        }
        let start: usize = mmu.ly as usize * 160;
        let line: u8 = self.window_line;
        let mut x: u8 = if mmu.wx > 7 { mmu.wx - 7 } else { 0 };
        let ghost first = x;
        while x < 160
            invariant
                first <= x <= 160,
                first + 7 >= mmu.wx,
                first == 0 || first + 7 == mmu.wx,
                mmu.ly < 144,
                window_on_line(*mmu),
                start == line_start(mmu.ly),
                line == old(self).window_line,
                self.mode_clock == old(self).mode_clock,
                self.window_line == old(self).window_line,
                forall|j: int|
                    0 <= j < 23040 ==> self.frame_buffer@[j] == if start + first <= j < start + x {
                        palette_shade(mmu.bgp, window_color(*mmu, line, j - start))
                    } else {
                        old(self).frame_buffer@[j]
                    },
            decreases 160 - x,
        {
            let color: u8 = map_color_at(mmu, mmu.lcdc & 0x40 != 0, x + 7 - mmu.wx, line);
            self.frame_buffer[start + x as usize] = get_color(mmu.bgp, color);
            x = x + 1;
        }
        self.window_line = ((line as u16 + 1) % 256) as u8;
    }

    /// Where sprite `i` puts its own column `px` on line LY, and the shade
    /// it puts there: an index into the frame buffer, if the column is on
    /// screen and the sprite shows there.
    pub open spec fn sprite_target(mmu: MMU, window_line: u8, i: int, px: int) -> Option<(int, u32)> {
        let x = mmu.oam@[4 * i + 1] + px - 8;
        if 0 <= x < 160 {
            match sprite_shade(mmu, window_line, i, x) {
                Some(shade) => Some((line_start(mmu.ly) + x, shade)),
                None => None,
            }
        } else {
            None
        }
    }

    /// Draws column `px` of sprite `i`, whose row of tile data is `low` and
    /// `high`.
    #[verifier::rlimit(40)]
    fn draw_sprite_pixel(&mut self, mmu: &MMU, window_line: u8, i: usize, px: u8, low: u8, high: u8)
        requires
            mmu.ly < 144,
            i < 40,
            px < 8,
            sprite_on_line(*mmu, i as int),
            low == mmu.vram@[sprite_row_offset(*mmu, i as int)],
            high == mmu.vram@[sprite_row_offset(*mmu, i as int) + 1],
        ensures
            final(self).mode_clock == old(self).mode_clock,
            final(self).window_line == old(self).window_line,
            final(self).frame_buffer@ == match Self::sprite_target(*mmu, window_line, i as int, px as int) {
                Some(t) => old(self).frame_buffer@.update(t.0, t.1),
                None => old(self).frame_buffer@,
            },
    {
        let sx: u8 = mmu.oam[4 * i + 1];
        let attributes: u8 = mmu.oam[4 * i + 3];
        let column: u16 = sx as u16 + px as u16;
        if column < 8 || column >= 168 {
            return;
        }
        let x: u8 = (column - 8) as u8;
        let bit: u8 = if attributes & 0x20 != 0 { px } else { 7 - px };
        let color: u8 = color_of_planes(low, high, bit);
        assert(sprite_color(*mmu, i as int, px as int) == color);
        assert(x as int + 8 - sx == px);
        if color == 0 {
            assert(sprite_shade(*mmu, window_line, i as int, x as int) is None);
            return;
        }
        if attributes & 0x80 != 0 && base_color_at(mmu, window_line, x) != 0 {
            assert(sprite_shade(*mmu, window_line, i as int, x as int) is None);
            return;
        }
        let palette: u8 = if attributes & 0x10 != 0 { mmu.obp1 } else { mmu.obp0 };
        assert(sprite_shade(*mmu, window_line, i as int, x as int) == Some(palette_shade(palette, color)));
        self.frame_buffer[mmu.ly as usize * 160 + x as usize] = get_color(palette, color);
    }

    /// Draws sprite `i` over line LY.
    #[verifier::rlimit(40)]
    fn draw_sprite(&mut self, mmu: &MMU, window_line: u8, i: usize)
        requires
            mmu.ly < 144,
            i < 40,
        ensures
            final(self).mode_clock == old(self).mode_clock,
            final(self).window_line == old(self).window_line,
            forall|j: int|
                0 <= j < 23040 ==> final(self).frame_buffer@[j] == if in_line(mmu.ly, j) {
                    match sprite_shade(*mmu, window_line, i as int, j - line_start(mmu.ly)) {
                        Some(shade) => shade,
                        None => old(self).frame_buffer@[j],
                    }
                } else {
                    old(self).frame_buffer@[j]
                },
    {
        let y: u8 = mmu.oam[4 * i];
        let tile: u8 = mmu.oam[4 * i + 2];
        let attributes: u8 = mmu.oam[4 * i + 3];
        let height: u8 = if mmu.lcdc & 0x04 != 0 { 16 } else { 8 };
        let line16: u16 = mmu.ly as u16 + 16;
        if mmu.lcdc & 0x02 == 0 || !(y as u16 <= line16 && line16 < y as u16 + height as u16) {
            return;
        }
        let line: u8 = (line16 - y as u16) as u8;
        let row: u8 = if attributes & 0x40 != 0 { height - 1 - line } else { line };
        let first: u8 = if height == 16 { tile - tile % 2 } else { tile };
        let offset: usize = (first as usize + (row / 8) as usize) * 16 + (row % 8) as usize * 2;
        let low: u8 = mmu.vram[offset];
        let high: u8 = mmu.vram[offset + 1];
        let ghost start = line_start(mmu.ly);
        let ghost sx = mmu.oam@[4 * i + 1] as int;
        let mut px: u8 = 0;
        while px < 8
            invariant
                px <= 8,
                mmu.ly < 144,
                i < 40,
                start == line_start(mmu.ly),
                sx == mmu.oam@[4 * i + 1],
                sprite_on_line(*mmu, i as int),
                low == mmu.vram@[sprite_row_offset(*mmu, i as int)],
                high == mmu.vram@[sprite_row_offset(*mmu, i as int) + 1],
                self.mode_clock == old(self).mode_clock,
                self.window_line == old(self).window_line,
                forall|j: int|
                    0 <= j < 23040 ==> self.frame_buffer@[j] == if in_line(mmu.ly, j) && j - start + 8
                        - sx < px {
                        match sprite_shade(*mmu, window_line, i as int, j - start) {
                            Some(shade) => shade,
                            None => old(self).frame_buffer@[j],
                        }
                    } else {
                        old(self).frame_buffer@[j]
                    },
            decreases 8 - px,
        {
            let ghost before = self.frame_buffer@;
            self.draw_sprite_pixel(mmu, window_line, i, px, low, high);
            assert forall|j: int| 0 <= j < 23040 implies self.frame_buffer@[j] == if in_line(mmu.ly, j)
                && j - start + 8 - sx < px + 1 {
                match sprite_shade(*mmu, window_line, i as int, j - start) {
                    Some(shade) => shade,
                    None => old(self).frame_buffer@[j],
                }
            } else {
                old(self).frame_buffer@[j]
            } by {
                let x = sx + px - 8;
                let target = Self::sprite_target(*mmu, window_line, i as int, px as int);
                if in_line(mmu.ly, j) && j - start + 8 - sx == px {
                    assert(j - start == x);
                    assert(0 <= x < 160);
                    match sprite_shade(*mmu, window_line, i as int, x) {
                        Some(shade) => {
                            assert(target == Some((start + x, shade)));
                            assert(self.frame_buffer@ == before.update(j, shade));
                        },
                        None => {
                            assert(target is None);
                            assert(self.frame_buffer@[j] == before[j]);
                        },
                    }
                } else {
                    match target {
                        Some(t) => {
                            assert(t.0 == start + x);
                            assert(t.0 != j);
                            assert(self.frame_buffer@[j] == before[j]);
                        },
                        None => {
                            assert(self.frame_buffer@[j] == before[j]);
                        },
                    }
                }
            }
            px = px + 1;
        }
        assert forall|j: int| 0 <= j < 23040 implies self.frame_buffer@[j] == if in_line(mmu.ly, j) {
            match sprite_shade(*mmu, window_line, i as int, j - line_start(mmu.ly)) {
                Some(shade) => shade,
                None => old(self).frame_buffer@[j],
            }
        } else {
            old(self).frame_buffer@[j]
        } by {
            let x = j - line_start(mmu.ly);
            if in_line(mmu.ly, j) {
                if x + 8 - sx >= 8 {
                    assert(sprite_shade(*mmu, window_line, i as int, x) is None);
                    assert(self.frame_buffer@[j] == old(self).frame_buffer@[j]);
                } else {
                    assert(self.frame_buffer@[j] == match sprite_shade(*mmu, window_line, i as int, x) {
                        Some(shade) => shade,
                        None => old(self).frame_buffer@[j],
                    });
                }
            } else {
                assert(self.frame_buffer@[j] == old(self).frame_buffer@[j]);
            }
        }
    }

    /// Draws the sprites over line LY, from the last entry of OAM to the
    /// first, so that where two overlap the one with the lower index shows.
    pub fn render_sprites(&mut self, mmu: &MMU, window_line: u8)
        requires
            mmu.ly < 144,
        ensures
            final(self).mode_clock == old(self).mode_clock,
            final(self).window_line == old(self).window_line,
            forall|j: int|
                0 <= j < 23040 ==> final(self).frame_buffer@[j] == if in_line(mmu.ly, j) {
                    sprites_over(
                        *mmu,
                        window_line,
                        j - line_start(mmu.ly),
                        0,
                        old(self).frame_buffer@[j],
                    )
                } else {
                    old(self).frame_buffer@[j]
                },
    {
        let mut i: usize = 40;
        while i > 0
            invariant
                i <= 40,
                mmu.ly < 144,
                self.mode_clock == old(self).mode_clock,
                self.window_line == old(self).window_line,
                forall|j: int|
                    0 <= j < 23040 ==> self.frame_buffer@[j] == if in_line(mmu.ly, j) {
                        sprites_over(
                            *mmu,
                            window_line,
                            j - line_start(mmu.ly),
                            i as int,
                            old(self).frame_buffer@[j],
                        )
                    } else {
                        old(self).frame_buffer@[j]
                    },
            decreases i,
        {
            i = i - 1;
            self.draw_sprite(mmu, window_line, i);
        }
    }

    /// Draws line LY: background, window, sprites.
    pub fn render_line(&mut self, mmu: &MMU)
        requires
            mmu.ly < 144,
        ensures
            final(self).mode_clock == old(self).mode_clock,
            final(self).window_line == if window_on_line(*mmu) {
                ((old(self).window_line + 1) % 256) as u8
            } else {
                old(self).window_line
            },
            final(self).frame_buffer@ == Self::frame_with_line(
                old(self).frame_buffer@,
                *mmu,
                old(self).window_line,
            ),
    {
        let window_line: u8 = self.window_line;
        self.render_background(mmu);
        self.render_window(mmu);
        self.render_sprites(mmu, window_line);
        assert(self.frame_buffer@ =~= Self::frame_with_line(
            old(self).frame_buffer@,
            *mmu,
            old(self).window_line,
        ));
    }

    /// Advances the unit by `cycles` cycles.  With the LCD off, LY and the
    /// mode bits are held at 0 and nothing is drawn or requested.  With it
    /// on, the scanline clock moves on; at 456 cycles LY moves on and the
    /// coincidence bit follows; line 144 enters mode 1 and requests the
    /// V-blank interrupt; a visible line is in mode 2, 3 or 0 by its clock,
    /// and is drawn when it enters mode 3.
    pub fn tick(&mut self, mmu: &mut MMU, cycles: u8)
        requires
            old(self).wf(),
            old(mmu).wf(),
        ensures
            *final(mmu) == old(self).bus_after(*old(mmu), cycles),
            final(self).mode_clock == if lcd_on(*old(mmu)) { old(self).clock_after(cycles) } else { 0 },
            final(self).window_line == old(self).window_line_after(*old(mmu), cycles),
            final(self).frame_buffer@ == old(self).frame_after(*old(mmu), cycles),
            (*final(self), *final(mmu)) == old(self).tick_spec(*old(mmu), cycles),
            final(self).wf(),
            final(mmu).wf(),
    {
        self.tick_lines(mmu, cycles);
        assert(self.frame_buffer =~= Self::frame_of(self.frame_buffer@));
    }

    #[verifier::rlimit(40)]
    fn tick_lines(&mut self, mmu: &mut MMU, cycles: u8)
        requires
            old(self).wf(),
            old(mmu).wf(),
        ensures
            *final(mmu) == old(self).bus_after(*old(mmu), cycles),
            final(self).mode_clock == if lcd_on(*old(mmu)) { old(self).clock_after(cycles) } else { 0 },
            final(self).window_line == old(self).window_line_after(*old(mmu), cycles),
            final(self).frame_buffer@ == old(self).frame_after(*old(mmu), cycles),
            final(self).wf(),
            final(mmu).wf(),
    {
        if mmu.lcdc & 0x80 == 0 {
            self.hold(mmu);
            return;
        }
        let mode: u8 = mmu.stat & 0x03;
        proof {
            crate::bits::lemma_mode_bits(mmu.stat, 0);
        }
        self.mode_clock = self.mode_clock + cycles as u32;
        if self.mode_clock >= LINE_CYCLES {
            self.mode_clock = self.mode_clock - LINE_CYCLES;
            Self::end_line(mmu);
            if mmu.ly == 0 {
                self.window_line = 0;
            }
        }
        if mmu.ly < 144 {
            let target: u8 = if self.mode_clock <= 80 { 2 } else if self.mode_clock <= 252 { 3 } else { 0 };
            if mode != target {
                Self::set_mode(mmu, target);
                if target == 3 {
                    self.render_line(mmu);
                }
            }
        }
    }
}


// ----- laws of the scanline clock -----

/// Cycles from the start of a frame to the start of line 144, `144 * 456`.
pub const VBLANK_START: u32 = 65664;

/// Where in the frame the unit stands: cycles since the start of line 0.
pub open spec fn scan_position(ppu: PPU, mmu: MMU) -> int {
    mmu.ly * 456 + ppu.mode_clock
}

/// Whether the mode bits of STAT agree with LY: mode 1 on the lines from
/// 144 on, and only there.
pub open spec fn mode_synced(mmu: MMU) -> bool {
    (mmu.stat & 0x03 == 1) == (mmu.ly >= 144)
}

impl PPU {
    /// Whether a tick of `cycles` cycles requests the V-blank interrupt.
    pub open spec fn requests_vblank(self, mmu: MMU, cycles: u8) -> bool {
        lcd_on(mmu) && self.line_ends(cycles) && next_line(mmu.ly) >= 144 && mmu.stat & 0x03 != 1
    }

    /// With the LCD on, LY stays or moves to the next line, from 0 up to 153
    /// and round to 0; it moves exactly when the 456 cycles of the line are
    /// over.
    pub proof fn lemma_line_advances(self, mmu: MMU, cycles: u8)
        requires
            self.wf(),
            mmu.wf(),
            lcd_on(mmu),
        ensures
            self.bus_after(mmu, cycles).ly == if self.line_ends(cycles) {
                next_line(mmu.ly)
            } else {
                mmu.ly
            },
            self.bus_after(mmu, cycles).ly < 154,
            self.bus_after(mmu, cycles).lcdc == mmu.lcdc,
    {
    }

    /// With the LCD on, the position in the frame moves on by the cycles of
    /// the tick, modulo the 70224 cycles of a frame.
    pub proof fn lemma_position_advances(self, mmu: MMU, cycles: u8)
        requires
            self.wf(),
            mmu.wf(),
            lcd_on(mmu),
        ensures
            self.bus_after(mmu, cycles).ly * 456 + self.clock_after(cycles) == (scan_position(
                self,
                mmu,
            ) + cycles) % 70224,
            self.clock_after(cycles) < LINE_CYCLES,
    {
        self.lemma_line_advances(mmu, cycles);
    }

    /// The V-blank bit of IF after a tick: set if the tick requests the
    /// interrupt, else as it was.
    pub proof fn lemma_vblank_bit(self, mmu: MMU, cycles: u8)
        requires
            self.wf(),
            mmu.wf(),
        ensures
            self.requests_vblank(mmu, cycles) ==> self.bus_after(mmu, cycles).interrupt_flag & 0x01
                != 0,
            !self.requests_vblank(mmu, cycles) ==> self.bus_after(mmu, cycles).interrupt_flag & 0x01
                == mmu.interrupt_flag & 0x01,
    {
        let lined = self.bus_after_line(mmu, cycles);
        crate::bits::lemma_request_bits(mmu.interrupt_flag);
        crate::bits::lemma_request_bits(lined.interrupt_flag);
        crate::bits::lemma_request_bits(with_line(mmu, next_line(mmu.ly)).interrupt_flag);
        crate::bits::lemma_request_bits(with_mode(with_line(mmu, next_line(mmu.ly)), 1).interrupt_flag);
    }

    /// Once the mode bits agree with LY they go on agreeing, and then the
    /// V-blank interrupt is requested by exactly the tick in which the
    /// position in the frame reaches the start of line 144.
    pub proof fn lemma_vblank_at_line_144(self, mmu: MMU, cycles: u8)
        requires
            self.wf(),
            mmu.wf(),
            lcd_on(mmu),
            mode_synced(mmu),
        ensures
            mode_synced(self.bus_after(mmu, cycles)),
            self.requests_vblank(mmu, cycles) <==> scan_position(self, mmu) < VBLANK_START
                <= scan_position(self, mmu) + cycles,
    {
        let lined = self.bus_after_line(mmu, cycles);
        let moved = with_line(mmu, next_line(mmu.ly));
        crate::bits::lemma_mode_bits(mmu.stat, 0);
        crate::bits::lemma_mode_bits(mmu.stat, 1);
        crate::bits::lemma_mode_bits(mmu.stat, 2);
        crate::bits::lemma_mode_bits(mmu.stat, 3);
        crate::bits::lemma_mode_bits(moved.stat, 0);
        crate::bits::lemma_mode_bits(moved.stat, 1);
        crate::bits::lemma_mode_bits(moved.stat, 2);
        crate::bits::lemma_mode_bits(moved.stat, 3);
    }

    /// Switching the LCD off and on again leaves LY at 0 and the mode bits
    /// of STAT clear: `off` and `on` are the bytes written to LCDC before
    /// and after a tick.
    pub proof fn lemma_lcd_restart(self, mmu: MMU, off: u8, on: u8, cycles: u8)
        requires
            off & 0x80 == 0,
            on & 0x80 != 0,
        ensures
            ({
                let held = self.bus_after(mmu.write_spec(0xFF40, off), cycles);
                let restarted = held.write_spec(0xFF40, on);
                &&& held.ly == 0
                &&& held.stat & 0x03 == 0
                &&& restarted.ly == 0
                &&& restarted.stat & 0x03 == 0
                &&& lcd_on(restarted)
            }),
    {
        reveal(MMU::write_spec);
        let disabled = mmu.write_spec(0xFF40, off);
        crate::bits::lemma_mode_bits(disabled.stat, 0);
        crate::bits::lemma_mode_bits(disabled.stat & 0xFC, 0);
    }
}

impl PPU {
    /// A tick keeps the bus well formed.
    pub proof fn lemma_tick_keeps_wf(self, mmu: MMU, cycles: u8)
        requires
            self.wf(),
            mmu.wf(),
        ensures
            self.bus_after(mmu, cycles).wf(),
            self.tick_spec(mmu, cycles).0.wf(),
            self.tick_spec(mmu, cycles).1 == self.bus_after(mmu, cycles),
    {
        let moved = with_line(mmu, next_line(mmu.ly));
        crate::bits::lemma_stat_bit2(mmu.stat, 0);
        crate::bits::lemma_mode_bits(mmu.stat, 0);
        crate::bits::lemma_mode_bits(mmu.stat, 2);
        crate::bits::lemma_mode_bits(mmu.stat, 3);
        crate::bits::lemma_mode_bits(mmu.stat & 0xFC, 0);
        crate::bits::lemma_stat_bit2(mmu.stat & 0xFC, 0);
        crate::bits::lemma_mode_bits(moved.stat, 0);
        crate::bits::lemma_mode_bits(moved.stat, 1);
        crate::bits::lemma_mode_bits(moved.stat, 2);
        crate::bits::lemma_mode_bits(moved.stat, 3);
    }

    /// The unit and the bus after the ticks of `ticks`, first to last.
    pub open spec fn run_ticks(self, mmu: MMU, ticks: Seq<u8>) -> (PPU, MMU)
        decreases ticks.len(),
    {
        if ticks.len() == 0 {
            (self, mmu)
        } else {
            let before = self.run_ticks(mmu, ticks.drop_last());
            before.0.tick_spec(before.1, ticks.last())
        }
    }

    /// With the LCD on and the mode bits agreeing with LY, the unit stands
    /// before tick `n` where the cycles of the ticks before it have carried
    /// it, and there the LCD is still on and the mode bits still agree.
    pub proof fn lemma_ticks_carry_position(self, mmu: MMU, ticks: Seq<u8>, n: int)
        requires
            self.wf(),
            mmu.wf(),
            lcd_on(mmu),
            mode_synced(mmu),
            0 <= n <= ticks.len(),
        ensures
            ({
                let at = self.run_ticks(mmu, ticks.take(n));
                &&& at.0.wf()
                &&& at.1.wf()
                &&& lcd_on(at.1)
                &&& mode_synced(at.1)
                &&& scan_position(at.0, at.1) == position_before(scan_position(self, mmu), ticks, n)
                &&& n < ticks.len() ==> (at.0.requests_vblank(at.1, ticks[n]) <==> vblank_at(
                    scan_position(self, mmu),
                    ticks,
                    n,
                ))
            }),
        decreases n,
    {
        let start = scan_position(self, mmu);
        if n == 0 {
            assert(ticks.take(0) =~= Seq::<u8>::empty());
            assert(total_cycles(ticks.take(0)) == 0);
            assert(self.run_ticks(mmu, ticks.take(0)) == (self, mmu));
        } else {
            self.lemma_ticks_carry_position(mmu, ticks, n - 1);
            let before = self.run_ticks(mmu, ticks.take(n - 1));
            assert(ticks.take(n).drop_last() =~= ticks.take(n - 1));
            assert(ticks.take(n).last() == ticks[n - 1]);
            let at = self.run_ticks(mmu, ticks.take(n));
            assert(at == before.0.tick_spec(before.1, ticks[n - 1]));
            before.0.lemma_tick_keeps_wf(before.1, ticks[n - 1]);
            before.0.lemma_line_advances(before.1, ticks[n - 1]);
            before.0.lemma_position_advances(before.1, ticks[n - 1]);
            before.0.lemma_vblank_at_line_144(before.1, ticks[n - 1]);
            lemma_positions_follow_ticks(start, ticks, n - 1);
        }
        let at = self.run_ticks(mmu, ticks.take(n));
        if n < ticks.len() {
            at.0.lemma_vblank_at_line_144(at.1, ticks[n]);
        }
    }

    /// With the LCD on and the mode bits agreeing with LY, two ticks that
    /// request the V-blank interrupt, with none between them that does,
    /// have line 144 start exactly 70224 cycles apart.
    pub proof fn lemma_vblank_period(self, mmu: MMU, ticks: Seq<u8>, i: int, j: int)
        requires
            self.wf(),
            mmu.wf(),
            lcd_on(mmu),
            mode_synced(mmu),
            0 <= i < j < ticks.len(),
            self.run_ticks(mmu, ticks.take(i)).0.requests_vblank(
                self.run_ticks(mmu, ticks.take(i)).1,
                ticks[i],
            ),
            self.run_ticks(mmu, ticks.take(j)).0.requests_vblank(
                self.run_ticks(mmu, ticks.take(j)).1,
                ticks[j],
            ),
            forall|k: int|
                i < k < j ==> !(#[trigger] self.run_ticks(mmu, ticks.take(k))).0.requests_vblank(
                    self.run_ticks(mmu, ticks.take(k)).1,
                    ticks[k],
                ),
        ensures
            vblank_instant(scan_position(self, mmu), ticks, j) - vblank_instant(
                scan_position(self, mmu),
                ticks,
                i,
            ) == 70224,
    {
        let start = scan_position(self, mmu);
        self.lemma_ticks_carry_position(mmu, ticks, i);
        self.lemma_ticks_carry_position(mmu, ticks, j);
        assert forall|k: int| i < k < j implies !vblank_at(start, ticks, k) by {
            self.lemma_ticks_carry_position(mmu, ticks, k);
            assert(!self.run_ticks(mmu, ticks.take(k)).0.requests_vblank(
                self.run_ticks(mmu, ticks.take(k)).1,
                ticks[k],
            ));
        }
        lemma_frame_period(start, ticks, i, j);
    }
}

/// The sum of the cycle counts of `ticks`.
pub open spec fn total_cycles(ticks: Seq<u8>) -> int
    decreases ticks.len(),
{
    if ticks.len() == 0 { 0 } else { total_cycles(ticks.drop_last()) + ticks.last() }
}

/// The position in the frame before tick `n` of `ticks`, for a unit that
/// stood at `start` before the first.
pub open spec fn position_before(start: int, ticks: Seq<u8>, n: int) -> int {
    (start + total_cycles(ticks.take(n))) % 70224
}

/// Whether tick `n` passes the start of line 144.
pub open spec fn vblank_at(start: int, ticks: Seq<u8>, n: int) -> bool {
    position_before(start, ticks, n) < VBLANK_START <= position_before(start, ticks, n) + ticks[n]
}

/// The cycle, counted from before the first tick, at which line 144 starts
/// within tick `n`.
pub open spec fn vblank_instant(start: int, ticks: Seq<u8>, n: int) -> int {
    total_cycles(ticks.take(n)) + (VBLANK_START - position_before(start, ticks, n))
}

/// Starts of line 144 seen before tick `n`, counted from a fixed origin.
pub open spec fn frames_before(start: int, ticks: Seq<u8>, n: int) -> int {
    (start + total_cycles(ticks.take(n)) + (70224 - VBLANK_START)) / 70224
}

proof fn lemma_total_step(ticks: Seq<u8>, n: int)
    requires
        0 <= n < ticks.len(),
    ensures
        total_cycles(ticks.take(n + 1)) == total_cycles(ticks.take(n)) + ticks[n],
        total_cycles(ticks.take(n)) >= 0,
    decreases n,
{
    assert(ticks.take(n + 1).drop_last() =~= ticks.take(n));
    assert(ticks.take(n + 1).last() == ticks[n]);
    if n > 0 {
        lemma_total_step(ticks, n - 1);
    }
}

/// The positions before the ticks follow the rule of the unit's own
/// position: each is the one before, moved on by the cycles of the tick,
/// modulo a frame.
pub proof fn lemma_positions_follow_ticks(start: int, ticks: Seq<u8>, n: int)
    requires
        0 <= start < 70224,
        0 <= n < ticks.len(),
    ensures
        position_before(start, ticks, 0) == start,
        position_before(start, ticks, n + 1) == (position_before(start, ticks, n) + ticks[n]) % 70224,
{
    lemma_total_step(ticks, n);
    assert(ticks.take(0) =~= Seq::<u8>::empty());
    let a = start + total_cycles(ticks.take(n));
    let c = ticks[n] as int;
    assert(a == 70224 * (a / 70224) + a % 70224);
    assert((a + c) % 70224 == (a % 70224 + c) % 70224) by {
        let d = a / 70224;
        let r = a % 70224;
        assert(a + c == 70224 * d + (r + c));
        vstd::arithmetic::div_mod::lemma_mod_multiples_vanish(d, r + c, 70224);
    }
}

proof fn lemma_frame_count_step(start: int, ticks: Seq<u8>, n: int)
    requires
        0 <= start < 70224,
        0 <= n < ticks.len(),
    ensures
        frames_before(start, ticks, n + 1) == frames_before(start, ticks, n) + if vblank_at(
            start,
            ticks,
            n,
        ) {
            1int
        } else {
            0int
        },
        vblank_at(start, ticks, n) ==> vblank_instant(start, ticks, n) == 70224 * frames_before(
            start,
            ticks,
            n + 1,
        ) - (start + 70224 - VBLANK_START),
{
    lemma_total_step(ticks, n);
    let a = start + total_cycles(ticks.take(n));
    let c = ticks[n] as int;
    let d = a / 70224;
    let pos = a % 70224;
    assert(a == 70224 * d + pos);
    assert((a + 4560) / 70224 == d + if pos >= 65664 { 1int } else { 0int });
    assert((a + c + 4560) / 70224 == d + if pos + c >= 65664 { 1int } else { 0int });
}

proof fn lemma_frame_count_holds(start: int, ticks: Seq<u8>, i: int, j: int)
    requires
        0 <= start < 70224,
        0 <= i <= j <= ticks.len(),
        forall|k: int| i <= k < j ==> !vblank_at(start, ticks, k),
    ensures
        frames_before(start, ticks, j) == frames_before(start, ticks, i),
    decreases j - i,
{
    if i < j {
        lemma_frame_count_holds(start, ticks, i, j - 1);
        lemma_frame_count_step(start, ticks, j - 1);
    }
}

/// Between two consecutive starts of line 144, which is where the V-blank
/// interrupt is requested, exactly 70224 cycles pass.
pub proof fn lemma_frame_period(start: int, ticks: Seq<u8>, i: int, j: int)
    requires
        0 <= start < 70224,
        0 <= i < j < ticks.len(),
        vblank_at(start, ticks, i),
        vblank_at(start, ticks, j),
        forall|k: int| i < k < j ==> !vblank_at(start, ticks, k),
    ensures
        vblank_instant(start, ticks, j) - vblank_instant(start, ticks, i) == 70224,
{
    lemma_frame_count_step(start, ticks, i);
    lemma_frame_count_step(start, ticks, j);
    lemma_frame_count_holds(start, ticks, i + 1, j);
}

} // verus!
