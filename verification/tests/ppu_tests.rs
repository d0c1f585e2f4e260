use gb_core::mmu::MMU;
use gb_core::ppu::{
    base_color_at, color_of_planes, get_color, get_tile_data_addr, map_color_at, PPU, BLACK,
    DARK_GRAY, LIGHT_GRAY, WHITE,
};

fn lcd_bus() -> Box<MMU> {
    let mut m = Box::new(MMU::new(vec![0u8; 0x8000]).unwrap());
    m.interrupt_flag = 0xE0;
    m
}

fn lcd_unit() -> Box<PPU> {
    Box::new(PPU::new())
}

/// Tile `tile` with every pixel of every row at colour `color`.
fn solid_tile(m: &mut MMU, tile: usize, color: u8) {
    for row in 0..8 {
        m.vram[tile * 16 + row * 2] = if color & 1 != 0 { 0xFF } else { 0x00 };
        m.vram[tile * 16 + row * 2 + 1] = if color & 2 != 0 { 0xFF } else { 0x00 };
    }
}

fn draw_line(p: &mut PPU, m: &mut MMU, ly: u8) {
    m.ly = ly;
    p.render_line(m);
}

#[test]
fn new_frame_is_white() {
    let p = lcd_unit();
    assert_eq!(p.frame_buffer.len(), 160 * 144);
    assert!(p.frame_buffer.iter().all(|&px| px == 0xFFFFFFFF));
    assert_eq!(p.mode_clock, 0);
    assert_eq!(p.window_line, 0);
}

#[test]
fn palette_decodes_two_bit_fields() {
    assert_eq!(get_color(0xE4, 0), WHITE);
    assert_eq!(get_color(0xE4, 1), LIGHT_GRAY);
    assert_eq!(get_color(0xE4, 2), DARK_GRAY);
    assert_eq!(get_color(0xE4, 3), BLACK);
    assert_eq!(get_color(0x1B, 0), BLACK);
    assert_eq!(get_color(0x1B, 3), WHITE);
    assert_eq!(get_color(0xFC, 0), 0xFFFFFFFF);
    assert_eq!(get_color(0xFC, 1), 0xFF000000);
    assert_eq!(LIGHT_GRAY, 0xFFAAAAAA);
    assert_eq!(DARK_GRAY, 0xFF555555);
}

#[test]
fn tile_planes_combine_into_colour_indices() {
    assert_eq!(color_of_planes(0x80, 0x00, 7), 1);
    assert_eq!(color_of_planes(0x00, 0x80, 7), 2);
    assert_eq!(color_of_planes(0x80, 0x80, 7), 3);
    assert_eq!(color_of_planes(0x80, 0x80, 6), 0);
    assert_eq!(color_of_planes(0x01, 0x00, 0), 1);
}

#[test]
fn tile_data_addressing_modes() {
    assert_eq!(get_tile_data_addr(0x10, 0, 0), 0x0000);
    assert_eq!(get_tile_data_addr(0x10, 1, 3), 16 + 6);
    assert_eq!(get_tile_data_addr(0x10, 255, 7), 255 * 16 + 14);
    assert_eq!(get_tile_data_addr(0x00, 0, 0), 0x1000);
    assert_eq!(get_tile_data_addr(0x00, 127, 7), 0x1000 + 127 * 16 + 14);
    assert_eq!(get_tile_data_addr(0x00, 128, 0), 0x0800);
    assert_eq!(get_tile_data_addr(0x00, 255, 0), 0x0FF0);
}

#[test]
fn background_follows_scroll_and_map_select() {
    let mut m = lcd_bus();
    let mut p = lcd_unit();
    m.lcdc = 0x91;
    m.bgp = 0xE4;
    solid_tile(&mut m, 1, 3);
    solid_tile(&mut m, 2, 1);
    m.vram[0x1800] = 1; // map 0, tile (0,0)
    m.vram[0x1801] = 2; // map 0, tile (1,0)
    draw_line(&mut p, &mut m, 0);
    assert_eq!(p.frame_buffer[0], BLACK);
    assert_eq!(p.frame_buffer[7], BLACK);
    assert_eq!(p.frame_buffer[8], LIGHT_GRAY);
    assert_eq!(p.frame_buffer[16], WHITE);
    m.scx = 4;
    draw_line(&mut p, &mut m, 1);
    assert_eq!(p.frame_buffer[160 + 3], BLACK);
    assert_eq!(p.frame_buffer[160 + 4], LIGHT_GRAY);
    assert_eq!(p.frame_buffer[160 + 12], WHITE);
    m.scx = 0;
    m.scy = 8;
    draw_line(&mut p, &mut m, 2);
    assert_eq!(p.frame_buffer[320], WHITE);
    m.scy = 0;
    m.lcdc = 0x99; // map at 0x9C00
    m.vram[0x1C00] = 2;
    draw_line(&mut p, &mut m, 3);
    assert_eq!(p.frame_buffer[480], LIGHT_GRAY);
    assert_eq!(p.frame_buffer[488], WHITE);
    // the lines drawn before are untouched
    assert_eq!(p.frame_buffer[0], BLACK);
    assert_eq!(p.frame_buffer[160 + 4], LIGHT_GRAY);
}

#[test]
fn background_wraps_at_256() {
    let mut m = lcd_bus();
    let mut p = lcd_unit();
    m.lcdc = 0x91;
    m.bgp = 0xE4;
    solid_tile(&mut m, 1, 2);
    m.vram[0x1800] = 1;
    m.scx = 250;
    m.scy = 250;
    draw_line(&mut p, &mut m, 6);
    assert_eq!(p.frame_buffer[6 * 160 + 5], WHITE);
    assert_eq!(p.frame_buffer[6 * 160 + 6], DARK_GRAY);
    assert_eq!(p.frame_buffer[6 * 160 + 13], DARK_GRAY);
    assert_eq!(p.frame_buffer[6 * 160 + 14], WHITE);
    assert_eq!(map_color_at(&m, false, 0, 0), 2);
}

#[test]
fn signed_tile_addressing_is_used_with_lcdc_bit_4_clear() {
    let mut m = lcd_bus();
    let mut p = lcd_unit();
    m.lcdc = 0x81;
    m.bgp = 0xE4;
    solid_tile(&mut m, 256, 1); // tile 0 in signed mode lives at 0x9000
    solid_tile(&mut m, 128, 2); // tile 0x80 lives at 0x8800
    m.vram[0x1800] = 0x00;
    m.vram[0x1801] = 0x80;
    draw_line(&mut p, &mut m, 0);
    assert_eq!(p.frame_buffer[0], LIGHT_GRAY);
    assert_eq!(p.frame_buffer[8], DARK_GRAY);
}

#[test]
fn window_covers_from_wx_minus_7_with_its_own_line_counter() {
    let mut m = lcd_bus();
    let mut p = lcd_unit();
    m.lcdc = 0xF1; // LCD, window map 0x9C00, window on, tiles at 0x8000, BG on
    m.bgp = 0xE4;
    solid_tile(&mut m, 1, 3);
    solid_tile(&mut m, 2, 1);
    m.vram[0x1C00] = 1; // window row 0
    m.vram[0x1C20] = 2; // window row 1 (lines 8..15)
    m.wy = 10;
    m.wx = 7 + 20;
    draw_line(&mut p, &mut m, 9);
    assert_eq!(p.frame_buffer[9 * 160 + 20], WHITE);
    assert_eq!(p.window_line, 0);
    draw_line(&mut p, &mut m, 10);
    assert_eq!(p.frame_buffer[10 * 160 + 19], WHITE);
    assert_eq!(p.frame_buffer[10 * 160 + 20], BLACK);
    assert_eq!(p.frame_buffer[10 * 160 + 27], BLACK);
    assert_eq!(p.frame_buffer[10 * 160 + 28], WHITE);
    assert_eq!(p.window_line, 1);
    // hidden on the next lines: the counter stands still
    m.wx = 167;
    draw_line(&mut p, &mut m, 11);
    draw_line(&mut p, &mut m, 12);
    assert_eq!(p.window_line, 1);
    assert_eq!(p.frame_buffer[11 * 160 + 20], WHITE);
    // shown again: it goes on where it stood
    m.wx = 7;
    for ly in 13..20 {
        draw_line(&mut p, &mut m, ly);
    }
    assert_eq!(p.window_line, 8);
    assert_eq!(p.frame_buffer[19 * 160], BLACK);
    draw_line(&mut p, &mut m, 20);
    assert_eq!(p.frame_buffer[20 * 160], LIGHT_GRAY);
    assert_eq!(p.window_line, 9);
}

#[test]
fn window_left_of_the_screen_starts_at_column_zero() {
    let mut m = lcd_bus();
    let mut p = lcd_unit();
    m.lcdc = 0xF1;
    m.bgp = 0xE4;
    solid_tile(&mut m, 1, 3);
    m.vram[0x1C01] = 1; // window tile column 1
    m.wy = 0;
    m.wx = 3; // window x of screen column 0 is 4
    draw_line(&mut p, &mut m, 0);
    assert_eq!(p.frame_buffer[3], WHITE);
    assert_eq!(p.frame_buffer[4], BLACK);
    assert_eq!(p.frame_buffer[11], BLACK);
    assert_eq!(p.frame_buffer[12], WHITE);
    assert_eq!(base_color_at(&m, 0, 4), 3);
}

fn put_sprite(m: &mut MMU, i: usize, y: u8, x: u8, tile: u8, attributes: u8) {
    m.oam[i * 4] = y;
    m.oam[i * 4 + 1] = x;
    m.oam[i * 4 + 2] = tile;
    m.oam[i * 4 + 3] = attributes;
}

#[test]
fn sprite_is_drawn_where_its_colour_is_not_zero() {
    let mut m = lcd_bus();
    let mut p = lcd_unit();
    m.lcdc = 0x93;
    m.bgp = 0xE4;
    m.obp0 = 0xE4;
    m.obp1 = 0x1B;
    // tile 1: left half colour 1, right half transparent
    for row in 0..8 {
        m.vram[16 + row * 2] = 0xF0;
        m.vram[16 + row * 2 + 1] = 0x00;
    }
    put_sprite(&mut m, 0, 16 + 5, 8 + 10, 1, 0x00);
    draw_line(&mut p, &mut m, 4);
    assert_eq!(p.frame_buffer[4 * 160 + 10], WHITE);
    draw_line(&mut p, &mut m, 5);
    assert_eq!(p.frame_buffer[5 * 160 + 9], WHITE);
    assert_eq!(p.frame_buffer[5 * 160 + 10], LIGHT_GRAY);
    assert_eq!(p.frame_buffer[5 * 160 + 13], LIGHT_GRAY);
    assert_eq!(p.frame_buffer[5 * 160 + 14], WHITE);
    draw_line(&mut p, &mut m, 12);
    assert_eq!(p.frame_buffer[12 * 160 + 10], LIGHT_GRAY);
    draw_line(&mut p, &mut m, 13);
    assert_eq!(p.frame_buffer[13 * 160 + 10], WHITE);
    // X-flip and the second palette
    put_sprite(&mut m, 0, 16 + 5, 8 + 10, 1, 0x30);
    draw_line(&mut p, &mut m, 5);
    assert_eq!(p.frame_buffer[5 * 160 + 13], WHITE);
    assert_eq!(p.frame_buffer[5 * 160 + 14], DARK_GRAY);
    assert_eq!(p.frame_buffer[5 * 160 + 17], DARK_GRAY);
    // sprites off
    m.lcdc = 0x91;
    draw_line(&mut p, &mut m, 5);
    assert_eq!(p.frame_buffer[5 * 160 + 14], WHITE);
}

#[test]
fn sprite_flips_vertically_and_clips_at_the_edges() {
    let mut m = lcd_bus();
    let mut p = lcd_unit();
    m.lcdc = 0x93;
    m.bgp = 0xE4;
    m.obp0 = 0xE4;
    // tile 1: only row 0 is colour 3
    m.vram[16] = 0xFF;
    m.vram[17] = 0xFF;
    put_sprite(&mut m, 3, 16, 8, 1, 0x40);
    draw_line(&mut p, &mut m, 0);
    assert_eq!(p.frame_buffer[0], WHITE);
    draw_line(&mut p, &mut m, 7);
    assert_eq!(p.frame_buffer[7 * 160], BLACK);
    // partly off the top and the left: y = 12 shows rows 4..7 on lines 0..3
    put_sprite(&mut m, 3, 12, 4, 1, 0x40);
    draw_line(&mut p, &mut m, 3);
    assert_eq!(p.frame_buffer[3 * 160], BLACK);
    assert_eq!(p.frame_buffer[3 * 160 + 3], BLACK);
    assert_eq!(p.frame_buffer[3 * 160 + 4], WHITE);
    // off the right edge
    put_sprite(&mut m, 3, 16, 164, 1, 0x00);
    draw_line(&mut p, &mut m, 0);
    assert_eq!(p.frame_buffer[156], BLACK);
    assert_eq!(p.frame_buffer[159], BLACK);
    assert_eq!(p.frame_buffer[160], WHITE);
}

#[test]
fn tall_sprites_use_the_even_tile_and_the_next() {
    let mut m = lcd_bus();
    let mut p = lcd_unit();
    m.lcdc = 0x97;
    m.bgp = 0xE4;
    m.obp0 = 0xE4;
    solid_tile(&mut m, 4, 1);
    solid_tile(&mut m, 5, 2);
    put_sprite(&mut m, 0, 16, 8, 5, 0x00); // low bit of the tile index is ignored
    draw_line(&mut p, &mut m, 0);
    assert_eq!(p.frame_buffer[0], LIGHT_GRAY);
    draw_line(&mut p, &mut m, 8);
    assert_eq!(p.frame_buffer[8 * 160], DARK_GRAY);
    draw_line(&mut p, &mut m, 15);
    assert_eq!(p.frame_buffer[15 * 160], DARK_GRAY);
    draw_line(&mut p, &mut m, 16);
    assert_eq!(p.frame_buffer[16 * 160], WHITE);
    put_sprite(&mut m, 0, 16, 8, 4, 0x40);
    draw_line(&mut p, &mut m, 0);
    assert_eq!(p.frame_buffer[0], DARK_GRAY);
    draw_line(&mut p, &mut m, 15);
    assert_eq!(p.frame_buffer[15 * 160], LIGHT_GRAY);
}

#[test]
fn lower_oam_index_wins_an_overlap() {
    let mut m = lcd_bus();
    let mut p = lcd_unit();
    m.lcdc = 0x93;
    m.bgp = 0xE4;
    m.obp0 = 0xE4;
    solid_tile(&mut m, 1, 1);
    solid_tile(&mut m, 2, 3);
    put_sprite(&mut m, 2, 16, 8, 1, 0x00);
    put_sprite(&mut m, 7, 16, 12, 2, 0x00);
    draw_line(&mut p, &mut m, 0);
    assert_eq!(p.frame_buffer[0], LIGHT_GRAY);
    assert_eq!(p.frame_buffer[4], LIGHT_GRAY);
    assert_eq!(p.frame_buffer[7], LIGHT_GRAY);
    assert_eq!(p.frame_buffer[8], BLACK);
    assert_eq!(p.frame_buffer[11], BLACK);
    assert_eq!(p.frame_buffer[12], WHITE);
}

#[test]
fn sprite_behind_background_shows_only_over_colour_zero() {
    let mut m = lcd_bus();
    let mut p = lcd_unit();
    m.lcdc = 0x93;
    m.bgp = 0x00; // every background colour is shown white
    m.obp0 = 0xE4;
    solid_tile(&mut m, 1, 2);
    solid_tile(&mut m, 2, 3);
    m.vram[0x1800] = 1; // background colour 2 on columns 0..7
    put_sprite(&mut m, 0, 16, 8 + 4, 2, 0x80);
    draw_line(&mut p, &mut m, 0);
    assert_eq!(p.frame_buffer[4], WHITE);
    assert_eq!(p.frame_buffer[7], WHITE);
    assert_eq!(p.frame_buffer[8], BLACK);
    assert_eq!(p.frame_buffer[11], BLACK);
    put_sprite(&mut m, 0, 16, 8 + 4, 2, 0x00);
    draw_line(&mut p, &mut m, 0);
    assert_eq!(p.frame_buffer[4], BLACK);
}

#[test]
fn scanline_passes_through_modes_2_3_0() {
    let mut m = lcd_bus();
    let mut p = lcd_unit();
    p.tick(&mut m, 4);
    assert_eq!(m.stat & 0x03, 2);
    assert_eq!(m.ly, 0);
    for _ in 0..19 {
        p.tick(&mut m, 4);
    }
    assert_eq!(p.mode_clock, 80);
    assert_eq!(m.stat & 0x03, 2);
    p.tick(&mut m, 4);
    assert_eq!(m.stat & 0x03, 3);
    for _ in 0..42 {
        p.tick(&mut m, 4);
    }
    assert_eq!(p.mode_clock, 252);
    assert_eq!(m.stat & 0x03, 3);
    p.tick(&mut m, 4);
    assert_eq!(m.stat & 0x03, 0);
    for _ in 0..49 {
        p.tick(&mut m, 4);
    }
    assert_eq!(p.mode_clock, 452);
    assert_eq!(m.ly, 0);
    assert_eq!(m.stat & 0x03, 0);
    p.tick(&mut m, 4);
    assert_eq!(m.ly, 1);
    assert_eq!(p.mode_clock, 0);
    assert_eq!(m.stat & 0x03, 2);
}

#[test]
fn line_is_drawn_once_on_entering_mode_3() {
    let mut m = lcd_bus();
    let mut p = lcd_unit();
    m.bgp = 0xE4;
    solid_tile(&mut m, 0, 3);
    for _ in 0..21 {
        p.tick(&mut m, 4);
    }
    assert_eq!(m.stat & 0x03, 3);
    assert_eq!(p.frame_buffer[0], BLACK);
    assert_eq!(p.frame_buffer[159], BLACK);
    assert_eq!(p.frame_buffer[160], WHITE);
    solid_tile(&mut m, 0, 1);
    p.tick(&mut m, 4);
    assert_eq!(p.frame_buffer[0], BLACK);
}

#[test]
fn ly_runs_from_0_to_153_and_wraps() {
    let mut m = lcd_bus();
    let mut p = lcd_unit();
    let mut last = m.ly;
    let mut seen = vec![false; 154];
    for _ in 0..(70224 / 4) * 2 {
        p.tick(&mut m, 4);
        assert!(m.ly < 154);
        assert!(m.ly == last || m.ly == (last + 1) % 154);
        seen[m.ly as usize] = true;
        last = m.ly;
    }
    assert!(seen.iter().all(|&s| s));
}

#[test]
fn vblank_interrupts_are_one_frame_apart() {
    let mut m = lcd_bus();
    let mut p = lcd_unit();
    let mut elapsed: u64 = 0;
    let mut at: Vec<u64> = Vec::new();
    while at.len() < 4 {
        p.tick(&mut m, 4);
        elapsed += 4;
        if m.interrupt_flag & 0x01 != 0 {
            assert_eq!(m.ly, 144);
            assert_eq!(m.stat & 0x03, 1);
            at.push(elapsed);
            m.interrupt_flag &= 0xFE;
        }
    }
    assert_eq!(at[0], 144 * 456);
    assert_eq!(at[1] - at[0], 70224);
    assert_eq!(at[2] - at[1], 70224);
    assert_eq!(at[3] - at[2], 70224);
}

#[test]
fn vblank_period_with_uneven_ticks() {
    let mut m = lcd_bus();
    let mut p = lcd_unit();
    let pattern = [4u8, 12, 8, 20, 24, 16, 4, 8];
    let mut elapsed: i64 = 0;
    let mut starts: Vec<i64> = Vec::new();
    let mut k = 0;
    while starts.len() < 3 {
        let c = pattern[k % pattern.len()];
        k += 1;
        p.tick(&mut m, c);
        elapsed += c as i64;
        if m.interrupt_flag & 0x01 != 0 {
            // line 144 began `mode_clock` cycles ago
            starts.push(elapsed - p.mode_clock as i64);
            m.interrupt_flag &= 0xFE;
        }
    }
    assert_eq!(starts[1] - starts[0], 70224);
    assert_eq!(starts[2] - starts[1], 70224);
}

#[test]
fn stat_interrupts_follow_the_select_bits() {
    let mut m = lcd_bus();
    let mut p = lcd_unit();
    m.write_byte(0xFF41, 0x20); // OAM scan
    p.tick(&mut m, 4);
    assert_eq!(m.interrupt_flag & 0x02, 0x02);
    m.interrupt_flag = 0xE0;
    m.write_byte(0xFF41, 0x08); // H-blank
    for _ in 0..62 {
        p.tick(&mut m, 4);
    }
    assert_eq!(m.stat & 0x03, 3);
    assert_eq!(m.interrupt_flag & 0x02, 0);
    p.tick(&mut m, 4);
    assert_eq!(m.stat & 0x03, 0);
    assert_eq!(m.interrupt_flag & 0x02, 0x02);
    m.interrupt_flag = 0xE0;
    m.write_byte(0xFF41, 0x00);
    for _ in 0..114 {
        p.tick(&mut m, 4);
    }
    assert_eq!(m.interrupt_flag & 0x02, 0);
}

#[test]
fn lyc_coincidence_sets_bit_2_and_requests_stat() {
    let mut m = lcd_bus();
    let mut p = lcd_unit();
    m.write_byte(0xFF45, 2);
    m.write_byte(0xFF41, 0x40);
    m.interrupt_flag = 0xE0;
    for _ in 0..114 {
        p.tick(&mut m, 4);
    }
    assert_eq!(m.ly, 1);
    assert_eq!(m.stat & 0x04, 0);
    assert_eq!(m.interrupt_flag & 0x02, 0);
    for _ in 0..114 {
        p.tick(&mut m, 4);
    }
    assert_eq!(m.ly, 2);
    assert_eq!(m.stat & 0x04, 0x04);
    assert_eq!(m.interrupt_flag & 0x02, 0x02);
    for _ in 0..114 {
        p.tick(&mut m, 4);
    }
    assert_eq!(m.ly, 3);
    assert_eq!(m.stat & 0x04, 0);
}

#[test]
fn lcd_off_holds_ly_and_mode_at_zero() {
    let mut m = lcd_bus();
    let mut p = lcd_unit();
    for _ in 0..300 {
        p.tick(&mut m, 4);
    }
    assert!(m.ly > 0);
    let frame_before = p.frame_buffer[0];
    m.write_byte(0xFF40, 0x11);
    m.interrupt_flag = 0xE0;
    p.tick(&mut m, 4);
    assert_eq!(m.ly, 0);
    assert_eq!(m.stat & 0x03, 0);
    assert_eq!(p.mode_clock, 0);
    for _ in 0..40000 {
        p.tick(&mut m, 4);
    }
    assert_eq!(m.ly, 0);
    assert_eq!(m.interrupt_flag, 0xE0);
    assert_eq!(p.frame_buffer[0], frame_before);
    m.write_byte(0xFF40, 0x91);
    assert_eq!(m.ly, 0);
    assert_eq!(m.stat & 0x03, 0);
    p.tick(&mut m, 4);
    assert_eq!(m.stat & 0x03, 2);
    assert_eq!(m.ly, 0);
}

#[test]
fn set_mode_writes_the_mode_bits_only() {
    let mut m = lcd_bus();
    m.stat = 0xFC;
    m.lyc = 0;
    PPU::set_mode(&mut m, 3);
    assert_eq!(m.stat, 0xFF);
    assert_eq!(m.interrupt_flag & 0x02, 0);
    PPU::set_mode(&mut m, 1);
    assert_eq!(m.stat, 0xFD);
    assert_eq!(m.interrupt_flag & 0x02, 0x02);
}
