use font8x8::UnicodeFonts;
use gb_core::input::{joypad_byte, row_at, BindingDialog, Bindings};
use gb_core::mmu::MMU;
use gb_core::text::{draw_glyph, draw_text, fill_square};

const INK: u32 = 0xFF112233;
const PAPER: u32 = 0xFF000000;

fn glyph(ch: char) -> [u8; 8] {
    font8x8::BASIC_FONTS.get(ch).unwrap()
}

fn glyph_bit(g: &[u8; 8], row: usize, col: usize) -> bool {
    g[row] & (1 << col) != 0
}

#[test]
fn text_is_drawn_with_the_font_glyphs() {
    let width = 24;
    let mut buffer = vec![PAPER; width * 10];
    draw_text(&mut buffer, width, "A", 3, 1, INK, 1);
    let a = glyph('A');
    assert!(a.iter().any(|&row| row != 0));
    for row in 0..10 {
        for col in 0..width {
            let inside = (3..11).contains(&col) && (1..9).contains(&row);
            let expected = inside && glyph_bit(&a, row - 1, col - 3);
            assert_eq!(buffer[row * width + col] == INK, expected, "row {} col {}", row, col);
            assert!(buffer[row * width + col] == INK || buffer[row * width + col] == PAPER);
        }
    }
}

#[test]
fn different_characters_give_different_pictures() {
    let width = 8;
    let mut first = vec![PAPER; 64];
    let mut second = vec![PAPER; 64];
    draw_text(&mut first, width, "A", 0, 0, INK, 1);
    draw_text(&mut second, width, "B", 0, 0, INK, 1);
    assert_ne!(first, second);
    let b = glyph('B');
    for row in 0..8 {
        for col in 0..8 {
            assert_eq!(second[row * 8 + col] == INK, glyph_bit(&b, row, col));
        }
    }
}

#[test]
fn characters_follow_each_other_and_scale() {
    let width = 64;
    let mut buffer = vec![PAPER; width * 20];
    draw_text(&mut buffer, width, "Hi", 2, 3, INK, 2);
    let h = glyph('H');
    let i = glyph('i');
    for row in 0..20usize {
        for col in 0..width {
            let mut expected = false;
            if row >= 3 && row < 3 + 16 && col >= 2 && col < 2 + 32 {
                let cx = col - 2;
                let cy = row - 3;
                let g = if cx < 16 { &h } else { &i };
                expected = glyph_bit(g, cy / 2, (cx % 16) / 2);
            }
            assert_eq!(buffer[row * width + col] == INK, expected, "row {} col {}", row, col);
        }
    }
}

#[test]
fn text_is_clipped_at_the_buffer_edges() {
    let width = 10;
    // 5 full rows and a sixth that is not full
    let mut buffer = vec![PAPER; width * 5 + 4];
    draw_text(&mut buffer, width, "#", 6, 2, INK, 1);
    let g = glyph('#');
    for k in 0..buffer.len() {
        let row = k / width;
        let col = k % width;
        let expected = row < 5 && row >= 2 && col >= 6 && glyph_bit(&g, row - 2, col - 6);
        assert_eq!(buffer[k] == INK, expected, "index {}", k);
    }
    // nothing wraps round into the next row
    let mut narrow = vec![PAPER; 4 * 8];
    draw_text(&mut narrow, 4, "#", 2, 0, INK, 1);
    for row in 0..8 {
        assert_eq!(narrow[row * 4] == INK, false);
        assert_eq!(narrow[row * 4 + 1] == INK, false);
        assert_eq!(narrow[row * 4 + 2] == INK, glyph_bit(&g, row, 0));
        assert_eq!(narrow[row * 4 + 3] == INK, glyph_bit(&g, row, 1));
    }
}

#[test]
fn characters_without_a_glyph_draw_nothing_but_take_their_place() {
    assert!(font8x8::BASIC_FONTS.get('\u{263A}').is_none());
    let width = 32;
    let mut buffer = vec![PAPER; width * 8];
    draw_text(&mut buffer, width, "\u{263A}A", 0, 0, INK, 1);
    let a = glyph('A');
    for row in 0..8 {
        for col in 0..width {
            let expected = (8..16).contains(&col) && glyph_bit(&a, row, col - 8);
            assert_eq!(buffer[row * width + col] == INK, expected);
        }
    }
    let mut empty = vec![PAPER; 64];
    draw_text(&mut empty, 8, "", 0, 0, INK, 3);
    draw_text(&mut empty, 8, "A", 0, 0, INK, 0);
    assert!(empty.iter().all(|&p| p == PAPER));
}

#[test]
fn glyphs_and_squares_are_drawn_as_given() {
    let mut buffer = vec![PAPER; 12 * 12];
    fill_square(&mut buffer, 12, 10, 10, 3, INK);
    for k in 0..144 {
        let expected = k / 12 >= 10 && k % 12 >= 10;
        assert_eq!(buffer[k] == INK, expected);
    }
    let mut buffer = vec![PAPER; 16 * 16];
    let g = [0x01u8, 0x80, 0, 0, 0, 0, 0, 0xFF];
    draw_glyph(&mut buffer, 16, &g, 0, 0, INK, 2);
    assert_eq!(buffer[0], INK);
    assert_eq!(buffer[17], INK);
    assert_eq!(buffer[2], PAPER);
    assert_eq!(buffer[2 * 16 + 14], INK);
    assert_eq!(buffer[3 * 16 + 15], INK);
    assert_eq!(buffer[2 * 16 + 13], PAPER);
    for col in 0..16 {
        assert_eq!(buffer[14 * 16 + col], INK);
        assert_eq!(buffer[15 * 16 + col], INK);
        assert_eq!(buffer[13 * 16 + col], PAPER);
    }
}

#[test]
fn joypad_byte_has_a_zero_for_each_button_held() {
    assert_eq!(joypad_byte(&[false; 8]), 0xFF);
    assert_eq!(joypad_byte(&[true; 8]), 0x00);
    assert_eq!(joypad_byte(&[true, false, false, false, false, false, false, false]), 0xFE);
    assert_eq!(joypad_byte(&[false, false, false, false, false, false, false, true]), 0x7F);
    assert_eq!(joypad_byte(&[false, true, false, false, true, false, false, false]), 0xED);
}

#[test]
fn binding_dialog_binds_the_clicked_row() {
    let mut dialog = BindingDialog {
        bindings: Bindings { buttons: [1, 2, 3, 4, 5, 6, 7, 8], keys: [11, 12, 13, 14, 15, 16, 17, 18] },
        target: None,
    };
    // input without a waiting slot is ignored
    dialog.step(Some(99), Some(98), None);
    assert_eq!(dialog.target, None);
    assert_eq!(dialog.bindings.buttons, [1, 2, 3, 4, 5, 6, 7, 8]);
    dialog.step(None, None, Some(8));
    assert_eq!(dialog.target, None);
    dialog.step(None, None, Some(2));
    assert_eq!(dialog.target, Some(2));
    // a click while waiting changes nothing
    dialog.step(None, None, Some(5));
    assert_eq!(dialog.target, Some(2));
    // the controller button wins over the key
    dialog.step(Some(40), Some(50), None);
    assert_eq!(dialog.target, None);
    assert_eq!(dialog.bindings.buttons, [1, 2, 40, 4, 5, 6, 7, 8]);
    assert_eq!(dialog.bindings.keys, [11, 12, 13, 14, 15, 16, 17, 18]);
    dialog.step(None, None, Some(7));
    dialog.step(None, Some(60), None);
    assert_eq!(dialog.bindings.keys, [11, 12, 13, 14, 15, 16, 17, 60]);
    assert_eq!(dialog.target, None);
}

#[test]
fn clicks_are_mapped_to_rows() {
    assert_eq!(row_at(49, 50, 30), None);
    assert_eq!(row_at(50, 50, 30), Some(0));
    assert_eq!(row_at(79, 50, 30), Some(0));
    assert_eq!(row_at(80, 50, 30), Some(1));
    assert_eq!(row_at(50 + 30 * 8 - 1, 50, 30), Some(7));
    assert_eq!(row_at(50 + 30 * 8, 50, 30), None);
    assert_eq!(row_at(100, 50, 0), None);
}

#[test]
fn title_stops_at_the_first_byte_that_is_no_visible_character() {
    let mut rom = vec![0u8; 0x8000];
    for (i, b) in b"TETRIS".iter().enumerate() {
        rom[0x0134 + i] = *b;
    }
    let m = Box::new(MMU::new(rom.clone()).unwrap());
    assert_eq!(m.title(), b"TETRIS".to_vec());
    rom[0x0134 + 6] = b' ';
    rom[0x0134 + 7] = b'X';
    assert_eq!(Box::new(MMU::new(rom.clone()).unwrap()).title(), b"TETRIS".to_vec());
    for i in 0..0x20 {
        rom[0x0134 + i] = b'A' + (i as u8 % 26);
    }
    assert_eq!(Box::new(MMU::new(rom.clone()).unwrap()).title(), b"ABCDEFGHIJKLMNOP".to_vec());
    rom[0x0134] = 0x7F;
    assert_eq!(Box::new(MMU::new(rom).unwrap()).title().len(), 0);
}
