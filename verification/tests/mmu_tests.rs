use gb_core::mmu::{mapper_kind, ram_len_for, tima_period, Mapper, MMU};

fn cart(mbc_type: u8, ram_code: u8, banks: usize) -> Vec<u8> {
    let mut rom = vec![0u8; banks * 0x4000];
    rom[0x0147] = mbc_type;
    rom[0x0149] = ram_code;
    for bank in 0..banks {
        rom[bank * 0x4000 + 0x3FFF] = bank as u8;
    }
    rom
}

fn bus(mbc_type: u8, ram_code: u8, banks: usize) -> Box<MMU> {
    Box::new(MMU::new(cart(mbc_type, ram_code, banks)).unwrap())
}

#[test]
fn short_image_is_refused() {
    assert!(MMU::new(vec![0u8; 0x7FFF]).is_none());
    assert!(MMU::new(Vec::new()).is_none());
    assert!(MMU::new(vec![0u8; 0x8000]).is_some());
}

#[test]
fn power_on_values() {
    let m = bus(0x00, 0x00, 2);
    assert_eq!(m.interrupt_flag, 0xE1);
    assert_eq!(m.interrupt_enable, 0x00);
    assert_eq!(m.lcdc, 0x91);
    assert_eq!(m.stat, 0x85);
    assert_eq!(m.bgp, 0xFC);
    assert_eq!(m.obp0, 0xFF);
    assert_eq!(m.obp1, 0xFF);
    assert_eq!(m.joypad_state, 0xFF);
    assert_eq!(m.joyp_sel, 0x30);
    assert_eq!(m.rom_bank, 1);
    assert!(!m.ram_enabled);
    assert!(!m.save_dirty);
    assert_eq!(m.read_byte(0xFF26), 0xF0);
}

#[test]
fn header_bytes_pick_mapper_and_ram_size() {
    assert_eq!(mapper_kind(0x00), Mapper::Fixed);
    assert_eq!(mapper_kind(0x01), Mapper::Mbc1);
    assert_eq!(mapper_kind(0x03), Mapper::Mbc1);
    assert_eq!(mapper_kind(0x0F), Mapper::Mbc3);
    assert_eq!(mapper_kind(0x13), Mapper::Mbc3);
    assert_eq!(mapper_kind(0x19), Mapper::Mbc5);
    assert_eq!(mapper_kind(0x1E), Mapper::Mbc5);
    assert_eq!(mapper_kind(0x05), Mapper::Fixed);
    assert_eq!(mapper_kind(0xFF), Mapper::Fixed);
    assert_eq!(ram_len_for(0), 0);
    assert_eq!(ram_len_for(1), 0x800);
    assert_eq!(ram_len_for(2), 0x2000);
    assert_eq!(ram_len_for(3), 0x8000);
    assert_eq!(ram_len_for(4), 0x20000);
    assert_eq!(ram_len_for(5), 0x10000);
    assert_eq!(ram_len_for(6), 0);
    let m = bus(0x1B, 0x03, 2);
    assert_eq!(m.mbc_type, 0x1B);
    assert_eq!(m.ram_len, 0x8000);
}

#[test]
fn mbc1_ram_enable_gates_external_ram() {
    let mut m = bus(0x03, 0x02, 4);
    m.write_byte(0x0000, 0x0A);
    m.write_byte(0xA000, 0x42);
    assert_eq!(m.read_byte(0xA000), 0x42);
    assert!(m.save_dirty);
    m.write_byte(0x0000, 0x00);
    assert_eq!(m.read_byte(0xA000), 0xFF);
    m.write_byte(0xA000, 0x99);
    m.write_byte(0x0000, 0x0A);
    assert_eq!(m.read_byte(0xA000), 0x42);
}

#[test]
fn writes_to_rom_never_change_rom() {
    let mut m = bus(0x01, 0x00, 4);
    let before = m.read_byte(0x0150);
    m.write_byte(0x0150, 0x77);
    assert_eq!(m.read_byte(0x0150), before);
    assert_eq!(m.rom[0x0150], 0);
}

#[test]
fn mbc1_rom_banking() {
    let mut m = bus(0x01, 0x00, 128);
    assert_eq!(m.read_byte(0x3FFF), 0);
    assert_eq!(m.read_byte(0x7FFF), 1);
    m.write_byte(0x2000, 0x05);
    assert_eq!(m.read_byte(0x7FFF), 5);
    m.write_byte(0x2000, 0x00);
    assert_eq!(m.rom_bank, 1);
    assert_eq!(m.read_byte(0x7FFF), 1);
    m.write_byte(0x2000, 0x20);
    assert_eq!(m.rom_bank, 1);
    m.write_byte(0x2000, 0x02);
    m.write_byte(0x4000, 0x01);
    assert_eq!(m.rom_bank, 0x22);
    assert_eq!(m.read_byte(0x7FFF), 0x22);
    m.write_byte(0x6000, 0x01);
    assert_eq!(m.mode, 1);
    assert_eq!(m.read_byte(0x7FFF), 0x02);
    m.write_byte(0x4000, 0x03);
    assert_eq!(m.ram_bank, 3);
    assert_eq!(m.rom_bank, 0x22);
}

#[test]
fn mbc1_ram_bank_follows_banking_mode() {
    let mut m = bus(0x03, 0x03, 4);
    m.write_byte(0x0000, 0x0A);
    m.write_byte(0x6000, 0x01);
    m.write_byte(0x4000, 0x02);
    m.write_byte(0xA010, 0x5A);
    assert_eq!(m.eram[2 * 0x2000 + 0x10], 0x5A);
    m.write_byte(0x6000, 0x00);
    assert_eq!(m.read_byte(0xA010), 0x00);
    m.write_byte(0xA010, 0x11);
    assert_eq!(m.eram[0x10], 0x11);
}

#[test]
fn mbc3_banking_and_clock_registers() {
    let mut m = bus(0x13, 0x03, 128);
    m.write_byte(0x2000, 0x00);
    assert_eq!(m.rom_bank, 1);
    m.write_byte(0x2000, 0x7F);
    assert_eq!(m.read_byte(0x7FFF), 0x7F);
    m.write_byte(0x2000, 0x85);
    assert_eq!(m.rom_bank, 0x05);
    m.write_byte(0x0000, 0x0A);
    m.write_byte(0x4000, 0x03);
    m.write_byte(0xBFFF, 0x12);
    assert_eq!(m.eram[3 * 0x2000 + 0x1FFF], 0x12);
    m.write_byte(0x4000, 0x08);
    m.write_byte(0xA000, 0x3B);
    assert_eq!(m.rtc_registers[0], 0x3B);
    assert_eq!(m.read_byte(0xA123), 0x3B);
    m.write_byte(0x4000, 0x0C);
    m.write_byte(0xA000, 0x01);
    assert_eq!(m.rtc_registers[4], 0x01);
    m.write_byte(0x4000, 0x05);
    assert_eq!(m.read_byte(0xA000), 0xFF);
    m.write_byte(0x6000, 0x01);
    assert_eq!(m.mode, 0);
}

#[test]
fn mbc5_banking_allows_bank_zero_and_nine_bits() {
    let mut m = bus(0x1B, 0x04, 4);
    m.write_byte(0x2000, 0x00);
    assert_eq!(m.rom_bank, 0);
    assert_eq!(m.read_byte(0x7FFF), 0);
    m.write_byte(0x2FFF, 0x03);
    assert_eq!(m.read_byte(0x7FFF), 3);
    m.write_byte(0x3000, 0x01);
    assert_eq!(m.rom_bank, 0x103);
    assert_eq!(m.read_byte(0x7FFF), 0xFF);
    m.write_byte(0x3000, 0xFE);
    assert_eq!(m.rom_bank, 0x003);
    m.write_byte(0x0000, 0x0A);
    m.write_byte(0x4000, 0x1F);
    assert_eq!(m.ram_bank, 0x0F);
    m.write_byte(0xA001, 0x77);
    assert_eq!(m.eram[15 * 0x2000 + 1], 0x77);
    assert_eq!(m.read_byte(0xA001), 0x77);
}

#[test]
fn unknown_mapper_has_no_banking_and_no_ram() {
    let mut m = bus(0x05, 0x03, 4);
    m.write_byte(0x0000, 0x0A);
    m.write_byte(0x2000, 0x03);
    m.write_byte(0x4000, 0x01);
    m.write_byte(0x6000, 0x01);
    assert_eq!(m.rom_bank, 1);
    assert!(!m.ram_enabled);
    assert_eq!(m.mode, 0);
    assert_eq!(m.read_byte(0x7FFF), 1);
    m.write_byte(0xA000, 0x42);
    assert_eq!(m.read_byte(0xA000), 0xFF);
    assert!(!m.save_dirty);
}

#[test]
fn reads_past_the_end_of_rom_give_ff() {
    let mut m = bus(0x01, 0x00, 2);
    m.write_byte(0x2000, 0x02);
    assert_eq!(m.read_byte(0x4000), 0xFF);
    assert_eq!(m.read_byte(0x7FFF), 0xFF);
}

#[test]
fn ram_that_the_cartridge_lacks_reads_ff() {
    let mut m = bus(0x03, 0x00, 2);
    m.write_byte(0x0000, 0x0A);
    m.write_byte(0xA000, 0x42);
    assert_eq!(m.read_byte(0xA000), 0xFF);
    assert!(!m.save_dirty);
    let mut small = bus(0x03, 0x01, 2);
    small.write_byte(0x0000, 0x0A);
    small.write_byte(0xA7FF, 0x42);
    small.write_byte(0xA800, 0x43);
    assert_eq!(small.read_byte(0xA7FF), 0x42);
    assert_eq!(small.read_byte(0xA800), 0xFF);
}

#[test]
fn work_ram_and_high_ram_read_back() {
    let mut m = bus(0x00, 0x00, 2);
    m.write_byte(0xC000, 0x11);
    m.write_byte(0xDFFF, 0x22);
    m.write_byte(0xFF80, 0x33);
    m.write_byte(0xFFFE, 0x44);
    m.write_byte(0xC001, 0x55);
    m.write_byte(0x2000, 0x07);
    m.write_byte(0xFF46, 0x00);
    assert_eq!(m.read_byte(0xC000), 0x11);
    assert_eq!(m.read_byte(0xDFFF), 0x22);
    assert_eq!(m.read_byte(0xFF80), 0x33);
    assert_eq!(m.read_byte(0xFFFE), 0x44);
    m.write_byte(0xC000, 0x66);
    assert_eq!(m.read_byte(0xC000), 0x66);
}

#[test]
fn echo_range_mirrors_work_ram() {
    let mut m = bus(0x00, 0x00, 2);
    m.write_byte(0xC123, 0xAB);
    assert_eq!(m.read_byte(0xE123), 0xAB);
    m.write_byte(0xFDFF, 0xCD);
    assert_eq!(m.read_byte(0xDDFF), 0xCD);
    m.write_byte(0xE000, 0x01);
    assert_eq!(m.read_byte(0xC000), 0x01);
}

#[test]
fn unusable_range_reads_ff_and_takes_nothing() {
    let mut m = bus(0x00, 0x00, 2);
    m.write_byte(0xFEA0, 0x12);
    m.write_byte(0xFEFF, 0x34);
    assert_eq!(m.read_byte(0xFEA0), 0xFF);
    assert_eq!(m.read_byte(0xFEFF), 0xFF);
    assert_eq!(m.read_byte(0xFF03), 0xFF);
    m.write_byte(0xFF01, 0x41);
    assert_eq!(m.read_byte(0xFF01), 0xFF);
}

#[test]
fn vram_and_oam_read_back() {
    let mut m = bus(0x00, 0x00, 2);
    m.write_byte(0x8000, 0x12);
    m.write_byte(0x9FFF, 0x34);
    m.write_byte(0xFE00, 0x56);
    m.write_byte(0xFE9F, 0x78);
    assert_eq!(m.read_byte(0x8000), 0x12);
    assert_eq!(m.vram[0x1FFF], 0x34);
    assert_eq!(m.oam[0], 0x56);
    assert_eq!(m.read_byte(0xFE9F), 0x78);
}

#[test]
fn registers_read_back_under_their_masks() {
    let mut m = bus(0x00, 0x00, 2);
    m.write_byte(0xFF07, 0xFF);
    assert_eq!(m.tac, 0x07);
    assert_eq!(m.read_byte(0xFF07), 0xFF);
    m.write_byte(0xFF07, 0x02);
    assert_eq!(m.read_byte(0xFF07), 0xFA);
    m.write_byte(0xFF0F, 0x05);
    assert_eq!(m.read_byte(0xFF0F), 0xE5);
    m.stat = 0x05;
    m.write_byte(0xFF41, 0x7A);
    assert_eq!(m.stat, 0x7D);
    assert_eq!(m.read_byte(0xFF41), 0xFD);
    m.write_byte(0xFF41, 0x00);
    assert_eq!(m.read_byte(0xFF41), 0x85);
    for addr in [0xFF05u16, 0xFF06, 0xFF40, 0xFF42, 0xFF43, 0xFF47, 0xFF48, 0xFF49, 0xFF4A, 0xFF4B, 0xFFFF] {
        m.write_byte(addr, 0xA5);
        assert_eq!(m.read_byte(addr), 0xA5, "register {:#06X}", addr);
    }
    m.write_byte(0xFF44, 0x55);
    assert_eq!(m.read_byte(0xFF44), 0x00);
    m.write_byte(0xFF04, 0x55);
    assert_eq!(m.read_byte(0xFF04), 0x00);
}

#[test]
fn sound_registers_read_back_under_their_masks() {
    let mut m = bus(0x00, 0x00, 2);
    m.write_byte(0xFF26, 0x80);
    m.write_byte(0xFF10, 0x15);
    assert_eq!(m.read_byte(0xFF10), 0x95);
    m.write_byte(0xFF11, 0x80);
    assert_eq!(m.read_byte(0xFF11), 0xBF);
    m.write_byte(0xFF12, 0xF3);
    assert_eq!(m.read_byte(0xFF12), 0xF3);
    m.write_byte(0xFF13, 0x12);
    assert_eq!(m.read_byte(0xFF13), 0xFF);
    m.write_byte(0xFF14, 0x40);
    assert_eq!(m.read_byte(0xFF14), 0xFF);
    m.write_byte(0xFF14, 0x00);
    assert_eq!(m.read_byte(0xFF14), 0xBF);
    m.write_byte(0xFF1A, 0x80);
    assert_eq!(m.read_byte(0xFF1A), 0xFF);
    m.write_byte(0xFF1C, 0x20);
    assert_eq!(m.read_byte(0xFF1C), 0xBF);
    m.write_byte(0xFF24, 0x77);
    assert_eq!(m.read_byte(0xFF24), 0x77);
    m.write_byte(0xFF25, 0xF3);
    assert_eq!(m.read_byte(0xFF25), 0xF3);
    m.write_byte(0xFF30, 0xAB);
    assert_eq!(m.read_byte(0xFF30), 0xAB);
    assert_eq!(m.read_byte(0xFF15), 0xFF);
    assert_eq!(m.read_byte(0xFF1F), 0xFF);
    assert_eq!(m.read_byte(0xFF27), 0xFF);
}

#[test]
fn lyc_write_keeps_the_coincidence_bit_true() {
    let mut m = bus(0x00, 0x00, 2);
    assert_eq!(m.stat & 0x04, 0x04);
    m.write_byte(0xFF45, 0x10);
    assert_eq!(m.lyc, 0x10);
    assert_eq!(m.stat & 0x04, 0x00);
    m.interrupt_flag = 0xE0;
    m.write_byte(0xFF41, 0x40);
    m.write_byte(0xFF45, 0x00);
    assert_eq!(m.stat & 0x04, 0x04);
    assert_eq!(m.interrupt_flag & 0x02, 0x02);
}

#[test]
fn dma_copies_160_bytes_into_oam() {
    let mut m = bus(0x00, 0x00, 2);
    for i in 0..0xA0u16 {
        m.write_byte(0xC100 + i, (i as u8) ^ 0x5A);
    }
    m.write_byte(0xC1A0, 0xEE);
    m.write_byte(0xFF46, 0xC1);
    for i in 0..0xA0u16 {
        assert_eq!(m.oam[i as usize], (i as u8) ^ 0x5A);
        assert_eq!(m.read_byte(0xFE00 + i), m.read_byte(0xC100 + i));
    }
}

#[test]
fn dma_from_rom_and_from_oam_itself() {
    let mut rom = vec![0u8; 0x8000];
    for i in 0..0xA0 {
        rom[0x0200 + i] = i as u8;
    }
    let mut m = Box::new(MMU::new(rom).unwrap());
    m.write_byte(0xFF46, 0x02);
    for i in 0..0xA0usize {
        assert_eq!(m.oam[i], i as u8);
    }
    m.write_byte(0xFF46, 0xFE);
    for i in 0..0xA0usize {
        assert_eq!(m.oam[i], i as u8);
    }
}

#[test]
fn joypad_rows_are_selected_active_low() {
    let mut m = bus(0x00, 0x00, 2);
    m.joypad_state = 0b1110_1101; // A and Left held
    m.write_byte(0xFF00, 0xFF);
    assert_eq!(m.joyp_sel, 0x30);
    assert_eq!(m.read_byte(0xFF00), 0xFF);
    m.write_byte(0xFF00, 0x20); // directions
    assert_eq!(m.read_byte(0xFF00), 0xC0 | 0x20 | 0x0D);
    m.write_byte(0xFF00, 0x10); // buttons
    assert_eq!(m.read_byte(0xFF00), 0xC0 | 0x10 | 0x0E);
    m.write_byte(0xFF00, 0x00); // both
    assert_eq!(m.read_byte(0xFF00), 0xC0 | 0x0C);
}

#[test]
fn joypad_interrupt_on_a_new_press_only() {
    let mut m = bus(0x00, 0x00, 2);
    m.interrupt_flag = 0xE0;
    m.set_joypad(0xFF);
    assert_eq!(m.interrupt_flag & 0x10, 0);
    m.set_joypad(0xFE);
    assert_eq!(m.joypad_state, 0xFE);
    assert_eq!(m.interrupt_flag & 0x10, 0x10);
    m.interrupt_flag = 0xE0;
    m.set_joypad(0xFE);
    assert_eq!(m.interrupt_flag & 0x10, 0);
    m.set_joypad(0xFF);
    assert_eq!(m.interrupt_flag & 0x10, 0);
}

#[test]
fn div_is_the_high_byte_of_a_free_counter() {
    let mut m = bus(0x00, 0x00, 2);
    m.tick(255);
    assert_eq!(m.div, 0);
    m.tick(1);
    assert_eq!(m.div, 1);
    assert_eq!(m.read_byte(0xFF04), 1);
    m.write_byte(0xFF04, 0x99);
    assert_eq!(m.div, 0);
    assert_eq!(m.div_counter, 0);
    m.div_counter = 0xFFFF;
    m.tick(2);
    assert_eq!(m.div_counter, 1);
    assert_eq!(m.div, 0);
}

#[test]
fn tima_counts_at_the_selected_rate() {
    assert_eq!(tima_period(0), 1024);
    assert_eq!(tima_period(1), 16);
    assert_eq!(tima_period(2), 64);
    assert_eq!(tima_period(3), 256);
    let mut m = bus(0x00, 0x00, 2);
    m.tick(200);
    assert_eq!(m.tima, 0);
    m.write_byte(0xFF07, 0x05);
    m.tick(15);
    assert_eq!(m.tima, 0);
    m.tick(1);
    assert_eq!(m.tima, 1);
    m.tick(160);
    assert_eq!(m.tima, 11);
    m.write_byte(0xFF07, 0x04);
    for _ in 0..4 {
        m.tick(255);
    }
    assert_eq!(m.tima, 11);
    m.tick(4);
    assert_eq!(m.tima, 12);
}

#[test]
fn tima_overflow_reloads_tma_and_requests_interrupt() {
    let mut m = bus(0x00, 0x00, 2);
    m.interrupt_flag = 0xE0;
    m.write_byte(0xFF06, 0xAB);
    m.write_byte(0xFF05, 0xFF);
    m.write_byte(0xFF07, 0x05);
    m.tick(16);
    assert_eq!(m.tima, 0xAB);
    assert_eq!(m.interrupt_flag & 0x04, 0x04);
    m.write_byte(0xFF05, 0xFE);
    m.interrupt_flag = 0xE0;
    m.tick(48);
    assert_eq!(m.tima, 0xAC);
    assert_eq!(m.interrupt_flag & 0x04, 0x04);
}

#[test]
fn save_image_round_trip() {
    let mut m = bus(0x03, 0x02, 2);
    assert!(!m.has_save_data());
    let mut data = vec![0u8; 0x2000];
    data[0] = 0x11;
    data[0x1FFF] = 0x22;
    m.load_save(&data);
    assert!(m.has_save_data());
    assert!(!m.save_dirty);
    m.write_byte(0x0000, 0x0A);
    assert_eq!(m.read_byte(0xA000), 0x11);
    assert_eq!(m.read_byte(0xBFFF), 0x22);
    m.write_byte(0xA001, 0x33);
    assert!(m.save_dirty);
    let image = m.save_ram();
    assert_eq!(image.len(), 0x2000);
    assert_eq!(image[0], 0x11);
    assert_eq!(image[1], 0x33);
    assert_eq!(image[0x1FFF], 0x22);
    m.mark_saved();
    assert!(!m.save_dirty);
}

#[test]
fn load_save_takes_no_more_than_the_ram_holds() {
    let mut m = bus(0x03, 0x02, 2);
    let data = vec![0x7Fu8; 0x3000];
    m.load_save(&data);
    assert_eq!(m.eram[0x1FFF], 0x7F);
    assert_eq!(m.eram[0x2000], 0x00);
    let mut n = bus(0x03, 0x03, 2);
    n.load_save(&[1, 2, 3]);
    assert_eq!(&n.eram[0..4], &[1, 2, 3, 0]);
    let mut none = bus(0x00, 0x00, 2);
    none.load_save(&data);
    assert!(!none.has_save_data());
    assert_eq!(none.save_ram().len(), 0);
}
