use gb_core::machine::{Fault, Machine};

fn machine_rom(program: &[u8]) -> Vec<u8> {
    let mut rom = vec![0u8; 0x8000];
    for (i, b) in program.iter().enumerate() {
        rom[0x0100 + i] = *b;
    }
    rom
}

fn machine(program: &[u8]) -> Box<Machine> {
    Box::new(Machine::new(machine_rom(program)).unwrap())
}

#[test]
fn machine_refuses_short_image() {
    assert!(Machine::new(vec![0u8; 100]).is_none());
}

#[test]
fn one_slice_advances_every_unit_by_the_same_cycles() {
    let mut m = machine(&[0x00]);
    let cycles = m.advance();
    assert_eq!(cycles, Ok(4));
    assert_eq!(m.cpu.registers.pc, 0x0101);
    assert_eq!(m.cpu.bus.div_counter, 4);
    assert_eq!(m.ppu.mode_clock, 4);
    assert_eq!(m.cpu.bus.apu.frame_sequencer_timer, 4);
    assert_eq!(m.cpu.bus.apu.sample_timer, 4);
}

#[test]
fn dispatch_cycles_reach_the_other_units() {
    let mut m = machine(&[0x00]);
    m.cpu.bus.interrupt_enable = 0x01;
    m.cpu.bus.interrupt_flag = 0xE1;
    m.cpu.ime = true;
    m.cpu.registers.pc = 0x0150;
    let served = m.dispatch();
    assert_eq!(served, 20);
    assert_eq!(m.cpu.registers.pc, 0x0040);
    assert_eq!(m.cpu.bus.read_byte(0xFFFC), 0x50);
    assert_eq!(m.cpu.bus.read_byte(0xFFFD), 0x01);
    assert_eq!(m.cpu.bus.interrupt_flag & 0x01, 0);
    assert_eq!(m.ppu.mode_clock, 20);
    assert_eq!(m.cpu.bus.div_counter, 20);
    // dispatch plus the NOP at the vector
    let mut n = machine(&[0x00]);
    n.cpu.bus.interrupt_enable = 0x01;
    n.cpu.bus.interrupt_flag = 0xE1;
    n.cpu.ime = true;
    assert_eq!(n.advance(), Ok(24));
    assert_eq!(n.cpu.registers.pc, 0x0041);
    assert_eq!(n.ppu.mode_clock, 24);
}

#[test]
fn undefined_opcode_is_a_fault() {
    let mut m = machine(&[0x00, 0xDD]);
    assert_eq!(m.advance(), Ok(4));
    assert_eq!(m.advance(), Err(Fault { opcode: 0xDD, pc: 0x0101 }));
    assert_eq!(m.cpu.registers.pc, 0x0101);
    assert_eq!(m.run_frame(), Err(Fault { opcode: 0xDD, pc: 0x0101 }));
}

#[test]
fn a_frame_is_70224_cycles() {
    // JR -2: a loop of 12 cycles
    let mut m = machine(&[0x18, 0xFE]);
    let elapsed = m.run_frame().unwrap();
    assert_eq!(elapsed, 70224);
    assert_eq!(m.cpu.bus.ly, 0);
    assert_eq!(m.ppu.mode_clock, 0);
    assert_eq!(m.cpu.bus.interrupt_flag & 0x01, 0x01);
    // one sample every 87 cycles
    assert_eq!(m.cpu.bus.apu.queued, 70224 / 87);
    let again = m.run_frame().unwrap();
    assert_eq!(again, 70224);
}

#[test]
fn a_frame_may_overshoot_by_less_than_one_slice() {
    // CALL $0100 forever: 24 cycles per slice, and 70224 = 24 * 2926
    let mut m = machine(&[0xCD, 0x00, 0x01]);
    assert_eq!(m.run_frame().unwrap(), 70224);
    // PUSH BC; JR -3: 16 + 12 = 28 cycles, 70224 = 28 * 2508
    let mut n = machine(&[0xC5, 0x18, 0xFD]);
    assert_eq!(n.run_frame().unwrap(), 70224);
    // LD (nn),SP takes 20, JR -5 takes 12: after 2194 rounds 70208 cycles have
    // passed, and the next instruction ends the frame 4 cycles late
    let mut o = machine(&[0x08, 0x00, 0xC0, 0x18, 0xFB]);
    let elapsed = o.run_frame().unwrap();
    assert_eq!(elapsed, 70224 + 4);
    assert_eq!(o.ppu.mode_clock, 4);
}

#[test]
fn halted_machine_wakes_on_vblank() {
    // EI; HALT; at the vector 0x40: RETI is not there, so use NOPs and watch PC
    let mut m = machine(&[0xFB, 0x76, 0x00]);
    m.cpu.bus.interrupt_flag = 0xE0;
    m.cpu.bus.interrupt_enable = 0x01;
    assert_eq!(m.advance(), Ok(4));
    assert_eq!(m.advance(), Ok(4));
    assert!(m.cpu.halted);
    assert!(m.cpu.ime);
    let mut elapsed = 8u32;
    while m.cpu.halted {
        let cycles = m.advance().unwrap();
        elapsed += cycles as u32;
        assert!(cycles == 4 || cycles == 24);
        assert!(elapsed < 70224);
    }
    // line 144 began at 65664; dispatch and the NOP at the vector took 24
    assert_eq!(elapsed, 65664 + 24);
    assert_eq!(m.cpu.bus.ly, 144);
    assert_eq!(m.cpu.registers.pc, 0x0041);
    assert!(!m.cpu.ime);
    assert_eq!(m.cpu.bus.read_byte(0xFFFC), 0x02);
}

#[test]
fn program_draws_through_the_frame_loop() {
    // LD A,$FF; LD ($8000),A; LD ($8001),A; JR -2
    let mut m = machine(&[0x3E, 0xFF, 0xEA, 0x00, 0x80, 0xEA, 0x01, 0x80, 0x18, 0xFE]);
    m.run_frame().unwrap();
    // The first row of tile 0 is colour 3 on every line whose row in the tile is 0
    assert_eq!(m.ppu.frame_buffer[0], 0xFF000000);
    assert_eq!(m.ppu.frame_buffer[7], 0xFF000000);
    assert_eq!(m.ppu.frame_buffer[160], 0xFFFFFFFF);
    assert_eq!(m.ppu.frame_buffer[8 * 160 + 159], 0xFF000000);
}

#[test]
fn machine_stays_well_formed() {
    // LD A,$80; LDH ($26),A; LD A,$F3; LDH ($12),A; LD A,$87; LDH ($14),A; JR -2
    let mut m = machine(&[0x3E, 0x80, 0xE0, 0x26, 0x3E, 0xF3, 0xE0, 0x12, 0x3E, 0x87, 0xE0, 0x14, 0x18, 0xFE]);
    assert!(m.is_wf());
    for _ in 0..3 {
        m.run_frame().unwrap();
        assert!(m.is_wf());
        let samples = m.cpu.bus.apu.get_samples();
        assert!(samples.len() >= 807);
        for s in &samples {
            assert!(s.left_level() <= 420);
            assert!(s.right_level() <= 420);
        }
    }
    m.cpu.registers.f = 0x01;
    assert!(!m.is_wf());
    m.cpu.registers.f = 0x00;
    m.ppu.mode_clock = 456;
    assert!(!m.is_wf());
}
