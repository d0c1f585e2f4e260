use gb_core::apu::{
    clock_envelope_unit, clock_lfsr, duty_is_high, frequency, noise_timer_reload, wave_level,
    SampleMix, APU, QUEUE_CAPACITY,
};

fn sound() -> Box<APU> {
    Box::new(APU::new())
}

fn run(apu: &mut APU, cycles: u32) {
    let mut left = cycles;
    while left > 0 {
        let c = if left > 252 { 252 } else { left };
        apu.tick(c as u8);
        left -= c;
    }
}

#[test]
fn power_on_state() {
    let apu = sound();
    assert_eq!(apu.nr52, 0xF0);
    assert_eq!(apu.read_register(0xFF26), 0xF0);
    assert_eq!(apu.ch4_lfsr, 0x7FFF);
    assert_eq!(apu.queued, 0);
    assert_eq!(apu.frame_sequencer, 0);
}

#[test]
fn trigger_sets_status_bit() {
    let mut apu = sound();
    apu.write_register(0xFF26, 0x80);
    apu.write_register(0xFF12, 0x80);
    apu.write_register(0xFF14, 0x83);
    assert_eq!(apu.read_register(0xFF26) & 0x01, 0x01);
    assert_eq!(apu.read_register(0xFF26), 0xF1);
    assert!(apu.ch1_enabled);
    assert_eq!(apu.ch1_volume, 8);
    assert_eq!(apu.ch1_length_counter, 64);
    assert_eq!(apu.ch1_frequency_timer, (2048 - 0x300) * 4);
}

#[test]
fn channel_without_length_enable_keeps_playing() {
    let mut apu = sound();
    apu.write_register(0xFF26, 0x80);
    apu.write_register(0xFF12, 0x80);
    apu.write_register(0xFF14, 0x83);
    run(&mut apu, 8192 * 2 * 70);
    assert_eq!(apu.read_register(0xFF26) & 0x01, 0x01);
    assert_eq!(apu.ch1_length_counter, 64);
}

#[test]
fn length_counter_expires_within_64_length_steps() {
    let mut apu = sound();
    apu.write_register(0xFF26, 0x80);
    apu.write_register(0xFF12, 0x80);
    apu.write_register(0xFF14, 0xC3);
    assert_eq!(apu.read_register(0xFF26) & 0x01, 0x01);
    // 63 length clocks: at sequencer steps 0, 2, 4, ... every 16384 cycles
    run(&mut apu, 8192 + 16384 * 62);
    assert_eq!(apu.ch1_length_counter, 1);
    assert_eq!(apu.read_register(0xFF26) & 0x01, 0x01);
    run(&mut apu, 16384);
    assert_eq!(apu.ch1_length_counter, 0);
    assert_eq!(apu.read_register(0xFF26) & 0x01, 0x00);
    assert!(!apu.ch1_enabled);
}

#[test]
fn length_register_reloads_the_counter() {
    let mut apu = sound();
    apu.write_register(0xFF11, 0xC0 | 0x3F);
    assert_eq!(apu.ch1_length_counter, 1);
    apu.write_register(0xFF16, 0x00);
    assert_eq!(apu.ch2_length_counter, 64);
    apu.write_register(0xFF1B, 0xFF);
    assert_eq!(apu.ch3_length_counter, 1);
    apu.write_register(0xFF1B, 0x00);
    assert_eq!(apu.ch3_length_counter, 256);
    apu.write_register(0xFF20, 0x20);
    assert_eq!(apu.ch4_length_counter, 32);
}

#[test]
fn dac_off_disables_channel_at_once() {
    let mut apu = sound();
    apu.write_register(0xFF17, 0xF0);
    apu.write_register(0xFF19, 0x80);
    assert!(apu.ch2_enabled);
    apu.write_register(0xFF17, 0x07);
    assert!(!apu.ch2_enabled);
    assert_eq!(apu.read_register(0xFF26) & 0x02, 0);
    // a trigger with the DAC off does not start the channel
    apu.write_register(0xFF19, 0x80);
    assert!(!apu.ch2_enabled);
    apu.write_register(0xFF1A, 0x80);
    apu.write_register(0xFF1E, 0x80);
    assert!(apu.ch3_enabled);
    apu.write_register(0xFF1A, 0x00);
    assert!(!apu.ch3_enabled);
}

#[test]
fn envelope_steps_and_saturates() {
    assert_eq!(clock_envelope_unit(0x00, 3, 7), (3, 7));
    assert_eq!(clock_envelope_unit(0x02, 2, 7), (1, 7));
    assert_eq!(clock_envelope_unit(0x02, 1, 7), (2, 6));
    assert_eq!(clock_envelope_unit(0x0A, 1, 7), (2, 8));
    assert_eq!(clock_envelope_unit(0x0A, 1, 15), (2, 15));
    assert_eq!(clock_envelope_unit(0x02, 1, 0), (2, 0));
    assert_eq!(clock_envelope_unit(0x03, 0, 5), (3, 4));
    for nrx2 in 0..=255u8 {
        for volume in 0..=15u8 {
            for timer in 0..=8u8 {
                let (_, v) = clock_envelope_unit(nrx2, timer, volume);
                assert!(v <= 15);
            }
        }
    }
}

#[test]
fn envelope_is_clocked_on_sequencer_step_7() {
    let mut apu = sound();
    apu.write_register(0xFF12, 0xF1); // volume 15, down, period 1
    apu.write_register(0xFF14, 0x80);
    assert_eq!(apu.ch1_volume, 15);
    run(&mut apu, 8192 * 7);
    assert_eq!(apu.ch1_volume, 15);
    run(&mut apu, 8192);
    assert_eq!(apu.ch1_volume, 14);
    run(&mut apu, 8192 * 8 * 20);
    assert_eq!(apu.ch1_volume, 0);
}

#[test]
fn sweep_overflow_at_trigger_disables_channel() {
    let mut apu = sound();
    apu.write_register(0xFF10, 0x11); // period 1, add, shift 1
    apu.write_register(0xFF12, 0xF0);
    apu.write_register(0xFF13, 0xFF);
    apu.write_register(0xFF14, 0x87); // frequency 0x7FF
    assert!(!apu.ch1_enabled);
    assert_eq!(apu.read_register(0xFF26) & 0x01, 0);
    // with shift 0 there is no check at the trigger
    apu.write_register(0xFF10, 0x10);
    apu.write_register(0xFF14, 0x87);
    assert!(apu.ch1_enabled);
}

#[test]
fn sweep_moves_the_frequency_on_its_clock() {
    let mut apu = sound();
    apu.write_register(0xFF10, 0x12); // period 1, add, shift 2
    apu.write_register(0xFF12, 0xF0);
    apu.write_register(0xFF13, 0x00);
    apu.write_register(0xFF14, 0x84); // frequency 0x400
    assert_eq!(apu.ch1_sweep_shadow, 0x400);
    assert!(apu.ch1_sweep_enabled);
    assert_eq!(apu.calculate_sweep_frequency(), 0x500);
    run(&mut apu, 8192 * 3); // steps 0, 1, 2: the first sweep clock
    assert_eq!(apu.ch1_sweep_shadow, 0x500);
    assert_eq!(frequency(apu.nr13, apu.nr14), 0x500);
    assert!(apu.ch1_enabled);
    run(&mut apu, 8192 * 4);
    assert_eq!(apu.ch1_sweep_shadow, 0x640);
    // 0x640 + 0x190 = 0x7D0; the check after it, 0x7D0 + 0x1F4, overflows
    run(&mut apu, 8192 * 4);
    assert_eq!(apu.ch1_sweep_shadow, 0x7D0);
    assert!(!apu.ch1_enabled);
}

#[test]
fn leaving_subtract_mode_after_a_subtraction_disables_channel() {
    let mut apu = sound();
    apu.write_register(0xFF10, 0x19); // period 1, subtract, shift 1
    apu.write_register(0xFF12, 0xF0);
    apu.write_register(0xFF13, 0x00);
    apu.write_register(0xFF14, 0x84);
    assert!(apu.ch1_enabled);
    assert!(apu.ch1_sweep_neg_mode);
    apu.write_register(0xFF10, 0x11);
    assert!(!apu.ch1_enabled);
    // without a subtraction before, the same write is harmless
    apu.write_register(0xFF10, 0x10);
    apu.write_register(0xFF14, 0x84);
    assert!(!apu.ch1_sweep_neg_mode);
    apu.write_register(0xFF10, 0x18);
    apu.write_register(0xFF10, 0x10);
    assert!(apu.ch1_enabled);
}

#[test]
fn length_enable_edge_on_odd_step_clocks_length() {
    let mut apu = sound();
    apu.write_register(0xFF17, 0xF0);
    apu.write_register(0xFF16, 0x3E); // length 2
    run(&mut apu, 8192); // sequencer now on step 1
    assert_eq!(apu.frame_sequencer, 1);
    assert_eq!(apu.ch2_length_counter, 2);
    apu.write_register(0xFF19, 0x40);
    assert_eq!(apu.ch2_length_counter, 1);
    apu.write_register(0xFF19, 0x40);
    assert_eq!(apu.ch2_length_counter, 1);
    apu.write_register(0xFF19, 0x00);
    apu.write_register(0xFF19, 0x40);
    assert_eq!(apu.ch2_length_counter, 0);
    // a trigger on an odd step with length enabled reloads to 63
    apu.write_register(0xFF19, 0xC0);
    assert_eq!(apu.ch2_length_counter, 63);
    assert!(apu.ch2_enabled);
}

#[test]
fn power_off_clears_registers_but_keeps_length_and_wave() {
    let mut apu = sound();
    apu.write_register(0xFF11, 0x85);
    apu.write_register(0xFF12, 0xF3);
    apu.write_register(0xFF13, 0x12);
    apu.write_register(0xFF24, 0x77);
    apu.write_register(0xFF25, 0xFF);
    apu.write_register(0xFF30, 0xAB);
    apu.write_register(0xFF14, 0x80);
    assert!(apu.ch1_enabled);
    let length = apu.ch1_length_counter;
    apu.write_register(0xFF26, 0x00);
    assert_eq!(apu.read_register(0xFF26), 0x70);
    assert!(!apu.ch1_enabled);
    assert_eq!(apu.nr12, 0);
    assert_eq!(apu.nr13, 0);
    assert_eq!(apu.nr50, 0);
    assert_eq!(apu.nr51, 0);
    assert_eq!(apu.nr11, 0x85);
    assert_eq!(apu.ch1_length_counter, length);
    assert_eq!(apu.wave_ram[0], 0xAB);
    // while off, only NR52 and the length counters take writes
    apu.write_register(0xFF12, 0xF0);
    apu.write_register(0xFF24, 0x55);
    apu.write_register(0xFF11, 0x3F);
    apu.write_register(0xFF1B, 0xF0);
    assert_eq!(apu.nr12, 0);
    assert_eq!(apu.nr50, 0);
    assert_eq!(apu.ch1_length_counter, 1);
    assert_eq!(apu.ch3_length_counter, 16);
    let before = apu.frame_sequencer_timer;
    apu.tick(200);
    assert_eq!(apu.frame_sequencer_timer, before);
    apu.write_register(0xFF26, 0x80);
    assert_eq!(apu.read_register(0xFF26), 0xF0);
    assert_eq!(apu.frame_sequencer, 0);
}

#[test]
fn square_channel_timer_and_duty() {
    assert_eq!(frequency(0xFF, 0xFF), 0x7FF);
    assert_eq!(frequency(0x34, 0x02), 0x234);
    let mut apu = sound();
    apu.write_register(0xFF17, 0xF0);
    apu.write_register(0xFF18, 0xFF);
    apu.write_register(0xFF19, 0x87); // frequency 2047: period 4
    assert_eq!(apu.ch2_frequency_timer, 4);
    apu.tick(4);
    assert_eq!(apu.ch2_duty_position, 0);
    apu.tick(1);
    assert_eq!(apu.ch2_duty_position, 1);
    assert_eq!(apu.ch2_frequency_timer, 4);
    apu.tick(35);
    assert_eq!(apu.ch2_duty_position, 0);
    assert!(duty_is_high(0x00, 7) && !duty_is_high(0x00, 0));
    assert!(duty_is_high(0x40, 0) && duty_is_high(0x40, 7) && !duty_is_high(0x40, 1));
    assert!(duty_is_high(0x80, 0) && duty_is_high(0x80, 5) && !duty_is_high(0x80, 4));
    assert!(!duty_is_high(0xC0, 0) && duty_is_high(0xC0, 1) && !duty_is_high(0xC0, 7));
}

#[test]
fn wave_channel_plays_nibbles() {
    assert_eq!(wave_level(0xA5, 0, 0x20), 0x0A);
    assert_eq!(wave_level(0xA5, 1, 0x20), 0x05);
    assert_eq!(wave_level(0xA5, 0, 0x40), 0x05);
    assert_eq!(wave_level(0xA5, 0, 0x60), 0x02);
    assert_eq!(wave_level(0xA5, 0, 0x00), 0x00);
    let mut apu = sound();
    apu.write_register(0xFF30, 0x12);
    apu.write_register(0xFF31, 0x34);
    apu.write_register(0xFF1A, 0x80);
    apu.write_register(0xFF1D, 0xFF);
    apu.write_register(0xFF1E, 0x87); // period 2
    assert_eq!(apu.ch3_position, 0);
    apu.tick(3);
    assert_eq!(apu.ch3_position, 1);
    apu.tick(6);
    assert_eq!(apu.ch3_position, 3);
    // while playing, wave memory is reached at the position
    assert_eq!(apu.read_register(0xFF3F), 0x34);
    apu.write_register(0xFF3F, 0x99);
    assert_eq!(apu.wave_ram[1], 0x99);
}

#[test]
fn noise_shift_register() {
    assert_eq!(noise_timer_reload(0x00), 8);
    assert_eq!(noise_timer_reload(0x01), 16);
    assert_eq!(noise_timer_reload(0x07), 112);
    assert_eq!(noise_timer_reload(0x13), 96);
    assert_eq!(noise_timer_reload(0x45), 80 << 4);
    assert_eq!(clock_lfsr(0x7FFF, 0x00), 0x3FFF);
    assert_eq!(clock_lfsr(0x3FFF, 0x00), 0x1FFF);
    assert_eq!(clock_lfsr(0x0001, 0x00), 0x4000);
    assert_eq!(clock_lfsr(0x0001, 0x08), 0x4040);
    assert_eq!(clock_lfsr(0x0043, 0x08), 0x0021);
    let mut apu = sound();
    apu.write_register(0xFF21, 0xF0);
    apu.write_register(0xFF22, 0x00);
    apu.write_register(0xFF23, 0x80);
    assert_eq!(apu.ch4_lfsr, 0x7FFF);
    assert_eq!(apu.ch4_frequency_timer, 8);
    apu.tick(9);
    assert_eq!(apu.ch4_lfsr, 0x3FFF);
}

#[test]
fn mixer_levels() {
    let m = SampleMix { ch1: 15, ch2: 15, ch3: 15, ch4: 15, panning: 0xFF, master: 0x77 };
    assert_eq!(m.left_level(), 420);
    assert_eq!(m.right_level(), 420);
    let m = SampleMix { ch1: 15, ch2: 8, ch3: 4, ch4: 2, panning: 0x21, master: 0x35 };
    assert_eq!(m.left_level(), 8 * 3);
    assert_eq!(m.right_level(), 15 * 5);
    let m = SampleMix { ch1: 15, ch2: 15, ch3: 15, ch4: 15, panning: 0x00, master: 0x77 };
    assert_eq!(m.left_level(), 0);
    assert_eq!(m.right_level(), 0);
    let m = SampleMix { ch1: 1, ch2: 2, ch3: 3, ch4: 4, panning: 0xC3, master: 0xF0 };
    assert_eq!(m.left_level(), 7 * 7);
    assert_eq!(m.right_level(), 0);
}

#[test]
fn one_sample_every_87_cycles() {
    let mut apu = sound();
    apu.write_register(0xFF24, 0x77);
    apu.write_register(0xFF25, 0x11);
    apu.write_register(0xFF11, 0x80);
    apu.write_register(0xFF12, 0xA0);
    apu.write_register(0xFF14, 0x80);
    apu.tick(86);
    assert_eq!(apu.queued, 0);
    apu.tick(1);
    assert_eq!(apu.queued, 1);
    run(&mut apu, 87 * 9);
    assert_eq!(apu.queued, 10);
    let first = apu.samples[0];
    assert_eq!(first.panning, 0x11);
    assert_eq!(first.master, 0x77);
    assert_eq!((first.ch2, first.ch3, first.ch4), (0, 0, 0));
    // duty 50% at position 0 is high: the channel puts out its volume
    assert_eq!(first.ch1, 10);
    assert_eq!(first.left_level(), 70);
    let taken = apu.get_samples();
    assert_eq!(taken.len(), 10);
    assert_eq!(taken[0].ch1, 10);
    assert_eq!(apu.queued, 0);
    assert_eq!(apu.get_samples().len(), 0);
}

#[test]
fn queue_is_bounded() {
    let mut apu = sound();
    run(&mut apu, 87 * (QUEUE_CAPACITY as u32 + 50));
    assert_eq!(apu.queued, QUEUE_CAPACITY);
    assert_eq!(apu.get_samples().len(), QUEUE_CAPACITY);
    run(&mut apu, 87);
    assert_eq!(apu.queued, 1);
}

#[test]
fn frame_sequencer_steps_every_8192_cycles() {
    let mut apu = sound();
    run(&mut apu, 8191);
    assert_eq!(apu.frame_sequencer, 0);
    apu.tick(1);
    assert_eq!(apu.frame_sequencer, 1);
    run(&mut apu, 8192 * 7);
    assert_eq!(apu.frame_sequencer, 0);
}
