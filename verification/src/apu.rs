//! The sound unit: four channels clocked from the machine clock, a 512 Hz
//! frame sequencer that drives the length, envelope and sweep units, and a
//! mixer that emits one stereo sample every 87 cycles.
//!
//! Every transition is stated as a spec function on the state itself; the
//! executable methods are proved to compute exactly that function.
use vstd::prelude::*;

verus! {

/// Cycles between two steps of the frame sequencer.
pub const SEQUENCER_PERIOD: u32 = 8192;

/// Cycles between two emitted samples.
pub const SAMPLE_PERIOD: u8 = 87;

/// Samples that the queue holds at most; further ones are dropped until
/// the host has taken the queue.
pub const QUEUE_CAPACITY: usize = 4096;

/// Largest value of a side's level: four channels at 15, master volume 7.
pub const FULL_SCALE: u16 = 420;

/// What the mixer saw at one sample instant: the four channel outputs, each
/// in `0..=15`, the routing byte and the master volume byte.  A side's
/// loudness is `level / 420`, a number in `[0, 1]` that already holds the
/// final scale of one quarter.
#[derive(Clone, Copy, Debug)]
pub struct SampleMix {
    pub ch1: u8,
    pub ch2: u8,
    pub ch3: u8,
    pub ch4: u8,
    pub panning: u8,
    pub master: u8,
}

impl SampleMix {
    pub open spec fn wf(self) -> bool {
        self.ch1 <= 15 && self.ch2 <= 15 && self.ch3 <= 15 && self.ch4 <= 15
    }

    /// Sum of the channel outputs routed to the left side.
    pub open spec fn left_sum(self) -> int {
        (if self.panning & 0x10 != 0 { self.ch1 as int } else { 0 })
        + (if self.panning & 0x20 != 0 { self.ch2 as int } else { 0 })
        + (if self.panning & 0x40 != 0 { self.ch3 as int } else { 0 })
        + (if self.panning & 0x80 != 0 { self.ch4 as int } else { 0 })
    }

    /// Sum of the channel outputs routed to the right side.
    pub open spec fn right_sum(self) -> int {
        (if self.panning & 0x01 != 0 { self.ch1 as int } else { 0 })
        + (if self.panning & 0x02 != 0 { self.ch2 as int } else { 0 })
        + (if self.panning & 0x04 != 0 { self.ch3 as int } else { 0 })
        + (if self.panning & 0x08 != 0 { self.ch4 as int } else { 0 })
    }

    pub open spec fn left_volume(self) -> int {
        (self.master as int / 16) % 8
    }

    pub open spec fn right_volume(self) -> int {
        self.master as int % 8
    }

    /// Left level: routed sum times master volume, out of 420.
    pub fn left_level(&self) -> (r: u16)
        requires
            self.wf(),
        ensures
            r == self.left_sum() * self.left_volume(),
            r <= FULL_SCALE,
    {
        let mut sum: u16 = 0;
        if self.panning & 0x10 != 0 { sum = sum + self.ch1 as u16; }
        if self.panning & 0x20 != 0 { sum = sum + self.ch2 as u16; }
        if self.panning & 0x40 != 0 { sum = sum + self.ch3 as u16; }
        if self.panning & 0x80 != 0 { sum = sum + self.ch4 as u16; }
        let vol: u16 = ((self.master / 16) % 8) as u16;
        assert(sum * vol <= 420) by (nonlinear_arith)
            requires
                sum <= 60,
                vol <= 7,
        ;
        sum * vol
    }

    /// Right level: routed sum times master volume, out of 420.
    pub fn right_level(&self) -> (r: u16)
        requires
            self.wf(),
        ensures
            r == self.right_sum() * self.right_volume(),
            r <= FULL_SCALE,
    {
        let mut sum: u16 = 0;
        if self.panning & 0x01 != 0 { sum = sum + self.ch1 as u16; }
        if self.panning & 0x02 != 0 { sum = sum + self.ch2 as u16; }
        if self.panning & 0x04 != 0 { sum = sum + self.ch3 as u16; }
        if self.panning & 0x08 != 0 { sum = sum + self.ch4 as u16; }
        let vol: u16 = (self.master % 8) as u16;
        assert(sum * vol <= 420) by (nonlinear_arith)
            requires
                sum <= 60,
                vol <= 7,
        ;
        sum * vol
    }
}

/// The sample of a unit that puts out nothing.
pub open spec fn silence() -> SampleMix {
    SampleMix { ch1: 0, ch2: 0, ch3: 0, ch4: 0, panning: 0, master: 0 }
}

/// The 11-bit frequency held in a channel's two frequency registers.
pub open spec fn frequency_of(lo: u8, hi: u8) -> int {
    (hi as int % 8) * 256 + lo as int
}

pub fn frequency(lo: u8, hi: u8) -> (f: u16)
    ensures
        f == frequency_of(lo, hi),
        f <= 2047,
{
    ((hi % 8) as u16) * 256 + lo as u16
}

/// Whether a duty pattern is high at a position of its eight steps.
pub open spec fn duty_high(duty: u8, position: u8) -> bool {
    let d = duty as int / 64;
    if d == 0 {
        position == 7
    } else if d == 1 {
        position == 0 || position == 7
    } else if d == 2 {
        position == 0 || position >= 5
    } else {
        1 <= position <= 6
    }
}

pub fn duty_is_high(duty: u8, position: u8) -> (r: bool)
    ensures
        r == duty_high(duty, position),
{
    let d: u8 = duty / 64;
    if d == 0 {
        position == 7
    } else if d == 1 {
        position == 0 || position == 7
    } else if d == 2 {
        position == 0 || position >= 5
    } else {
        1 <= position && position <= 6
    }
}

/// `2^shift` for the three-bit shift of the sweep unit.
pub open spec fn sweep_divisor(shift: u8) -> int {
    if shift == 0 { 1 } else if shift == 1 { 2 } else if shift == 2 { 4 }
    else if shift == 3 { 8 } else if shift == 4 { 16 } else if shift == 5 { 32 }
    else if shift == 6 { 64 } else { 128 }
}

/// The frequency the sweep unit proposes: the shadow plus or minus the
/// shadow shifted right by the low three bits of the sweep register;
/// bit 3 of the register selects subtraction.
pub open spec fn sweep_target(nr10: u8, shadow: u16) -> int {
    let delta = shadow as int / sweep_divisor(nr10 % 8);
    if nr10 & 0x08 != 0 { shadow - delta } else { shadow + delta }
}

/// Reload value of the sweep and envelope timers: a period of 0 counts as 8.
pub open spec fn period_or_eight(period: u8) -> u8 {
    if period == 0 { 8 } else { period }
}

/// One envelope clock of one channel: `(timer, volume)` afterwards.
pub open spec fn envelope_step(nrx2: u8, timer: u8, volume: u8) -> (u8, u8) {
    let period = nrx2 % 8;
    if period == 0 {
        (timer, volume)
    } else {
        let t = if timer > 0 { (timer - 1) as u8 } else { timer };
        if t != 0 {
            (t, volume)
        } else if nrx2 & 0x08 != 0 && volume < 15 {
            (period, (volume + 1) as u8)
        } else if nrx2 & 0x08 == 0 && volume > 0 {
            (period, (volume - 1) as u8)
        } else {
            (period, volume)
        }
    }
}

/// The envelope keeps a four-bit volume inside `0..=15`.
pub proof fn lemma_envelope_in_range(nrx2: u8, timer: u8, volume: u8)
    requires
        volume <= 15,
    ensures
        envelope_step(nrx2, timer, volume).1 <= 15,
{
}

pub fn clock_envelope_unit(nrx2: u8, timer: u8, volume: u8) -> (r: (u8, u8))
    ensures
        r == envelope_step(nrx2, timer, volume),
        volume <= 15 ==> r.1 <= 15,
{
    let period: u8 = nrx2 % 8;
    if period == 0 {
        return (timer, volume);
    }
    let t: u8 = if timer > 0 { timer - 1 } else { timer };
    if t != 0 {
        (t, volume)
    } else if nrx2 & 0x08 != 0 && volume < 15 {
        (period, volume + 1)
    } else if nrx2 & 0x08 == 0 && volume > 0 {
        (period, volume - 1)
    } else {
        (period, volume)
    }
}

/// Whether a length clock counts a channel down: its length-enable bit
/// (bit 6 of NRx4) is set and the counter is not yet zero.
pub open spec fn length_counts(nrx4: u8, counter: u16) -> bool {
    nrx4 & 0x40 != 0 && counter > 0
}

/// The counter after one length clock.
pub open spec fn length_step(nrx4: u8, counter: u16) -> u16 {
    if length_counts(nrx4, counter) { (counter - 1) as u16 } else { counter }
}

/// Whether one length clock runs the counter out, which silences the channel.
pub open spec fn length_expires(nrx4: u8, counter: u16) -> bool {
    length_counts(nrx4, counter) && counter == 1
}

/// The counter a trigger leaves: a counter at zero is reloaded to `full`,
/// less one when the sequencer stands on an odd step with length enabled.
pub open spec fn length_on_trigger(counter: u16, full: u16, nrx4: u8, sequencer: u8) -> u16 {
    if counter != 0 {
        counter
    } else if sequencer % 2 == 1 && nrx4 & 0x40 != 0 {
        (full - 1) as u16
    } else {
        full
    }
}

/// One length clock of one channel: the counter afterwards, and whether it
/// ran out.
pub fn clock_length_unit(nrx4: u8, counter: u16) -> (r: (u16, bool))
    ensures
        r.0 == length_step(nrx4, counter),
        r.1 == length_expires(nrx4, counter),
        r.0 <= counter,
{
    if nrx4 & 0x40 != 0 && counter > 0 {
        (counter - 1, counter == 1)
    } else {
        (counter, false)
    }
}

pub fn trigger_length(counter: u16, full: u16, nrx4: u8, sequencer: u8) -> (r: u16)
    requires
        full >= 1,
    ensures
        r == length_on_trigger(counter, full, nrx4, sequencer),
{
    if counter != 0 {
        counter
    } else if sequencer % 2 == 1 && nrx4 & 0x40 != 0 {
        full - 1
    } else {
        full
    }
}

/// A write to NRx4 that turns length-enable on while the sequencer stands on
/// an odd step, without a trigger, clocks the length counter once.
pub open spec fn length_edge(old_nrx4: u8, val: u8, sequencer: u8) -> bool {
    val & 0x80 == 0 && old_nrx4 & 0x40 == 0 && val & 0x40 != 0 && sequencer % 2 == 1
}

/// Reload period of the noise channel's timer.
pub open spec fn noise_period(nr43: u8) -> u16 {
    let code = nr43 % 8;
    let divisor: u16 = if code == 0 { 8u16 } else { (code as u16 * 16) as u16 };
    divisor << ((nr43 / 16) as u16)
}

pub fn noise_timer_reload(nr43: u8) -> (r: u16)
    ensures
        r == noise_period(nr43),
{
    let code: u8 = nr43 % 8;
    let divisor: u16 = if code == 0 { 8 } else { (code as u16) * 16 };
    divisor << ((nr43 / 16) as u16)
}

/// One clock of the 15-bit shift register: the XOR of its two low bits goes
/// to bit 14 and, in the short mode (bit 3 of NR43), to bit 6 as well.
pub open spec fn lfsr_step(lfsr: u16, nr43: u8) -> u16 {
    let bit: u16 = (lfsr & 0x01) ^ ((lfsr >> 1u16) & 0x01);
    let long: u16 = (lfsr >> 1u16) | (bit << 14u16);
    if nr43 & 0x08 != 0 { (long & 0xFFBF) | (bit << 6u16) } else { long }
}

pub fn clock_lfsr(lfsr: u16, nr43: u8) -> (r: u16)
    ensures
        r == lfsr_step(lfsr, nr43),
{
    let bit: u16 = (lfsr & 0x01) ^ ((lfsr >> 1u16) & 0x01);
    let long: u16 = (lfsr >> 1u16) | (bit << 14u16);
    if nr43 & 0x08 != 0 { (long & 0xFFBF) | (bit << 6u16) } else { long }
}

/// What the wave channel puts out for a byte of wave memory: the high nibble
/// at an even position, the low one at an odd position, shifted right by 4
/// (mute), 0, 1 or 2 as bits 5-6 of NR32 say.
pub open spec fn wave_output(byte: u8, position: u8, nr32: u8) -> u8 {
    let nibble = if position % 2 == 0 { byte / 16 } else { byte % 16 };
    let level = (nr32 / 32) % 4;
    if level == 0 { 0 } else if level == 1 { nibble } else if level == 2 { nibble / 2 } else { nibble / 4 }
}

pub fn wave_level(byte: u8, position: u8, nr32: u8) -> (r: u8)
    ensures
        r == wave_output(byte, position, nr32),
        r <= 15,
{
    let nibble: u8 = if position % 2 == 0 { byte / 16 } else { byte % 16 };
    let level: u8 = (nr32 / 32) % 4;
    if level == 0 { 0 } else if level == 1 { nibble } else if level == 2 { nibble / 2 } else { nibble / 4 }
}


/// The sound unit.  The `nr..` fields are the registers as written; the rest
/// is the state of the channels, the frame sequencer and the sample clock.
pub struct APU {
    pub nr10: u8,
    pub nr11: u8,
    pub nr12: u8,
    pub nr13: u8,
    pub nr14: u8,
    pub nr21: u8,
    pub nr22: u8,
    pub nr23: u8,
    pub nr24: u8,
    pub nr30: u8,
    pub nr31: u8,
    pub nr32: u8,
    pub nr33: u8,
    pub nr34: u8,
    pub wave_ram: [u8; 16],
    pub nr41: u8,
    pub nr42: u8,
    pub nr43: u8,
    pub nr44: u8,
    pub nr50: u8,
    pub nr51: u8,
    /// Bit 7 is the master enable and the only bit that a write changes;
    /// the status bits are read from the channels' enable flags.
    pub nr52: u8,
    pub ch1_frequency_timer: u16,
    pub ch1_duty_position: u8,
    pub ch1_length_counter: u16,
    pub ch1_volume: u8,
    pub ch1_envelope_timer: u8,
    pub ch1_sweep_timer: u8,
    pub ch1_sweep_shadow: u16,
    pub ch1_enabled: bool,
    /// Set once the sweep unit has computed a subtraction since the trigger.
    pub ch1_sweep_neg_mode: bool,
    pub ch1_sweep_enabled: bool,
    pub ch1_sweep_period_was_zero: bool,
    pub ch2_frequency_timer: u16,
    pub ch2_duty_position: u8,
    pub ch2_length_counter: u16,
    pub ch2_volume: u8,
    pub ch2_envelope_timer: u8,
    pub ch2_enabled: bool,
    pub ch3_frequency_timer: u16,
    pub ch3_position: u8,
    pub ch3_length_counter: u16,
    pub ch3_enabled: bool,
    pub ch4_lfsr: u16,
    pub ch4_frequency_timer: u16,
    pub ch4_length_counter: u16,
    pub ch4_volume: u8,
    pub ch4_envelope_timer: u8,
    pub ch4_enabled: bool,
    pub frame_sequencer: u8,
    pub frame_sequencer_timer: u32,
    pub sample_timer: u8,
    /// The sample queue: its first `queued` entries are the samples emitted
    /// and not yet taken by the host, oldest first.
    pub samples: [SampleMix; 4096],
    pub queued: usize,
}

impl APU {
    /// Ranges that every reachable state keeps.
    pub open spec fn wf(self) -> bool {
        &&& self.ch1_volume <= 15
        &&& self.ch2_volume <= 15
        &&& self.ch4_volume <= 15
        &&& self.ch1_duty_position < 8
        &&& self.ch2_duty_position < 8
        &&& self.ch3_position < 32
        &&& self.ch1_sweep_shadow <= 2047
        &&& self.ch1_length_counter <= 64
        &&& self.ch2_length_counter <= 64
        &&& self.ch3_length_counter <= 256
        &&& self.ch4_length_counter <= 64
        &&& self.frame_sequencer < 8
        &&& self.frame_sequencer_timer < SEQUENCER_PERIOD
        &&& self.sample_timer < SAMPLE_PERIOD
        &&& self.queued <= QUEUE_CAPACITY
        &&& forall|i: int| 0 <= i < self.queued ==> (#[trigger] self.samples@[i]).wf()
    }

    /// Whether the state keeps its ranges.
    pub fn is_wf(&self) -> (r: bool)
        ensures
            r == self.wf(),
    {
        if !(self.ch1_volume <= 15 && self.ch2_volume <= 15 && self.ch4_volume <= 15
            && self.ch1_duty_position < 8 && self.ch2_duty_position < 8 && self.ch3_position < 32
            && self.ch1_sweep_shadow <= 2047 && self.ch1_length_counter <= 64
            && self.ch2_length_counter <= 64 && self.ch3_length_counter <= 256
            && self.ch4_length_counter <= 64 && self.frame_sequencer < 8
            && self.frame_sequencer_timer < SEQUENCER_PERIOD && self.sample_timer < SAMPLE_PERIOD
            && self.queued <= QUEUE_CAPACITY) {
            return false;
        }
        let mut i: usize = 0;
        while i < self.queued
            invariant
                i <= self.queued <= QUEUE_CAPACITY,
                forall|j: int| 0 <= j < i ==> (#[trigger] self.samples@[j]).wf(),
            decreases self.queued - i,
        {
            let m = self.samples[i];
            if !(m.ch1 <= 15 && m.ch2 <= 15 && m.ch3 <= 15 && m.ch4 <= 15) {
                return false;
            }
            i = i + 1;
        }
        true
    }

    pub open spec fn powered(self) -> bool {
        self.nr52 & 0x80 != 0
    }

    /// Whether the wave channel is playing, which redirects accesses to wave
    /// memory to the byte under its position.
    pub open spec fn wave_playing(self) -> bool {
        self.ch3_enabled && self.nr30 & 0x80 != 0
    }

    /// The samples in the queue, oldest first.
    pub open spec fn queue(self) -> Seq<SampleMix> {
        self.samples@.subrange(0, self.queued as int)
    }

    /// The state at power-on: every register and counter at zero, but NR52,
    /// which holds `0xF0`, and the shift register, which holds all ones.
    pub open spec fn is_power_on(self) -> bool {
        &&& self.nr10 == 0 && self.nr11 == 0 && self.nr12 == 0 && self.nr13 == 0 && self.nr14 == 0
        &&& self.nr21 == 0 && self.nr22 == 0 && self.nr23 == 0 && self.nr24 == 0
        &&& self.nr30 == 0 && self.nr31 == 0 && self.nr32 == 0 && self.nr33 == 0 && self.nr34 == 0
        &&& self.nr41 == 0 && self.nr42 == 0 && self.nr43 == 0 && self.nr44 == 0
        &&& self.nr50 == 0 && self.nr51 == 0 && self.nr52 == 0xF0
        &&& forall|i: int| 0 <= i < 16 ==> self.wave_ram@[i] == 0
        &&& self.ch1_frequency_timer == 0 && self.ch1_duty_position == 0
        &&& self.ch1_length_counter == 0 && self.ch1_volume == 0 && self.ch1_envelope_timer == 0
        &&& self.ch1_sweep_timer == 0 && self.ch1_sweep_shadow == 0 && !self.ch1_enabled
        &&& !self.ch1_sweep_neg_mode && !self.ch1_sweep_enabled && !self.ch1_sweep_period_was_zero
        &&& self.ch2_frequency_timer == 0 && self.ch2_duty_position == 0
        &&& self.ch2_length_counter == 0 && self.ch2_volume == 0 && self.ch2_envelope_timer == 0
        &&& !self.ch2_enabled
        &&& self.ch3_frequency_timer == 0 && self.ch3_position == 0
        &&& self.ch3_length_counter == 0 && !self.ch3_enabled
        &&& self.ch4_lfsr == 0x7FFF && self.ch4_frequency_timer == 0
        &&& self.ch4_length_counter == 0 && self.ch4_volume == 0 && self.ch4_envelope_timer == 0
        &&& !self.ch4_enabled
        &&& self.frame_sequencer == 0 && self.frame_sequencer_timer == 0 && self.sample_timer == 0
        &&& self.queued == 0
        &&& forall|i: int| 0 <= i < 4096 ==> self.samples@[i] == silence()
    }

    pub fn new() -> (apu: APU)
        ensures
            apu.is_power_on(),
            apu.wf(),
    {
        let quiet = SampleMix { ch1: 0, ch2: 0, ch3: 0, ch4: 0, panning: 0, master: 0 };
        APU {
            nr10: 0, nr11: 0, nr12: 0, nr13: 0, nr14: 0,
            nr21: 0, nr22: 0, nr23: 0, nr24: 0,
            nr30: 0, nr31: 0, nr32: 0, nr33: 0, nr34: 0,
            wave_ram: [0; 16],
            nr41: 0, nr42: 0, nr43: 0, nr44: 0,
            nr50: 0, nr51: 0, nr52: 0xF0,
            ch1_frequency_timer: 0,
            ch1_duty_position: 0,
            ch1_length_counter: 0,
            ch1_volume: 0,
            ch1_envelope_timer: 0,
            ch1_sweep_timer: 0,
            ch1_sweep_shadow: 0,
            ch1_enabled: false,
            ch1_sweep_neg_mode: false,
            ch1_sweep_enabled: false,
            ch1_sweep_period_was_zero: false,
            ch2_frequency_timer: 0,
            ch2_duty_position: 0,
            ch2_length_counter: 0,
            ch2_volume: 0,
            ch2_envelope_timer: 0,
            ch2_enabled: false,
            ch3_frequency_timer: 0,
            ch3_position: 0,
            ch3_length_counter: 0,
            ch3_enabled: false,
            ch4_lfsr: 0x7FFF,
            ch4_frequency_timer: 0,
            ch4_length_counter: 0,
            ch4_volume: 0,
            ch4_envelope_timer: 0,
            ch4_enabled: false,
            frame_sequencer: 0,
            frame_sequencer_timer: 0,
            sample_timer: 0,
            samples: [quiet; 4096],
            queued: 0,
        }
    }

    // ----- length -----

    /// A length clock: every channel with length enabled counts down, and a
    /// channel whose counter runs out is switched off.
    pub open spec fn clock_length_spec(self) -> APU {
        APU {
            ch1_length_counter: length_step(self.nr14, self.ch1_length_counter),
            ch1_enabled: self.ch1_enabled && !length_expires(self.nr14, self.ch1_length_counter),
            ch2_length_counter: length_step(self.nr24, self.ch2_length_counter),
            ch2_enabled: self.ch2_enabled && !length_expires(self.nr24, self.ch2_length_counter),
            ch3_length_counter: length_step(self.nr34, self.ch3_length_counter),
            ch3_enabled: self.ch3_enabled && !length_expires(self.nr34, self.ch3_length_counter),
            ch4_length_counter: length_step(self.nr44, self.ch4_length_counter),
            ch4_enabled: self.ch4_enabled && !length_expires(self.nr44, self.ch4_length_counter),
            ..self
        }
    }

    pub fn clock_length(&mut self)
        requires
            old(self).wf(),
        ensures
            *final(self) == old(self).clock_length_spec(),
            final(self).wf(),
    {
        let c1 = clock_length_unit(self.nr14, self.ch1_length_counter);
        self.ch1_length_counter = c1.0;
        self.ch1_enabled = self.ch1_enabled && !c1.1;
        let c2 = clock_length_unit(self.nr24, self.ch2_length_counter);
        self.ch2_length_counter = c2.0;
        self.ch2_enabled = self.ch2_enabled && !c2.1;
        let c3 = clock_length_unit(self.nr34, self.ch3_length_counter);
        self.ch3_length_counter = c3.0;
        self.ch3_enabled = self.ch3_enabled && !c3.1;
        let c4 = clock_length_unit(self.nr44, self.ch4_length_counter);
        self.ch4_length_counter = c4.0;
        self.ch4_enabled = self.ch4_enabled && !c4.1;
    }

    // ----- envelope -----

    /// An envelope clock of channels 1, 2 and 4.
    pub open spec fn clock_envelope_spec(self) -> APU {
        let e1 = envelope_step(self.nr12, self.ch1_envelope_timer, self.ch1_volume);
        let e2 = envelope_step(self.nr22, self.ch2_envelope_timer, self.ch2_volume);
        let e4 = envelope_step(self.nr42, self.ch4_envelope_timer, self.ch4_volume);
        APU {
            ch1_envelope_timer: e1.0,
            ch1_volume: e1.1,
            ch2_envelope_timer: e2.0,
            ch2_volume: e2.1,
            ch4_envelope_timer: e4.0,
            ch4_volume: e4.1,
            ..self
        }
    }

    pub fn clock_envelope(&mut self)
        requires
            old(self).wf(),
        ensures
            *final(self) == old(self).clock_envelope_spec(),
            final(self).wf(),
            final(self).ch1_volume <= 15 && final(self).ch2_volume <= 15 && final(self).ch4_volume <= 15,
    {
        let e1 = clock_envelope_unit(self.nr12, self.ch1_envelope_timer, self.ch1_volume);
        self.ch1_envelope_timer = e1.0;
        self.ch1_volume = e1.1;
        let e2 = clock_envelope_unit(self.nr22, self.ch2_envelope_timer, self.ch2_volume);
        self.ch2_envelope_timer = e2.0;
        self.ch2_volume = e2.1;
        let e4 = clock_envelope_unit(self.nr42, self.ch4_envelope_timer, self.ch4_volume);
        self.ch4_envelope_timer = e4.0;
        self.ch4_volume = e4.1;
    }

    // ----- sweep -----

    pub open spec fn sweep_frequency(self) -> int {
        sweep_target(self.nr10, self.ch1_sweep_shadow)
    }

    /// The frequency the sweep unit would move to; above 2047 it overflows.
    pub fn calculate_sweep_frequency(&self) -> (f: u16)
        requires
            self.ch1_sweep_shadow <= 2047,
        ensures
            f == self.sweep_frequency(),
            f <= 4094,
    {
        let shift: u8 = self.nr10 % 8;
        let divisor: u16 = if shift == 0 { 1 } else if shift == 1 { 2 } else if shift == 2 { 4 }
            else if shift == 3 { 8 } else if shift == 4 { 16 } else if shift == 5 { 32 }
            else if shift == 6 { 64 } else { 128 };
        let delta: u16 = self.ch1_sweep_shadow / divisor;
        if self.nr10 & 0x08 != 0 {
            self.ch1_sweep_shadow - delta
        } else {
            self.ch1_sweep_shadow + delta
        }
    }

    /// The state after the sweep unit has taken the frequency `f`: shadow and
    /// frequency registers hold it, and a second overflow check has run.
    pub open spec fn sweep_store(self, f: u16) -> APU {
        let stored = APU {
            ch1_sweep_shadow: f,
            nr13: (f % 256) as u8,
            nr14: (self.nr14 - self.nr14 % 8 + f / 256) as u8,
            ..self
        };
        APU { ch1_enabled: stored.ch1_enabled && stored.sweep_frequency() <= 2047, ..stored }
    }

    /// A sweep clock of channel 1.
    pub open spec fn clock_sweep_spec(self) -> APU {
        let period = (self.nr10 / 16) % 8;
        let subtract = self.nr10 & 0x08 != 0;
        if !self.ch1_sweep_enabled || self.ch1_sweep_timer == 0 {
            self
        } else if self.ch1_sweep_timer != 1 {
            APU { ch1_sweep_timer: (self.ch1_sweep_timer - 1) as u8, ..self }
        } else {
            let reloaded = APU {
                ch1_sweep_timer: period_or_eight(period),
                ch1_sweep_neg_mode: self.ch1_sweep_neg_mode || (period > 0 && subtract),
                ..self
            };
            if reloaded.ch1_sweep_neg_mode && !subtract {
                APU { ch1_enabled: false, ..reloaded }
            } else if period == 0 {
                reloaded
            } else if reloaded.sweep_frequency() > 2047 {
                APU { ch1_enabled: false, ..reloaded }
            } else if self.nr10 % 8 > 0 {
                reloaded.sweep_store(reloaded.sweep_frequency() as u16)
            } else {
                reloaded
            }
        }
    }

    #[verifier::rlimit(40)]
    pub fn clock_sweep(&mut self)
        requires
            old(self).wf(),
        ensures
            *final(self) == old(self).clock_sweep_spec(),
            final(self).wf(),
    {
        if !self.ch1_sweep_enabled || self.ch1_sweep_timer == 0 {
            return;
        }
        self.ch1_sweep_timer = self.ch1_sweep_timer - 1;
        if self.ch1_sweep_timer != 0 {
            return;
        }
        let period: u8 = (self.nr10 / 16) % 8;
        let subtract = self.nr10 & 0x08 != 0;
        self.ch1_sweep_timer = if period == 0 { 8 } else { period };
        if period > 0 && subtract {
            self.ch1_sweep_neg_mode = true;
        }
        if self.ch1_sweep_neg_mode && !subtract {
            self.ch1_enabled = false;
            return;
        }
        if period != 0 {
            let new_freq = self.calculate_sweep_frequency();
            if new_freq > 2047 {
                self.ch1_enabled = false;
            } else if self.nr10 % 8 > 0 {
                self.ch1_sweep_shadow = new_freq;
                self.nr13 = (new_freq % 256) as u8;
                self.nr14 = self.nr14 - self.nr14 % 8 + (new_freq / 256) as u8;
                if self.calculate_sweep_frequency() > 2047 {
                    self.ch1_enabled = false;
                }
            }
        }
    }

    // ----- frame sequencer -----

    /// One step of the frame sequencer: length on the even steps, sweep on
    /// steps 2 and 6, envelope on step 7.
    pub open spec fn clock_frame_sequencer_spec(self) -> APU {
        let step = self.frame_sequencer;
        let s1 = if step % 2 == 0 {
            self.clock_length_spec()
        } else if step == 7 {
            self.clock_envelope_spec()
        } else {
            self
        };
        let s2 = if step == 2 || step == 6 { s1.clock_sweep_spec() } else { s1 };
        APU { frame_sequencer: ((step + 1) % 8) as u8, ..s2 }
    }

    pub fn clock_frame_sequencer(&mut self)
        requires
            old(self).wf(),
        ensures
            *final(self) == old(self).clock_frame_sequencer_spec(),
            final(self).wf(),
    {
        let step: u8 = self.frame_sequencer;
        if step % 2 == 0 {
            self.clock_length();
        } else if step == 7 {
            self.clock_envelope();
        }
        if step == 2 || step == 6 {
            self.clock_sweep();
        }
        self.frame_sequencer = (step + 1) % 8;
    }

    // ----- triggers -----

    /// A trigger of channel 1: length, frequency timer, envelope and sweep
    /// are reloaded, the sweep unit makes its first overflow check when the
    /// shift is not zero, and the channel comes on if its DAC is on and the
    /// check passed.
    pub open spec fn trigger_channel1_spec(self) -> APU {
        let f = frequency_of(self.nr13, self.nr14);
        let sweep_period = (self.nr10 / 16) % 8;
        let shift = self.nr10 % 8;
        let target = sweep_target(self.nr10, f as u16);
        APU {
            ch1_length_counter: length_on_trigger(self.ch1_length_counter, 64, self.nr14, self.frame_sequencer),
            ch1_frequency_timer: ((2048 - f) * 4) as u16,
            ch1_volume: self.nr12 / 16,
            ch1_envelope_timer: period_or_eight(self.nr12 % 8),
            ch1_sweep_shadow: f as u16,
            ch1_sweep_timer: period_or_eight(sweep_period),
            ch1_sweep_period_was_zero: sweep_period == 0,
            ch1_sweep_enabled: sweep_period != 0 || shift != 0,
            ch1_sweep_neg_mode: shift > 0 && target <= 2047 && self.nr10 & 0x08 != 0,
            ch1_enabled: self.nr12 & 0xF8 != 0 && !(shift > 0 && target > 2047),
            ..self
        }
    }

    pub fn trigger_channel1(&mut self)
        requires
            old(self).wf(),
        ensures
            *final(self) == old(self).trigger_channel1_spec(),
            final(self).wf(),
    {
        let f: u16 = frequency(self.nr13, self.nr14);
        let sweep_period: u8 = (self.nr10 / 16) % 8;
        let shift: u8 = self.nr10 % 8;
        self.ch1_length_counter = trigger_length(self.ch1_length_counter, 64, self.nr14, self.frame_sequencer);
        self.ch1_frequency_timer = (2048 - f) * 4;
        self.ch1_volume = self.nr12 / 16;
        self.ch1_envelope_timer = if self.nr12 % 8 == 0 { 8 } else { self.nr12 % 8 };
        self.ch1_sweep_shadow = f;
        self.ch1_sweep_timer = if sweep_period == 0 { 8 } else { sweep_period };
        self.ch1_sweep_period_was_zero = sweep_period == 0;
        self.ch1_sweep_enabled = sweep_period != 0 || shift != 0;
        let target: u16 = self.calculate_sweep_frequency();
        let overflow: bool = shift > 0 && target > 2047;
        self.ch1_sweep_neg_mode = shift > 0 && target <= 2047 && self.nr10 & 0x08 != 0;
        self.ch1_enabled = self.nr12 & 0xF8 != 0 && !overflow;
    }

    /// A trigger of channel 2.
    pub open spec fn trigger_channel2_spec(self) -> APU {
        APU {
            ch2_length_counter: length_on_trigger(self.ch2_length_counter, 64, self.nr24, self.frame_sequencer),
            ch2_frequency_timer: ((2048 - frequency_of(self.nr23, self.nr24)) * 4) as u16,
            ch2_volume: self.nr22 / 16,
            ch2_envelope_timer: period_or_eight(self.nr22 % 8),
            ch2_enabled: self.nr22 & 0xF8 != 0,
            ..self
        }
    }

    pub fn trigger_channel2(&mut self)
        requires
            old(self).wf(),
        ensures
            *final(self) == old(self).trigger_channel2_spec(),
            final(self).wf(),
    {
        let f: u16 = frequency(self.nr23, self.nr24);
        self.ch2_length_counter = trigger_length(self.ch2_length_counter, 64, self.nr24, self.frame_sequencer);
        self.ch2_frequency_timer = (2048 - f) * 4;
        self.ch2_volume = self.nr22 / 16;
        self.ch2_envelope_timer = if self.nr22 % 8 == 0 { 8 } else { self.nr22 % 8 };
        self.ch2_enabled = self.nr22 & 0xF8 != 0;
    }

    /// A trigger of the wave channel: its position goes back to 0, and it
    /// comes on if bit 7 of NR30 is set.
    pub open spec fn trigger_channel3_spec(self) -> APU {
        APU {
            ch3_length_counter: length_on_trigger(self.ch3_length_counter, 256, self.nr34, self.frame_sequencer),
            ch3_frequency_timer: ((2048 - frequency_of(self.nr33, self.nr34)) * 2) as u16,
            ch3_position: 0,
            ch3_enabled: self.nr30 & 0x80 != 0,
            ..self
        }
    }

    pub fn trigger_channel3(&mut self)
        requires
            old(self).wf(),
        ensures
            *final(self) == old(self).trigger_channel3_spec(),
            final(self).wf(),
    {
        let f: u16 = frequency(self.nr33, self.nr34);
        self.ch3_length_counter = trigger_length(self.ch3_length_counter, 256, self.nr34, self.frame_sequencer);
        self.ch3_frequency_timer = (2048 - f) * 2;
        self.ch3_position = 0;
        self.ch3_enabled = self.nr30 & 0x80 != 0;
    }

    /// A trigger of the noise channel: the shift register is set to all ones.
    pub open spec fn trigger_channel4_spec(self) -> APU {
        APU {
            ch4_length_counter: length_on_trigger(self.ch4_length_counter, 64, self.nr44, self.frame_sequencer),
            ch4_lfsr: 0x7FFF,
            ch4_volume: self.nr42 / 16,
            ch4_envelope_timer: period_or_eight(self.nr42 % 8),
            ch4_frequency_timer: noise_period(self.nr43),
            ch4_enabled: self.nr42 & 0xF8 != 0,
            ..self
        }
    }

    pub fn trigger_channel4(&mut self)
        requires
            old(self).wf(),
        ensures
            *final(self) == old(self).trigger_channel4_spec(),
            final(self).wf(),
    {
        self.ch4_length_counter = trigger_length(self.ch4_length_counter, 64, self.nr44, self.frame_sequencer);
        self.ch4_lfsr = 0x7FFF;
        self.ch4_volume = self.nr42 / 16;
        self.ch4_envelope_timer = if self.nr42 % 8 == 0 { 8 } else { self.nr42 % 8 };
        self.ch4_frequency_timer = noise_timer_reload(self.nr43);
        self.ch4_enabled = self.nr42 & 0xF8 != 0;
    }

    // ----- register writes -----

    /// A write to NR10.  Clearing the subtract bit after the sweep unit has
    /// subtracted switches the channel off; a non-zero shift arms the sweep
    /// unit unless the period was zero at the trigger.
    pub open spec fn write_nr10_spec(self, val: u8) -> APU {
        APU {
            nr10: val,
            ch1_enabled: self.ch1_enabled
                && !(self.ch1_sweep_neg_mode && self.nr10 & 0x08 != 0 && val & 0x08 == 0),
            ch1_sweep_enabled: self.ch1_sweep_enabled
                || (!self.ch1_sweep_period_was_zero && val % 8 > 0),
            ..self
        }
    }

    pub fn write_nr10(&mut self, val: u8)
        requires
            old(self).wf(),
        ensures
            *final(self) == old(self).write_nr10_spec(val),
            final(self).wf(),
    {
        let leaves_subtract: bool = self.ch1_sweep_neg_mode && self.nr10 & 0x08 != 0 && val & 0x08 == 0;
        self.nr10 = val;
        self.ch1_enabled = self.ch1_enabled && !leaves_subtract;
        self.ch1_sweep_enabled = self.ch1_sweep_enabled || (!self.ch1_sweep_period_was_zero && val % 8 > 0);
    }

    /// A write to NR14: the length-enable edge may clock the length counter
    /// once, and bit 7 triggers the channel.
    pub open spec fn write_nr14_spec(self, val: u8) -> APU {
        let edge = length_edge(self.nr14, val, self.frame_sequencer);
        let counter = self.ch1_length_counter;
        let written = APU {
            nr14: val,
            ch1_length_counter: if edge { length_step(val, counter) } else { counter },
            ch1_enabled: self.ch1_enabled && !(edge && length_expires(val, counter)),
            ..self
        };
        if val & 0x80 != 0 { written.trigger_channel1_spec() } else { written }
    }

    pub fn write_nr14(&mut self, val: u8)
        requires
            old(self).wf(),
        ensures
            *final(self) == old(self).write_nr14_spec(val),
            final(self).wf(),
    {
        let edge: bool = val & 0x80 == 0 && self.nr14 & 0x40 == 0 && val & 0x40 != 0
            && self.frame_sequencer % 2 == 1;
        self.nr14 = val;
        if edge {
            let c = clock_length_unit(val, self.ch1_length_counter);
            self.ch1_length_counter = c.0;
            self.ch1_enabled = self.ch1_enabled && !c.1;
        }
        if val & 0x80 != 0 {
            self.trigger_channel1();
        }
    }

    /// A write to NR24: the length-enable edge may clock the length counter
    /// once, and bit 7 triggers the channel.
    pub open spec fn write_nr24_spec(self, val: u8) -> APU {
        let edge = length_edge(self.nr24, val, self.frame_sequencer);
        let counter = self.ch2_length_counter;
        let written = APU {
            nr24: val,
            ch2_length_counter: if edge { length_step(val, counter) } else { counter },
            ch2_enabled: self.ch2_enabled && !(edge && length_expires(val, counter)),
            ..self
        };
        if val & 0x80 != 0 { written.trigger_channel2_spec() } else { written }
    }

    pub fn write_nr24(&mut self, val: u8)
        requires
            old(self).wf(),
        ensures
            *final(self) == old(self).write_nr24_spec(val),
            final(self).wf(),
    {
        let edge: bool = val & 0x80 == 0 && self.nr24 & 0x40 == 0 && val & 0x40 != 0
            && self.frame_sequencer % 2 == 1;
        self.nr24 = val;
        if edge {
            let c = clock_length_unit(val, self.ch2_length_counter);
            self.ch2_length_counter = c.0;
            self.ch2_enabled = self.ch2_enabled && !c.1;
        }
        if val & 0x80 != 0 {
            self.trigger_channel2();
        }
    }

    /// A write to NR34: the length-enable edge may clock the length counter
    /// once, and bit 7 triggers the channel.
    pub open spec fn write_nr34_spec(self, val: u8) -> APU {
        let edge = length_edge(self.nr34, val, self.frame_sequencer);
        let counter = self.ch3_length_counter;
        let written = APU {
            nr34: val,
            ch3_length_counter: if edge { length_step(val, counter) } else { counter },
            ch3_enabled: self.ch3_enabled && !(edge && length_expires(val, counter)),
            ..self
        };
        if val & 0x80 != 0 { written.trigger_channel3_spec() } else { written }
    }

    pub fn write_nr34(&mut self, val: u8)
        requires
            old(self).wf(),
        ensures
            *final(self) == old(self).write_nr34_spec(val),
            final(self).wf(),
    {
        let edge: bool = val & 0x80 == 0 && self.nr34 & 0x40 == 0 && val & 0x40 != 0
            && self.frame_sequencer % 2 == 1;
        self.nr34 = val;
        if edge {
            let c = clock_length_unit(val, self.ch3_length_counter);
            self.ch3_length_counter = c.0;
            self.ch3_enabled = self.ch3_enabled && !c.1;
        }
        if val & 0x80 != 0 {
            self.trigger_channel3();
        }
    }

    /// A write to NR44: the length-enable edge may clock the length counter
    /// once, and bit 7 triggers the channel.
    pub open spec fn write_nr44_spec(self, val: u8) -> APU {
        let edge = length_edge(self.nr44, val, self.frame_sequencer);
        let counter = self.ch4_length_counter;
        let written = APU {
            nr44: val,
            ch4_length_counter: if edge { length_step(val, counter) } else { counter },
            ch4_enabled: self.ch4_enabled && !(edge && length_expires(val, counter)),
            ..self
        };
        if val & 0x80 != 0 { written.trigger_channel4_spec() } else { written }
    }

    pub fn write_nr44(&mut self, val: u8)
        requires
            old(self).wf(),
        ensures
            *final(self) == old(self).write_nr44_spec(val),
            final(self).wf(),
    {
        let edge: bool = val & 0x80 == 0 && self.nr44 & 0x40 == 0 && val & 0x40 != 0
            && self.frame_sequencer % 2 == 1;
        self.nr44 = val;
        if edge {
            let c = clock_length_unit(val, self.ch4_length_counter);
            self.ch4_length_counter = c.0;
            self.ch4_enabled = self.ch4_enabled && !c.1;
        }
        if val & 0x80 != 0 {
            self.trigger_channel4();
        }
    }

    /// A write to NR52.  Only bit 7 is kept.  Switching on restarts the frame
    /// sequencer; switching off clears every register but the length
    /// registers and silences the channels, and leaves the length counters
    /// and wave memory as they are.
    pub open spec fn write_power_spec(self, val: u8) -> APU {
        let on = val & 0x80 != 0;
        let written = APU { nr52: (self.nr52 & 0x7F) | (val & 0x80), ..self };
        if on && !self.powered() {
            APU { frame_sequencer: 0, frame_sequencer_timer: 0, ..written }
        } else if !on && self.powered() {
            APU {
                nr50: 0, nr51: 0,
                nr10: 0, nr12: 0, nr13: 0, nr14: 0,
                nr22: 0, nr23: 0, nr24: 0,
                nr30: 0, nr32: 0, nr33: 0, nr34: 0,
                nr42: 0, nr43: 0, nr44: 0,
                ch1_enabled: false,
                ch2_enabled: false,
                ch3_enabled: false,
                ch4_enabled: false,
                ..written
            }
        } else {
            written
        }
    }

    pub fn write_power(&mut self, val: u8)
        requires
            old(self).wf(),
        ensures
            *final(self) == old(self).write_power_spec(val),
            final(self).wf(),
    {
        let on: bool = val & 0x80 != 0;
        let was_on: bool = self.nr52 & 0x80 != 0;
        self.nr52 = (self.nr52 & 0x7F) | (val & 0x80);
        if on && !was_on {
            self.frame_sequencer = 0;
            self.frame_sequencer_timer = 0;
        } else if !on && was_on {
            self.nr50 = 0;
            self.nr51 = 0;
            self.nr10 = 0;
            self.nr12 = 0;
            self.nr13 = 0;
            self.nr14 = 0;
            self.nr22 = 0;
            self.nr23 = 0;
            self.nr24 = 0;
            self.nr30 = 0;
            self.nr32 = 0;
            self.nr33 = 0;
            self.nr34 = 0;
            self.nr42 = 0;
            self.nr43 = 0;
            self.nr44 = 0;
            self.ch1_enabled = false;
            self.ch2_enabled = false;
            self.ch3_enabled = false;
            self.ch4_enabled = false;
        }
    }

    /// The byte of wave memory that an access to `addr` reaches.
    pub open spec fn wave_index(self, addr: u16) -> int {
        if self.wave_playing() { self.ch3_position as int / 2 } else { addr - 0xFF30 }
    }

    /// A write while the unit is switched off: only NR52 and the four length
    /// counters take it.
    pub open spec fn write_unpowered_spec(self, addr: u16, val: u8) -> APU {
        if addr == 0xFF26 {
            self.write_power_spec(val)
        } else if addr == 0xFF11 {
            APU { ch1_length_counter: (64 - val % 64) as u16, ..self }
        } else if addr == 0xFF16 {
            APU { ch2_length_counter: (64 - val % 64) as u16, ..self }
        } else if addr == 0xFF1B {
            APU { ch3_length_counter: (256 - val) as u16, ..self }
        } else if addr == 0xFF20 {
            APU { ch4_length_counter: (64 - val % 64) as u16, ..self }
        } else {
            self
        }
    }

    /// A write of `val` to the register at `addr`, `0xFF10..=0xFF3F`.
    pub open spec fn write_register_spec(self, addr: u16, val: u8) -> APU {
        if !self.powered() {
            self.write_unpowered_spec(addr, val)
        } else if addr == 0xFF10 {
            self.write_nr10_spec(val)
        } else if addr == 0xFF11 {
            APU { nr11: val, ch1_length_counter: (64 - val % 64) as u16, ..self }
        } else if addr == 0xFF12 {
            APU { nr12: val, ch1_enabled: self.ch1_enabled && val & 0xF8 != 0, ..self }
        } else if addr == 0xFF13 {
            APU { nr13: val, ..self }
        } else if addr == 0xFF14 {
            self.write_nr14_spec(val)
        } else if addr == 0xFF16 {
            APU { nr21: val, ch2_length_counter: (64 - val % 64) as u16, ..self }
        } else if addr == 0xFF17 {
            APU { nr22: val, ch2_enabled: self.ch2_enabled && val & 0xF8 != 0, ..self }
        } else if addr == 0xFF18 {
            APU { nr23: val, ..self }
        } else if addr == 0xFF19 {
            self.write_nr24_spec(val)
        } else if addr == 0xFF1A {
            APU { nr30: val, ch3_enabled: self.ch3_enabled && val & 0x80 != 0, ..self }
        } else if addr == 0xFF1B {
            APU { nr31: val, ch3_length_counter: (256 - val) as u16, ..self }
        } else if addr == 0xFF1C {
            APU { nr32: val, ..self }
        } else if addr == 0xFF1D {
            APU { nr33: val, ..self }
        } else if addr == 0xFF1E {
            self.write_nr34_spec(val)
        } else if addr == 0xFF20 {
            APU { nr41: val, ch4_length_counter: (64 - val % 64) as u16, ..self }
        } else if addr == 0xFF21 {
            APU { nr42: val, ch4_enabled: self.ch4_enabled && val & 0xF8 != 0, ..self }
        } else if addr == 0xFF22 {
            APU { nr43: val, ..self }
        } else if addr == 0xFF23 {
            self.write_nr44_spec(val)
        } else if addr == 0xFF24 {
            APU { nr50: val, ..self }
        } else if addr == 0xFF25 {
            APU { nr51: val, ..self }
        } else if addr == 0xFF26 {
            self.write_power_spec(val)
        } else if 0xFF30 <= addr <= 0xFF3F {
            APU {
                wave_ram: vstd::array::spec_array_update(self.wave_ram, self.wave_index(addr), val),
                ..self
            }
        } else {
            self
        }
    }

    pub fn write_unpowered(&mut self, addr: u16, val: u8)
        requires
            old(self).wf(),
            !old(self).powered(),
        ensures
            *final(self) == old(self).write_unpowered_spec(addr, val),
            final(self).wf(),
    {
        if addr == 0xFF26 {
            self.write_power(val);
        } else if addr == 0xFF11 {
            self.ch1_length_counter = 64 - (val % 64) as u16;
        } else if addr == 0xFF16 {
            self.ch2_length_counter = 64 - (val % 64) as u16;
        } else if addr == 0xFF1B {
            self.ch3_length_counter = 256 - val as u16;
        } else if addr == 0xFF20 {
            self.ch4_length_counter = 64 - (val % 64) as u16;
        }
    }

    pub fn write_register(&mut self, addr: u16, val: u8)
        requires
            old(self).wf(),
        ensures
            *final(self) == old(self).write_register_spec(addr, val),
            final(self).wf(),
    {
        if self.nr52 & 0x80 == 0 {
            self.write_unpowered(addr, val);
            return;
        }
        match addr {
            0xFF10 => { self.write_nr10(val); }
            0xFF11 => {
                self.nr11 = val;
                self.ch1_length_counter = 64 - (val % 64) as u16;
            }
            0xFF12 => {
                self.nr12 = val;
                self.ch1_enabled = self.ch1_enabled && val & 0xF8 != 0;
            }
            0xFF13 => { self.nr13 = val; }
            0xFF14 => { self.write_nr14(val); }
            0xFF16 => {
                self.nr21 = val;
                self.ch2_length_counter = 64 - (val % 64) as u16;
            }
            0xFF17 => {
                self.nr22 = val;
                self.ch2_enabled = self.ch2_enabled && val & 0xF8 != 0;
            }
            0xFF18 => { self.nr23 = val; }
            0xFF19 => { self.write_nr24(val); }
            0xFF1A => {
                self.nr30 = val;
                self.ch3_enabled = self.ch3_enabled && val & 0x80 != 0;
            }
            0xFF1B => {
                self.nr31 = val;
                self.ch3_length_counter = 256 - val as u16;
            }
            0xFF1C => { self.nr32 = val; }
            0xFF1D => { self.nr33 = val; }
            0xFF1E => { self.write_nr34(val); }
            0xFF20 => {
                self.nr41 = val;
                self.ch4_length_counter = 64 - (val % 64) as u16;
            }
            0xFF21 => {
                self.nr42 = val;
                self.ch4_enabled = self.ch4_enabled && val & 0xF8 != 0;
            }
            0xFF22 => { self.nr43 = val; }
            0xFF23 => { self.write_nr44(val); }
            0xFF24 => { self.nr50 = val; }
            0xFF25 => { self.nr51 = val; }
            0xFF26 => { self.write_power(val); }
            _ => {
                if 0xFF30 <= addr && addr <= 0xFF3F {
                    let index: usize = if self.ch3_enabled && self.nr30 & 0x80 != 0 {
                        (self.ch3_position / 2) as usize
                    } else {
                        (addr - 0xFF30) as usize
                    };
                    self.wave_ram[index] = val;
                }
            }
        }
    }

    /// Register writes keep the unit's ranges.
    pub proof fn lemma_write_keeps_wf(self, addr: u16, val: u8)
        requires
            self.wf(),
        ensures
            self.write_register_spec(addr, val).wf(),
    {
    }

    // ----- register reads -----

    /// The status nibble of NR52: one bit for each channel that is on.
    pub open spec fn status_bits(self) -> u8 {
        ((if self.ch1_enabled { 1int } else { 0 }) + (if self.ch2_enabled { 2int } else { 0 })
            + (if self.ch3_enabled { 4int } else { 0 }) + (if self.ch4_enabled { 8int } else { 0 })) as u8
    }

    /// What a read of the register at `addr` returns: the stored byte with
    /// its write-only and unused bits forced to 1.
    pub open spec fn read_register_spec(self, addr: u16) -> u8 {
        if addr == 0xFF10 { self.nr10 | 0x80 }
        else if addr == 0xFF11 { self.nr11 | 0x3F }
        else if addr == 0xFF12 { self.nr12 }
        else if addr == 0xFF14 { self.nr14 | 0xBF }
        else if addr == 0xFF16 { self.nr21 | 0x3F }
        else if addr == 0xFF17 { self.nr22 }
        else if addr == 0xFF19 { self.nr24 | 0xBF }
        else if addr == 0xFF1A { self.nr30 | 0x7F }
        else if addr == 0xFF1C { self.nr32 | 0x9F }
        else if addr == 0xFF1E { self.nr34 | 0xBF }
        else if addr == 0xFF21 { self.nr42 }
        else if addr == 0xFF22 { self.nr43 }
        else if addr == 0xFF23 { self.nr44 | 0xBF }
        else if addr == 0xFF24 { self.nr50 }
        else if addr == 0xFF25 { self.nr51 }
        else if addr == 0xFF26 { ((self.nr52 & 0x80) | 0x70) | self.status_bits() }
        else if 0xFF30 <= addr <= 0xFF3F { self.wave_ram@[self.wave_index(addr)] }
        else { 0xFF }
    }

    pub fn read_register(&self, addr: u16) -> (r: u8)
        requires
            self.wf(),
        ensures
            r == self.read_register_spec(addr),
    {
        match addr {
            0xFF10 => self.nr10 | 0x80,
            0xFF11 => self.nr11 | 0x3F,
            0xFF12 => self.nr12,
            0xFF14 => self.nr14 | 0xBF,
            0xFF16 => self.nr21 | 0x3F,
            0xFF17 => self.nr22,
            0xFF19 => self.nr24 | 0xBF,
            0xFF1A => self.nr30 | 0x7F,
            0xFF1C => self.nr32 | 0x9F,
            0xFF1E => self.nr34 | 0xBF,
            0xFF21 => self.nr42,
            0xFF22 => self.nr43,
            0xFF23 => self.nr44 | 0xBF,
            0xFF24 => self.nr50,
            0xFF25 => self.nr51,
            0xFF26 => {
                let mut status: u8 = 0;
                if self.ch1_enabled { status = status + 1; }
                if self.ch2_enabled { status = status + 2; }
                if self.ch3_enabled { status = status + 4; }
                if self.ch4_enabled { status = status + 8; }
                ((self.nr52 & 0x80) | 0x70) | status
            }
            _ => {
                if 0xFF30 <= addr && addr <= 0xFF3F {
                    if self.ch3_enabled && self.nr30 & 0x80 != 0 {
                        self.wave_ram[(self.ch3_position / 2) as usize]
                    } else {
                        self.wave_ram[(addr - 0xFF30) as usize]
                    }
                } else {
                    0xFF
                }
            }
        }
    }

    // ----- channel clocks -----

    /// One machine cycle of channel 1: its timer counts down, and at zero it
    /// reloads to `(2048 - f) * 4` and the duty position moves on.
    pub open spec fn clock_channel1_spec(self) -> APU {
        if !self.ch1_enabled {
            self
        } else if self.ch1_frequency_timer > 0 {
            APU { ch1_frequency_timer: (self.ch1_frequency_timer - 1) as u16, ..self }
        } else {
            APU {
                ch1_frequency_timer: ((2048 - frequency_of(self.nr13, self.nr14)) * 4) as u16,
                ch1_duty_position: ((self.ch1_duty_position + 1) % 8) as u8,
                ..self
            }
        }
    }

    pub fn clock_channel1(&mut self)
        requires
            old(self).wf(),
        ensures
            *final(self) == old(self).clock_channel1_spec(),
            final(self).wf(),
    {
        if !self.ch1_enabled {
            return;
        }
        if self.ch1_frequency_timer > 0 {
            self.ch1_frequency_timer = self.ch1_frequency_timer - 1;
        } else {
            self.ch1_frequency_timer = (2048 - frequency(self.nr13, self.nr14)) * 4;
            self.ch1_duty_position = (self.ch1_duty_position + 1) % 8;
        }
    }

    /// One machine cycle of channel 2: its timer counts down, and at zero it
    /// reloads to `(2048 - f) * 4` and the duty position moves on.
    pub open spec fn clock_channel2_spec(self) -> APU {
        if !self.ch2_enabled {
            self
        } else if self.ch2_frequency_timer > 0 {
            APU { ch2_frequency_timer: (self.ch2_frequency_timer - 1) as u16, ..self }
        } else {
            APU {
                ch2_frequency_timer: ((2048 - frequency_of(self.nr23, self.nr24)) * 4) as u16,
                ch2_duty_position: ((self.ch2_duty_position + 1) % 8) as u8,
                ..self
            }
        }
    }

    pub fn clock_channel2(&mut self)
        requires
            old(self).wf(),
        ensures
            *final(self) == old(self).clock_channel2_spec(),
            final(self).wf(),
    {
        if !self.ch2_enabled {
            return;
        }
        if self.ch2_frequency_timer > 0 {
            self.ch2_frequency_timer = self.ch2_frequency_timer - 1;
        } else {
            self.ch2_frequency_timer = (2048 - frequency(self.nr23, self.nr24)) * 4;
            self.ch2_duty_position = (self.ch2_duty_position + 1) % 8;
        }
    }

    /// One machine cycle of the wave channel: at zero its timer reloads to
    /// `(2048 - f) * 2` and the position moves on through the 32 nibbles.
    pub open spec fn clock_channel3_spec(self) -> APU {
        if !self.wave_playing() {
            self
        } else if self.ch3_frequency_timer > 0 {
            APU { ch3_frequency_timer: (self.ch3_frequency_timer - 1) as u16, ..self }
        } else {
            APU {
                ch3_frequency_timer: ((2048 - frequency_of(self.nr33, self.nr34)) * 2) as u16,
                ch3_position: ((self.ch3_position + 1) % 32) as u8,
                ..self
            }
        }
    }

    pub fn clock_channel3(&mut self)
        requires
            old(self).wf(),
        ensures
            *final(self) == old(self).clock_channel3_spec(),
            final(self).wf(),
    {
        if !self.ch3_enabled || self.nr30 & 0x80 == 0 {
            return;
        }
        if self.ch3_frequency_timer > 0 {
            self.ch3_frequency_timer = self.ch3_frequency_timer - 1;
        } else {
            self.ch3_frequency_timer = (2048 - frequency(self.nr33, self.nr34)) * 2;
            self.ch3_position = (self.ch3_position + 1) % 32;
        }
    }

    /// One machine cycle of the noise channel: at zero its timer reloads and
    /// the shift register is clocked.
    pub open spec fn clock_channel4_spec(self) -> APU {
        if !self.ch4_enabled {
            self
        } else if self.ch4_frequency_timer > 0 {
            APU { ch4_frequency_timer: (self.ch4_frequency_timer - 1) as u16, ..self }
        } else {
            APU {
                ch4_frequency_timer: noise_period(self.nr43),
                ch4_lfsr: lfsr_step(self.ch4_lfsr, self.nr43),
                ..self
            }
        }
    }

    pub fn clock_channel4(&mut self)
        requires
            old(self).wf(),
        ensures
            *final(self) == old(self).clock_channel4_spec(),
            final(self).wf(),
    {
        if !self.ch4_enabled {
            return;
        }
        if self.ch4_frequency_timer > 0 {
            self.ch4_frequency_timer = self.ch4_frequency_timer - 1;
        } else {
            self.ch4_frequency_timer = noise_timer_reload(self.nr43);
            self.ch4_lfsr = clock_lfsr(self.ch4_lfsr, self.nr43);
        }
    }

    // ----- mixer -----

    /// What the mixer sees now.  A square channel puts out its volume while
    /// its duty pattern is high, the wave channel the nibble under its
    /// position, the noise channel its volume while bit 0 of the shift
    /// register is clear; a channel that is off puts out 0.
    pub open spec fn mix_spec(self) -> SampleMix {
        SampleMix {
            ch1: if self.ch1_enabled && duty_high(self.nr11, self.ch1_duty_position) {
                self.ch1_volume
            } else {
                0
            },
            ch2: if self.ch2_enabled && duty_high(self.nr21, self.ch2_duty_position) {
                self.ch2_volume
            } else {
                0
            },
            ch3: if self.wave_playing() {
                wave_output(self.wave_ram@[self.ch3_position as int / 2], self.ch3_position, self.nr32)
            } else {
                0
            },
            ch4: if self.ch4_enabled && self.ch4_lfsr & 0x01 == 0 { self.ch4_volume } else { 0 },
            panning: self.nr51,
            master: self.nr50,
        }
    }

    /// Takes one sample of the four channels with the routing and the master
    /// volume of this moment.
    pub fn generate_sample(&self) -> (m: SampleMix)
        requires
            self.wf(),
        ensures
            m == self.mix_spec(),
            m.wf(),
    {
        let ch1: u8 = if self.ch1_enabled && duty_is_high(self.nr11, self.ch1_duty_position) {
            self.ch1_volume
        } else {
            0
        };
        let ch2: u8 = if self.ch2_enabled && duty_is_high(self.nr21, self.ch2_duty_position) {
            self.ch2_volume
        } else {
            0
        };
        let ch3: u8 = if self.ch3_enabled && self.nr30 & 0x80 != 0 {
            wave_level(self.wave_ram[(self.ch3_position / 2) as usize], self.ch3_position, self.nr32)
        } else {
            0
        };
        let ch4: u8 = if self.ch4_enabled && self.ch4_lfsr & 0x01 == 0 { self.ch4_volume } else { 0 };
        SampleMix { ch1, ch2, ch3, ch4, panning: self.nr51, master: self.nr50 }
    }

    // ----- one machine cycle -----

    /// The four channels after one machine cycle.
    pub open spec fn clock_channels_spec(self) -> APU {
        self.clock_channel1_spec().clock_channel2_spec().clock_channel3_spec().clock_channel4_spec()
    }

    /// Whether this machine cycle ends a sample period.
    pub open spec fn sample_due(self) -> bool {
        self.sample_timer + 1 >= SAMPLE_PERIOD
    }

    /// The state after `m` is put at the end of the queue; a full queue
    /// drops it.
    pub open spec fn push_sample_spec(self, m: SampleMix) -> APU {
        if self.queued < QUEUE_CAPACITY {
            APU {
                samples: vstd::array::spec_array_update(self.samples, self.queued as int, m),
                queued: (self.queued + 1) as usize,
                ..self
            }
        } else {
            self
        }
    }

    /// The state after one machine cycle: the channels are clocked, and
    /// every 87th cycle a sample of them is queued.
    pub open spec fn cycle_spec(self) -> APU {
        let clocked = self.clock_channels_spec();
        if self.sample_due() {
            APU { sample_timer: 0, ..clocked }.push_sample_spec(clocked.mix_spec())
        } else {
            APU { sample_timer: (self.sample_timer + 1) as u8, ..clocked }
        }
    }

    /// Queues a sample.
    pub fn push_sample(&mut self, m: SampleMix)
        requires
            old(self).wf(),
            m.wf(),
        ensures
            *final(self) == old(self).push_sample_spec(m),
            final(self).wf(),
    {
        if self.queued < QUEUE_CAPACITY {
            self.samples[self.queued] = m;
            self.queued = self.queued + 1;
        }
    }

    /// Runs the unit for one machine cycle.
    pub fn advance_cycle(&mut self)
        requires
            old(self).wf(),
        ensures
            *final(self) == old(self).cycle_spec(),
            final(self).wf(),
    {
        self.clock_channel1();
        self.clock_channel2();
        self.clock_channel3();
        self.clock_channel4();
        if self.sample_timer + 1 >= SAMPLE_PERIOD {
            let m = self.generate_sample();
            self.sample_timer = 0;
            self.push_sample(m);
        } else {
            self.sample_timer = self.sample_timer + 1;
        }
    }

    /// The state after `n` machine cycles.
    pub open spec fn run_cycles(self, n: nat) -> APU
        decreases n,
    {
        if n == 0 { self } else { self.run_cycles((n - 1) as nat).cycle_spec() }
    }

    /// The sequencer's clock after `cycles` more machine cycles; it steps at
    /// most once, since a call brings at most 255 cycles.
    pub open spec fn advance_sequencer_spec(self, cycles: u8) -> APU {
        let t = self.frame_sequencer_timer + cycles;
        if t >= SEQUENCER_PERIOD {
            APU { frame_sequencer_timer: (t - SEQUENCER_PERIOD) as u32, ..self }.clock_frame_sequencer_spec()
        } else {
            APU { frame_sequencer_timer: t as u32, ..self }
        }
    }

    /// The state after `cycles` machine cycles: the frame sequencer's clock
    /// moves on, then the channels run cycle by cycle.  A unit that is
    /// switched off stands still.
    pub open spec fn tick_spec(self, cycles: u8) -> APU {
        if !self.powered() {
            self
        } else {
            self.advance_sequencer_spec(cycles).run_cycles(cycles as nat)
        }
    }

    /// Advances the frame sequencer's clock by `cycles`.
    pub fn advance_sequencer(&mut self, cycles: u8)
        requires
            old(self).wf(),
        ensures
            *final(self) == old(self).advance_sequencer_spec(cycles),
            final(self).wf(),
    {
        self.frame_sequencer_timer = self.frame_sequencer_timer + cycles as u32;
        if self.frame_sequencer_timer >= SEQUENCER_PERIOD {
            self.frame_sequencer_timer = self.frame_sequencer_timer - SEQUENCER_PERIOD;
            self.clock_frame_sequencer();
        }
    }

    /// Advances the unit by `cycles` machine cycles.
    pub fn tick(&mut self, cycles: u8)
        requires
            old(self).wf(),
        ensures
            *final(self) == old(self).tick_spec(cycles),
            final(self).wf(),
    {
        if self.nr52 & 0x80 == 0 {
            return;
        }
        self.advance_sequencer(cycles);
        let ghost start = *self;
        let mut done: u8 = 0;
        while done < cycles
            invariant
                done <= cycles,
                self.wf(),
                *self == start.run_cycles(done as nat),
            decreases cycles - done,
        {
            self.advance_cycle();
            done = done + 1;
        }
    }

    /// The state after the host has taken the queue.
    pub open spec fn drained(self) -> APU {
        APU { queued: 0, ..self }
    }

    /// Hands the queued samples to the host, oldest first, and empties the
    /// queue.
    pub fn get_samples(&mut self) -> (taken: Vec<SampleMix>)
        requires
            old(self).wf(),
        ensures
            taken@ == old(self).queue(),
            forall|i: int| 0 <= i < taken@.len() ==> (#[trigger] taken@[i]).wf(),
            *final(self) == old(self).drained(),
            final(self).wf(),
    {
        let mut taken: Vec<SampleMix> = Vec::new();
        let mut i: usize = 0;
        while i < self.queued
            invariant
                i <= self.queued <= QUEUE_CAPACITY,
                *self == *old(self),
                taken@ == self.samples@.subrange(0, i as int),
            decreases self.queued - i,
        {
            taken.push(self.samples[i]);
            i = i + 1;
            assert(taken@ =~= self.samples@.subrange(0, i as int));
        }
        self.queued = 0;
        taken
    }

    // ----- laws -----

    /// The sound registers that can be read back, wave memory included.
    pub open spec fn is_readable_register(addr: u16) -> bool {
        addr == 0xFF10 || addr == 0xFF11 || addr == 0xFF12 || addr == 0xFF14 || addr == 0xFF16
            || addr == 0xFF17 || addr == 0xFF19 || addr == 0xFF1A || addr == 0xFF1C || addr == 0xFF1E
            || addr == 0xFF21 || addr == 0xFF22 || addr == 0xFF23 || addr == 0xFF24 || addr == 0xFF25
            || addr == 0xFF26 || (0xFF30 <= addr <= 0xFF3F)
    }

    /// The bits of a sound register that a write stores and a read returns.
    pub open spec fn register_mask(addr: u16) -> u8 {
        if addr == 0xFF10 { 0x7F }
        else if addr == 0xFF11 || addr == 0xFF16 { 0xC0 }
        else if addr == 0xFF14 || addr == 0xFF19 || addr == 0xFF1E || addr == 0xFF23 { 0x40 }
        else if addr == 0xFF1A || addr == 0xFF26 { 0x80 }
        else if addr == 0xFF1C { 0x60 }
        else { 0xFF }
    }

    /// The bits of a sound register that always read 1.
    pub open spec fn register_ones(addr: u16) -> u8 {
        if addr == 0xFF10 { 0x80 }
        else if addr == 0xFF11 || addr == 0xFF16 { 0x3F }
        else if addr == 0xFF14 || addr == 0xFF19 || addr == 0xFF1E || addr == 0xFF23 { 0xBF }
        else if addr == 0xFF1A { 0x7F }
        else if addr == 0xFF26 { 0x70 }
        else if addr == 0xFF1C { 0x9F }
        else { 0x00 }
    }

    /// A sound register that is written and then read gives back the
    /// written bits under its mask, with its forced bits set.  NR52 does so
    /// always, the others while the unit is switched on.
    #[verifier::rlimit(40)]
    pub proof fn lemma_register_round_trip(self, addr: u16, val: u8)
        requires
            self.wf(),
            Self::is_readable_register(addr),
            self.powered() || addr == 0xFF26,
        ensures
            self.write_register_spec(addr, val).read_register_spec(addr) & Self::register_mask(addr)
                == val & Self::register_mask(addr),
            self.write_register_spec(addr, val).read_register_spec(addr) & Self::register_ones(addr)
                == Self::register_ones(addr),
    {
        let after = self.write_register_spec(addr, val);
        crate::bits::lemma_masked_round_trip(val, self.nr52, 0, 0, after.status_bits());
        if addr == 0xFF26 {
            assert(after == self.write_power_spec(val));
            assert(after.nr52 == (self.nr52 & 0x7F) | (val & 0x80));
        } else if 0xFF30 <= addr <= 0xFF3F {
            assert(after.wave_index(addr) == self.wave_index(addr));
        }
    }
}

} // verus!
