//! The whole machine: processor, bus, sound unit and pixel unit advancing
//! in lock-step on one cycle count, one instruction at a time, one frame at
//! a time.
use vstd::prelude::*;
use crate::cpu::{opcode_defined, CPU};
use crate::mmu::MMU;
use crate::ppu::{PPU, FRAME_CYCLES};

verus! {

/// Why the machine stopped: the byte at PC is no instruction.
#[derive(Clone, Copy, Debug, PartialEq, Eq, Structural)]
pub struct Fault {
    pub opcode: u8,
    pub pc: u16,
}

pub struct Machine {
    pub cpu: CPU,
    pub ppu: PPU,
}

impl Machine {
    pub open spec fn wf(self) -> bool {
        self.cpu.wf() && self.ppu.wf()
    }

    /// Whether the state is well formed.
    pub fn is_wf(&self) -> (r: bool)
        ensures
            r == self.wf(),
    {
        self.cpu.is_wf() && self.ppu.is_wf()
    }

    /// A machine with the cartridge `rom` in it, as the boot program leaves
    /// it.  An image shorter than 32 KiB is refused.
    pub fn new(rom: Vec<u8>) -> (r: Option<Machine>)
        ensures
            r is None <==> rom@.len() < crate::mmu::MIN_ROM_LEN,
            r is Some ==> {
                &&& r->0.wf()
                &&& r->0.cpu.bus.is_power_on(rom@)
                &&& r->0.cpu.registers == crate::cpu::boot_registers()
                &&& !r->0.cpu.ime && !r->0.cpu.halted && !r->0.cpu.interrupt_enable_delay
                &&& r->0.ppu.mode_clock == 0 && r->0.ppu.window_line == 0
                &&& forall|j: int| 0 <= j < 23040 ==> r->0.ppu.frame_buffer@[j] == crate::ppu::WHITE
            },
    {
        match MMU::new(rom) {
            Some(bus) => Some(Machine { cpu: CPU::new(bus), ppu: PPU::new() }),
            None => None,
        }
    }

    /// The machine after timer, sound unit and pixel unit, in this order,
    /// have each been advanced by `cycles` cycles.
    #[verifier::opaque]
    pub open spec fn tick_spec(self, cycles: u8) -> Machine {
        let timed = self.cpu.bus.tick_spec(cycles);
        let sounded = MMU { apu: timed.apu.tick_spec(cycles), ..timed };
        let drawn = self.ppu.tick_spec(sounded, cycles);
        Machine { cpu: self.cpu.with_bus(drawn.1), ppu: drawn.0 }
    }

    /// Advances timer, sound unit and pixel unit by `cycles` cycles.
    #[verifier::rlimit(40)]
    pub fn tick(&mut self, cycles: u8)
        requires
            old(self).wf(),
        ensures
            *final(self) == old(self).tick_spec(cycles),
            final(self).wf(),
            final(self).cpu.registers == old(self).cpu.registers,
    {
        reveal(Machine::tick_spec);
        self.cpu.bus.tick(cycles);
        self.cpu.bus.apu.tick(cycles);
        self.ppu.tick(&mut self.cpu.bus, cycles);
    }

    /// The machine after interrupt dispatch: where an interrupt was served,
    /// its 20 cycles have gone to the other units.
    #[verifier::opaque]
    pub open spec fn dispatch_spec(self) -> (Machine, u8) {
        let served = self.cpu.handle_interrupts_spec();
        let entered = Machine { cpu: served.0, ..self };
        if served.1 > 0 { (entered.tick_spec(served.1), served.1) } else { (entered, 0) }
    }

    /// One slice of the frame loop: interrupt dispatch, one instruction,
    /// and the other units advanced by the cycles of each.  Gives the
    /// cycles that passed, or the fault if the byte at PC after dispatch is
    /// no instruction; the machine then stands as dispatch left it.
    #[verifier::opaque]
    pub open spec fn advance_spec(self) -> (Machine, Result<u8, Fault>) {
        let dispatched = self.dispatch_spec();
        let m = dispatched.0;
        if !m.cpu.can_step() {
            (m, Err(Fault { opcode: m.cpu.next_opcode(), pc: m.cpu.registers.pc }))
        } else {
            let stepped = m.cpu.step_spec();
            (
                Machine { cpu: stepped.0, ..m }.tick_spec(stepped.1),
                Ok((dispatched.1 + stepped.1) as u8),
            )
        }
    }

    /// Serves at most one interrupt and passes its cycles on to the other
    /// units.
    pub fn dispatch(&mut self) -> (cycles: u8)
        requires
            old(self).wf(),
        ensures
            (*final(self), cycles) == old(self).dispatch_spec(),
            final(self).wf(),
            cycles == 0 || cycles == 20,
    {
        reveal(Machine::dispatch_spec);
        let served: u8 = self.cpu.handle_interrupts();
        if served > 0 {
            self.tick(served);
        }
        served
    }

    /// Runs one slice of the frame loop.
    #[verifier::rlimit(40)]
    pub fn advance(&mut self) -> (r: Result<u8, Fault>)
        requires
            old(self).wf(),
        ensures
            (*final(self), r) == old(self).advance_spec(),
            final(self).wf(),
            r is Ok ==> 4 <= r->Ok_0 <= 44 && r->Ok_0 % 4 == 0,
    {
        reveal(Machine::advance_spec);
        let served: u8 = self.dispatch();
        if !self.cpu.next_opcode_defined() {
            let pc: u16 = self.cpu.registers.pc;
            return Err(Fault { opcode: self.cpu.bus.read_byte(pc), pc });
        }
        let cycles: u8 = self.cpu.step();
        self.tick(cycles);
        Ok(served + cycles)
    }

    /// A slice that does not fault takes between 4 and 44 cycles.
    pub proof fn lemma_advance_cycles(self)
        ensures
            self.advance_spec().1 is Ok ==> 4 <= self.advance_spec().1->Ok_0 <= 44,
    {
        reveal(Machine::advance_spec);
        let dispatched = self.dispatch_spec();
        assert(dispatched.1 == 0 || dispatched.1 == 20) by {
            reveal(Machine::dispatch_spec);
        }
        if dispatched.0.cpu.can_step() {
            dispatched.0.cpu.lemma_step_cycles();
        }
    }

    /// The machine after slices have run until `elapsed` reached the 70224
    /// cycles of a frame, with the cycles that passed in all, or the fault
    /// that stopped it.
    pub open spec fn run_frame_from(self, elapsed: nat) -> (Machine, Result<u32, Fault>)
        decreases FRAME_CYCLES + 44 - elapsed,
    {
        if elapsed >= FRAME_CYCLES {
            (self, Ok((elapsed % 0x1_0000_0000) as u32))
        } else {
            let slice = self.advance_spec();
            match slice.1 {
                Ok(cycles) => {
                    proof {
                        self.lemma_advance_cycles();
                    }
                    slice.0.run_frame_from((elapsed + cycles) as nat)
                },
                Err(fault) => (slice.0, Err(fault)),
            }
        }
    }

    /// Runs the machine for one frame: slices of the frame loop until at
    /// least 70224 cycles have passed.  Gives the cycles that passed, or the
    /// fault that stopped the machine.
    pub fn run_frame(&mut self) -> (r: Result<u32, Fault>)
        requires
            old(self).wf(),
        ensures
            (*final(self), r) == old(self).run_frame_from(0),
            final(self).wf(),
            r is Ok ==> FRAME_CYCLES <= r->Ok_0 < FRAME_CYCLES + 44,
    {
        let mut elapsed: u32 = 0;
        while elapsed < FRAME_CYCLES
            invariant
                elapsed < FRAME_CYCLES + 44,
                self.wf(),
                self.run_frame_from(elapsed as nat) == old(self).run_frame_from(0),
            decreases FRAME_CYCLES + 44 - elapsed,
        {
            match self.advance() {
                Ok(cycles) => {
                    elapsed = elapsed + cycles as u32;
                },
                Err(fault) => {
                    return Err(fault);
                },
            }
        }
        Ok(elapsed)
    }
}

} // verus!
