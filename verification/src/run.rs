//! The instruction loops of the console, one iteration at a time: each iteration
//! updates the console and reports what the page has to do (draw, play sound, print
//! a serial byte) or that the program stops.

use vstd::prelude::*;
use crate::registers::{Registers, sub16};
use crate::machine::{bus_read, lemma_bus_write_frame, lemma_bus_read_regs, MEMORY_SIZE};
use crate::cpu::{supported, step};
use crate::gameboy::{
    Gameboy, GameboyModel, gameboy_wf, mem, set_mem, with_machine, cycles_known, add_cycles_spec,
    gpu_spec, interrupt_spec, update_timer_spec, CycleRegister,
};
use crate::machine::with_regs;
use crate::sound::{Channel, square1_ok};
use crate::emulator::{channel1_spec, sound_dirty_spec};

verus! {

broadcast use {lemma_bus_write_frame, lemma_bus_read_regs};

/// What to do with sound channel 1 after an instruction.
#[derive(Clone, Copy, Debug, PartialEq)]
pub enum SoundUpdate {
    Unchanged,
    /// Restart the oscillator with these settings.
    Reset(Channel),
}

/// Why the program stops.
#[derive(Clone, Copy, Debug, PartialEq, Eq)]
pub enum StepFault {
    /// An opcode (or 0xDD operand) the emulator has no cycle count or implementation for.
    UnknownInstruction(u8),
    /// Channel 1 changed with a sweep time selector that has no wave duty.
    ImproperWaveDuty,
}

/// What follows an iteration of the free-running loop.
#[derive(Clone, Copy, Debug, PartialEq, Eq)]
pub enum RunNext {
    Continue,
    Stop,
    /// Draw the screen with sprites, then stop.
    DrawAndStop,
}

/// The outcome of an iteration of the free-running loop.
#[derive(Clone, Copy, Debug, PartialEq, Eq)]
pub struct RunIteration {
    /// A byte sent on the serial port, to be shown.
    pub serial: Option<u8>,
    pub next: RunNext,
}

/// The outcome of an iteration of the counted loop.
#[derive(Clone, Copy, Debug, PartialEq)]
pub struct OpcodesIteration {
    /// Redraw the tile data, background and screen.
    pub draw: bool,
    pub sound: SoundUpdate,
}

/// NR10..NR14.
pub open spec fn sound_regs(g: GameboyModel) -> Seq<u8> {
    g.machine.memory.subrange(0xff10, 0xff15)
}

/// The sound decision after an instruction, given whether channel 1 changed.
pub open spec fn sound_outcome(changed: bool, g: GameboyModel) -> Option<SoundUpdate> {
    if !changed {
        Some(SoundUpdate::Unchanged)
    } else if !square1_ok(mem(g, 0xff10)) {
        None
    } else if sound_dirty_spec(g) {
        Some(SoundUpdate::Reset(channel1_spec(g)))
    } else {
        Some(SoundUpdate::Unchanged)
    }
}

/// Reaching a break point stops the console.
pub open spec fn break_point_spec(g: GameboyModel) -> GameboyModel {
    if g.break_points.contains(g.machine.regs.pc) {
        GameboyModel { is_running: false, ..g }
    } else {
        g
    }
}

/// Executes an instruction in a console state.
pub open spec fn exec_spec(g: GameboyModel, i: u8) -> GameboyModel {
    with_machine(g, step(g.machine, i))
}

/// One instruction as `execute_opcode` runs it: fetch from memory at PC, count its
/// cycles, execute, then the LCD work and the break point check; `None` when the
/// program stops.
pub open spec fn execute_opcode_spec(g: GameboyModel) -> Option<(GameboyModel, SoundUpdate)> {
    let i = mem(g, g.machine.regs.pc as int);
    if !cycles_known(i) || !supported(g.machine, i) {
        None
    } else {
        let g1 = add_cycles_spec(g, i, CycleRegister::CpuCycle);
        let g3 = gpu_spec(exec_spec(g1, i), i);
        let g4 = break_point_spec(g3);
        match sound_outcome(sound_regs(g4) != sound_regs(g), g4) {
            Some(s) => Some((g4, s)),
            None => None,
        }
    }
}

/// One iteration of the counted loop: fetch, count cycles, the LCD work, then execute;
/// a redraw is due when the LCD is on and a redraw was requested; then the break
/// point check and the sound decision against the NR10..NR14 values `pre`.
pub open spec fn opcodes_iteration_spec(g: GameboyModel, pre: Seq<u8>) -> Option<(GameboyModel, OpcodesIteration)> {
    let i = mem(g, g.machine.regs.pc as int);
    if !cycles_known(i) {
        None
    } else {
        let g2 = gpu_spec(add_cycles_spec(g, i, CycleRegister::CpuCycle), i);
        if !supported(g2.machine, i) {
            None
        } else {
            let g3 = exec_spec(g2, i);
            let draw = mem(g3, 0xff40) & 0x80 == 0x80 && g3.should_draw;
            let g4 = break_point_spec(g3);
            match sound_outcome(sound_regs(g4) != pre, g4) {
                Some(s) => Some((g4, OpcodesIteration { draw, sound: s })),
                None => None,
            }
        }
    }
}

/// Once the boot ROM has run (PC 0xFE about to execute 0xE0), addresses 0..0xFF show the
/// cartridge.
pub open spec fn unmap_boot_rom_spec(g: GameboyModel) -> GameboyModel {
    with_machine(
        g,
        crate::machine::MachineModel {
            memory: Seq::new(
                MEMORY_SIZE as nat,
                |k: int| if k < 0xff { g.machine.cartridge[k] } else { g.machine.memory[k] },
            ),
            ..g.machine
        },
    )
}

/// The part of an iteration of the free-running loop up to the HALT handling.
pub open spec fn run_body_spec(g0: GameboyModel, i: u8) -> Option<GameboyModel> {
    let g3 = if g0.is_halt {
        Some(interrupt_spec(gpu_spec(add_cycles_spec(g0, 0x00, CycleRegister::TimerCycle), i)))
    } else {
        let g2 = gpu_spec(g0, i);
        if supported(g2.machine, i) { Some(exec_spec(g2, i)) } else { None }
    };
    match g3 {
        Some(g3) => Some(interrupt_spec(update_timer_spec(add_cycles_spec(g3, i, CycleRegister::CpuCycle), i))),
        None => None,
    }
}

/// HALT: the console halts; with IME clear, the instruction after HALT is executed
/// with PC moved back onto the HALT.
pub open spec fn run_halt_spec(g6: GameboyModel, i: u8) -> Option<GameboyModel> {
    if i == 0x76 {
        let g7 = GameboyModel { is_halt: true, ..g6 };
        if !g7.machine.regs.f.ime {
            let next = bus_read(g7.machine, g7.machine.regs.pc);
            let m = g7.machine;
            let g8 = with_machine(g7, with_regs(m, Registers { pc: sub16(m.regs.pc as int, 1), ..m.regs }));
            if supported(g8.machine, next) { Some(exec_spec(g8, next)) } else { None }
        } else {
            Some(g7)
        }
    } else {
        Some(g6)
    }
}

/// The end of an iteration: stop when more than `count` cycles ran since
/// `start_cycle_count`; report a serial byte (SC = 0x81) and clear SC; stop to draw when
/// the LCD is on and a redraw was requested.
pub open spec fn run_finish_spec(g: GameboyModel, start_cycle_count: usize, count: u32) -> (GameboyModel, RunIteration) {
    let executed = vstd::wrapping::usize_specs::wrapping_sub(g.total_cycle_num, start_cycle_count);
    if executed as u32 > count {
        (g, RunIteration { serial: None, next: RunNext::Stop })
    } else {
        let serial = if mem(g, 0xff02) == 0x81 { Some(mem(g, 0xff01)) } else { None };
        let g1 = if mem(g, 0xff02) == 0x81 { set_mem(g, 0xff02, 0) } else { g };
        if mem(g1, 0xff40) & 0x80 == 0x80 && g1.should_draw {
            (GameboyModel { should_draw: false, ..g1 }, RunIteration { serial, next: RunNext::DrawAndStop })
        } else {
            (g1, RunIteration { serial, next: RunNext::Continue })
        }
    }
}

/// One iteration of the free-running loop; `None` when the program stops.
pub open spec fn run_iteration_spec(g: GameboyModel, start_cycle_count: usize, count: u32) -> Option<(GameboyModel, RunIteration)> {
    if g.cpu_paused || !g.is_running {
        Some((g, RunIteration { serial: None, next: RunNext::Stop }))
    } else {
        let i = bus_read(g.machine, g.machine.regs.pc);
        let g0 = if g.machine.regs.pc == 0xfe && i == 0xe0 { unmap_boot_rom_spec(g) } else { g };
        if !cycles_known(i) {
            None
        } else {
            match run_body_spec(g0, i) {
                None => None,
                Some(g6) => match run_halt_spec(g6, i) {
                    None => None,
                    Some(g7) => Some(run_finish_spec(break_point_spec(g7), start_cycle_count, count)),
                },
            }
        }
    }
}

impl Gameboy {
    /// Stops the console when PC is at a break point.
    fn check_break_point(&mut self)
        requires
            gameboy_wf(old(self)@),
        ensures
            final(self)@ == break_point_spec(old(self)@),
            gameboy_wf(final(self)@),
    {
        if self.has_break_point(self.machine.registers.pc) {
            self.is_running = false;
        }
    }

    /// The sound decision after an instruction.
    fn sound_decision(&self, changed: bool) -> (r: Result<SoundUpdate, StepFault>)
        requires
            gameboy_wf(self@),
        ensures
            match r {
                Ok(s) => sound_outcome(changed, self@) == Some(s),
                Err(_) => sound_outcome(changed, self@) is None,
            },
    {
        if !changed {
            Ok(SoundUpdate::Unchanged)
        } else {
            let nr10 = self.machine.memory[0xff10];
            if !(nr10 & 0x70 == 0 || nr10 & 0x70 == 0x40) {
                Err(StepFault::ImproperWaveDuty)
            } else if self.sound_dirty_flag_check_s1() {
                Ok(SoundUpdate::Reset(self.square1()))
            } else {
                Ok(SoundUpdate::Unchanged)
            }
        }
    }

    /// Executes the instruction at PC (see [`execute_opcode_spec`]).
    pub fn execute_opcode(&mut self) -> (r: Result<SoundUpdate, StepFault>)
        requires
            gameboy_wf(old(self)@),
        ensures
            gameboy_wf(final(self)@),
            match r {
                Ok(s) => execute_opcode_spec(old(self)@) == Some((final(self)@, s)),
                Err(_) => execute_opcode_spec(old(self)@) is None,
            },
    {
        let pre_ff10 = self.machine.memory[0xff10];
        let pre_ff11 = self.machine.memory[0xff11];
        let pre_ff12 = self.machine.memory[0xff12];
        let pre_ff13 = self.machine.memory[0xff13];
        let pre_ff14 = self.machine.memory[0xff14];
        let ghost g = self@;
        let instruction = self.machine.memory[self.machine.registers.pc as usize];
        if !crate::gameboy::is_cycle_known(instruction) || !crate::cpu::is_supported(&self.machine, instruction) {
            return Err(StepFault::UnknownInstruction(instruction));
        }
        self.add_cycles(instruction, CycleRegister::CpuCycle);
        self.execute_instruction(instruction);
        self.cycle_based_gpu_operation(instruction);
        self.check_break_point();
        let changed = self.is_channel1_changed(pre_ff10, pre_ff11, pre_ff12, pre_ff13, pre_ff14);
        proof {
            assert(seq![pre_ff10, pre_ff11, pre_ff12, pre_ff13, pre_ff14] =~= sound_regs(g));
        }
        self.sound_decision(changed)
    }

    /// One iteration of the counted loop (see [`opcodes_iteration_spec`]); `pre` holds
    /// NR10..NR14 as they were before the loop.
    pub fn execute_opcodes_iteration(&mut self, pre: &[u8; 5]) -> (r: Result<OpcodesIteration, StepFault>)
        requires
            gameboy_wf(old(self)@),
        ensures
            gameboy_wf(final(self)@),
            match r {
                Ok(s) => opcodes_iteration_spec(old(self)@, pre@) == Some((final(self)@, s)),
                Err(_) => opcodes_iteration_spec(old(self)@, pre@) is None,
            },
    {
        let instruction = self.machine.memory[self.machine.registers.pc as usize];
        if !crate::gameboy::is_cycle_known(instruction) {
            return Err(StepFault::UnknownInstruction(instruction));
        }
        self.add_cycles(instruction, CycleRegister::CpuCycle);
        self.cycle_based_gpu_operation(instruction);
        if !crate::cpu::is_supported(&self.machine, instruction) {
            return Err(StepFault::UnknownInstruction(instruction));
        }
        self.execute_instruction(instruction);
        let draw = self.is_lcd_display_enable() && self.should_draw;
        self.check_break_point();
        let changed = self.is_channel1_changed(pre[0], pre[1], pre[2], pre[3], pre[4]);
        proof {
            assert(seq![pre[0], pre[1], pre[2], pre[3], pre[4]] =~= pre@);
        }
        match self.sound_decision(changed) {
            Ok(sound) => Ok(OpcodesIteration { draw, sound }),
            Err(e) => Err(e),
        }
    }

    /// Maps the cartridge over the boot ROM (addresses 0..0xFF).
    fn unmap_boot_rom(&mut self)
        requires
            gameboy_wf(old(self)@),
        ensures
            final(self)@ == unmap_boot_rom_spec(old(self)@),
            gameboy_wf(final(self)@),
    {
        let mut idx: usize = 0;
        assert(self.machine.memory@ =~= Seq::new(MEMORY_SIZE as nat, |k: int| if k < 0 { old(self)@.machine.cartridge[k] } else { old(self)@.machine.memory[k] }));
        while idx < 0xff
            invariant
                idx <= 0xff,
                gameboy_wf(old(self)@),
                self.machine.cartridge@.len() >= 0x8000,
                self@ == with_machine(old(self)@, crate::machine::MachineModel {
                    memory: Seq::new(MEMORY_SIZE as nat, |k: int| if k < idx { old(self)@.machine.cartridge[k] } else { old(self)@.machine.memory[k] }),
                    ..old(self)@.machine
                }),
            decreases 0xff - idx,
        {
            let v = self.machine.cartridge[idx];
            self.machine.memory.set(idx, v);
            idx = idx + 1;
            assert(self.machine.memory@ =~= Seq::new(MEMORY_SIZE as nat, |k: int| if k < idx { old(self)@.machine.cartridge[k] } else { old(self)@.machine.memory[k] }));
        }
    }

    /// The part of an iteration up to the HALT handling.
    fn run_body(&mut self, instruction: u8) -> (ok: bool)
        requires
            gameboy_wf(old(self)@),
            cycles_known(instruction),
        ensures
            gameboy_wf(final(self)@),
            ok == run_body_spec(old(self)@, instruction) is Some,
            ok ==> run_body_spec(old(self)@, instruction) == Some(final(self)@),
    {
        if self.is_halt {
            self.add_cycles(0x00, CycleRegister::TimerCycle);
            self.cycle_based_gpu_operation(instruction);
            self.execute_interuption();
        } else {
            self.cycle_based_gpu_operation(instruction);
            if !crate::cpu::is_supported(&self.machine, instruction) {
                return false;
            }
            self.execute_instruction(instruction);
        }
        self.add_cycles(instruction, CycleRegister::CpuCycle);
        self.update_timer(instruction);
        self.execute_interuption();
        true
    }

    /// The HALT handling of an iteration.
    fn run_halt(&mut self, instruction: u8) -> (ok: bool)
        requires
            gameboy_wf(old(self)@),
        ensures
            gameboy_wf(final(self)@),
            ok == run_halt_spec(old(self)@, instruction) is Some,
            ok ==> run_halt_spec(old(self)@, instruction) == Some(final(self)@),
    {
        if instruction == 0x076 {
            self.is_halt = true;
            if !self.ime() {
                let next_instruction = self.read_memory(self.machine.registers.pc);
                let pc = self.machine.registers.pc.wrapping_sub(1);
                self.machine.registers.set_pc(pc);
                if !crate::cpu::is_supported(&self.machine, next_instruction) {
                    return false;
                }
                self.execute_instruction(next_instruction);
            }
        }
        true
    }

    /// The end of an iteration.
    fn run_finish(&mut self, start_cycle_count: usize, count: u32) -> (r: RunIteration)
        requires
            gameboy_wf(old(self)@),
        ensures
            gameboy_wf(final(self)@),
            run_finish_spec(old(self)@, start_cycle_count, count) == (final(self)@, r),
    {
        let executed_cycles = self.total_cycle().wrapping_sub(start_cycle_count);
        if executed_cycles as u32 > count {
            return RunIteration { serial: None, next: RunNext::Stop };
        }
        let mut serial: Option<u8> = None;
        if self.machine.memory[0xff02] == 0x81 {
            serial = Some(self.machine.memory[0xff01]);
            self.machine.memory.set(0xff02, 0x0);
        }
        if self.is_lcd_display_enable() && self.should_draw {
            self.should_draw = false;
            RunIteration { serial, next: RunNext::DrawAndStop }
        } else {
            RunIteration { serial, next: RunNext::Continue }
        }
    }

    /// One iteration of the free-running loop (see [`run_iteration_spec`]);
    /// `start_cycle_count` is the cycle count when the loop began and `count` the
    /// cycle budget.
    pub fn run_iteration(&mut self, start_cycle_count: usize, count: u32) -> (r: Result<RunIteration, StepFault>)
        requires
            gameboy_wf(old(self)@),
        ensures
            gameboy_wf(final(self)@),
            match r {
                Ok(s) => run_iteration_spec(old(self)@, start_cycle_count, count) == Some((final(self)@, s)),
                Err(_) => run_iteration_spec(old(self)@, start_cycle_count, count) is None,
            },
    {
        if self.cpu_paused || !self.is_running {
            return Ok(RunIteration { serial: None, next: RunNext::Stop });
        }
        let instruction = self.read_memory(self.machine.registers.pc);
        if self.machine.registers.pc == 0xfe && instruction == 0x00e0 {
            self.unmap_boot_rom();
        }
        if !crate::gameboy::is_cycle_known(instruction) {
            return Err(StepFault::UnknownInstruction(instruction));
        }
        if !self.run_body(instruction) {
            return Err(StepFault::UnknownInstruction(instruction));
        }
        if !self.run_halt(instruction) {
            return Err(StepFault::UnknownInstruction(instruction));
        }
        self.check_break_point();
        Ok(self.run_finish(start_cycle_count, count))
    }
}

} // verus!
