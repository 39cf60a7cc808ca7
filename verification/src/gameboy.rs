//! The emulated console: CPU and bus plus clocks, timer, interrupts and LCD status.

use vstd::prelude::*;
use crate::registers::{Registers, Flag, add8, add16};
use crate::machine::{
    Machine, MachineModel, machine_wf, bus_read, bus_write, lemma_bus_write_frame,
    lemma_bus_read_regs, MEMORY_SIZE, push, with_regs,
};
use crate::cpu::{supported, step};
use crate::bits::{bitvec_from_byte, bitvec_set, bitvec_to_bytes, bitvec_bits, byte_bits_msb, pack_byte};

verus! {

broadcast use {lemma_bus_write_frame, lemma_bus_read_regs};

/// Width of the background map in pixels, as reported to the page.
pub const BACKGROUND_WIDTH: u32 = 255;
/// Height of the background map in pixels, as reported to the page.
pub const BACKGROUND_HEIGHT: u32 = 255;
/// Width of the screen in pixels.
pub const SCREEN_WIDTH: u32 = 160;
/// Height of the screen in pixels.
pub const SCREEN_HEIGHT: u32 = 144;

/// Which cycle counter an instruction's cycles are added to.
#[derive(Clone, Copy, PartialEq, Eq, Debug)]
pub enum CycleRegister {
    CpuCycle,
    VramCycle,
    TimerCycle,
}

/// The mathematical state of a [`Gameboy`].
pub ghost struct GameboyModel {
    pub background_width: u32,
    pub background_height: u32,
    pub screen_width: u32,
    pub screen_height: u32,
    pub machine: MachineModel,
    pub total_cycle_num: usize,
    pub vram_cycle_num: u16,
    pub timer_cycle_num: usize,
    pub timer: usize,
    pub cpu_clock: usize,
    pub is_running: bool,
    pub is_halt: bool,
    pub should_draw: bool,
    pub cpu_paused: bool,
    pub break_points: Seq<u16>,
    pub image_data: Seq<u8>,
}

/// The emulated console.
pub struct Gameboy {
    pub background_width: u32,
    pub background_height: u32,
    pub screen_width: u32,
    pub screen_height: u32,
    pub image_data: Vec<u8>,
    pub machine: Machine,
    pub total_cycle_num: usize,
    pub vram_cycle_num: u16,
    pub timer_cycle_num: usize,
    pub timer: usize,
    pub cpu_clock: usize,
    pub is_running: bool,
    pub is_halt: bool,
    pub should_draw: bool,
    pub break_points: Vec<u16>,
    pub cpu_paused: bool,
}

impl View for Gameboy {
    type V = GameboyModel;

    open spec fn view(&self) -> GameboyModel {
        GameboyModel {
            background_width: self.background_width,
            background_height: self.background_height,
            screen_width: self.screen_width,
            screen_height: self.screen_height,
            machine: self.machine@,
            total_cycle_num: self.total_cycle_num,
            vram_cycle_num: self.vram_cycle_num,
            timer_cycle_num: self.timer_cycle_num,
            timer: self.timer,
            cpu_clock: self.cpu_clock,
            is_running: self.is_running,
            is_halt: self.is_halt,
            should_draw: self.should_draw,
            cpu_paused: self.cpu_paused,
            break_points: self.break_points@,
            image_data: self.image_data@,
        }
    }
}

/// Well-formedness of the console state.
pub open spec fn gameboy_wf(g: GameboyModel) -> bool {
    machine_wf(g.machine)
}

/// Byte `addr` of the address space (no bank switching, no joypad).
pub open spec fn mem(g: GameboyModel, addr: int) -> u8 {
    g.machine.memory[addr]
}

/// Stores byte `addr` of the address space directly.
pub open spec fn set_mem(g: GameboyModel, addr: int, v: u8) -> GameboyModel {
    GameboyModel { machine: MachineModel { memory: g.machine.memory.update(addr, v), ..g.machine }, ..g }
}

/// Replaces the machine part.
pub open spec fn with_machine(g: GameboyModel, m: MachineModel) -> GameboyModel {
    GameboyModel { machine: m, ..g }
}

/// The interrupt flag register (IF) with `bits` set.
pub open spec fn request_interrupt(g: GameboyModel, bits: u8) -> GameboyModel {
    set_mem(g, 0xff0f, mem(g, 0xff0f) | bits)
}

/// LY advanced by one scan line: 153 wraps to 0; reaching 144 requests V-blank.
pub open spec fn inc_ly_spec(g: GameboyModel) -> GameboyModel {
    let ly = mem(g, 0xff44);
    if ly == 153 {
        set_mem(g, 0xff44, 0)
    } else {
        let g1 = set_mem(g, 0xff44, add8(ly as int, 1));
        if add8(ly as int, 1) == 144 {
            GameboyModel { should_draw: true, ..request_interrupt(g1, 1) }
        } else {
            g1
        }
    }
}

/// The timer frequency in Hz selected by TAC (0xFF07) bits 1..0.
pub open spec fn timer_frequency_spec(tac: u8) -> usize {
    let sel = tac & 3;
    if sel == 0 {
        4096
    } else if sel == 1 {
        262144
    } else if sel == 2 {
        65536
    } else {
        16384
    }
}

/// CPU clocks per timer tick: 4194304 / frequency.
pub open spec fn clocks_per_tick(tac: u8) -> usize {
    (4194304int / timer_frequency_spec(tac) as int) as usize
}

/// One timer tick: TIMA (0xFF05) increments; on overflow it reloads from TMA (0xFF06)
/// and a timer interrupt is requested.
pub open spec fn add_time_counter_spec(g: GameboyModel) -> GameboyModel {
    if mem(g, 0xff05) == 255 {
        let g1 = request_interrupt(g, 4);
        set_mem(g1, 0xff05, mem(g1, 0xff06))
    } else {
        set_mem(g, 0xff05, (mem(g, 0xff05) + 1) as u8)
    }
}

/// Cycles of the instructions without a special case (255: none known).
pub open spec fn cycle_table() -> Seq<u8> {
    seq![
        4, 12, 8, 8, 4, 4, 8, 4, 20, 8, 8, 8, 4, 4, 8, 4,
        0, 12, 8, 8, 4, 4, 8, 4, 8, 8, 8, 8, 4, 4, 8, 4,
        8, 12, 8, 8, 4, 4, 8, 4, 8, 8, 8, 8, 4, 4, 8, 4,
        8, 12, 8, 8, 12, 12, 12, 4, 8, 8, 8, 8, 4, 4, 8, 4,
        4, 4, 4, 4, 4, 4, 8, 4, 4, 4, 4, 4, 4, 4, 8, 4,
        4, 4, 4, 4, 4, 4, 8, 4, 4, 4, 4, 4, 4, 4, 8, 4,
        4, 4, 4, 4, 4, 4, 8, 4, 4, 4, 4, 4, 4, 4, 8, 4,
        8, 8, 8, 8, 8, 8, 4, 8, 4, 4, 4, 4, 4, 4, 8, 4,
        4, 4, 4, 4, 4, 4, 8, 4, 4, 4, 4, 4, 4, 4, 8, 4,
        4, 4, 4, 4, 4, 4, 8, 4, 4, 4, 4, 4, 4, 4, 8, 4,
        4, 4, 4, 4, 4, 4, 8, 4, 4, 4, 4, 4, 4, 4, 8, 4,
        4, 4, 4, 4, 4, 4, 8, 4, 4, 4, 4, 4, 4, 4, 8, 4,
        8, 12, 12, 12, 255, 16, 8, 32, 8, 8, 12, 255, 255, 12, 8, 32,
        8, 12, 12, 0, 12, 16, 8, 32, 8, 8, 12, 255, 12, 255, 8, 32,
        12, 12, 8, 255, 255, 16, 8, 32, 16, 4, 16, 255, 255, 255, 8, 32,
        12, 12, 8, 4, 0, 16, 8, 32, 12, 8, 16, 4, 255, 0, 8, 32,
    ]
}

/// Whether the cycle count of `instruction` is known.
pub open spec fn cycles_known(instruction: u8) -> bool {
    instruction == 0xCB || instruction == 0xCC || instruction == 0xC4 || cycle_table()[instruction as int] != 255
}

/// Cycles taken by `instruction` in state `m` (the byte after 0xCB and the Z flag
/// decide some of them).
pub open spec fn cycles_spec(m: MachineModel, instruction: u8) -> u8 {
    if instruction == 0xCB {
        let b = bus_read(m, add16(m.regs.pc as int, 1));
        if b & 7 == 6 && b != 0x0E { 16 } else { 8 }
    } else if instruction == 0xCC {
        if m.regs.f.z { 24 } else { 12 }
    } else if instruction == 0xC4 {
        if !m.regs.f.z { 24 } else { 12 }
    } else {
        cycle_table()[instruction as int]
    }
}

/// Adds an instruction's cycles to one counter (each wraps at its width).
pub open spec fn add_cycles_spec(g: GameboyModel, instruction: u8, reg: CycleRegister) -> GameboyModel {
    let c = cycles_spec(g.machine, instruction);
    match reg {
        CycleRegister::VramCycle => GameboyModel { vram_cycle_num: add16(g.vram_cycle_num as int, c as int), ..g },
        CycleRegister::TimerCycle => GameboyModel {
            timer_cycle_num: vstd::wrapping::usize_specs::wrapping_add(g.timer_cycle_num, c as usize),
            ..g
        },
        CycleRegister::CpuCycle => GameboyModel {
            total_cycle_num: vstd::wrapping::usize_specs::wrapping_add(g.total_cycle_num, c as usize),
            ..g
        },
    }
}

/// Advances the timer by one instruction: when TAC enables it, the instruction's
/// cycles accumulate and a full tick's worth advances TIMA; otherwise the
/// accumulated cycles are cleared.
pub open spec fn update_timer_spec(g: GameboyModel, instruction: u8) -> GameboyModel {
    if mem(g, 0xff07) & 4 == 4 {
        let g1 = add_cycles_spec(g, instruction, CycleRegister::TimerCycle);
        let clocks = clocks_per_tick(mem(g1, 0xff07));
        if g1.timer_cycle_num >= clocks {
            let g2 = add_time_counter_spec(g1);
            GameboyModel { timer_cycle_num: (g1.timer_cycle_num - clocks) as usize, ..g2 }
        } else {
            g1
        }
    } else {
        GameboyModel { timer_cycle_num: 0, ..g }
    }
}

/// Services one interrupt: leaves HALT, clears IME and the request bit, pushes PC
/// and jumps to `vector`.
#[verifier::opaque]
pub open spec fn service_spec(g: GameboyModel, bit: u8, vector: u16) -> GameboyModel {
    let g1 = GameboyModel { is_halt: false, ..g };
    let m = g1.machine;
    let m1 = with_regs(m, Registers { f: Flag { ime: false, ..m.regs.f }, ..m.regs });
    let g2 = set_mem(with_machine(g1, m1), 0xff0f, mem(g1, 0xff0f) ^ bit);
    let m3 = push(g2.machine, g2.machine.regs.pc);
    with_machine(g2, with_regs(m3, Registers { pc: vector, ..m3.regs }))
}

/// Whether interrupt `bit` is both requested (IF, 0xFF0F) and enabled (IE, 0xFFFF).
pub open spec fn pending(g: GameboyModel, bit: u8) -> bool {
    mem(g, 0xff0f) & bit == bit && mem(g, 0xffff) & bit == bit
}

/// Interrupt handling: with IME set, every interrupt pending at the start is serviced
/// in priority order (V-blank, LCD, timer, serial, joypad); any pending interrupt
/// ends HALT.
pub open spec fn interrupt_spec(g: GameboyModel) -> GameboyModel {
    let v = pending(g, 1);
    let l = pending(g, 2);
    let t = pending(g, 4);
    let s = pending(g, 8);
    let j = pending(g, 0x10);
    let g1 = if g.machine.regs.f.ime {
        let a = if v { service_spec(g, 1, 0x40) } else { g };
        let b = if l { service_spec(a, 2, 0x48) } else { a };
        let c = if t { service_spec(b, 4, 0x50) } else { b };
        let d = if s { service_spec(c, 8, 0x58) } else { c };
        if j { service_spec(d, 0x10, 0x60) } else { d }
    } else {
        g
    };
    if v || l || t || s || j { GameboyModel { is_halt: false, ..g1 } } else { g1 }
}

/// Requests the LCD STAT interrupt and a redraw.
pub open spec fn request_lcd_spec(g: GameboyModel) -> GameboyModel {
    GameboyModel { should_draw: true, ..request_interrupt(g, 2) }
}

/// The STAT value, mode and interrupt request for the current line and LCD cycle.
pub open spec fn lcd_mode_spec(status: u8, line: u8, vram_cycle: u16) -> (u8, u8, bool) {
    if line >= 144 {
        let st = (status | 1) & 0xFD;
        (st, 1, st & 0x10 == 0x10)
    } else if vram_cycle >= 80 {
        let st = (status | 2) & 0xFE;
        (st, 2, st & 0x20 == 0x20)
    } else if vram_cycle >= 252 {
        (status | 3, 3, false)
    } else {
        let st = status & 0xFC;
        (st, 0, st & 0x08 == 0x08)
    }
}

/// Updates STAT (0xFF41): with the LCD off, mode 1, LY cleared and the LCD cycle set to
/// 456; otherwise the mode follows LY and the LCD cycle, a mode change requests the
/// STAT interrupt when that mode's interrupt is enabled, and the coincidence flag
/// follows LY == LYC (requesting the interrupt when enabled).
pub open spec fn set_lcd_status_spec(g: GameboyModel) -> GameboyModel {
    let status0 = bus_read(g.machine, 0xFF41);
    if mem(g, 0xff40) & 0x80 != 0x80 {
        let g2 = set_mem(GameboyModel { vram_cycle_num: 456, ..g }, 0xFF44, 0);
        with_machine(g2, bus_write(g2.machine, 0xFF41, (status0 & 252) | 1))
    } else {
        let line = bus_read(g.machine, 0xFF44);
        let (status1, mode, req) = lcd_mode_spec(status0, line, g.vram_cycle_num);
        let g1 = if req && mode != status0 & 3 { request_lcd_spec(g) } else { g };
        let coincide = mem(g1, 0xff44) == bus_read(g1.machine, 0xFF45);
        let status2 = if coincide { status1 | 4 } else { status1 & 0xFB };
        let g2 = if coincide && status2 & 0x40 == 0x40 { request_lcd_spec(g1) } else { g1 };
        with_machine(g2, bus_write(g2.machine, 0xFF41, status2))
    }
}

/// STAT with the mode bits set to V-blank (mode 1).
pub open spec fn vblank_mode_spec(g: GameboyModel) -> GameboyModel {
    set_mem(g, 0xff41, (mem(g, 0xff41) & 0xFC) | 1)
}

/// The per-instruction LCD work: with the LCD on, the instruction's cycles advance the
/// LCD cycle, STAT is updated, and a full line (456 cycles) advances LY; with it off,
/// STAT shows V-blank.
pub open spec fn gpu_spec(g: GameboyModel, instruction: u8) -> GameboyModel {
    if mem(g, 0xff40) & 0x80 == 0x80 {
        let g1 = add_cycles_spec(g, instruction, CycleRegister::VramCycle);
        let g2 = set_lcd_status_spec(g1);
        if g2.vram_cycle_num >= 456 {
            let g3 = inc_ly_spec(g2);
            GameboyModel { vram_cycle_num: (g2.vram_cycle_num - 456) as u16, ..g3 }
        } else {
            g2
        }
    } else {
        vblank_mode_spec(g)
    }
}

/// A key press: the key's bit in the joypad state is cleared, and the joypad interrupt
/// is requested when the key's group is selected in P1 and the key was not already
/// pressed.
pub open spec fn key_pressed_spec(g: GameboyModel, key: u8) -> GameboyModel {
    let previously_unset = g.machine.joypad & key == 0;
    let g1 = with_machine(g, MachineModel { joypad: g.machine.joypad & !key, ..g.machine });
    let is_standard = key > 4;
    let p1 = mem(g, 0xFF00);
    let listening = (is_standard && p1 & 0x20 == 0x20) || (!is_standard && p1 & 0x10 == 0x10);
    if listening && !previously_unset { request_interrupt(g1, 0x10) } else { g1 }
}

/// The break points with `point` added at the end unless it is already there.
pub open spec fn with_break_point(points: Seq<u16>, point: u16) -> Seq<u16> {
    if points.contains(point) { points } else { points.push(point) }
}

/// The addresses other than `point`.
pub open spec fn other_than(point: u16) -> spec_fn(u16) -> bool {
    |x: u16| x != point
}

/// The break points without `point`, the others in their order.
pub open spec fn without_break_point(points: Seq<u16>, point: u16) -> Seq<u16> {
    points.filter(other_than(point))
}

/// The two STAT mode bits for an LCD cycle count: OAM search, transfer, H-blank.
pub open spec fn gpu_cycle_mode_bits(gpu_cycle: u16) -> u8 {
    if gpu_cycle < 80 {
        2
    } else if gpu_cycle < 172 {
        3
    } else {
        0
    }
}

/// Packing the bits of a byte with its two lowest bits replaced.
pub proof fn lemma_pack_low_bits(x: u8, b6: bool, b7: bool)
    ensures
        pack_byte(byte_bits_msb(x).update(6, b6).update(7, b7), 0) == (x & 0xFC) | ((if b6 { 2u8 } else { 0u8 }) | (if b7 { 1u8 } else { 0u8 })),
{
    let s = byte_bits_msb(x).update(6, b6).update(7, b7);
    assert(s.len() == 8);
    assert(s[0] == ((x >> 7u8) & 1 == 1));
    assert(s[1] == ((x >> 6u8) & 1 == 1));
    assert(s[2] == ((x >> 5u8) & 1 == 1));
    assert(s[3] == ((x >> 4u8) & 1 == 1));
    assert(s[4] == ((x >> 3u8) & 1 == 1));
    assert(s[5] == ((x >> 2u8) & 1 == 1));
    let c6: u8 = if b6 { 2u8 } else { 0u8 };
    let c7: u8 = if b7 { 1u8 } else { 0u8 };
    assert(((if (x >> 7u8) & 1 == 1 { 128u8 } else { 0u8 }) | (if (x >> 6u8) & 1 == 1 { 64u8 } else { 0u8 })
        | (if (x >> 5u8) & 1 == 1 { 32u8 } else { 0u8 }) | (if (x >> 4u8) & 1 == 1 { 16u8 } else { 0u8 })
        | (if (x >> 3u8) & 1 == 1 { 8u8 } else { 0u8 }) | (if (x >> 2u8) & 1 == 1 { 4u8 } else { 0u8 })) == x & 0xFC)
        by (bit_vector);
    assert((if (x >> 7u8) & 1 == 1 { 128int } else { 0 }) + (if (x >> 6u8) & 1 == 1 { 64int } else { 0 })
        + (if (x >> 5u8) & 1 == 1 { 32int } else { 0 }) + (if (x >> 4u8) & 1 == 1 { 16int } else { 0 })
        + (if (x >> 3u8) & 1 == 1 { 8int } else { 0 }) + (if (x >> 2u8) & 1 == 1 { 4int } else { 0 })
        == ((if (x >> 7u8) & 1 == 1 { 128u8 } else { 0u8 }) | (if (x >> 6u8) & 1 == 1 { 64u8 } else { 0u8 })
        | (if (x >> 5u8) & 1 == 1 { 32u8 } else { 0u8 }) | (if (x >> 4u8) & 1 == 1 { 16u8 } else { 0u8 })
        | (if (x >> 3u8) & 1 == 1 { 8u8 } else { 0u8 }) | (if (x >> 2u8) & 1 == 1 { 4u8 } else { 0u8 })) as int)
        by (bit_vector);
    assert(((x & 0xFC) | (c6 | c7)) as int == (x & 0xFC) as int + c6 as int + c7 as int) by (bit_vector)
        requires
            c6 == 0 || c6 == 2,
            c7 == 0 || c7 == 1,
    ;
}

/// Whether the cycle count of `instruction` is known (executable form of [`cycles_known`]).
pub fn is_cycle_known(instruction: u8) -> (r: bool)
    ensures
        r == cycles_known(instruction),
{
    if instruction == 0xCB || instruction == 0xCC || instruction == 0xC4 {
        return true;
    }
    let table: [u8; 256] = [
        4, 12, 8, 8, 4, 4, 8, 4, 20, 8, 8, 8, 4, 4, 8, 4,
        0, 12, 8, 8, 4, 4, 8, 4, 8, 8, 8, 8, 4, 4, 8, 4,
        8, 12, 8, 8, 4, 4, 8, 4, 8, 8, 8, 8, 4, 4, 8, 4,
        8, 12, 8, 8, 12, 12, 12, 4, 8, 8, 8, 8, 4, 4, 8, 4,
        4, 4, 4, 4, 4, 4, 8, 4, 4, 4, 4, 4, 4, 4, 8, 4,
        4, 4, 4, 4, 4, 4, 8, 4, 4, 4, 4, 4, 4, 4, 8, 4,
        4, 4, 4, 4, 4, 4, 8, 4, 4, 4, 4, 4, 4, 4, 8, 4,
        8, 8, 8, 8, 8, 8, 4, 8, 4, 4, 4, 4, 4, 4, 8, 4,
        4, 4, 4, 4, 4, 4, 8, 4, 4, 4, 4, 4, 4, 4, 8, 4,
        4, 4, 4, 4, 4, 4, 8, 4, 4, 4, 4, 4, 4, 4, 8, 4,
        4, 4, 4, 4, 4, 4, 8, 4, 4, 4, 4, 4, 4, 4, 8, 4,
        4, 4, 4, 4, 4, 4, 8, 4, 4, 4, 4, 4, 4, 4, 8, 4,
        8, 12, 12, 12, 255, 16, 8, 32, 8, 8, 12, 255, 255, 12, 8, 32,
        8, 12, 12, 0, 12, 16, 8, 32, 8, 8, 12, 255, 12, 255, 8, 32,
        12, 12, 8, 255, 255, 16, 8, 32, 16, 4, 16, 255, 255, 255, 8, 32,
        12, 12, 8, 4, 0, 16, 8, 32, 12, 8, 16, 4, 255, 0, 8, 32,
    ];
    assert(table@ =~= cycle_table());
    table[instruction as usize] != 255
}

impl Gameboy {
    /// Executes `opcode`, already fetched from PC.
    pub fn execute_instruction(&mut self, opcode: u8)
        requires
            gameboy_wf(old(self)@),
            supported(old(self)@.machine, opcode),
        ensures
            final(self)@ == with_machine(old(self)@, step(old(self)@.machine, opcode)),
            gameboy_wf(final(self)@),
    {
        self.machine.execute_instruction(opcode);
    }

    /// Reads the bus.
    pub fn read_memory(&self, address: u16) -> (r: u8)
        requires
            gameboy_wf(self@),
        ensures
            r == bus_read(self@.machine, address),
    {
        self.machine.read_memory(address)
    }

    /// Writes the bus.
    pub fn write_memory(&mut self, address: u16, value: u8)
        requires
            gameboy_wf(old(self)@),
        ensures
            final(self)@ == with_machine(old(self)@, bus_write(old(self)@.machine, address, value)),
            gameboy_wf(final(self)@),
    {
        self.machine.write_memory(address, value)
    }

    /// Stores a byte of the address space directly (no bank switching).
    fn set_memory_byte(&mut self, address: u16, value: u8)
        requires
            gameboy_wf(old(self)@),
            address >= 0x8000,
        ensures
            final(self)@ == set_mem(old(self)@, address as int, value),
            gameboy_wf(final(self)@),
    {
        self.machine.memory.set(address as usize, value);
    }

    /// Byte `address` of the address space.
    fn memory_byte(&self, address: u16) -> (r: u8)
        requires
            gameboy_wf(self@),
        ensures
            r == mem(self@, address as int),
    {
        self.machine.memory[address as usize]
    }

    pub fn set_vram_cycle(&mut self, value: u16)
        ensures
            final(self)@ == (GameboyModel { vram_cycle_num: value, ..old(self)@ }),
    {
        self.vram_cycle_num = value
    }

    pub fn set_timer_cycle(&mut self, value: usize)
        ensures
            final(self)@ == (GameboyModel { timer_cycle_num: value, ..old(self)@ }),
    {
        self.timer_cycle_num = value
    }

    /// Requests the V-blank interrupt and a redraw.
    pub fn request_vblank(&mut self)
        requires
            gameboy_wf(old(self)@),
        ensures
            final(self)@ == (GameboyModel { should_draw: true, ..request_interrupt(old(self)@, 1) }),
            gameboy_wf(final(self)@),
    {
        self.should_draw = true;
        let v = self.memory_byte(0xff0f) | 0b000000001;
        self.set_memory_byte(0xff0f, v);
    }

    /// Requests the LCD STAT interrupt and a redraw.
    pub fn request_lcd_interrupt(&mut self)
        requires
            gameboy_wf(old(self)@),
        ensures
            final(self)@ == (GameboyModel { should_draw: true, ..request_interrupt(old(self)@, 2) }),
            gameboy_wf(final(self)@),
    {
        self.should_draw = true;
        let v = self.memory_byte(0xff0f) | 0b000000010;
        self.set_memory_byte(0xff0f, v);
    }

    /// Requests the timer interrupt.
    pub fn request_timer_interrupt(&mut self)
        requires
            gameboy_wf(old(self)@),
        ensures
            final(self)@ == request_interrupt(old(self)@, 4),
            gameboy_wf(final(self)@),
    {
        let v = self.memory_byte(0xff0f) | 0b000000100;
        self.set_memory_byte(0xff0f, v);
    }

    /// Requests the joypad interrupt.
    pub fn request_joypad_interrupt(&mut self)
        requires
            gameboy_wf(old(self)@),
        ensures
            final(self)@ == request_interrupt(old(self)@, 0x10),
            gameboy_wf(final(self)@),
    {
        let v = self.memory_byte(0xff0f) | 0b00010000;
        self.set_memory_byte(0xff0f, v);
    }

    /// Advances LY (0xFF44) by one line.
    pub fn inc_ly(&mut self)
        requires
            gameboy_wf(old(self)@),
        ensures
            final(self)@ == inc_ly_spec(old(self)@),
            gameboy_wf(final(self)@),
    {
        let ly_max: u8 = 153;
        let vblank_start: u8 = 144;
        if self.memory_byte(0xff44) == ly_max {
            self.set_memory_byte(0xff44, 0);
        } else {
            let v = self.memory_byte(0xff44).wrapping_add(1);
            self.set_memory_byte(0xff44, v);
            if self.memory_byte(0xff44) == vblank_start {
                self.request_vblank()
            }
        }
    }

    pub fn total_cycle(&self) -> (r: usize)
        ensures
            r == self.total_cycle_num,
    {
        self.total_cycle_num
    }

    pub fn vram_cycle(&self) -> (r: u16)
        ensures
            r == self.vram_cycle_num,
    {
        self.vram_cycle_num
    }

    pub fn timer_cycle(&self) -> (r: usize)
        ensures
            r == self.timer_cycle_num,
    {
        self.timer_cycle_num
    }

    /// TIMA (0xFF05).
    pub fn timer_counter_memory(&self) -> (r: u8)
        requires
            gameboy_wf(self@),
        ensures
            r == mem(self@, 0xff05),
    {
        self.memory_byte(0xff05)
    }

    /// Recomputes and returns the timer: total cycles / timer frequency.
    pub fn timer(&mut self) -> (r: usize)
        requires
            gameboy_wf(old(self)@),
        ensures
            r == old(self).total_cycle_num / timer_frequency_spec(mem(old(self)@, 0xff07)),
            final(self)@ == (GameboyModel { timer: r, ..old(self)@ }),
    {
        self.timer = self.total_cycle_num / self.timer_frequency();
        self.timer
    }

    /// Recomputes and returns the CPU clock: timer / clocks per tick.
    pub fn cpu_clock(&mut self) -> (r: usize)
        requires
            gameboy_wf(old(self)@),
        ensures
            r == old(self).timer / clocks_per_tick(mem(old(self)@, 0xff07)),
            final(self)@ == (GameboyModel { cpu_clock: r, ..old(self)@ }),
    {
        self.cpu_clock = self.timer / self.timer_cycle_to_cpu_clock();
        self.cpu_clock
    }

    /// CPU clocks per timer tick.
    pub fn timer_cycle_to_cpu_clock(&self) -> (r: usize)
        requires
            gameboy_wf(self@),
        ensures
            r == clocks_per_tick(mem(self@, 0xff07)),
            r > 0,
    {
        let cpu_clock_speed: usize = 4194304;
        let frequency = self.timer_frequency();
        cpu_clock_speed / frequency
    }

    /// Whether TAC (0xFF07) enables the timer.
    pub fn is_timer_enabled(&self) -> (r: bool)
        requires
            gameboy_wf(self@),
        ensures
            r == (mem(self@, 0xff07) & 4 == 4),
    {
        self.memory_byte(0xff07) & 0b00000100u8 == 0b00000100u8
    }

    /// The timer frequency selected by TAC.
    pub fn timer_frequency(&self) -> (r: usize)
        requires
            gameboy_wf(self@),
        ensures
            r == timer_frequency_spec(mem(self@, 0xff07)),
            r > 0,
    {
        let sel = self.memory_byte(0xff07) & 0b00000011u8;
        if sel == 0 {
            4096
        } else if sel == 1 {
            262144
        } else if sel == 2 {
            65536
        } else {
            16384
        }
    }

    /// One timer tick.
    fn add_time_counter(&mut self)
        requires
            gameboy_wf(old(self)@),
        ensures
            final(self)@ == add_time_counter_spec(old(self)@),
            gameboy_wf(final(self)@),
    {
        if self.memory_byte(0xff05) == 255 {
            self.request_timer_interrupt();
            let v = self.memory_byte(0xff06);
            self.set_memory_byte(0xff05, v);
        } else {
            let v = self.memory_byte(0xff05) + 1;
            self.set_memory_byte(0xff05, v);
        }
    }

    /// DIV (0xFF04).
    pub fn get_divide_register(&self) -> (r: u8)
        requires
            gameboy_wf(self@),
        ensures
            r == mem(self@, 0xff04),
    {
        self.memory_byte(0xff04)
    }

    /// The cycles `instruction` takes in the current state.
    pub fn instruction_cycles(&self, instruction: u8) -> (r: u8)
        requires
            gameboy_wf(self@),
            cycles_known(instruction),
        ensures
            r == cycles_spec(self@.machine, instruction),
    {
        if instruction == 0xCB {
            let b = self.read_memory(self.machine.registers.pc.wrapping_add(1));
            if b & 7 == 6 && b != 0x0E { 16 } else { 8 }
        } else if instruction == 0xCC {
            if self.machine.registers.f.z { 24 } else { 12 }
        } else if instruction == 0xC4 {
            if !self.machine.registers.f.z { 24 } else { 12 }
        } else {
            let table: [u8; 256] = [
        4, 12, 8, 8, 4, 4, 8, 4, 20, 8, 8, 8, 4, 4, 8, 4,
        0, 12, 8, 8, 4, 4, 8, 4, 8, 8, 8, 8, 4, 4, 8, 4,
        8, 12, 8, 8, 4, 4, 8, 4, 8, 8, 8, 8, 4, 4, 8, 4,
        8, 12, 8, 8, 12, 12, 12, 4, 8, 8, 8, 8, 4, 4, 8, 4,
        4, 4, 4, 4, 4, 4, 8, 4, 4, 4, 4, 4, 4, 4, 8, 4,
        4, 4, 4, 4, 4, 4, 8, 4, 4, 4, 4, 4, 4, 4, 8, 4,
        4, 4, 4, 4, 4, 4, 8, 4, 4, 4, 4, 4, 4, 4, 8, 4,
        8, 8, 8, 8, 8, 8, 4, 8, 4, 4, 4, 4, 4, 4, 8, 4,
        4, 4, 4, 4, 4, 4, 8, 4, 4, 4, 4, 4, 4, 4, 8, 4,
        4, 4, 4, 4, 4, 4, 8, 4, 4, 4, 4, 4, 4, 4, 8, 4,
        4, 4, 4, 4, 4, 4, 8, 4, 4, 4, 4, 4, 4, 4, 8, 4,
        4, 4, 4, 4, 4, 4, 8, 4, 4, 4, 4, 4, 4, 4, 8, 4,
        8, 12, 12, 12, 255, 16, 8, 32, 8, 8, 12, 255, 255, 12, 8, 32,
        8, 12, 12, 0, 12, 16, 8, 32, 8, 8, 12, 255, 12, 255, 8, 32,
        12, 12, 8, 255, 255, 16, 8, 32, 16, 4, 16, 255, 255, 255, 8, 32,
        12, 12, 8, 4, 0, 16, 8, 32, 12, 8, 16, 4, 255, 0, 8, 32,
            ];
            assert(table@ =~= cycle_table());
            table[instruction as usize]
        }
    }

    /// Adds an instruction's cycles to the chosen counter.
    pub fn add_cycles(&mut self, instruction: u8, cycle_register: CycleRegister)
        requires
            gameboy_wf(old(self)@),
            cycles_known(instruction),
        ensures
            final(self)@ == add_cycles_spec(old(self)@, instruction, cycle_register),
            gameboy_wf(final(self)@),
    {
        let cycle = self.instruction_cycles(instruction);
        match cycle_register {
            CycleRegister::VramCycle => self.vram_cycle_num = self.vram_cycle_num.wrapping_add(cycle as u16),
            CycleRegister::TimerCycle => self.timer_cycle_num = self.timer_cycle_num.wrapping_add(cycle as usize),
            CycleRegister::CpuCycle => self.total_cycle_num = self.total_cycle_num.wrapping_add(cycle as usize),
        }
    }

    /// Advances the timer by one instruction.
    pub fn update_timer(&mut self, instruction: u8)
        requires
            gameboy_wf(old(self)@),
            cycles_known(instruction),
        ensures
            final(self)@ == update_timer_spec(old(self)@, instruction),
            gameboy_wf(final(self)@),
    {
        if self.is_timer_enabled() {
            self.add_cycles(instruction, CycleRegister::TimerCycle);
            let clock_count = self.timer_cycle_to_cpu_clock();
            if self.timer_cycle_num >= clock_count {
                let remaining = self.timer_cycle_num - clock_count;
                self.add_time_counter();
                self.set_timer_cycle(remaining);
            }
        } else {
            self.set_timer_cycle(0);
        }
    }

    /// Services one interrupt.
    fn service_interrupt(&mut self, bit: u8, vector: u16)
        requires
            gameboy_wf(old(self)@),
        ensures
            final(self)@ == service_spec(old(self)@, bit, vector),
            gameboy_wf(final(self)@),
    {
        reveal(service_spec);
        self.is_halt = false;
        self.machine.registers.f.set_ime(false);
        let v = self.memory_byte(0xff0f) ^ bit;
        self.set_memory_byte(0xff0f, v);
        let pc = self.machine.registers.pc;
        self.machine.push_stack(pc);
        self.machine.registers.set_pc(vector);
    }

    /// Handles pending interrupts.
    #[verifier::rlimit(30)]
    pub fn execute_interuption(&mut self)
        requires
            gameboy_wf(old(self)@),
        ensures
            final(self)@ == interrupt_spec(old(self)@),
            gameboy_wf(final(self)@),
    {
        let iflag = self.memory_byte(0xff0f);
        let ie = self.memory_byte(0xffff);
        let do_v_blank = (iflag & 0b00000001 == 0b00000001) && (ie & 0b00000001 == 0b00000001);
        let do_lcd = (iflag & 0b00000010 == 0b00000010) && (ie & 0b00000010 == 0b00000010);
        let do_timer = (iflag & 0b00000100 == 0b00000100) && (ie & 0b00000100 == 0b00000100);
        let do_serial = (iflag & 0b00001000 == 0b00001000) && (ie & 0b00001000 == 0b00001000);
        let do_joypad = (iflag & 0b00010000 == 0b00010000) && (ie & 0b00010000 == 0b00010000);
        let any_interrupt = do_v_blank || do_lcd || do_timer || do_serial || do_joypad;
        if self.machine.registers.f.ime {
            if do_v_blank {
                self.service_interrupt(0b00000001, 0x40);
            }
            if do_lcd {
                self.service_interrupt(0b00000010, 0x48);
            }
            if do_timer {
                self.service_interrupt(0b00000100, 0x50);
            }
            if do_serial {
                self.service_interrupt(0b00001000, 0x58);
            }
            if do_joypad {
                self.service_interrupt(0b00010000, 0x60);
            }
        }
        if any_interrupt {
            self.is_halt = false
        }
    }

    /// Updates the LCD status register.
    pub fn set_lcd_status(&mut self)
        requires
            gameboy_wf(old(self)@),
        ensures
            final(self)@ == set_lcd_status_spec(old(self)@),
            gameboy_wf(final(self)@),
    {
        let mut status = self.read_memory(0xFF41);
        if !self.is_lcd_display_enable() {
            self.vram_cycle_num = 456;
            self.set_memory_byte(0xFF44, 0);
            status = status & 252;
            status = status | 0b00000001;
            self.write_memory(0xFF41, status);
            return;
        }
        let currentline = self.read_memory(0xFF44);
        let currentmode = status & 0x3;
        let mut mode: u8 = 0;
        let mut req_int = false;
        if currentline >= 144 {
            mode = 1;
            status = status | 0b00000001;
            status = status & 0b11111101;
            req_int = status & 0b00010000 == 0b00010000;
        } else {
            let mode2bounds: u16 = 80;
            let mode3bounds: u16 = mode2bounds + 172;
            if self.vram_cycle_num >= mode2bounds {
                mode = 2;
                status = status | 0b00000010;
                status = status & 0b11111110;
                req_int = status & 0b00100000 == 0b00100000;
            } else if self.vram_cycle_num >= mode3bounds {
                mode = 3;
                status = status | 0b00000011;
            } else {
                mode = 0;
                status = status & 0b11111100;
                req_int = status & 0b00001000 == 0b00001000;
            }
        }
        if req_int && (mode != currentmode) {
            self.request_lcd_interrupt();
        }
        if self.ly() == self.read_memory(0xFF45) {
            status = status | 0b000000100;
            if status & 0b01000000 == 0b01000000 {
                self.request_lcd_interrupt();
            }
        } else {
            status = status & 0b11111011;
        }
        self.write_memory(0xFF41, status);
    }

    /// Sets the STAT mode bits to V-blank, assembling the byte with `BitVec`.
    pub fn set_lcd_mode_to_vblank(&mut self)
        requires
            gameboy_wf(old(self)@),
        ensures
            final(self)@ == vblank_mode_spec(old(self)@),
            gameboy_wf(final(self)@),
    {
        let lcdc = self.memory_byte(0xff41);
        let mut bv = bitvec_from_byte(lcdc);
        bitvec_set(&mut bv, 7, true);
        bitvec_set(&mut bv, 6, false);
        let bytes = bitvec_to_bytes(&bv);
        proof {
            lemma_pack_low_bits(lcdc, false, true);
            assert(bitvec_bits(bv) == byte_bits_msb(lcdc).update(7, true).update(6, false));
            assert(byte_bits_msb(lcdc).update(7, true).update(6, false) =~= byte_bits_msb(lcdc).update(6, false).update(7, true));
            assert((0u8 | 1u8) == 1u8) by (bit_vector);
        }
        self.set_memory_byte(0xff41, bytes[0]);
    }

    /// Sets the STAT mode bits from an LCD cycle count, assembling the byte with `BitVec`.
    pub fn set_lcd_mode_with_gpu_cycle(&mut self, gpu_cycle: u16)
        requires
            gameboy_wf(old(self)@),
        ensures
            final(self)@ == set_mem(old(self)@, 0xff41, (mem(old(self)@, 0xff41) & 0xFC) | gpu_cycle_mode_bits(gpu_cycle)),
            gameboy_wf(final(self)@),
    {
        let lcdc = self.memory_byte(0xff41);
        let mut bv = bitvec_from_byte(lcdc);
        let ghost b6: bool;
        let ghost b7: bool;
        if gpu_cycle < 80 {
            bitvec_set(&mut bv, 7, false);
            bitvec_set(&mut bv, 6, true);
            proof { b6 = true; b7 = false; }
        } else if gpu_cycle >= 80 && gpu_cycle < 172 {
            bitvec_set(&mut bv, 7, true);
            bitvec_set(&mut bv, 6, true);
            proof { b6 = true; b7 = true; }
        } else {
            bitvec_set(&mut bv, 7, false);
            bitvec_set(&mut bv, 6, false);
            proof { b6 = false; b7 = false; }
        }
        let bytes = bitvec_to_bytes(&bv);
        proof {
            lemma_pack_low_bits(lcdc, b6, b7);
            assert(bitvec_bits(bv) =~= byte_bits_msb(lcdc).update(6, b6).update(7, b7));
            assert((2u8 | 0u8) == 2u8 && (2u8 | 1u8) == 3u8 && (0u8 | 0u8) == 0u8) by (bit_vector);
        }
        self.set_memory_byte(0xff41, bytes[0]);
    }

    /// The per-instruction LCD work.
    pub fn cycle_based_gpu_operation(&mut self, instruction: u8)
        requires
            gameboy_wf(old(self)@),
            cycles_known(instruction),
        ensures
            final(self)@ == gpu_spec(old(self)@, instruction),
            gameboy_wf(final(self)@),
    {
        let vram_cycle_per_ly_inc: u16 = 456;
        if self.is_lcd_display_enable() {
            self.add_cycles(instruction, CycleRegister::VramCycle);
            self.set_lcd_status();
            if self.vram_cycle_num >= vram_cycle_per_ly_inc {
                self.inc_ly();
                self.set_vram_cycle(self.vram_cycle_num - vram_cycle_per_ly_inc);
            }
        } else {
            self.set_lcd_mode_to_vblank();
        }
    }

    /// A key press (`key` is the key's bit in the joypad state).
    pub fn joypad_key_pressed(&mut self, key: u8)
        requires
            gameboy_wf(old(self)@),
        ensures
            final(self)@ == key_pressed_spec(old(self)@, key),
            gameboy_wf(final(self)@),
    {
        let previously_unset = self.machine.joypad_state & key == 0;
        let new_joypad_state = self.machine.joypad_state & (!key);
        self.machine.joypad_state = new_joypad_state;
        let is_standard_button = key > 0b0000100;
        let p1 = self.memory_byte(0xFF00);
        let starndard_btn_listening = is_standard_button && (p1 & 0b00100000 == 0b00100000);
        let directional_btn_listening = !is_standard_button && (p1 & 0b00010000 == 0b00010000);
        if (starndard_btn_listening || directional_btn_listening) && !previously_unset {
            self.request_joypad_interrupt();
        }
    }

    /// A key release: the key's bit in the joypad state is set.
    pub fn joypad_key_released(&mut self, key: u8)
        requires
            gameboy_wf(old(self)@),
        ensures
            final(self)@ == with_machine(old(self)@, MachineModel { joypad: old(self)@.machine.joypad | key, ..old(self)@.machine }),
            gameboy_wf(final(self)@),
    {
        let new_joypad_state = self.machine.joypad_state | (key);
        self.machine.joypad_state = new_joypad_state;
    }

    /// LY (0xFF44).
    pub fn ly(&self) -> (r: u8)
        requires
            gameboy_wf(self@),
        ensures
            r == mem(self@, 0xff44),
    {
        self.memory_byte(0xff44)
    }

    /// Whether the LCD is on (LCDC bit 7).
    pub fn is_lcd_display_enable(&self) -> (r: bool)
        requires
            gameboy_wf(self@),
        ensures
            r == (mem(self@, 0xff40) & 0x80 == 0x80),
    {
        self.memory_byte(0xff40) & 0x80 == 0x80
    }

    pub fn background_width(&self) -> (r: u32)
        ensures
            r == self.background_width,
    {
        self.background_width
    }

    pub fn screen_width(&self) -> (r: u32)
        ensures
            r == self.screen_width,
    {
        self.screen_width
    }

    pub fn background_height(&self) -> (r: u32)
        ensures
            r == self.background_height,
    {
        self.background_height
    }

    pub fn screen_height(&self) -> (r: u32)
        ensures
            r == self.screen_height,
    {
        self.screen_height
    }

    /// The interrupt master enable flag.
    pub fn ime(&self) -> (r: bool)
        ensures
            r == self.machine.registers.f.ime,
    {
        self.machine.registers.f.ime
    }

    pub fn is_running(&self) -> (r: bool)
        ensures
            r == self.is_running,
    {
        self.is_running
    }

    pub fn cpu_paused(&self) -> (r: bool)
        ensures
            r == self.cpu_paused,
    {
        self.cpu_paused
    }

    /// Whether LY is in the V-blank lines (144 and above).
    pub fn is_vblank(&self) -> (r: bool)
        requires
            gameboy_wf(self@),
        ensures
            r == (mem(self@, 0xff44) >= 144),
    {
        self.memory_byte(0xff44) >= 144
    }

    pub fn toggle_is_running(&mut self)
        ensures
            final(self)@ == (GameboyModel { is_running: !old(self).is_running, ..old(self)@ }),
    {
        self.is_running = !self.is_running;
    }

    pub fn stop_running(&mut self)
        ensures
            final(self)@ == (GameboyModel { is_running: false, ..old(self)@ }),
    {
        self.is_running = false
    }

    pub fn start_running(&mut self)
        ensures
            final(self)@ == (GameboyModel { is_running: true, ..old(self)@ }),
    {
        self.is_running = true
    }

    pub fn pause_cpu(&mut self)
        ensures
            final(self)@ == (GameboyModel { cpu_paused: true, ..old(self)@ }),
    {
        self.cpu_paused = true
    }

    pub fn start_cpu(&mut self)
        ensures
            final(self)@ == (GameboyModel { cpu_paused: false, ..old(self)@ }),
    {
        self.cpu_paused = false
    }

    /// Whether `point` is a break point.
    pub fn has_break_point(&self, point: u16) -> (r: bool)
        ensures
            r == self.break_points@.contains(point),
    {
        let mut i: usize = 0;
        while i < self.break_points.len()
            invariant
                i <= self.break_points.len(),
                forall|j: int| 0 <= j < i ==> self.break_points@[j] != point,
            decreases self.break_points.len() - i,
        {
            if self.break_points[i] == point {
                assert(self.break_points@[i as int] == point);
                return true;
            }
            i = i + 1;
        }
        false
    }

    /// Adds a break point unless it is already there.
    pub fn set_break_point(&mut self, point: u16)
        ensures
            final(self)@ == (GameboyModel { break_points: with_break_point(old(self)@.break_points, point), ..old(self)@ }),
    {
        if !self.has_break_point(point) {
            self.break_points.push(point);
        }
    }

    /// Removes every occurrence of a break point, keeping the others in order.
    pub fn remove_break_point(&mut self, point: u16)
        ensures
            final(self)@ == (GameboyModel { break_points: without_break_point(old(self)@.break_points, point), ..old(self)@ }),
    {
        let ghost pred = other_than(point);
        let mut kept: Vec<u16> = Vec::new();
        let mut i: usize = 0;
        while i < self.break_points.len()
            invariant
                i <= self.break_points.len(),
                kept@ == self.break_points@.take(i as int).filter(pred),
                pred == other_than(point),
            decreases self.break_points.len() - i,
        {
            let x = self.break_points[i];
            let ghost s = self.break_points@.take(i as int + 1);
            proof {
                assert(s.drop_last() =~= self.break_points@.take(i as int));
                assert(s.last() == x);
                reveal(Seq::filter);
                assert(pred(x) == (x != point));
                assert(s.filter(pred) == if pred(x) {
                    self.break_points@.take(i as int).filter(pred).push(x)
                } else {
                    self.break_points@.take(i as int).filter(pred)
                });
            }
            if x != point {
                kept.push(x);
            }
            i = i + 1;
            assert(s == self.break_points@.take(i as int));
        }
        assert(self.break_points@.take(self.break_points.len() as int) =~= self.break_points@);
        self.break_points = kept;
    }

    /// A copy of the break points.
    pub fn get_break_points(&self) -> (r: Vec<u16>)
        ensures
            r@ == self.break_points@,
    {
        self.break_points.clone()
    }

    pub fn get_mbc(&self) -> (r: u8)
        ensures
            r == self.machine.mbc,
    {
        self.machine.mbc
    }

    pub fn get_rom_bank(&self) -> (r: u8)
        ensures
            r == self.machine.rom_bank,
    {
        self.machine.rom_bank
    }

    pub fn get_ram_bank(&self) -> (r: u8)
        ensures
            r == self.machine.ram_bank,
    {
        self.machine.ram_bank
    }

    pub fn get_is_ram_enabled(&self) -> (r: bool)
        ensures
            r == self.machine.is_ram_enabled,
    {
        self.machine.is_ram_enabled
    }

    pub fn get_is_rom_banking_enabled(&self) -> (r: bool)
        ensures
            r == self.machine.is_rom_banking_enabled,
    {
        self.machine.is_rom_banking_enabled
    }

    /// NR52 bit 7: all sound on.
    pub fn is_sound_all_on(&self) -> (r: bool)
        requires
            gameboy_wf(self@),
        ensures
            r == (mem(self@, 0xff26) & 0x80 == 0x80),
    {
        self.memory_byte(0xff26) & 0b10000000 == 0b10000000
    }

    /// True when NR52 bit 3 is clear.
    pub fn is_sound_4_on(&self) -> (r: bool)
        requires
            gameboy_wf(self@),
        ensures
            r == (mem(self@, 0xff26) & 0x08 == 0),
    {
        self.memory_byte(0xff26) & 0b00001000 == 0b0000
    }

    /// NR52 bit 2.
    pub fn is_sound_3_on(&self) -> (r: bool)
        requires
            gameboy_wf(self@),
        ensures
            r == (mem(self@, 0xff26) & 0x04 == 0x04),
    {
        self.memory_byte(0xff26) & 0b00000100 == 0b00000100
    }

    /// Compares NR52 bit 1 with 0x82, which it never equals: always false.
    pub fn is_sound_2_all_on(&self) -> (r: bool)
        requires
            gameboy_wf(self@),
        ensures
            r == (mem(self@, 0xff26) & 0x02 == 0x82),
            !r,
    {
        let x = self.memory_byte(0xff26);
        assert(x & 0x02 != 0x82) by (bit_vector);
        x & 0b00000010 == 0b10000010
    }

    /// Compares NR52 bit 0 with 0x81, which it never equals: always false.
    pub fn is_sound_1_on(&self) -> (r: bool)
        requires
            gameboy_wf(self@),
        ensures
            r == (mem(self@, 0xff26) & 0x01 == 0x81),
            !r,
    {
        let x = self.memory_byte(0xff26);
        assert(x & 0x01 != 0x81) by (bit_vector);
        x & 0b00000001 == 0b10000001
    }

    /// Bytes `start..end` of the address space.
    pub fn memory_range(&self, start: usize, end: usize) -> (r: Vec<u8>)
        requires
            gameboy_wf(self@),
            start <= end <= MEMORY_SIZE,
        ensures
            r@ == self@.machine.memory.subrange(start as int, end as int),
    {
        let mut out: Vec<u8> = Vec::new();
        let mut i = start;
        while i < end
            invariant
                start <= i <= end,
                end <= self.machine.memory@.len(),
                out@ == self.machine.memory@.subrange(start as int, i as int),
            decreases end - i,
        {
            out.push(self.machine.memory[i]);
            i = i + 1;
            assert(out@ =~= self.machine.memory@.subrange(start as int, i as int));
        }
        out
    }

    /// Sprite tile data (0x8800..0x9800).
    pub fn obj_char_map_bytes(&self) -> (r: Vec<u8>)
        requires
            gameboy_wf(self@),
        ensures
            r@ == self@.machine.memory.subrange(0x8800, 0x9800),
    {
        self.memory_range(0x8800, 0x9800)
    }

    /// Object attribute memory (0xFE00..0xFEA0).
    pub fn get_oam(&self) -> (r: Vec<u8>)
        requires
            gameboy_wf(self@),
        ensures
            r@ == self@.machine.memory.subrange(0xfe00, 0xfea0),
    {
        self.memory_range(0xfe00, 0xfea0)
    }

    /// LCDC (0xFF40).
    pub fn get_lcd(&self) -> (r: u8)
        requires
            gameboy_wf(self@),
        ensures
            r == mem(self@, 0xff40),
    {
        self.memory_byte(0xff40)
    }

    /// LCDC bit 6: window tile map (1: 0x9C00).
    pub fn get_window_tile_map_selection(&self) -> (r: u8)
        requires
            gameboy_wf(self@),
        ensures
            r == (if mem(self@, 0xff40) & 0x40 == 0x40 { 1u8 } else { 0u8 }),
    {
        if self.memory_byte(0xff40) & 0b01000000 == 0b01000000 { 1 } else { 0 }
    }

    /// LCDC bit 5: window on.
    pub fn is_window_display_enable(&self) -> (r: bool)
        requires
            gameboy_wf(self@),
        ensures
            r == (mem(self@, 0xff40) & 0x20 == 0x20),
    {
        self.memory_byte(0xff40) & 0x20 == 0x20
    }

    /// LCDC bit 4: background/window tile data (1: 0x8000, unsigned indices).
    pub fn get_tile_data_selection(&self) -> (r: u8)
        requires
            gameboy_wf(self@),
        ensures
            r == (if mem(self@, 0xff40) & 0x10 == 0x10 { 1u8 } else { 0u8 }),
    {
        if self.memory_byte(0xff40) & 0b00010000 == 0b00010000 { 1 } else { 0 }
    }

    /// LCDC bit 3: background tile map (1: 0x9C00).
    pub fn get_bg_tile_map_selection(&self) -> (r: u8)
        requires
            gameboy_wf(self@),
        ensures
            r == (if mem(self@, 0xff40) & 0x08 == 0x08 { 1u8 } else { 0u8 }),
    {
        if self.memory_byte(0xff40) & 0x08 == 0x08 { 1 } else { 0 }
    }

    /// LCDC bit 2: sprite size (1: 8x16).
    pub fn get_obj_size_selection(&self) -> (r: u8)
        requires
            gameboy_wf(self@),
        ensures
            r == (if mem(self@, 0xff40) & 0x04 == 0x04 { 1u8 } else { 0u8 }),
    {
        if self.memory_byte(0xff40) & 0b00000100 == 0b00000100 { 1 } else { 0 }
    }

    /// Tests LCDC against 0x10 (bit 4).
    pub fn is_obj_display_enable(&self) -> (r: bool)
        requires
            gameboy_wf(self@),
        ensures
            r == (mem(self@, 0xff40) & 0x10 == 0x10),
    {
        self.memory_byte(0xff40) & 0x00000010 == 0x00000010
    }

    /// LCDC bit 0.
    pub fn is_bg_display(&self) -> (r: bool)
        requires
            gameboy_wf(self@),
        ensures
            r == (mem(self@, 0xff40) & 0x01 == 0x01),
    {
        self.memory_byte(0xff40) & 0x00000001 == 0x00000001
    }

    /// The window tile map selected by LCDC bit 6.
    pub fn window_map(&self) -> (r: Vec<u8>)
        requires
            gameboy_wf(self@),
        ensures
            r@ == if mem(self@, 0xff40) & 0x40 == 0x40 {
                self@.machine.memory.subrange(0x9c00, 0xa000)
            } else {
                self@.machine.memory.subrange(0x9800, 0x9c00)
            },
    {
        if self.memory_byte(0xff40) & 0x40 == 0x40 {
            self.memory_range(0x9c00, 0xa000)
        } else {
            self.memory_range(0x9800, 0x9c00)
        }
    }

    /// The background/window tile data selected by LCDC bit 4.
    pub fn bg_window_char_map_bytes(&self) -> (r: Vec<u8>)
        requires
            gameboy_wf(self@),
        ensures
            r@ == if mem(self@, 0xff40) & 0x10 == 0x10 {
                self@.machine.memory.subrange(0x8000, 0x9000)
            } else {
                self@.machine.memory.subrange(0x8800, 0x9800)
            },
    {
        if self.memory_byte(0xff40) & 0x10 == 0x10 {
            self.memory_range(0x8000, 0x9000)
        } else {
            self.memory_range(0x8800, 0x9800)
        }
    }

    /// The background tile map selected by LCDC bit 3.
    pub fn bg_map(&self) -> (r: Vec<u8>)
        requires
            gameboy_wf(self@),
        ensures
            r@ == if mem(self@, 0xff40) & 0x08 == 0x08 {
                self@.machine.memory.subrange(0x9c00, 0xa000)
            } else {
                self@.machine.memory.subrange(0x9800, 0x9c00)
            },
    {
        if self.memory_byte(0xff40) & 0x08 == 0x08 {
            self.memory_range(0x9c00, 0xa000)
        } else {
            self.memory_range(0x9800, 0x9c00)
        }
    }

    /// The first background tile map (0x9800..0x9C00).
    pub fn background_map_1(&self) -> (r: Vec<u8>)
        requires
            gameboy_wf(self@),
        ensures
            r@ == self@.machine.memory.subrange(0x9800, 0x9c00),
    {
        self.memory_range(0x9800, 0x9c00)
    }

    /// STAT bit 6: LY coincidence interrupt enabled.
    pub fn ly_conincidence_interrupt_enabled(&self) -> (r: bool)
        requires
            gameboy_wf(self@),
        ensures
            r == (mem(self@, 0xff41) & 0x40 == 0x40),
    {
        self.memory_byte(0xff41) & 0b01000000 == 0b01000000
    }

    /// STAT bit 5: mode 2 (OAM) interrupt enabled.
    pub fn oam_interrupt_enabled(&self) -> (r: bool)
        requires
            gameboy_wf(self@),
        ensures
            r == (mem(self@, 0xff41) & 0x20 == 0x20),
    {
        self.memory_byte(0xff41) & 0b00100000 == 0b00100000
    }

    /// STAT bit 4: mode 1 (V-blank) interrupt enabled.
    pub fn vblank_interrupt_enabled(&self) -> (r: bool)
        requires
            gameboy_wf(self@),
        ensures
            r == (mem(self@, 0xff41) & 0x10 == 0x10),
    {
        self.memory_byte(0xff41) & 0b00010000 == 0b00010000
    }

    /// STAT bit 3: mode 0 (H-blank) interrupt enabled.
    pub fn hblank_interrupt_enabled(&self) -> (r: bool)
        requires
            gameboy_wf(self@),
        ensures
            r == (mem(self@, 0xff41) & 0x08 == 0x08),
    {
        self.memory_byte(0xff41) & 0b00001000 == 0b00001000
    }

    /// STAT bit 2: LY == LYC.
    pub fn is_conincidence_flag_on(&self) -> (r: bool)
        requires
            gameboy_wf(self@),
        ensures
            r == (mem(self@, 0xff41) & 0x04 == 0x04),
    {
        self.memory_byte(0xff41) & 0b00000100 == 0b00000100
    }

    /// LCDC bit 1: sprites on.
    pub fn is_sprite_display_enable(&self) -> (r: bool)
        requires
            gameboy_wf(self@),
        ensures
            r == (mem(self@, 0xff40) & 0x02 == 0x02),
    {
        self.memory_byte(0xff40) & 0x02 == 0x02
    }

    /// LCDC bit 0: background on.
    pub fn is_bg_display_enable(&self) -> (r: bool)
        requires
            gameboy_wf(self@),
        ensures
            r == (mem(self@, 0xff40) & 0x01 == 0x01),
    {
        self.memory_byte(0xff40) & 0x01 == 0x01
    }

    /// SCY (0xFF42).
    pub fn get_scroll_y(&self) -> (r: u8)
        requires
            gameboy_wf(self@),
        ensures
            r == mem(self@, 0xff42),
    {
        self.memory_byte(0xff42)
    }

    /// SCX (0xFF43).
    pub fn get_scroll_x(&self) -> (r: u8)
        requires
            gameboy_wf(self@),
        ensures
            r == mem(self@, 0xff43),
    {
        self.memory_byte(0xff43)
    }

    /// WY (0xFF4A).
    pub fn get_window_y(&self) -> (r: u8)
        requires
            gameboy_wf(self@),
        ensures
            r == mem(self@, 0xff4a),
    {
        self.memory_byte(0xff4a)
    }

    /// WX (0xFF4B).
    pub fn get_window_x(&self) -> (r: u8)
        requires
            gameboy_wf(self@),
        ensures
            r == mem(self@, 0xff4b),
    {
        self.memory_byte(0xff4b)
    }

    pub fn get_a(&self) -> (r: u8)
        ensures
            r == self.machine.registers.a,
    {
        self.machine.registers.a
    }

    pub fn get_b(&self) -> (r: u8)
        ensures
            r == self.machine.registers.b,
    {
        self.machine.registers.b
    }

    pub fn get_c(&self) -> (r: u8)
        ensures
            r == self.machine.registers.c,
    {
        self.machine.registers.c
    }

    pub fn get_d(&self) -> (r: u8)
        ensures
            r == self.machine.registers.d,
    {
        self.machine.registers.d
    }

    pub fn get_e(&self) -> (r: u8)
        ensures
            r == self.machine.registers.e,
    {
        self.machine.registers.e
    }

    pub fn get_h(&self) -> (r: u8)
        ensures
            r == self.machine.registers.h,
    {
        self.machine.registers.h
    }

    pub fn get_l(&self) -> (r: u8)
        ensures
            r == self.machine.registers.l,
    {
        self.machine.registers.l
    }

    pub fn get_sp(&self) -> (r: u16)
        ensures
            r == self.machine.registers.sp,
    {
        self.machine.registers.sp
    }

    pub fn get_pc(&self) -> (r: u16)
        ensures
            r == self.machine.registers.pc,
    {
        self.machine.registers.pc
    }

    pub fn get_flag_z(&self) -> (r: bool)
        ensures
            r == self.machine.registers.f.z,
    {
        self.machine.registers.f.z
    }

    pub fn get_flag_n(&self) -> (r: bool)
        ensures
            r == self.machine.registers.f.n,
    {
        self.machine.registers.f.n
    }

    pub fn get_flag_h(&self) -> (r: bool)
        ensures
            r == self.machine.registers.f.h,
    {
        self.machine.registers.f.h
    }

    pub fn get_flag_c(&self) -> (r: bool)
        ensures
            r == self.machine.registers.f.c,
    {
        self.machine.registers.f.c
    }

    pub fn get_flag_ime(&self) -> (r: bool)
        ensures
            r == self.machine.registers.f.ime,
    {
        self.machine.registers.f.ime
    }

    /// IE bit 0: V-blank interrupt enabled.
    pub fn get_interrupt_enabled_vblank(&self) -> (r: bool)
        requires
            gameboy_wf(self@),
        ensures
            r == (mem(self@, 0xffff) & 0x01 == 0x01),
    {
        self.memory_byte(0xffff) & 0b00000001 == 0b00000001
    }

    /// IE bit 1: LCD STAT interrupt enabled.
    pub fn get_interrupt_enabled_lcd(&self) -> (r: bool)
        requires
            gameboy_wf(self@),
        ensures
            r == (mem(self@, 0xffff) & 0x02 == 0x02),
    {
        self.memory_byte(0xffff) & 0b00000010 == 0b00000010
    }

    /// IE bit 2: timer interrupt enabled.
    pub fn get_interrupt_enabled_timer(&self) -> (r: bool)
        requires
            gameboy_wf(self@),
        ensures
            r == (mem(self@, 0xffff) & 0x04 == 0x04),
    {
        self.memory_byte(0xffff) & 0b00000100 == 0b00000100
    }

    /// IE bit 3: serial interrupt enabled.
    pub fn get_interrupt_enabled_serial(&self) -> (r: bool)
        requires
            gameboy_wf(self@),
        ensures
            r == (mem(self@, 0xffff) & 0x08 == 0x08),
    {
        self.memory_byte(0xffff) & 0b0001000 == 0b0001000
    }

    /// IE bit 4: joypad interrupt enabled.
    pub fn get_interrupt_enabled_joypad(&self) -> (r: bool)
        requires
            gameboy_wf(self@),
        ensures
            r == (mem(self@, 0xffff) & 0x10 == 0x10),
    {
        self.memory_byte(0xffff) & 0b00010000 == 0b00010000
    }

    pub fn set_a(&mut self, value: u8) -> (r: u8)
        ensures
            r == value,
            final(self)@ == with_machine(old(self)@, with_regs(old(self)@.machine, Registers { a: value, ..old(self).machine.registers })),
    {
        self.machine.registers.a = value;
        self.machine.registers.a
    }

    pub fn set_b(&mut self, value: u8) -> (r: u8)
        ensures
            r == value,
            final(self)@ == with_machine(old(self)@, with_regs(old(self)@.machine, Registers { b: value, ..old(self).machine.registers })),
    {
        self.machine.registers.b = value;
        self.machine.registers.b
    }

    pub fn set_c(&mut self, value: u8) -> (r: u8)
        ensures
            r == value,
            final(self)@ == with_machine(old(self)@, with_regs(old(self)@.machine, Registers { c: value, ..old(self).machine.registers })),
    {
        self.machine.registers.c = value;
        self.machine.registers.c
    }

    pub fn set_d(&mut self, value: u8) -> (r: u8)
        ensures
            r == value,
            final(self)@ == with_machine(old(self)@, with_regs(old(self)@.machine, Registers { d: value, ..old(self).machine.registers })),
    {
        self.machine.registers.d = value;
        self.machine.registers.d
    }

    pub fn set_e(&mut self, value: u8) -> (r: u8)
        ensures
            r == value,
            final(self)@ == with_machine(old(self)@, with_regs(old(self)@.machine, Registers { e: value, ..old(self).machine.registers })),
    {
        self.machine.registers.e = value;
        self.machine.registers.e
    }

    pub fn set_h(&mut self, value: u8) -> (r: u8)
        ensures
            r == value,
            final(self)@ == with_machine(old(self)@, with_regs(old(self)@.machine, Registers { h: value, ..old(self).machine.registers })),
    {
        self.machine.registers.h = value;
        self.machine.registers.h
    }

    pub fn set_l(&mut self, value: u8) -> (r: u8)
        ensures
            r == value,
            final(self)@ == with_machine(old(self)@, with_regs(old(self)@.machine, Registers { l: value, ..old(self).machine.registers })),
    {
        self.machine.registers.l = value;
        self.machine.registers.l
    }

    pub fn set_sp(&mut self, value: u16) -> (r: u16)
        ensures
            r == value,
            final(self)@ == with_machine(old(self)@, with_regs(old(self)@.machine, Registers { sp: value, ..old(self).machine.registers })),
    {
        self.machine.registers.sp = value;
        self.machine.registers.sp
    }

    pub fn set_pc(&mut self, value: u16) -> (r: u16)
        ensures
            r == value,
            final(self)@ == with_machine(old(self)@, with_regs(old(self)@.machine, Registers { pc: value, ..old(self).machine.registers })),
    {
        self.machine.registers.pc = value;
        self.machine.registers.pc
    }

    pub fn set_flag_z(&mut self, value: bool) -> (r: bool)
        ensures
            r == value,
            final(self)@ == with_machine(old(self)@, with_regs(old(self)@.machine, Registers { f: Flag { z: value, ..old(self).machine.registers.f }, ..old(self).machine.registers })),
    {
        self.machine.registers.f.z = value;
        self.machine.registers.f.z
    }

    pub fn set_flag_n(&mut self, value: bool) -> (r: bool)
        ensures
            r == value,
            final(self)@ == with_machine(old(self)@, with_regs(old(self)@.machine, Registers { f: Flag { n: value, ..old(self).machine.registers.f }, ..old(self).machine.registers })),
    {
        self.machine.registers.f.n = value;
        self.machine.registers.f.n
    }

    pub fn set_flag_h(&mut self, value: bool) -> (r: bool)
        ensures
            r == value,
            final(self)@ == with_machine(old(self)@, with_regs(old(self)@.machine, Registers { f: Flag { h: value, ..old(self).machine.registers.f }, ..old(self).machine.registers })),
    {
        self.machine.registers.f.h = value;
        self.machine.registers.f.h
    }

    pub fn set_flag_c(&mut self, value: bool) -> (r: bool)
        ensures
            r == value,
            final(self)@ == with_machine(old(self)@, with_regs(old(self)@.machine, Registers { f: Flag { c: value, ..old(self).machine.registers.f }, ..old(self).machine.registers })),
    {
        self.machine.registers.f.c = value;
        self.machine.registers.f.c
    }

    /// The address space, for the page to read directly.
    pub fn memory_bytes(&self) -> (r: &Vec<u8>)
        ensures
            r@ == self@.machine.memory,
    {
        &self.machine.memory
    }
}

} // verus!
