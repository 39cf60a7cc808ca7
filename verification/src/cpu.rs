//! Instruction semantics of the SM83 CPU as this emulator runs them, and their
//! execution.

use vstd::prelude::*;
use crate::registers::{
    Registers, Flag, word, hi_byte, lo_byte, add8, sub8, add16, sub16, hl, bc, de, f_byte,
    with_flags, add_signed, half_carry_u16_i8, carry_u16_i8, alu_spec, bit_spec, inc8_flags,
    dec8_flags, add_hl_spec, daa_spec, rlc_val, rrc_val, rl_val, rr_val, sla_val, sra_val,
    swap_val, srl_val, shift_spec, bit_mask,
};
use crate::machine::{
    Machine, MachineModel, machine_wf, bus_read, bus_write, next_byte, next_word, inc_pc, skip_word, push,
    pop_state, pop_value, get_r8, set_r8, with_regs, lemma_bus_write_frame, lemma_bus_read_regs,
};

verus! {

broadcast use {lemma_bus_write_frame, lemma_bus_read_regs};

// ---------------------------------------------------------------------------
// Instruction semantics

/// Whether the emulator runs `opcode` in state `m`: the opcodes it has no
/// implementation for stop the program, and so does 0xDD unless the byte after it
/// is 0xDD or 0xD9.
pub open spec fn supported(m: MachineModel, opcode: u8) -> bool {
    &&& opcode != 0xDB && opcode != 0xE3 && opcode != 0xE4 && opcode != 0xEB
    &&& opcode != 0xEC && opcode != 0xED && opcode != 0xFC
    &&& opcode == 0xDD ==> (next_byte(m) == 0xDD || next_byte(m) == 0xD9)
}

/// The condition of a conditional jump, call or return: NZ, Z, NC, C.
pub open spec fn condition(r: Registers, cc: u8) -> bool {
    if cc == 0 {
        !r.f.z
    } else if cc == 1 {
        r.f.z
    } else if cc == 2 {
        !r.f.c
    } else {
        r.f.c
    }
}

/// Register pair `k` of LD rr,nn / INC rr / DEC rr / ADD HL,rr: BC, DE, HL, SP.
pub open spec fn get_rr(r: Registers, k: u8) -> u16 {
    if k == 0 {
        bc(r)
    } else if k == 1 {
        de(r)
    } else if k == 2 {
        hl(r)
    } else {
        r.sp
    }
}

/// Stores register pair `k` (BC, DE, HL, SP).
pub open spec fn set_rr(r: Registers, k: u8, v: u16) -> Registers {
    if k == 0 {
        Registers { b: hi_byte(v), c: lo_byte(v), ..r }
    } else if k == 1 {
        Registers { d: hi_byte(v), e: lo_byte(v), ..r }
    } else if k == 2 {
        Registers { h: hi_byte(v), l: lo_byte(v), ..r }
    } else {
        Registers { sp: v, ..r }
    }
}

/// The word PUSH pushes for pair `k`: BC, DE, HL, AF.
pub open spec fn push_value(r: Registers, k: u8) -> u16 {
    if k == 3 {
        word(r.a, f_byte(r.f))
    } else {
        get_rr(r, k)
    }
}

/// Stores a popped word into pair `k`: BC, DE, HL, AF.
pub open spec fn pop_into(r: Registers, k: u8, v: u16) -> Registers {
    if k == 3 {
        with_flags(
            Registers { a: hi_byte(v), ..r },
            lo_byte(v) & 0x80 == 0x80,
            lo_byte(v) & 0x40 == 0x40,
            lo_byte(v) & 0x20 == 0x20,
            lo_byte(v) & 0x10 == 0x10,
        )
    } else {
        set_rr(r, k, v)
    }
}

/// Modifies the registers of a state.
pub open spec fn map_regs(m: MachineModel, r: Registers) -> MachineModel {
    with_regs(m, r)
}

/// Sets Z, N, H, C of a state.
pub open spec fn set_flags(m: MachineModel, z: bool, n: bool, h: bool, c: bool) -> MachineModel {
    with_regs(m, with_flags(m.regs, z, n, h, c))
}

/// Relative jump: PC is past the offset byte, then moves by the signed offset.
pub open spec fn jump_relative(m: MachineModel) -> MachineModel {
    let off = next_byte(m);
    let m1 = inc_pc(inc_pc(m));
    with_regs(m1, Registers { pc: add_signed(m1.regs.pc, off as i8), ..m1.regs })
}

/// Sets PC.
pub open spec fn set_pc(m: MachineModel, pc: u16) -> MachineModel {
    with_regs(m, Registers { pc, ..m.regs })
}

/// After a pop, PC takes the popped word.
pub open spec fn ret(m: MachineModel) -> MachineModel {
    set_pc(pop_state(m), pop_value(m))
}

/// A call: PC is past the operand; the return address PC + 1 is pushed and PC jumps.
pub open spec fn call(m: MachineModel) -> MachineModel {
    let target = next_word(m);
    let m1 = skip_word(m);
    set_pc(push(m1, add16(m1.regs.pc as int, 1)), target)
}

/// The CB-prefixed instructions; the second byte selects the operation.
pub open spec fn cb_step(m: MachineModel) -> MachineModel {
    let b = next_byte(m);
    let m1 = inc_pc(m);
    let k = b & 7;
    let op = (b >> 3u8) & 7;
    let x = get_r8(m1, k);
    let m3 = if b < 0x40 {
        let (v, c) = shift_spec(op, x, m1.regs.f.c);
        let m2 = set_r8(m1, k, v);
        set_flags(m2, v == 0, false, false, c)
    } else if b < 0x80 {
        map_regs(m1, bit_spec(m1.regs, op, x))
    } else if b < 0xC0 {
        set_r8(m1, k, x & !bit_mask(op))
    } else {
        set_r8(m1, k, x | bit_mask(op))
    };
    inc_pc(m3)
}

/// 8-bit loads, arithmetic on A, INC/DEC and the CB prefix: the regularly encoded
/// part of the instruction set.
pub open spec fn step_regular(m: MachineModel, op: u8) -> MachineModel {
    if 0x40 <= op < 0x80 {
        // LD r, r'
        inc_pc(set_r8(m, (op >> 3u8) & 7, get_r8(m, op & 7)))
    } else if 0x80 <= op < 0xC0 {
        // ALU A, r
        inc_pc(map_regs(m, alu_spec((op >> 3u8) & 7, m.regs, get_r8(m, op & 7))))
    } else if op >= 0xC0 {
        // ALU A, n
        let m1 = inc_pc(m);
        inc_pc(map_regs(m1, alu_spec((op >> 3u8) & 7, m1.regs, next_byte(m))))
    } else if op & 7 == 4 {
        // INC r
        let k = (op >> 3u8) & 7;
        let x = get_r8(m, k);
        let m1 = set_r8(m, k, add8(x as int, 1));
        inc_pc(map_regs(m1, inc8_flags(m1.regs, x)))
    } else if op & 7 == 5 {
        // DEC r
        let k = (op >> 3u8) & 7;
        let x = get_r8(m, k);
        let m1 = set_r8(m, k, sub8(x as int, 1));
        inc_pc(map_regs(m1, dec8_flags(m1.regs, x)))
    } else {
        // LD r, n
        let m1 = inc_pc(m);
        inc_pc(set_r8(m1, (op >> 3u8) & 7, next_byte(m)))
    }
}

/// Whether `op` belongs to the regularly encoded part (see [`step_regular`]).
pub open spec fn is_regular(op: u8) -> bool {
    (0x40 <= op < 0xC0 && op != 0x76) || (op >= 0xC0 && op & 7 == 6) || (op < 0x40 && (op & 7 == 4
        || op & 7 == 5 || op & 7 == 6))
}

/// ADD HL, rr (column 9).
pub open spec fn add_hl_step(m: MachineModel, op: u8) -> MachineModel {
    inc_pc(map_regs(m, add_hl_spec(m.regs, get_rr(m.regs, (op >> 4u8) & 3))))
}

/// LD rr,nn (column 1), INC rr (column 3), DEC rr (column 0xB).
pub open spec fn pair_update_spec(m: MachineModel, op: u8) -> MachineModel {
    let k = (op >> 4u8) & 3;
    let r = m.regs;
    if op & 0xF == 1 {
        inc_pc(map_regs(skip_word(m), set_rr(skip_word(m).regs, k, next_word(m))))
    } else if op & 0xF == 3 {
        inc_pc(map_regs(m, set_rr(r, k, add16(get_rr(r, k) as int, 1))))
    } else {
        inc_pc(map_regs(m, set_rr(r, k, sub16(get_rr(r, k) as int, 1))))
    }
}

/// LD (BC),A / LD (DE),A / LD (HL+),A / LD (HL-),A (column 2) and the loads of A the
/// other way (column 0xA).
pub open spec fn indirect_spec(m: MachineModel, op: u8) -> MachineModel {
    let k = (op >> 4u8) & 3;
    let r = m.regs;
    let addr = if k == 0 { bc(r) } else if k == 1 { de(r) } else { hl(r) };
    let m1 = if op & 0xF == 2 {
        bus_write(m, addr, r.a)
    } else {
        map_regs(m, Registers { a: bus_read(m, addr), ..r })
    };
    let m2 = if k == 2 {
        map_regs(m1, set_rr(m1.regs, 2, add16(hl(r) as int, 1)))
    } else if k == 3 {
        map_regs(m1, set_rr(m1.regs, 2, sub16(hl(r) as int, 1)))
    } else {
        m1
    };
    inc_pc(m2)
}

/// Loads through register pairs and 16-bit arithmetic (opcodes 0x00..0x3F, columns 0..3 and 7).
pub open spec fn step_low(m: MachineModel, op: u8) -> MachineModel {
    let k = (op >> 4u8) & 3;
    let r = m.regs;
    let col = op & 0xF;
    if op == 0x00 || op == 0x10 {
        inc_pc(m)
    } else if col == 1 || col == 3 || col == 0xB {
        pair_update_spec(m, op)
    } else if col == 2 || col == 0xA {
        indirect_spec(m, op)
    } else if col == 9 {
        add_hl_step(m, op)
    } else if op == 0x07 {
        // RLCA
        inc_pc(map_regs(m, with_flags(Registers { a: rlc_val(r.a), ..r }, false, false, false, r.a >= 128)))
    } else if op == 0x0F {
        // RRCA
        inc_pc(map_regs(m, with_flags(Registers { a: rrc_val(r.a), ..r }, false, false, false, r.a % 2 == 1)))
    } else if op == 0x17 {
        // RLA
        inc_pc(map_regs(m, with_flags(Registers { a: rl_val(r.a, r.f.c), ..r }, false, false, false, r.a >= 128)))
    } else if op == 0x1F {
        // RRA
        inc_pc(map_regs(m, with_flags(Registers { a: rr_val(r.a, r.f.c), ..r }, false, false, false, r.a % 2 == 1)))
    } else if op == 0x08 {
        // LD (nn), SP
        let addr = next_word(m);
        let m1 = skip_word(m);
        let m2 = bus_write(m1, addr, lo_byte(r.sp));
        inc_pc(bus_write(m2, add16(addr as int, 1), hi_byte(r.sp)))
    } else if op == 0x18 {
        // JR n
        jump_relative(m)
    } else if op == 0x27 {
        inc_pc(map_regs(m, daa_spec(r)))
    } else if op == 0x2F {
        // CPL
        inc_pc(map_regs(m, with_flags(Registers { a: !r.a, ..r }, r.f.z, true, true, r.f.c)))
    } else if op == 0x37 {
        // SCF
        inc_pc(set_flags(m, r.f.z, false, false, true))
    } else if op == 0x3F {
        // CCF
        inc_pc(set_flags(m, r.f.z, false, false, !r.f.c))
    } else {
        // JR cc, n (0x20, 0x28, 0x30, 0x38)
        if condition(r, (op >> 3u8) & 3) {
            jump_relative(m)
        } else {
            inc_pc(inc_pc(m))
        }
    }
}

/// Control flow, stack and high-page loads (opcodes 0xC0..0xFF other than ALU A, n).
pub open spec fn step_high(m: MachineModel, op: u8) -> MachineModel {
    let r = m.regs;
    let k = (op >> 4u8) & 3;
    let cc = (op >> 3u8) & 3;
    if op & 7 == 7 {
        // RST t
        set_pc(push(m, add16(r.pc as int, 1)), (op & 0x38) as u16)
    } else if op == 0xC9 {
        ret(m)
    } else if op == 0xD9 {
        let m1 = ret(m);
        map_regs(m1, Registers { f: Flag { ime: true, ..m1.regs.f }, ..m1.regs })
    } else if op == 0xC3 {
        set_pc(skip_word(m), next_word(m))
    } else if op == 0xCD {
        call(m)
    } else if op == 0xE9 {
        set_pc(m, hl(r))
    } else if op & 0xF == 1 {
        // POP rr
        inc_pc(map_regs(pop_state(m), pop_into(pop_state(m).regs, k, pop_value(m))))
    } else if op & 0xF == 5 {
        // PUSH rr
        inc_pc(push(m, push_value(r, k)))
    } else if op < 0xE0 && op & 7 == 0 {
        // RET cc
        if condition(r, cc) { ret(m) } else { inc_pc(m) }
    } else if op < 0xE0 && op & 7 == 2 {
        // JP cc, nn
        let m1 = skip_word(m);
        if condition(r, cc) { set_pc(m1, next_word(m)) } else { inc_pc(m1) }
    } else if op < 0xE0 && op & 7 == 4 {
        // CALL cc, nn
        if condition(r, cc) { call(m) } else { inc_pc(skip_word(m)) }
    } else if op == 0xDD {
        let m1 = inc_pc(m);
        if next_byte(m) == 0xD9 {
            let m2 = ret(m1);
            map_regs(m2, Registers { f: Flag { ime: true, ..m2.regs.f }, ..m2.regs })
        } else {
            m1
        }
    } else if op == 0xE0 {
        // LD ($FF00+n), A
        inc_pc(bus_write(inc_pc(m), add16(0xFF00, next_byte(m) as int), r.a))
    } else if op == 0xF0 {
        // LD A, ($FF00+n)
        let v = bus_read(m, add16(0xFF00, next_byte(m) as int));
        inc_pc(map_regs(inc_pc(m), Registers { a: v, ..inc_pc(m).regs }))
    } else if op == 0xE2 {
        inc_pc(bus_write(m, add16(0xFF00, r.c as int), r.a))
    } else if op == 0xF2 {
        inc_pc(map_regs(m, Registers { a: bus_read(m, add16(0xFF00, r.c as int)), ..r }))
    } else if op == 0xE8 || op == 0xF8 {
        // ADD SP, n / LD HL, SP+n
        let s = next_byte(m) as i8;
        let m1 = inc_pc(m);
        let v = add_signed(r.sp, s);
        let r1 = if op == 0xE8 { Registers { sp: v, ..m1.regs } } else { set_rr(m1.regs, 2, v) };
        inc_pc(map_regs(m1, with_flags(r1, false, false, half_carry_u16_i8(r.sp, s, v), carry_u16_i8(r.sp, s, v))))
    } else if op == 0xEA {
        inc_pc(bus_write(skip_word(m), next_word(m), r.a))
    } else if op == 0xFA {
        let v = bus_read(m, next_word(m));
        inc_pc(map_regs(skip_word(m), Registers { a: v, ..skip_word(m).regs }))
    } else if op == 0xF3 {
        inc_pc(map_regs(m, Registers { f: Flag { ime: false, ..r.f }, ..r }))
    } else if op == 0xFB {
        let m1 = inc_pc(m);
        map_regs(m1, Registers { f: Flag { ime: true, ..m1.regs.f }, ..m1.regs })
    } else if op == 0xF9 {
        inc_pc(map_regs(m, Registers { sp: hl(r), ..r }))
    } else {
        // 0xD3, 0xF4, 0xFD: no operation
        inc_pc(m)
    }
}

/// The effect of executing `opcode` (already fetched from PC) on the machine.
pub open spec fn step(m: MachineModel, opcode: u8) -> MachineModel {
    if opcode == 0xCB {
        cb_step(m)
    } else if opcode == 0x76 {
        // HALT is handled by the run loop
        inc_pc(m)
    } else if is_regular(opcode) {
        step_regular(m, opcode)
    } else if opcode < 0x40 {
        step_low(m, opcode)
    } else {
        step_high(m, opcode)
    }
}

// ---------------------------------------------------------------------------
// Execution

/// Whether `op` belongs to the regularly encoded part (executable form of [`is_regular`]).
pub fn is_regular_opcode(op: u8) -> (r: bool)
    ensures
        r == is_regular(op),
{
    (0x40 <= op && op < 0xC0 && op != 0x76) || (op >= 0xC0 && op & 7 == 6) || (op < 0x40 && (op & 7
        == 4 || op & 7 == 5 || op & 7 == 6))
}

impl Machine {
    /// PC += 1.
    pub fn inc_pc(&mut self)
        requires
            machine_wf(old(self)@),
        ensures
            final(self)@ == inc_pc(old(self)@),
            machine_wf(final(self)@),
    {
        self.registers.inc_pc();
    }

    /// Reads the byte after the opcode at `address` (the PC) and moves PC past it.
    pub fn following_byte(&mut self, address: usize) -> (r: u8)
        requires
            machine_wf(old(self)@),
            address == old(self).registers.pc,
        ensures
            r == next_byte(old(self)@),
            final(self)@ == inc_pc(old(self)@),
            machine_wf(final(self)@),
    {
        let byte = self.read_memory((address as u16).wrapping_add(1));
        self.registers.inc_pc();
        byte
    }

    /// Reads the little-endian word after the opcode at `address` (the PC) and moves
    /// PC past it.
    pub fn following_two_bytes(&mut self, address: usize) -> (r: u16)
        requires
            machine_wf(old(self)@),
            address == old(self).registers.pc,
        ensures
            r == next_word(old(self)@),
            final(self)@ == skip_word(old(self)@),
            machine_wf(final(self)@),
    {
        let byte_one = self.read_memory((address as u16).wrapping_add(1));
        let byte_two = self.read_memory((address as u16).wrapping_add(2));
        let two_bytes_value = self.registers.combine_two_bytes(byte_two, byte_one);
        self.registers.set_pc(self.registers.pc.wrapping_add(2));
        two_bytes_value
    }

    /// Pushes a word on the stack.
    pub fn push_stack(&mut self, value: u16)
        requires
            machine_wf(old(self)@),
        ensures
            final(self)@ == push(old(self)@, value),
            machine_wf(final(self)@),
    {
        let (hi, lo) = split_word_pair(value);
        self.registers.set_sp(self.registers.sp.wrapping_sub(1));
        self.write_memory(self.registers.sp, hi);
        self.registers.set_sp(self.registers.sp.wrapping_sub(1));
        self.write_memory(self.registers.sp, lo);
    }

    /// Pops a word from the stack; each byte read is cleared through the bus.
    pub fn pop_stack(&mut self) -> (r: u16)
        requires
            machine_wf(old(self)@),
        ensures
            r == pop_value(old(self)@),
            final(self)@ == pop_state(old(self)@),
            machine_wf(final(self)@),
    {
        let second_byte = self.read_memory(self.registers.sp);
        self.write_memory(self.registers.sp, 0);
        self.registers.set_sp(self.registers.sp.wrapping_add(1));
        let firt_byte = self.read_memory(self.registers.sp);
        self.write_memory(self.registers.sp, 0);
        self.registers.set_sp(self.registers.sp.wrapping_add(1));
        self.registers.combine_two_bytes(firt_byte, second_byte)
    }

    /// Stores SP at `start_address` (low byte first).
    pub fn set_two_bytes(&mut self, start_address: u16)
        requires
            machine_wf(old(self)@),
        ensures
            final(self)@ == bus_write(
                bus_write(old(self)@, start_address, lo_byte(old(self).registers.sp)),
                add16(start_address as int, 1),
                hi_byte(old(self).registers.sp),
            ),
            machine_wf(final(self)@),
    {
        let (hi, lo) = split_word_pair(self.registers.sp);
        self.write_memory(start_address, lo);
        self.write_memory(start_address.wrapping_add(1), hi);
    }

    /// Operand `k` of the 8-bit register encoding (B, C, D, E, H, L, (HL), A).
    pub fn get_r8(&self, k: u8) -> (r: u8)
        requires
            machine_wf(self@),
            k < 8,
        ensures
            r == get_r8(self@, k),
    {
        if k == 0 {
            self.registers.b
        } else if k == 1 {
            self.registers.c
        } else if k == 2 {
            self.registers.d
        } else if k == 3 {
            self.registers.e
        } else if k == 4 {
            self.registers.h
        } else if k == 5 {
            self.registers.l
        } else if k == 6 {
            let h_l = self.registers.combine_two_bytes(self.registers.h, self.registers.l);
            self.read_memory(h_l)
        } else {
            self.registers.a
        }
    }

    /// Stores into operand `k` of the 8-bit register encoding.
    pub fn set_r8(&mut self, k: u8, v: u8)
        requires
            machine_wf(old(self)@),
            k < 8,
        ensures
            final(self)@ == set_r8(old(self)@, k, v),
            machine_wf(final(self)@),
    {
        if k == 0 {
            self.registers.set_b(v)
        } else if k == 1 {
            self.registers.set_c(v)
        } else if k == 2 {
            self.registers.set_d(v)
        } else if k == 3 {
            self.registers.set_e(v)
        } else if k == 4 {
            self.registers.set_h(v)
        } else if k == 5 {
            self.registers.set_l(v)
        } else if k == 6 {
            let h_l = self.registers.combine_two_bytes(self.registers.h, self.registers.l);
            self.write_memory(h_l, v)
        } else {
            self.registers.set_a(v)
        }
    }

    /// Sets Z, N, H and C.
    fn set_flags(&mut self, z: bool, n: bool, h: bool, c: bool)
        requires
            machine_wf(old(self)@),
        ensures
            final(self)@ == set_flags(old(self)@, z, n, h, c),
            machine_wf(final(self)@),
    {
        self.registers.f.set_flag(z, n, h, c);
    }

    /// RES b: clears bit `bit_idx` of `register_value` and stores it in operand `target`.
    pub fn res_b_r(&mut self, bit_idx: u8, register_value: u8, target: u8)
        requires
            machine_wf(old(self)@),
            bit_idx < 8,
            target < 8,
        ensures
            final(self)@ == set_r8(old(self)@, target, register_value & !bit_mask(bit_idx)),
            machine_wf(final(self)@),
    {
        let check_bits: u8 = !(1u8 << bit_idx);
        self.set_r8(target, register_value & check_bits);
    }

    /// SET b: sets bit `bit_idx` of `register_value` and stores it in operand `target`.
    pub fn set_b_r(&mut self, bit_idx: u8, register_value: u8, target: u8)
        requires
            machine_wf(old(self)@),
            bit_idx < 8,
            target < 8,
        ensures
            final(self)@ == set_r8(old(self)@, target, register_value | bit_mask(bit_idx)),
            machine_wf(final(self)@),
    {
        let check_bits: u8 = 1u8 << bit_idx;
        self.set_r8(target, register_value | check_bits);
    }

    /// Stores a rotation/shift result and its flags (Z from the result, N and H clear).
    fn store_shift(&mut self, target: u8, result: u8, carry: bool)
        requires
            machine_wf(old(self)@),
            target < 8,
        ensures
            final(self)@ == set_flags(set_r8(old(self)@, target, result), result == 0, false, false, carry),
            machine_wf(final(self)@),
    {
        self.set_r8(target, result);
        self.set_flags(result == 0, false, false, carry);
    }

    /// SRL: logical shift right.
    pub fn srl(&mut self, register_value: u8, target: u8)
        requires
            machine_wf(old(self)@),
            target < 8,
        ensures
            final(self)@ == set_flags(
                set_r8(old(self)@, target, srl_val(register_value)),
                srl_val(register_value) == 0, false, false, register_value % 2 == 1),
            machine_wf(final(self)@),
    {
        let result = register_value >> 1;
        let flag_c = register_value & 0b00000001 == 0b00000001;
        assert(result == srl_val(register_value) && flag_c == (register_value % 2 == 1)) by (bit_vector)
            requires
                result == register_value >> 1,
                flag_c == (register_value & 1 == 1),
        ;
        self.store_shift(target, result, flag_c);
    }

    /// SRA: arithmetic shift right (bit 7 kept).
    pub fn sra(&mut self, register_value: u8, target: u8)
        requires
            machine_wf(old(self)@),
            target < 8,
        ensures
            final(self)@ == set_flags(
                set_r8(old(self)@, target, sra_val(register_value)),
                sra_val(register_value) == 0, false, false, register_value % 2 == 1),
            machine_wf(final(self)@),
    {
        let result = register_value >> 1 | (register_value & 0x80);
        let flag_c = register_value & 0b00000001 == 0b00000001;
        assert(result == sra_val(register_value) && flag_c == (register_value % 2 == 1)) by (bit_vector)
            requires
                result == register_value >> 1 | (register_value & 0x80),
                flag_c == (register_value & 1 == 1),
        ;
        self.store_shift(target, result, flag_c);
    }

    /// SWAP: exchanges the nibbles.
    pub fn swap(&mut self, register_value: u8, target: u8)
        requires
            machine_wf(old(self)@),
            target < 8,
        ensures
            final(self)@ == set_flags(
                set_r8(old(self)@, target, swap_val(register_value)),
                swap_val(register_value) == 0, false, false, false),
            machine_wf(final(self)@),
    {
        let result = register_value << 4 | register_value >> 4;
        assert(result == swap_val(register_value)) by (bit_vector)
            requires
                result == register_value << 4 | register_value >> 4,
        ;
        self.store_shift(target, result, false);
    }

    /// SLA: shift left, bit 7 into carry.
    pub fn sla(&mut self, register_value: u8, target: u8)
        requires
            machine_wf(old(self)@),
            target < 8,
        ensures
            final(self)@ == set_flags(
                set_r8(old(self)@, target, sla_val(register_value)),
                sla_val(register_value) == 0, false, false, register_value >= 128),
            machine_wf(final(self)@),
    {
        let result = register_value << 1;
        let flag_c = register_value & 0b10000000 == 0b10000000;
        assert(result == sla_val(register_value) && flag_c == (register_value >= 128)) by (bit_vector)
            requires
                result == register_value << 1,
                flag_c == (register_value & 0x80 == 0x80),
        ;
        self.store_shift(target, result, flag_c);
    }

    /// RR: rotate right through carry.
    pub fn rr(&mut self, register_value: u8, target: u8)
        requires
            machine_wf(old(self)@),
            target < 8,
        ensures
            final(self)@ == set_flags(
                set_r8(old(self)@, target, rr_val(register_value, old(self).registers.f.c)),
                rr_val(register_value, old(self).registers.f.c) == 0, false, false, register_value % 2 == 1),
            machine_wf(final(self)@),
    {
        let cin: u8 = if self.registers.f.c { 0b10000000 } else { 0 };
        let result = (register_value >> 1) | cin;
        let flag_c = register_value & 0b00000001 == 1;
        assert(result as int == register_value as int / 2 + cin as int && flag_c == (register_value % 2 == 1)) by (bit_vector)
            requires
                result == (register_value >> 1) | cin,
                cin == 0 || cin == 0x80,
                flag_c == (register_value & 1 == 1),
        ;
        self.store_shift(target, result, flag_c);
    }

    /// RL: rotate left through carry.
    pub fn rl(&mut self, register_value: u8, target: u8)
        requires
            machine_wf(old(self)@),
            target < 8,
        ensures
            final(self)@ == set_flags(
                set_r8(old(self)@, target, rl_val(register_value, old(self).registers.f.c)),
                rl_val(register_value, old(self).registers.f.c) == 0, false, false, register_value >= 128),
            machine_wf(final(self)@),
    {
        let cin: u8 = if self.registers.f.c { 1 } else { 0 };
        let result = (register_value << 1) | cin;
        let flag_c = register_value & 0b10000000 == 0b10000000;
        assert(result as int == (register_value as int * 2) % 256 + cin as int && flag_c == (register_value >= 128)) by (bit_vector)
            requires
                result == (register_value << 1) | cin,
                cin <= 1,
                flag_c == (register_value & 0x80 == 0x80),
        ;
        self.store_shift(target, result, flag_c);
    }

    /// RRC: rotate right, bit 0 into carry and bit 7.
    pub fn rrc(&mut self, register_value: u8, target: u8)
        requires
            machine_wf(old(self)@),
            target < 8,
        ensures
            final(self)@ == set_flags(
                set_r8(old(self)@, target, rrc_val(register_value)),
                rrc_val(register_value) == 0, false, false, register_value % 2 == 1),
            machine_wf(final(self)@),
    {
        let cf = register_value << 7;
        let result = register_value >> 1 | cf;
        let flag_c = cf & 0b10000000 == 0b10000000;
        assert(result == rrc_val(register_value) && flag_c == (register_value % 2 == 1)) by (bit_vector)
            requires
                cf == register_value << 7,
                result == register_value >> 1 | cf,
                flag_c == (cf & 0x80 == 0x80),
        ;
        self.store_shift(target, result, flag_c);
    }

    /// RLC: rotate left, bit 7 into carry and bit 0.
    pub fn rlc(&mut self, register_value: u8, target: u8)
        requires
            machine_wf(old(self)@),
            target < 8,
        ensures
            final(self)@ == set_flags(
                set_r8(old(self)@, target, rlc_val(register_value)),
                rlc_val(register_value) == 0, false, false, register_value >= 128),
            machine_wf(final(self)@),
    {
        let cf = register_value >> 7;
        let result = (register_value << 1) | cf;
        let flag_c = cf == 1;
        assert(result == rlc_val(register_value) && flag_c == (register_value >= 128)) by (bit_vector)
            requires
                cf == register_value >> 7,
                result == (register_value << 1) | cf,
                flag_c == (cf == 1),
        ;
        self.store_shift(target, result, flag_c);
    }

    /// The CB-prefixed instructions.
    fn execute_cb(&mut self)
        requires
            machine_wf(old(self)@),
        ensures
            final(self)@ == cb_step(old(self)@),
            machine_wf(final(self)@),
    {
        let pointer = self.registers.pc as usize;
        let b = self.following_byte(pointer);
        let k = b & 7;
        let op = (b >> 3) & 7;
        assert(k < 8 && op < 8) by (bit_vector)
            requires
                k == b & 7,
                op == (b >> 3) & 7,
        ;
        let x = self.get_r8(k);
        if b < 0x40 {
            if op == 0 {
                self.rlc(x, k);
            } else if op == 1 {
                self.rrc(x, k);
            } else if op == 2 {
                self.rl(x, k);
            } else if op == 3 {
                self.rr(x, k);
            } else if op == 4 {
                self.sla(x, k);
            } else if op == 5 {
                self.sra(x, k);
            } else if op == 6 {
                self.swap(x, k);
            } else {
                self.srl(x, k);
            }
        } else if b < 0x80 {
            self.registers.bit_b_r(op, x);
        } else if b < 0xC0 {
            self.res_b_r(op, x, k);
        } else {
            self.set_b_r(op, x, k);
        }
        self.inc_pc();
    }

    /// The regularly encoded instructions (see [`step_regular`]).
    fn execute_regular(&mut self, op: u8)
        requires
            machine_wf(old(self)@),
            is_regular(op),
        ensures
            final(self)@ == step_regular(old(self)@, op),
            machine_wf(final(self)@),
    {
        let pointer = self.registers.pc as usize;
        let dst = (op >> 3) & 7;
        let src = op & 7;
        assert(dst < 8 && src < 8) by (bit_vector)
            requires
                dst == (op >> 3) & 7,
                src == op & 7,
        ;
        if 0x40 <= op && op < 0x80 {
            let v = self.get_r8(src);
            self.set_r8(dst, v);
            self.inc_pc();
        } else if 0x80 <= op && op < 0xC0 {
            let v = self.get_r8(src);
            self.registers.alu(dst, v);
            self.inc_pc();
        } else if op >= 0xC0 {
            let v = self.following_byte(pointer);
            self.registers.alu(dst, v);
            self.inc_pc();
        } else if op & 7 == 4 {
            let x = self.get_r8(dst);
            let value = x.wrapping_add(1);
            self.set_r8(dst, value);
            let flag_h = self.registers.check_half_carry(x, 1);
            let flag_c = self.registers.f.c;
            self.set_flags(value == 0, false, flag_h, flag_c);
            self.inc_pc();
        } else if op & 7 == 5 {
            let x = self.get_r8(dst);
            let value = x.wrapping_sub(1);
            self.set_r8(dst, value);
            let flag_h = self.registers.check_half_carry_sub(x, 1u8);
            let flag_c = self.registers.f.c;
            self.set_flags(value == 0, true, flag_h, flag_c);
            self.inc_pc();
        } else {
            let v = self.following_byte(pointer);
            self.set_r8(dst, v);
            self.inc_pc();
        }
    }
}

/// Splits a word into (high, low) bytes.
fn split_word_pair(value: u16) -> (r: (u8, u8))
    ensures
        r.0 == hi_byte(value),
        r.1 == lo_byte(value),
{
    crate::registers::split_word(value)
}

impl Machine {
    /// Register pair `k` (BC, DE, HL, SP).
    fn get_rr(&self, k: u8) -> (r: u16)
        ensures
            r == get_rr(self.registers, k),
    {
        if k == 0 {
            self.registers.combine_two_bytes(self.registers.b, self.registers.c)
        } else if k == 1 {
            self.registers.combine_two_bytes(self.registers.d, self.registers.e)
        } else if k == 2 {
            self.registers.combine_two_bytes(self.registers.h, self.registers.l)
        } else {
            self.registers.sp
        }
    }

    /// Stores register pair `k` (BC, DE, HL, SP).
    fn set_rr(&mut self, k: u8, v: u16)
        requires
            machine_wf(old(self)@),
        ensures
            final(self)@ == with_regs(old(self)@, set_rr(old(self).registers, k, v)),
            machine_wf(final(self)@),
    {
        if k == 0 {
            self.registers.set_bc(v)
        } else if k == 1 {
            self.registers.set_de(v)
        } else if k == 2 {
            self.registers.set_hl(v)
        } else {
            self.registers.set_sp(v)
        }
    }

    /// Whether condition `cc` (NZ, Z, NC, C) holds.
    fn condition(&self, cc: u8) -> (r: bool)
        ensures
            r == condition(self.registers, cc),
    {
        if cc == 0 {
            !self.registers.f.z
        } else if cc == 1 {
            self.registers.f.z
        } else if cc == 2 {
            !self.registers.f.c
        } else {
            self.registers.f.c
        }
    }

    /// A relative jump by the signed byte after the opcode.
    fn jump_relative(&mut self, pointer: usize)
        requires
            machine_wf(old(self)@),
            pointer == old(self).registers.pc,
        ensures
            final(self)@ == jump_relative(old(self)@),
            machine_wf(final(self)@),
    {
        let n_param = self.following_byte(pointer);
        self.inc_pc();
        let destination = self.registers.add_signed_number(self.registers.pc, n_param as i8);
        self.registers.set_pc(destination);
    }

    /// A call to the word after the opcode.
    fn call(&mut self, pointer: usize)
        requires
            machine_wf(old(self)@),
            pointer == old(self).registers.pc,
        ensures
            final(self)@ == call(old(self)@),
            machine_wf(final(self)@),
    {
        let next_two_bytes = self.following_two_bytes(pointer);
        let next_instruction_address = self.registers.pc.wrapping_add(1);
        self.push_stack(next_instruction_address);
        self.registers.set_pc(next_two_bytes);
    }

    /// A return: PC is popped.
    fn ret(&mut self)
        requires
            machine_wf(old(self)@),
        ensures
            final(self)@ == ret(old(self)@),
            machine_wf(final(self)@),
    {
        let address = self.pop_stack();
        self.registers.set_pc(address);
    }

    /// Opcodes 0x00..0x3F outside the regular part (see [`step_low`]).
    fn execute_low(&mut self, op: u8)
        requires
            machine_wf(old(self)@),
            op < 0x40,
            !is_regular(op),
        ensures
            final(self)@ == step_low(old(self)@, op),
            machine_wf(final(self)@),
    {
        let col = op & 0xF;
        if op != 0x00 && op != 0x10 && (col == 1 || col == 2 || col == 3 || col == 9 || col == 0xA || col == 0xB) {
            self.execute_low_pairs(op);
        } else {
            self.execute_low_misc(op);
        }
    }

    /// Loads through register pairs and 16-bit arithmetic.
    fn execute_low_pairs(&mut self, op: u8)
        requires
            machine_wf(old(self)@),
            op < 0x40,
            !is_regular(op),
            op != 0x00 && op != 0x10,
            op & 0xF == 1 || op & 0xF == 2 || op & 0xF == 3 || op & 0xF == 9 || op & 0xF == 0xA || op & 0xF == 0xB,
        ensures
            final(self)@ == step_low(old(self)@, op),
            machine_wf(final(self)@),
    {
        let col = op & 0xF;
        if col == 2 || col == 0xA {
            self.execute_indirect(op);
        } else {
            self.execute_pair_arith(op);
        }
    }

    /// LD rr,nn / INC rr / DEC rr / ADD HL,rr.
    fn execute_pair_arith(&mut self, op: u8)
        requires
            machine_wf(old(self)@),
            op < 0x40,
            !is_regular(op),
            op != 0x00 && op != 0x10,
            op & 0xF == 1 || op & 0xF == 3 || op & 0xF == 9 || op & 0xF == 0xB,
        ensures
            final(self)@ == step_low(old(self)@, op),
            machine_wf(final(self)@),
    {
        let col = op & 0xF;
        if col == 9 {
            self.execute_add_hl(op);
        } else {
            self.execute_pair_update(op);
        }
    }

    /// LD rr,nn / INC rr / DEC rr.
    fn execute_pair_update(&mut self, op: u8)
        requires
            machine_wf(old(self)@),
            op < 0x40,
            !is_regular(op),
            op != 0x00 && op != 0x10,
            op & 0xF == 1 || op & 0xF == 3 || op & 0xF == 0xB,
        ensures
            final(self)@ == pair_update_spec(old(self)@, op),
            machine_wf(final(self)@),
    {
        let pointer = self.registers.pc as usize;
        let k = (op >> 4) & 3;
        let col = op & 0xF;
        if col == 1 {
            let value = self.following_two_bytes(pointer);
            self.set_rr(k, value);
            self.inc_pc();
        } else if col == 3 {
            let v = self.get_rr(k);
            self.set_rr(k, v.wrapping_add(1));
            self.inc_pc();
        } else {
            let v = self.get_rr(k);
            self.set_rr(k, v.wrapping_sub(1));
            self.inc_pc();
        }
    }

    /// ADD HL,rr.
    #[verifier::rlimit(20)]
    fn execute_add_hl(&mut self, op: u8)
        requires
            machine_wf(old(self)@),
            op < 0x40,
            !is_regular(op),
            op != 0x00 && op != 0x10,
            op & 0xF == 9,
        ensures
            final(self)@ == add_hl_step(old(self)@, op),
            machine_wf(final(self)@),
    {
        let k = (op >> 4) & 3;
        let w = self.get_rr(k);
        let h_l = self.get_rr(2);
        let value = h_l.wrapping_add(w);
        let flag_z = self.registers.f.z;
        let flag_h = self.registers.check_half_carry_two_bytes(h_l, w);
        let flag_c = self.registers.check_carry_two_bytes(h_l, w);
        self.registers.set_hl(value);
        self.set_flags(flag_z, false, flag_h, flag_c);
        self.inc_pc();
    }

    /// LD (rr),A / LD A,(rr) with BC, DE, HL+ and HL-.
    fn execute_indirect(&mut self, op: u8)
        requires
            machine_wf(old(self)@),
            op < 0x40,
            !is_regular(op),
            op != 0x00 && op != 0x10,
            op & 0xF == 2 || op & 0xF == 0xA,
        ensures
            final(self)@ == indirect_spec(old(self)@, op),
            machine_wf(final(self)@),
    {
        let k = (op >> 4) & 3;
        let col = op & 0xF;
        let addr = if k == 0 { self.get_rr(0) } else if k == 1 { self.get_rr(1) } else { self.get_rr(2) };
        let h_l = self.get_rr(2);
        if col == 2 {
            self.write_memory(addr, self.registers.a);
        } else {
            let value = self.read_memory(addr);
            self.registers.set_a(value);
        }
        if k == 2 {
            self.set_rr(2, h_l.wrapping_add(1));
        } else if k == 3 {
            self.set_rr(2, h_l.wrapping_sub(1));
        }
        self.inc_pc();
    }

    /// Rotations of A, flag operations and relative jumps.
    fn execute_low_misc(&mut self, op: u8)
        requires
            machine_wf(old(self)@),
            op < 0x40,
            !is_regular(op),
            op == 0x00 || op == 0x10 || !(op & 0xF == 1 || op & 0xF == 2 || op & 0xF == 3 || op & 0xF == 9
                || op & 0xF == 0xA || op & 0xF == 0xB),
        ensures
            final(self)@ == step_low(old(self)@, op),
            machine_wf(final(self)@),
    {
        let pointer = self.registers.pc as usize;
        if op == 0x00 || op == 0x10 {
            self.inc_pc();
        } else if op == 0x07 {
            let a = self.registers.a;
            let cf = a >> 7;
            let result = (a << 1) | cf;
            assert(result == rlc_val(a) && (cf == 1) == (a >= 128)) by (bit_vector)
                requires
                    cf == a >> 7,
                    result == (a << 1) | cf,
            ;
            self.registers.set_a(result);
            self.set_flags(false, false, false, cf == 1);
            self.inc_pc();
        } else if op == 0x0F {
            let a = self.registers.a;
            let cf = a << 7;
            let result = a >> 1 | cf;
            let flag_c = cf & 0b10000000 == 0b10000000;
            assert(result == rrc_val(a) && flag_c == (a % 2 == 1)) by (bit_vector)
                requires
                    cf == a << 7,
                    result == a >> 1 | cf,
                    flag_c == (cf & 0x80 == 0x80),
            ;
            self.registers.set_a(result);
            self.set_flags(false, false, false, flag_c);
            self.inc_pc();
        } else if op == 0x17 {
            let a = self.registers.a;
            let cin: u8 = if self.registers.f.c { 1 } else { 0 };
            let result = (a << 1) | cin;
            let flag_c = a & 0b10000000 == 0b10000000;
            assert(result as int == (a as int * 2) % 256 + cin as int && flag_c == (a >= 128)) by (bit_vector)
                requires
                    result == (a << 1) | cin,
                    cin <= 1,
                    flag_c == (a & 0x80 == 0x80),
            ;
            self.registers.set_a(result);
            self.set_flags(false, false, false, flag_c);
            self.inc_pc();
        } else if op == 0x1F {
            let a = self.registers.a;
            let cin: u8 = if self.registers.f.c { 0b10000000 } else { 0 };
            let result = (a >> 1) | cin;
            let flag_c = a & 0b00000001 == 0b00000001;
            assert(result as int == a as int / 2 + cin as int && flag_c == (a % 2 == 1)) by (bit_vector)
                requires
                    result == (a >> 1) | cin,
                    cin == 0 || cin == 0x80,
                    flag_c == (a & 1 == 1),
            ;
            self.registers.set_a(result);
            self.set_flags(false, false, false, flag_c);
            self.inc_pc();
        } else if op == 0x08 {
            let address = self.following_two_bytes(pointer);
            self.set_two_bytes(address);
            self.inc_pc();
        } else if op == 0x18 {
            self.jump_relative(pointer);
        } else if op == 0x27 {
            self.daa();
            self.inc_pc();
        } else if op == 0x2F {
            let value = !self.registers.a;
            let flag_z = self.registers.f.z;
            let flag_c = self.registers.f.c;
            self.registers.set_a(value);
            self.set_flags(flag_z, true, true, flag_c);
            self.inc_pc();
        } else if op == 0x37 {
            let flag_z = self.registers.f.z;
            self.set_flags(flag_z, false, false, true);
            self.inc_pc();
        } else if op == 0x3F {
            let flag_z = self.registers.f.z;
            let flag_c = !self.registers.f.c;
            self.set_flags(flag_z, false, false, flag_c);
            self.inc_pc();
        } else {
            if self.condition((op >> 3) & 3) {
                self.jump_relative(pointer);
            } else {
                self.inc_pc();
                self.inc_pc();
            }
        }
    }

    /// DAA: decimal adjustment of A.
    pub fn daa(&mut self)
        requires
            machine_wf(old(self)@),
        ensures
            final(self)@ == with_regs(old(self)@, daa_spec(old(self).registers)),
            machine_wf(final(self)@),
    {
        let was_subtract = self.registers.f.n;
        let a = self.registers.a;
        let mut bcd_adjust: u8 = 0;
        let mut flag_c = false;
        if self.registers.f.h || (!self.registers.f.n && (a & 0xf) > 9) {
            bcd_adjust = bcd_adjust | 0x6;
        }
        if self.registers.f.c || (!self.registers.f.n && a > 0x99) {
            bcd_adjust = bcd_adjust | 0x60;
            flag_c = true
        }
        proof {
            assert((a & 0xf) as int == a as int % 16) by (bit_vector);
            assert(0u8 | 0x6u8 == 6u8) by (bit_vector);
            assert(0u8 | 0x60u8 == 0x60u8) by (bit_vector);
            assert(6u8 | 0x60u8 == 0x66u8) by (bit_vector);
        }
        let result = if was_subtract { a.wrapping_sub(bcd_adjust) } else { a.wrapping_add(bcd_adjust) };
        let flag_n = self.registers.f.n;
        self.registers.set_a(result);
        self.set_flags(result == 0, flag_n, false, flag_c);
    }

    /// Opcodes 0xC0..0xFF outside the regular part (see [`step_high`]).
    fn execute_high(&mut self, op: u8)
        requires
            machine_wf(old(self)@),
            op >= 0x40,
            op != 0x76,
            op != 0xCB,
            !is_regular(op),
            op == 0xDD ==> (next_byte(old(self)@) == 0xDD || next_byte(old(self)@) == 0xD9),
        ensures
            final(self)@ == step_high(old(self)@, op),
            machine_wf(final(self)@),
    {
        if op & 7 == 7 || op == 0xC9 || op == 0xD9 || op == 0xC3 || op == 0xCD || op == 0xE9 || op & 0xF == 1
            || op & 0xF == 5 || (op < 0xE0 && (op & 7 == 0 || op & 7 == 2 || op & 7 == 4)) || op == 0xDD {
            self.execute_high_flow(op);
        } else {
            self.execute_high_misc(op);
        }
    }

    /// Jumps, calls, returns, restarts and the stack.
    fn execute_high_flow(&mut self, op: u8)
        requires
            machine_wf(old(self)@),
            op >= 0x40,
            op != 0x76,
            op != 0xCB,
            !is_regular(op),
            op == 0xDD ==> (next_byte(old(self)@) == 0xDD || next_byte(old(self)@) == 0xD9),
            op & 7 == 7 || op == 0xC9 || op == 0xD9 || op == 0xC3 || op == 0xCD || op == 0xE9 || op & 0xF == 1
                || op & 0xF == 5 || (op < 0xE0 && (op & 7 == 0 || op & 7 == 2 || op & 7 == 4)) || op == 0xDD,
        ensures
            final(self)@ == step_high(old(self)@, op),
            machine_wf(final(self)@),
    {
        let pointer = self.registers.pc as usize;
        let k = (op >> 4) & 3;
        let cc = (op >> 3) & 3;
        if op & 7 == 7 {
            let pc = self.registers.pc;
            self.push_stack(pc.wrapping_add(1));
            assert((op & 0x38) < 0x40) by (bit_vector);
            self.registers.set_pc((op & 0x38) as u16);
        } else if op == 0xC9 {
            self.ret();
        } else if op == 0xD9 {
            self.ret();
            self.registers.f.set_ime(true);
        } else if op == 0xC3 {
            let value = self.following_two_bytes(pointer);
            self.registers.set_pc(value);
        } else if op == 0xCD {
            self.call(pointer);
        } else if op == 0xE9 {
            let h_l = self.get_rr(2);
            self.registers.set_pc(h_l);
        } else if op & 0xF == 1 {
            let value = self.pop_stack();
            if k == 3 {
                self.registers.set_af(value);
            } else {
                self.set_rr(k, value);
            }
            self.inc_pc();
        } else if op & 0xF == 5 {
            let value = if k == 3 {
                let f = self.registers.get_f_as_byte();
                self.registers.combine_two_bytes(self.registers.a, f)
            } else {
                self.get_rr(k)
            };
            self.push_stack(value);
            self.inc_pc();
        } else if op < 0xE0 && op & 7 == 0 {
            if self.condition(cc) {
                self.ret();
            } else {
                self.inc_pc();
            }
        } else if op < 0xE0 && op & 7 == 2 {
            let value = self.following_two_bytes(pointer);
            if self.condition(cc) {
                self.registers.set_pc(value);
            } else {
                self.inc_pc();
            }
        } else if op < 0xE0 && op & 7 == 4 {
            if self.condition(cc) {
                self.call(pointer);
            } else {
                let _ = self.following_two_bytes(pointer);
                self.inc_pc();
            }
        } else {
            let b = self.following_byte(pointer);
            if b == 0xD9 {
                self.ret();
                self.registers.f.set_ime(true);
            }
        }
    }

    /// High-page loads, SP arithmetic, absolute loads and interrupt enable.
    fn execute_high_misc(&mut self, op: u8)
        requires
            machine_wf(old(self)@),
            op >= 0x40,
            op != 0x76,
            op != 0xCB,
            !is_regular(op),
            !(op & 7 == 7 || op == 0xC9 || op == 0xD9 || op == 0xC3 || op == 0xCD || op == 0xE9 || op & 0xF == 1
                || op & 0xF == 5 || (op < 0xE0 && (op & 7 == 0 || op & 7 == 2 || op & 7 == 4)) || op == 0xDD),
        ensures
            final(self)@ == step_high(old(self)@, op),
            machine_wf(final(self)@),
    {
        if op == 0xE0 || op == 0xF0 || op == 0xE2 || op == 0xF2 {
            self.execute_high_page(op);
        } else if op == 0xE8 || op == 0xF8 {
            self.execute_sp_offset(op);
        } else if op == 0xEA || op == 0xFA {
            let pointer = self.registers.pc as usize;
            let address = self.following_two_bytes(pointer);
            if op == 0xEA {
                self.write_memory(address, self.registers.a);
            } else {
                let value = self.read_memory(address);
                self.registers.set_a(value);
            }
            self.inc_pc();
        } else if op == 0xF3 {
            self.registers.f.set_ime(false);
            self.inc_pc();
        } else if op == 0xFB {
            self.inc_pc();
            self.registers.f.set_ime(true);
        } else if op == 0xF9 {
            let h_l = self.get_rr(2);
            self.registers.set_sp(h_l);
            self.inc_pc();
        } else {
            self.inc_pc();
        }
    }

    /// LD ($FF00+n),A / LD A,($FF00+n) / LD ($FF00+C),A / LD A,($FF00+C).
    fn execute_high_page(&mut self, op: u8)
        requires
            machine_wf(old(self)@),
            op >= 0x40,
            op != 0x76,
            op != 0xCB,
            !is_regular(op),
            !(op & 7 == 7 || op == 0xC9 || op == 0xD9 || op == 0xC3 || op == 0xCD || op == 0xE9 || op & 0xF == 1
                || op & 0xF == 5 || (op < 0xE0 && (op & 7 == 0 || op & 7 == 2 || op & 7 == 4)) || op == 0xDD),
            op == 0xE0 || op == 0xF0 || op == 0xE2 || op == 0xF2,
        ensures
            final(self)@ == step_high(old(self)@, op),
            machine_wf(final(self)@),
    {
        let pointer = self.registers.pc as usize;
        if op == 0xE0 {
            let n = self.following_byte(pointer);
            let memory_add = 0xFF00 + n as u16;
            self.write_memory(memory_add, self.registers.a);
            self.inc_pc();
        } else if op == 0xF0 {
            let n = self.following_byte(pointer);
            let value = self.read_memory(0xFF00 + n as u16);
            self.registers.set_a(value);
            self.inc_pc();
        } else if op == 0xE2 {
            self.write_memory(0xFF00 + self.registers.c as u16, self.registers.a);
            self.inc_pc();
        } else {
            let value = self.read_memory(0xFF00 + self.registers.c as u16);
            self.registers.set_a(value);
            self.inc_pc();
        }
    }

    /// ADD SP,n / LD HL,SP+n.
    fn execute_sp_offset(&mut self, op: u8)
        requires
            machine_wf(old(self)@),
            op >= 0x40,
            op != 0x76,
            op != 0xCB,
            !is_regular(op),
            !(op & 7 == 7 || op == 0xC9 || op == 0xD9 || op == 0xC3 || op == 0xCD || op == 0xE9 || op & 0xF == 1
                || op & 0xF == 5 || (op < 0xE0 && (op & 7 == 0 || op & 7 == 2 || op & 7 == 4)) || op == 0xDD),
            op == 0xE8 || op == 0xF8,
        ensures
            final(self)@ == step_high(old(self)@, op),
            machine_wf(final(self)@),
    {
        let pointer = self.registers.pc as usize;
        let n = self.following_byte(pointer);
        let sp = self.registers.sp;
        let s = n as i8;
        let value = self.registers.add_signed_number(sp, s);
        let flag_h = self.registers.check_half_carry_u16_plus_i8(sp, s, value);
        let flag_c = self.registers.check_carry_u16_plus_i8(sp, s, value);
        if op == 0xE8 {
            self.registers.set_sp(value);
        } else {
            self.registers.set_hl(value);
        }
        self.set_flags(false, false, flag_h, flag_c);
        self.inc_pc();
    }

    /// Executes `opcode`, already fetched from PC.
    pub fn execute_instruction(&mut self, opcode: u8)
        requires
            machine_wf(old(self)@),
            supported(old(self)@, opcode),
        ensures
            final(self)@ == step(old(self)@, opcode),
            machine_wf(final(self)@),
    {
        if opcode == 0xCB {
            self.execute_cb();
        } else if opcode == 0x76 {
            self.inc_pc();
        } else if is_regular_opcode(opcode) {
            self.execute_regular(opcode);
        } else if opcode < 0x40 {
            self.execute_low(opcode);
        } else {
            self.execute_high(opcode);
        }
    }
}

/// Whether the emulator runs `opcode` in the machine's state (executable form of
/// [`supported`]).
pub fn is_supported(m: &Machine, opcode: u8) -> (r: bool)
    requires
        machine_wf(m@),
    ensures
        r == supported(m@, opcode),
{
    if opcode == 0xDB || opcode == 0xE3 || opcode == 0xE4 || opcode == 0xEB || opcode == 0xEC || opcode
        == 0xED || opcode == 0xFC {
        return false;
    }
    if opcode == 0xDD {
        let b = m.read_memory(m.registers.pc.wrapping_add(1));
        return b == 0xDD || b == 0xD9;
    }
    true
}

} // verus!
