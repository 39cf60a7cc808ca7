//! Properties that hold across the operations of the emulator.

use vstd::prelude::*;
use crate::registers::{
    add_signed, Registers, Flag, word, hi_byte, lo_byte, add8, sub8, add16, sub16, f_byte, rlc_val, rrc_val,
    rl_val, rr_val, swap_val, bit_spec, bit_mask,
};
use crate::machine::{
    MachineModel, machine_wf, bus_read, bus_write, push, pop_state, pop_value, get_r8, set_r8,
    lemma_bus_write_frame, lemma_bus_read_regs, lemma_bus_write_regs, next_byte, next_word,
};
use crate::cpu::{step, pop_into, push_value, get_rr};
use crate::gameboy::{
    pending, service_spec, set_lcd_status_spec, GameboyModel, gameboy_wf, mem, inc_ly_spec, interrupt_spec, key_pressed_spec, with_break_point,
    without_break_point,
};
use crate::render::compose_spec;
use crate::sound::square1_spec;
use crate::emulator::{save_spec, restored_from, loadable};

verus! {

broadcast use {lemma_bus_write_frame, lemma_bus_read_regs};

/// An address whose reads and writes go straight to the address space: video RAM,
/// work RAM and its echo, OAM, and the high page except P1 (0xFF00) and LY (0xFF44).
pub open spec fn plain_address(addr: u16) -> bool {
    (0x8000 <= addr < 0xA000) || (0xC000 <= addr < 0xFEA0) || (0xFEFF <= addr && addr != 0xFF00 && addr
        != 0xFF44)
}

/// Splitting a word into bytes and joining them gives the word back, and the other
/// way round.
pub proof fn law_word_bytes_roundtrip(v: u16, hi: u8, lo: u8)
    ensures
        word(hi_byte(v), lo_byte(v)) == v,
        hi_byte(word(hi, lo)) == hi,
        lo_byte(word(hi, lo)) == lo,
{
}

/// A read of a plain address returns what was last written there.
pub proof fn law_read_after_write(m: MachineModel, addr: u16, value: u8)
    requires
        machine_wf(m),
        plain_address(addr),
    ensures
        bus_read(bus_write(m, addr, value), addr) == value,
{
    reveal(bus_read);
    reveal(bus_write);
}

/// A write to a plain address leaves every other address reading as before.
pub proof fn law_write_leaves_other_addresses(m: MachineModel, addr: u16, value: u8, other: u16)
    requires
        machine_wf(m),
        plain_address(addr),
        other != addr,
    ensures
        bus_read(bus_write(m, addr, value), other) == bus_read(m, other),
{
    reveal(bus_read);
    reveal(bus_write);
}

/// With cartridge RAM enabled, a read of 0xA000..0xBFFF returns what was last written
/// there.
pub proof fn law_cartridge_ram_roundtrip(m: MachineModel, addr: u16, value: u8)
    requires
        machine_wf(m),
        m.ram_enabled,
        0xA000 <= addr < 0xC000,
    ensures
        bus_read(bus_write(m, addr, value), addr) == value,
{
    reveal(bus_read);
    reveal(bus_write);
}

/// No write selects ROM bank 0 or a RAM bank above 3: the controller state stays well
/// formed.
pub proof fn law_bank_selection_stays_valid(m: MachineModel, addr: u16, value: u8)
    requires
        machine_wf(m),
    ensures
        bus_write(m, addr, value).rom_bank != 0,
        bus_write(m, addr, value).ram_bank <= 3,
        machine_wf(bus_write(m, addr, value)),
{
    lemma_bus_write_frame(m, addr, value);
}

/// Popping right after a push returns the pushed word and restores SP, when the two
/// stack bytes are plain addresses.
pub proof fn law_push_then_pop(m: MachineModel, v: u16)
    requires
        machine_wf(m),
        plain_address(sub16(m.regs.sp as int, 1)),
        plain_address(sub16(m.regs.sp as int, 2)),
    ensures
        pop_value(push(m, v)) == v,
        pop_state(push(m, v)).regs == m.regs,
{
    reveal(bus_read);
    reveal(bus_write);
    let sp1 = sub16(m.regs.sp as int, 1);
    let sp2 = sub16(sp1 as int, 1);
    assert(sp2 == sub16(m.regs.sp as int, 2));
    assert(add16(sp2 as int, 1) == sp1);
    assert(add16(sp1 as int, 1) == m.regs.sp);
}

/// A call followed by a return comes back to the instruction after the call (PC + 3)
/// with SP restored, when the two stack bytes are plain addresses.
#[verifier::spinoff_prover]
#[verifier::rlimit(30)]
pub proof fn law_call_then_return(m: MachineModel)
    requires
        machine_wf(m),
        plain_address(sub16(m.regs.sp as int, 1)),
        plain_address(sub16(m.regs.sp as int, 2)),
    ensures
        step(step(m, 0xCD), 0xC9).regs.pc == add16(m.regs.pc as int, 3),
        step(step(m, 0xCD), 0xC9).regs.sp == m.regs.sp,
{
    lemma_decode_facts(0xCD);
    lemma_decode_facts(0xC9);
    let m1 = crate::machine::skip_word(m);
    let ret_addr = add16(m1.regs.pc as int, 1);
    let pushed = push(m1, ret_addr);
    let m2 = crate::cpu::set_pc(pushed, crate::machine::next_word(m));
    lemma_step_call(m);
    lemma_step_ret(m2);
    assert(crate::cpu::call(m) == m2);
    law_push_then_pop(m1, ret_addr);
    lemma_pop_depends_on_stack(pushed, m2);
    assert(pop_value(m2) == ret_addr);
    assert(pop_state(m2).regs.sp == m.regs.sp);
}

/// CALL nn is the call of the word after it.
proof fn lemma_step_call(m: MachineModel)
    ensures
        step(m, 0xCD) == crate::cpu::call(m),
{
    lemma_decode_facts(0xCD);
}

/// RET pops PC.
proof fn lemma_step_ret(m: MachineModel)
    ensures
        step(m, 0xC9) == crate::cpu::ret(m),
{
    lemma_decode_facts(0xC9);
}

/// A pop reads and changes only the stack part of the state: two states that differ
/// only in PC pop the same word and leave SP the same.
proof fn lemma_pop_depends_on_stack(a: MachineModel, b: MachineModel)
    requires
        b == crate::machine::with_regs(a, Registers { pc: b.regs.pc, ..a.regs }),
    ensures
        pop_value(b) == pop_value(a),
        pop_state(b).regs == (Registers { pc: b.regs.pc, ..pop_state(a).regs }),
{
    let sp = a.regs.sp;
    let rb = b.regs;
    lemma_bus_write_regs(a, rb, sp, 0);
    let a1 = bus_write(a, sp, 0);
    let sp1 = add16(sp as int, 1);
    let ra2 = Registers { sp: sp1, ..a1.regs };
    let rb2 = Registers { sp: sp1, ..rb };
    lemma_bus_write_regs(crate::machine::with_regs(a1, ra2), rb2, sp1, 0);
}

/// PUSH for pair `k` (BC, DE, HL, AF).
pub open spec fn push_opcode(k: u8) -> u8 {
    if k == 0 { 0xC5 } else if k == 1 { 0xD5 } else if k == 2 { 0xE5 } else { 0xF5 }
}

/// POP for pair `k` (BC, DE, HL, AF).
pub open spec fn pop_opcode(k: u8) -> u8 {
    if k == 0 { 0xC1 } else if k == 1 { 0xD1 } else if k == 2 { 0xE1 } else { 0xF1 }
}

/// How the opcodes used by these properties decode.
proof fn lemma_decode_facts(op: u8)
    by (bit_vector)
    ensures
        op == 0xCD ==> op & 7 == 5 && op & 0xF == 0xD,
        op == 0xC9 ==> op & 7 == 1 && op & 0xF == 9,
        op == 0xC5 ==> op & 7 == 5 && op & 0xF == 5 && (op >> 4u8) & 3 == 0,
        op == 0xD5 ==> op & 7 == 5 && op & 0xF == 5 && (op >> 4u8) & 3 == 1,
        op == 0xE5 ==> op & 7 == 5 && op & 0xF == 5 && (op >> 4u8) & 3 == 2,
        op == 0xF5 ==> op & 7 == 5 && op & 0xF == 5 && (op >> 4u8) & 3 == 3,
        op == 0xC1 ==> op & 7 == 1 && op & 0xF == 1 && (op >> 4u8) & 3 == 0,
        op == 0xD1 ==> op & 7 == 1 && op & 0xF == 1 && (op >> 4u8) & 3 == 1,
        op == 0xE1 ==> op & 7 == 1 && op & 0xF == 1 && (op >> 4u8) & 3 == 2,
        op == 0xF1 ==> op & 7 == 1 && op & 0xF == 1 && (op >> 4u8) & 3 == 3,
        op == 0xF3 ==> op & 7 == 3 && op & 0xF == 3,
        op == 0xFB ==> op & 7 == 3 && op & 0xF == 0xB,
        op == 0xD9 ==> op & 7 == 1 && op & 0xF == 9,
        op == 0xDD ==> op & 7 == 5 && op & 0xF == 0xD,
        op == 0xCB ==> op & 7 == 3,
        op == 0x20 ==> op & 7 == 0 && op & 0xF == 0 && (op >> 3u8) & 3 == 0,
        op == 0x28 ==> op & 7 == 0 && op & 0xF == 8 && (op >> 3u8) & 3 == 1,
        op == 0x30 ==> op & 7 == 0 && op & 0xF == 0 && (op >> 3u8) & 3 == 2,
        op == 0x38 ==> op & 7 == 0 && op & 0xF == 8 && (op >> 3u8) & 3 == 3,
        op == 0xC2 ==> op & 7 == 2 && op & 0xF == 2 && (op >> 3u8) & 3 == 0,
        op == 0xCA ==> op & 7 == 2 && op & 0xF == 0xA && (op >> 3u8) & 3 == 1,
        op == 0xD2 ==> op & 7 == 2 && op & 0xF == 2 && (op >> 3u8) & 3 == 2,
        op == 0xDA ==> op & 7 == 2 && op & 0xF == 0xA && (op >> 3u8) & 3 == 3,
        op == 0xD0 ==> op & 7 == 0 && op & 0xF == 0 && (op >> 3u8) & 3 == 2,
        op == 0xD8 ==> op & 7 == 0 && op & 0xF == 8 && (op >> 3u8) & 3 == 3,
        op == 0xD4 ==> op & 7 == 4 && op & 0xF == 4 && (op >> 3u8) & 3 == 2,
        op == 0xDC ==> op & 7 == 4 && op & 0xF == 0xC && (op >> 3u8) & 3 == 3,
{
}

/// PUSH rr followed by POP rr restores every register (AF included) and moves PC past
/// both instructions, when the two stack bytes are plain addresses.
pub proof fn law_push_then_pop_pair(m: MachineModel, k: u8)
    requires
        machine_wf(m),
        k < 4,
        plain_address(sub16(m.regs.sp as int, 1)),
        plain_address(sub16(m.regs.sp as int, 2)),
    ensures
        step(step(m, push_opcode(k)), pop_opcode(k)).regs == (Registers { pc: add16(m.regs.pc as int, 2), ..m.regs }),
{
    lemma_decode_facts(push_opcode(k));
    lemma_decode_facts(pop_opcode(k));
    let v = push_value(m.regs, k);
    let m1 = crate::machine::inc_pc(push(m, v));
    law_push_then_pop(m, v);
    lemma_pop_depends_on_stack(push(m, v), m1);
    let r = m.regs;
    lemma_f_byte_bits(r.f);
    law_word_bytes_roundtrip(v, r.a, f_byte(r.f));
    law_word_bytes_roundtrip(v, r.b, r.c);
    law_word_bytes_roundtrip(v, r.d, r.e);
    law_word_bytes_roundtrip(v, r.h, r.l);
    assert(pop_value(m1) == v);
    let p = pop_state(m1).regs;
    assert(p == (Registers { pc: m1.regs.pc, ..m.regs }));
    assert(m1.regs.pc == add16(m.regs.pc as int, 1));
    let q = pop_into(p, k, v);
    if k == 3 {
        assert(v == word(r.a, f_byte(r.f)));
        assert(q == (Registers { pc: m1.regs.pc, ..m.regs }));
    } else {
        assert(v == get_rr(r, k));
        assert(q == (Registers { pc: m1.regs.pc, ..m.regs }));
    }
    assert(step(m, push_opcode(k)) == m1);
    assert(step(m1, pop_opcode(k)).regs == crate::machine::inc_pc(crate::machine::with_regs(pop_state(m1), q)).regs);
}

/// The bits of the F byte are the flags.
proof fn lemma_f_byte_bits(f: Flag)
    ensures
        (f_byte(f) & 0x80 == 0x80) == f.z,
        (f_byte(f) & 0x40 == 0x40) == f.n,
        (f_byte(f) & 0x20 == 0x20) == f.h,
        (f_byte(f) & 0x10 == 0x10) == f.c,
{
    let z = f.z;
    let n = f.n;
    let h = f.h;
    let c = f.c;
    let b = f_byte(f);
    assert(b == (if z { 128u8 } else { 0u8 }) + (if n { 64u8 } else { 0u8 }) + (if h { 32u8 } else { 0u8 }) + (if c {
        16u8
    } else {
        0u8
    }));
    assert(((b & 0x80 == 0x80) == z) && ((b & 0x40 == 0x40) == n) && ((b & 0x20 == 0x20) == h) && ((b & 0x10
        == 0x10) == c)) by (bit_vector)
        requires
            b == (if z { 128u8 } else { 0u8 }) + (if n { 64u8 } else { 0u8 }) + (if h { 32u8 } else { 0u8 }) + (if c {
                16u8
            } else {
                0u8
            }),
    ;
}

/// INC r followed by DEC r gives the register its value back.
pub proof fn law_inc_then_dec(x: u8)
    ensures
        sub8(add8(x as int, 1) as int, 1) == x,
        add8(sub8(x as int, 1) as int, 1) == x,
{
}

/// RRC undoes RLC, RR undoes RL (with the carry RL produced), and SWAP is its own
/// inverse.
pub proof fn law_rotations_invert(x: u8, c: bool)
    ensures
        rrc_val(rlc_val(x)) == x,
        rlc_val(rrc_val(x)) == x,
        rr_val(rl_val(x, c), x >= 128) == x,
        swap_val(swap_val(x)) == x,
{
    let xi = x as int;
    let cc: int = if c { 1 } else { 0 };
    let hi: int = if x >= 128 { 1 } else { 0 };
    assert(xi == 128 * hi + xi % 128 && xi / 128 == hi && (xi * 2) % 256 == 2 * (xi % 128)) by (nonlinear_arith)
        requires
            0 <= xi < 256,
            hi == if xi >= 128 { 1int } else { 0 },
    ;
    assert(xi == 2 * (xi / 2) + xi % 2 && xi / 2 < 128) by (nonlinear_arith)
        requires
            0 <= xi < 256,
    ;
    assert(xi == 16 * (xi / 16) + xi % 16 && xi / 16 < 16) by (nonlinear_arith)
        requires
            0 <= xi < 256,
    ;
    let l = rlc_val(x) as int;
    assert(l == 2 * (xi % 128) + hi);
    assert(l / 2 == xi % 128 && l % 2 == hi) by (nonlinear_arith)
        requires
            l == 2 * (xi % 128) + hi,
            0 <= hi <= 1,
            0 <= xi % 128 < 128,
    ;
    let rr = rrc_val(x) as int;
    assert(rr == xi / 2 + (xi % 2) * 128);
    assert((rr * 2) % 256 == 2 * (xi / 2) && rr / 128 == xi % 2) by (nonlinear_arith)
        requires
            rr == xi / 2 + (xi % 2) * 128,
            0 <= xi / 2 < 128,
            0 <= xi % 2 <= 1,
    ;
    let rl = rl_val(x, c) as int;
    assert(rl == 2 * (xi % 128) + cc);
    assert(rl / 2 == xi % 128) by (nonlinear_arith)
        requires
            rl == 2 * (xi % 128) + cc,
            0 <= cc <= 1,
    ;
    let sw = swap_val(x) as int;
    assert(sw == (xi % 16) * 16 + xi / 16);
    assert(sw % 16 == xi / 16 && sw / 16 == xi % 16) by (nonlinear_arith)
        requires
            sw == (xi % 16) * 16 + xi / 16,
            0 <= xi / 16 < 16,
            0 <= xi % 16 < 16,
    ;
}

/// After SET b the bit tests as set, after RES b as clear.
pub proof fn law_set_res_then_bit(r: Registers, b: u8, x: u8)
    requires
        b < 8,
    ensures
        !bit_spec(r, b, x | bit_mask(b)).f.z,
        bit_spec(r, b, x & !bit_mask(b)).f.z,
{
    assert(((x | (1u8 << b)) >> b) & 1 != 0 && ((x & !(1u8 << b)) >> b) & 1 == 0) by (bit_vector)
        requires
            b < 8,
    ;
}

/// LY never leaves 0..=153 once inside it.
pub proof fn law_ly_stays_in_range(g: GameboyModel)
    requires
        gameboy_wf(g),
        mem(g, 0xff44) <= 153,
    ensures
        mem(inc_ly_spec(g), 0xff44) <= 153,
{
}

/// With IME clear, interrupt handling changes nothing but the HALT state.
pub proof fn law_no_interrupt_without_ime(g: GameboyModel)
    requires
        !g.machine.regs.f.ime,
    ensures
        interrupt_spec(g) == (GameboyModel { is_halt: interrupt_spec(g).is_halt, ..g }),
{
}

/// Releasing a key after pressing it sets the key's bits in the joypad state again; a
/// key that was released before is back where it was.
pub proof fn law_press_then_release(g: GameboyModel, key: u8)
    ensures
        (key_pressed_spec(g, key).machine.joypad | key) == (g.machine.joypad | key),
        g.machine.joypad & key == key ==> (key_pressed_spec(g, key).machine.joypad | key) == g.machine.joypad,
{
    let j = g.machine.joypad;
    assert(((j & !key) | key) == (j | key) && (j & key == key ==> (j | key) == j)) by (bit_vector);
}

/// Over a sprite layer with no sprite pixel (all white), the composed screen is the
/// screen.
pub proof fn law_blank_layer_shows_screen(screen: Seq<u8>, layer: Seq<u8>)
    requires
        screen.len() == layer.len(),
        screen.len() % 4 == 0,
        forall|i: int| 0 <= i < layer.len() ==> layer[i] == 255,
    ensures
        compose_spec(screen, layer) == screen,
{
    assert forall|k: int| 0 <= k < screen.len() implies compose_spec(screen, layer)[k] == screen[k] by {
        let base = k - k % 4;
        assert(base + 2 < layer.len());
    }
    assert(compose_spec(screen, layer) =~= screen);
}

/// Every console's saved state can be restored over its own cartridge: the saved
/// address space is 64 KiB with a supported cartridge type, and the cartridge image
/// covers that type's banks.
pub proof fn law_saved_state_is_restorable(g: GameboyModel)
    requires
        gameboy_wf(g),
    ensures
        loadable(save_spec(g).memory, g.machine.cartridge),
{
}

/// Restoring a saved console over its own cartridge gives back its registers, address
/// space, cycle counters, timer values and break points, with the console stopped and
/// the cartridge controller reset: saving the restored console gives the same saved
/// state, and the restored console is well formed.
pub proof fn law_restore_after_save(g: GameboyModel, r: GameboyModel)
    requires
        gameboy_wf(g),
        restored_from(r, save_spec(g), g.machine.cartridge),
    ensures
        save_spec(r) == save_spec(g),
        r.machine.regs == g.machine.regs,
        r.machine.memory == g.machine.memory,
        r.machine.cartridge == g.machine.cartridge,
        r.break_points == g.break_points,
        r.total_cycle_num == g.total_cycle_num,
        r.vram_cycle_num == g.vram_cycle_num,
        r.timer_cycle_num == g.timer_cycle_num,
        r.timer == g.timer,
        r.cpu_clock == g.cpu_clock,
        !r.is_running,
        !r.cpu_paused,
        !r.is_halt,
        r.machine.rom_bank == 1,
        r.machine.ram_bank == 0,
        !r.machine.ram_enabled,
        gameboy_wf(r),
{
}

/// Adding a break point makes it one and removing it makes it none, leaving every
/// other address as it was; adding never lists an address twice.
pub proof fn law_break_point_set(points: Seq<u16>, point: u16, other: u16)
    requires
        other != point,
    ensures
        with_break_point(points, point).contains(point),
        !without_break_point(points, point).contains(point),
        with_break_point(points, point).contains(other) == points.contains(other),
        without_break_point(points, point).contains(other) == points.contains(other),
        points.no_duplicates() ==> with_break_point(points, point).no_duplicates(),
{
    let pred = crate::gameboy::other_than(point);
    broadcast use vstd::seq_lib::group_filter_ensures;
    let added = with_break_point(points, point);
    if !points.contains(point) {
        assert(added[points.len() as int] == point);
        if points.contains(other) {
            let i = choose|i: int| 0 <= i < points.len() && points[i] == other;
            assert(added[i] == other);
        }
        if added.contains(other) {
            let i = choose|i: int| 0 <= i < added.len() && added[i] == other;
            assert(points[i] == other);
        }
    }
    if without_break_point(points, point).contains(point) {
        points.lemma_filter_contains_rev(pred, point);
        let i = choose|i: int| 0 <= i < points.filter(pred).len() && points.filter(pred)[i] == point;
        assert(pred(points.filter(pred)[i]));
    }
    if without_break_point(points, point).contains(other) {
        points.lemma_filter_contains_rev(pred, other);
    }
    if points.contains(other) {
        let i = choose|i: int| 0 <= i < points.len() && points[i] == other;
        assert(pred(points[i]));
    }
}

/// Only DI, EI, RETI and the 0xDD form of RETI change the interrupt master enable
/// flag: DI clears it, EI and RETI set it, and 0xDD either sets it or leaves it.
pub proof fn law_ime_only_by_di_ei_reti(m: MachineModel, op: u8)
    ensures
        !(op == 0xF3 || op == 0xFB || op == 0xD9 || op == 0xDD) ==> step(m, op).regs.f.ime == m.regs.f.ime,
        op == 0xF3 ==> !step(m, op).regs.f.ime,
        op == 0xFB || op == 0xD9 ==> step(m, op).regs.f.ime,
        op == 0xDD ==> step(m, op).regs.f.ime == m.regs.f.ime || step(m, op).regs.f.ime,
{
    lemma_decode_facts(op);
    if op == 0xCB {
        lemma_ime_cb(m);
    } else if op == 0x76 {
    } else if crate::cpu::is_regular(op) {
        lemma_ime_regular(m, op);
    } else if op < 0x40 {
        lemma_ime_low(m, op);
    } else {
        lemma_ime_high(m, op);
    }
}

/// A store into an 8-bit operand leaves the flag register as it is.
proof fn lemma_set_r8_flags(m: MachineModel, k: u8, v: u8)
    ensures
        set_r8(m, k, v).regs.f == m.regs.f,
{
}

/// The arithmetic unit leaves IME as it is.
proof fn lemma_alu_ime(op: u8, r: Registers, n: u8)
    ensures
        crate::registers::alu_spec(op, r, n).f.ime == r.f.ime,
{
}

/// The CB-prefixed instructions leave IME as it is.
proof fn lemma_ime_cb(m: MachineModel)
    ensures
        step(m, 0xCB).regs.f.ime == m.regs.f.ime,
{
    let b = crate::machine::next_byte(m);
    let m1 = crate::machine::inc_pc(m);
    let k = b & 7;
    let op = (b >> 3u8) & 7;
    let x = get_r8(m1, k);
    let (v, c) = crate::registers::shift_spec(op, x, m1.regs.f.c);
    lemma_set_r8_flags(m1, k, v);
    lemma_set_r8_flags(m1, k, x & !bit_mask(op));
    lemma_set_r8_flags(m1, k, x | bit_mask(op));
}

/// The regularly encoded instructions leave IME as it is.
proof fn lemma_ime_regular(m: MachineModel, op: u8)
    requires
        crate::cpu::is_regular(op),
        op != 0x76,
    ensures
        step(m, op).regs.f.ime == m.regs.f.ime,
{
    let m1 = crate::machine::inc_pc(m);
    let k = (op >> 3u8) & 7;
    lemma_alu_ime(k, m.regs, get_r8(m, op & 7));
    lemma_alu_ime(k, m1.regs, crate::machine::next_byte(m));
    lemma_set_r8_flags(m, k, get_r8(m, op & 7));
    let x = get_r8(m, k);
    lemma_set_r8_flags(m, k, add8(x as int, 1));
    lemma_set_r8_flags(m, k, sub8(x as int, 1));
    lemma_set_r8_flags(m1, k, crate::machine::next_byte(m));
    lemma_decode_facts(op);
}

/// The instructions 0x00..0x3F outside the regular part leave IME as it is.
proof fn lemma_ime_low(m: MachineModel, op: u8)
    requires
        op < 0x40,
        !crate::cpu::is_regular(op),
    ensures
        step(m, op).regs.f.ime == m.regs.f.ime,
{
    assert(op != 0xCB && op != 0x76);
}

/// The instructions 0xC0..0xFF outside the regular part leave IME as it is, but for DI,
/// EI, RETI and 0xDD.
proof fn lemma_ime_high(m: MachineModel, op: u8)
    requires
        op >= 0x40,
        !crate::cpu::is_regular(op),
        op != 0xCB,
        op != 0x76,
    ensures
        !(op == 0xF3 || op == 0xFB || op == 0xD9 || op == 0xDD) ==> step(m, op).regs.f.ime == m.regs.f.ime,
        op == 0xF3 ==> !step(m, op).regs.f.ime,
        op == 0xFB || op == 0xD9 ==> step(m, op).regs.f.ime,
        op == 0xDD ==> step(m, op).regs.f.ime == m.regs.f.ime || step(m, op).regs.f.ime,
{
    assert(op >= 0xC0);
    lemma_decode_facts(op);
    let k = (op >> 4u8) & 3;
    assert(pop_into(pop_state(m).regs, k, pop_value(m)).f.ime == pop_state(m).regs.f.ime);
}

/// A write of 0x2000..0x3FFF on MBC1 or MBC2 selects a nonzero ROM bank: on MBC2 the
/// value's low nibble, on MBC1 the value's low five bits under the bank's top three
/// bits; a selection of 0 becomes 1.
pub proof fn law_low_rom_bank_write(m: MachineModel, addr: u16, data: u8)
    requires
        0x2000 <= addr < 0x4000,
        m.mbc == 1 || m.mbc == 2,
    ensures
        bus_write(m, addr, data).rom_bank != 0,
        m.mbc == 2 ==> bus_write(m, addr, data).rom_bank == (if data & 0x0F == 0 { 1u8 } else { data & 0x0F }),
        m.mbc == 1 ==> bus_write(m, addr, data).rom_bank == (if (m.rom_bank & 0xE0) | (data & 0x1F) == 0 {
            1u8
        } else {
            (m.rom_bank & 0xE0) | (data & 0x1F)
        }),
{
    reveal(bus_write);
}

/// The ROM bank rules of the controller: the low-bits update (MBC2: the value's low
/// nibble; MBC1: the value's low five bits under the bank's top three bits) and the
/// high-bits update (the value's top three bits over the bank's low five bits) each
/// turn a selection of 0 into 1, so a nonzero bank stays nonzero.
pub proof fn law_rom_bank_rules(m: MachineModel, data: u8)
    ensures
        crate::machine::change_lo_rom_bank_spec(m, data).rom_bank != 0,
        crate::machine::change_hi_rom_bank_spec(m, data).rom_bank != 0,
        m.mbc == 2 ==> crate::machine::change_lo_rom_bank_spec(m, data).rom_bank == (if data & 0x0F == 0 {
            1u8
        } else {
            data & 0x0F
        }),
        m.mbc != 2 ==> crate::machine::change_lo_rom_bank_spec(m, data).rom_bank == (if (m.rom_bank & 0xE0) | (data
            & 0x1F) == 0 {
            1u8
        } else {
            (m.rom_bank & 0xE0) | (data & 0x1F)
        }),
        crate::machine::change_hi_rom_bank_spec(m, data).rom_bank == (if (m.rom_bank & 0x1F) | (data & 0xE0) == 0 {
            1u8
        } else {
            (m.rom_bank & 0x1F) | (data & 0xE0)
        }),
{
}

/// Conditional relative jumps follow the flags: JR NZ is taken when Z is clear, JR Z
/// when Z is set, JR NC when C is clear and JR C when C is set. A taken jump moves PC
/// past its two bytes and then by the signed offset; otherwise PC moves past the two
/// bytes.
#[verifier::spinoff_prover]
pub proof fn law_conditional_relative_jumps(m: MachineModel)
    ensures
        step(m, 0x20).regs.pc == (if !m.regs.f.z {
            add_signed(add16(m.regs.pc as int, 2), next_byte(m) as i8)
        } else {
            add16(m.regs.pc as int, 2)
        }),
        step(m, 0x28).regs.pc == (if m.regs.f.z {
            add_signed(add16(m.regs.pc as int, 2), next_byte(m) as i8)
        } else {
            add16(m.regs.pc as int, 2)
        }),
        step(m, 0x30).regs.pc == (if !m.regs.f.c {
            add_signed(add16(m.regs.pc as int, 2), next_byte(m) as i8)
        } else {
            add16(m.regs.pc as int, 2)
        }),
        step(m, 0x38).regs.pc == (if m.regs.f.c {
            add_signed(add16(m.regs.pc as int, 2), next_byte(m) as i8)
        } else {
            add16(m.regs.pc as int, 2)
        }),
{
    lemma_jr_cc(m, 0x20);
    lemma_jr_cc(m, 0x28);
    lemma_jr_cc(m, 0x30);
    lemma_jr_cc(m, 0x38);
}

/// Conditional absolute jumps and calls follow the flags (NZ: Z clear, Z: Z set, NC: C
/// clear, C: C set): when taken PC becomes the operand word, otherwise PC moves past the
/// three bytes.
#[verifier::spinoff_prover]
pub proof fn law_conditional_jumps_and_calls(m: MachineModel)
    ensures
        step(m, 0xC2).regs.pc == (if !m.regs.f.z { next_word(m) } else { add16(m.regs.pc as int, 3) }),
        step(m, 0xCA).regs.pc == (if m.regs.f.z { next_word(m) } else { add16(m.regs.pc as int, 3) }),
        step(m, 0xD2).regs.pc == (if !m.regs.f.c { next_word(m) } else { add16(m.regs.pc as int, 3) }),
        step(m, 0xDA).regs.pc == (if m.regs.f.c { next_word(m) } else { add16(m.regs.pc as int, 3) }),
        step(m, 0xD4).regs.pc == (if !m.regs.f.c { next_word(m) } else { add16(m.regs.pc as int, 3) }),
        step(m, 0xDC).regs.pc == (if m.regs.f.c { next_word(m) } else { add16(m.regs.pc as int, 3) }),
{
    lemma_high_cc(m, 0xC2);
    lemma_high_cc(m, 0xCA);
    lemma_high_cc(m, 0xD2);
    lemma_high_cc(m, 0xDA);
    lemma_high_cc(m, 0xD4);
    lemma_high_cc(m, 0xDC);
}

/// RET NC returns (PC takes the popped word) when C is clear and RET C when C is set;
/// otherwise PC moves past the instruction.
#[verifier::spinoff_prover]
pub proof fn law_conditional_returns(m: MachineModel)
    ensures
        step(m, 0xD0).regs.pc == (if !m.regs.f.c { pop_value(m) } else { add16(m.regs.pc as int, 1) }),
        step(m, 0xD8).regs.pc == (if m.regs.f.c { pop_value(m) } else { add16(m.regs.pc as int, 1) }),
{
    lemma_high_cc(m, 0xD0);
    lemma_high_cc(m, 0xD8);
}

/// JR cc as the step computes it, for one of the four opcodes.
proof fn lemma_jr_cc(m: MachineModel, op: u8)
    requires
        op == 0x20 || op == 0x28 || op == 0x30 || op == 0x38,
    ensures
        step(m, op) == (if crate::cpu::condition(m.regs, (op >> 3u8) & 3) {
            crate::cpu::jump_relative(m)
        } else {
            crate::machine::inc_pc(crate::machine::inc_pc(m))
        }),
        (op >> 3u8) & 3 == (if op == 0x20 { 0u8 } else if op == 0x28 { 1u8 } else if op == 0x30 { 2u8 } else { 3u8 }),
        crate::machine::inc_pc(crate::machine::inc_pc(m)).regs.pc == add16(m.regs.pc as int, 2),
        crate::cpu::jump_relative(m).regs.pc == add_signed(add16(m.regs.pc as int, 2), next_byte(m) as i8),
{
    lemma_decode_facts(op);
}

/// JP cc, CALL cc and RET cc as the step computes them, for the opcodes of the law.
proof fn lemma_high_cc(m: MachineModel, op: u8)
    requires
        op == 0xC2 || op == 0xCA || op == 0xD2 || op == 0xDA || op == 0xD4 || op == 0xDC || op == 0xD0
            || op == 0xD8,
    ensures
        (op >> 3u8) & 3 == (if op == 0xC2 { 0u8 } else if op == 0xCA { 1u8 } else if op == 0xD2 || op == 0xD4
            || op == 0xD0 { 2u8 } else { 3u8 }),
        (op & 7 == 2) ==> step(m, op).regs.pc == (if crate::cpu::condition(m.regs, (op >> 3u8) & 3) {
            next_word(m)
        } else {
            add16(m.regs.pc as int, 3)
        }),
        (op & 7 == 4) ==> step(m, op).regs.pc == (if crate::cpu::condition(m.regs, (op >> 3u8) & 3) {
            next_word(m)
        } else {
            add16(m.regs.pc as int, 3)
        }),
        (op & 7 == 0) ==> step(m, op).regs.pc == (if crate::cpu::condition(m.regs, (op >> 3u8) & 3) {
            pop_value(m)
        } else {
            add16(m.regs.pc as int, 1)
        }),
        (op & 7 == 2 || op & 7 == 4) == (op != 0xD0 && op != 0xD8),
        (op & 7 == 2) == (op == 0xC2 || op == 0xCA || op == 0xD2 || op == 0xDA),
        (op & 7 == 4) == (op == 0xD4 || op == 0xDC),
        (op & 7 == 0) == (op == 0xD0 || op == 0xD8),
{
    lemma_decode_facts(op);
    assert(!crate::cpu::is_regular(op));
}

/// Facts about the bits of bytes used by the laws below.
proof fn lemma_byte_facts(x: u8, y: u8)
    by (bit_vector)
    ensures
        x & 0x07 == x % 8,
        x & 0x03 == x % 4,
        x & 0x3F == x % 64,
        (x & 0xF0) >> 4u8 == x / 16,
        x & 0x70 == (x / 16) % 8 * 16,
        (x & 0x08 == 0x08) == ((x / 8) % 2 == 1),
        (x & 0x80 == 0x80) == (x >= 128),
        (x & 0x40 == 0x40) == ((x / 64) % 2 == 1),
        (x | 2) & 2 == 2,
        ((x | 1) & 0xFD) & 0x10 == x & 0x10,
        ((x | 2) & 0xFE) & 0x20 == x & 0x20,
        (x & 0xFC) & 0x08 == x & 0x08,
        ((x | 1) & 0xFD) & 0x40 == x & 0x40,
        ((x | 2) & 0xFE) & 0x40 == x & 0x40,
        (x & 0xFC) & 0x40 == x & 0x40,
        (x | 3) & 0x40 == x & 0x40,
        (x | 4) & 0x40 == x & 0x40,
        (x | 4) & 0x04 == 0x04,
        (x & 0xFB) & 0x40 == x & 0x40,
        x & 0x78 == 0 ==> x & 0x40 == 0 && x & 0x10 == 0 && x & 0x20 == 0 && x & 0x08 == 0,
        (((x as u16) << 3u16) | ((y & 0x07) as u16)) as int == x as int * 8 + y as int % 8,
{
}

/// Channel 1 decodes field by field: the sweep time selector is NR10 bits 6..4, the
/// sweep direction bit 3 and the sweep shift bits 2..0; the length is NR11 bits 5..0;
/// the volume is NR12 bits 7..4, the envelope direction bit 3 and the envelope step
/// count bits 2..0; the frequency value is NR13 times 8 plus NR14 bits 2..0; NR14 bit 7
/// restarts and bit 6 enables the length.
pub proof fn law_square1_fields(nr10: u8, nr11: u8, nr12: u8, nr13: u8, nr14: u8)
    ensures
        square1_spec(nr10, nr11, nr12, nr13, nr14).sweep_time_raw == (nr10 / 16) % 8 * 16,
        square1_spec(nr10, nr11, nr12, nr13, nr14).is_sweep_increase == ((nr10 / 8) % 2 == 1),
        square1_spec(nr10, nr11, nr12, nr13, nr14).sweep_shift_num == nr10 % 8,
        square1_spec(nr10, nr11, nr12, nr13, nr14).sound_length_raw == nr11 % 64,
        square1_spec(nr10, nr11, nr12, nr13, nr14).volume == nr12 / 16,
        square1_spec(nr10, nr11, nr12, nr13, nr14).is_envelop_increase == ((nr12 / 8) % 2 == 1),
        square1_spec(nr10, nr11, nr12, nr13, nr14).envelop_shift_num == nr12 % 8,
        square1_spec(nr10, nr11, nr12, nr13, nr14).fr == nr13 as int * 8 + nr14 as int % 8,
        square1_spec(nr10, nr11, nr12, nr13, nr14).is_restart == (nr14 >= 128),
        square1_spec(nr10, nr11, nr12, nr13, nr14).is_use_length == ((nr14 / 64) % 2 == 1),
{
    lemma_byte_facts(nr10, nr14);
    lemma_byte_facts(nr11, nr14);
    lemma_byte_facts(nr12, nr14);
    lemma_byte_facts(nr13, nr14);
    lemma_byte_facts(nr14, nr14);
}

/// On MBC1 in RAM banking mode, a write of `v` to 0x4000..0x5FFF selects RAM bank
/// `v % 4`; with RAM enabled, a following write of `w` to 0xA000 + `i` stores it at
/// cartridge RAM index `(v % 4) * 0x2000 + i`, and a read there gives it back.
pub proof fn law_ram_bank_select(m: MachineModel, addr: u16, v: u8, i: u16, w: u8)
    requires
        machine_wf(m),
        m.mbc == 1,
        !m.rom_banking,
        m.ram_enabled,
        0x4000 <= addr < 0x6000,
        i < 0x2000,
    ensures
        bus_write(m, addr, v).ram_bank == v % 4,
        bus_write(bus_write(m, addr, v), (0xA000 + i) as u16, w).ram[(v % 4) * 0x2000 + i] == w,
        bus_read(bus_write(bus_write(m, addr, v), (0xA000 + i) as u16, w), (0xA000 + i) as u16) == w,
{
    reveal(bus_write);
    reveal(bus_read);
    lemma_byte_facts(v, v);
    let m1 = bus_write(m, addr, v);
    lemma_bus_write_frame(m, addr, v);
    assert(m1.ram_enabled);
    assert(m1.ram.len() == 0x8000);
}

/// Servicing one interrupt jumps to its vector, clears IME and ends HALT.
proof fn lemma_service_facts(g: GameboyModel, bit: u8, vector: u16)
    ensures
        service_spec(g, bit, vector).machine.regs.pc == vector,
        !service_spec(g, bit, vector).machine.regs.f.ime,
        !service_spec(g, bit, vector).is_halt,
{
    reveal(service_spec);
}

/// With IME set, interrupt handling services every interrupt that is both requested
/// (IF) and enabled (IE) in priority order, each jumping to its own vector 0x40 + 8 *
/// bit index, so PC ends at the vector of the last one: joypad 0x60, else serial 0x58,
/// else timer 0x50, else LCD STAT 0x48, else V-blank 0x40. Servicing clears IME and ends
/// HALT; with nothing pending the state stays as it is.
pub proof fn law_interrupt_vectors(g: GameboyModel)
    requires
        g.machine.regs.f.ime,
    ensures
        pending(g, 0x10) ==> interrupt_spec(g).machine.regs.pc == 0x60,
        !pending(g, 0x10) && pending(g, 0x08) ==> interrupt_spec(g).machine.regs.pc == 0x58,
        !pending(g, 0x10) && !pending(g, 0x08) && pending(g, 0x04) ==> interrupt_spec(g).machine.regs.pc == 0x50,
        !pending(g, 0x10) && !pending(g, 0x08) && !pending(g, 0x04) && pending(g, 0x02)
            ==> interrupt_spec(g).machine.regs.pc == 0x48,
        !pending(g, 0x10) && !pending(g, 0x08) && !pending(g, 0x04) && !pending(g, 0x02) && pending(g, 0x01)
            ==> interrupt_spec(g).machine.regs.pc == 0x40,
        (pending(g, 0x01) || pending(g, 0x02) || pending(g, 0x04) || pending(g, 0x08) || pending(g, 0x10))
            ==> !interrupt_spec(g).machine.regs.f.ime && !interrupt_spec(g).is_halt,
        !(pending(g, 0x01) || pending(g, 0x02) || pending(g, 0x04) || pending(g, 0x08) || pending(g, 0x10))
            ==> interrupt_spec(g) == g,
{
    let a = if pending(g, 1) { service_spec(g, 1, 0x40) } else { g };
    let b = if pending(g, 2) { service_spec(a, 2, 0x48) } else { a };
    let c = if pending(g, 4) { service_spec(b, 4, 0x50) } else { b };
    let d = if pending(g, 8) { service_spec(c, 8, 0x58) } else { c };
    lemma_service_facts(g, 1, 0x40);
    lemma_service_facts(a, 2, 0x48);
    lemma_service_facts(b, 4, 0x50);
    lemma_service_facts(c, 8, 0x58);
    lemma_service_facts(d, 0x10, 0x60);
}

/// With the LCD on, LY equal to LYC and the coincidence interrupt enabled (STAT bit 6),
/// the status update sets the coincidence flag (STAT bit 2), requests the LCD STAT
/// interrupt (IF bit 1) and a redraw. With STAT bits 3..6 all clear it requests
/// nothing: IF and the redraw request stay as they were.
pub proof fn law_lcd_status_interrupts(g: GameboyModel)
    requires
        gameboy_wf(g),
        mem(g, 0xff40) & 0x80 == 0x80,
    ensures
        mem(g, 0xff44) == mem(g, 0xff45) && mem(g, 0xff41) & 0x40 == 0x40 ==> {
            &&& mem(set_lcd_status_spec(g), 0xff0f) & 0x02 == 0x02
            &&& set_lcd_status_spec(g).should_draw
            &&& mem(set_lcd_status_spec(g), 0xff41) & 0x04 == 0x04
        },
        mem(g, 0xff41) & 0x78 == 0 ==> {
            &&& mem(set_lcd_status_spec(g), 0xff0f) == mem(g, 0xff0f)
            &&& set_lcd_status_spec(g).should_draw == g.should_draw
        },
{
    reveal(bus_read);
    reveal(bus_write);
    let s0 = mem(g, 0xff41);
    lemma_byte_facts(s0, s0);
    lemma_byte_facts(mem(g, 0xff0f), s0);
    let f1 = mem(g, 0xff0f) | 2;
    lemma_byte_facts(f1, s0);
    let line = mem(g, 0xff44);
    let (s1, mode, req) = crate::gameboy::lcd_mode_spec(s0, line, g.vram_cycle_num);
    lemma_byte_facts(s1, s0);
    assert(s1 & 0x40 == s0 & 0x40);
    assert(s0 & 0x78 == 0 ==> !req);
}

} // verus!
