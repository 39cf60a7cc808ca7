//! The CPU's view of the machine: registers and the memory bus, with cartridge
//! ROM/RAM bank switching (MBC1/MBC2) and the joypad register.

use vstd::prelude::*;
use crate::registers::{Registers, add16, sub16, hi_byte, lo_byte, word, hl};

verus! {

/// Size of the address space.
pub const MEMORY_SIZE: usize = 0x10000;

/// Size of the cartridge RAM (four 8 KiB banks).
pub const RAM_BANK_MEMORY_SIZE: usize = 0x8000;

/// The mathematical state of a [`Machine`].
pub ghost struct MachineModel {
    pub regs: Registers,
    pub memory: Seq<u8>,
    pub cartridge: Seq<u8>,
    pub ram: Seq<u8>,
    pub mbc: u8,
    pub rom_bank: u8,
    pub ram_bank: u8,
    pub ram_enabled: bool,
    pub rom_banking: bool,
    pub joypad: u8,
}

/// Registers, address space, cartridge and the cartridge controller state.
pub struct Machine {
    pub registers: Registers,
    pub memory: Vec<u8>,
    pub cartridge: Vec<u8>,
    pub ram_bank_memory: Vec<u8>,
    pub mbc: u8,
    pub rom_bank: u8,
    pub ram_bank: u8,
    pub is_ram_enabled: bool,
    pub is_rom_banking_enabled: bool,
    pub joypad_state: u8,
}

impl View for Machine {
    type V = MachineModel;

    open spec fn view(&self) -> MachineModel {
        MachineModel {
            regs: self.registers,
            memory: self.memory@,
            cartridge: self.cartridge@,
            ram: self.ram_bank_memory@,
            mbc: self.mbc,
            rom_bank: self.rom_bank,
            ram_bank: self.ram_bank,
            ram_enabled: self.is_ram_enabled,
            rom_banking: self.is_rom_banking_enabled,
            joypad: self.joypad_state,
        }
    }
}

/// Whether every ROM-bank read stays inside the cartridge image: either the image
/// covers all four bank offsets the bus can form, or it is a plain 32 KiB cartridge
/// whose bank never changes.
pub open spec fn cartridge_ok(m: MachineModel) -> bool {
    m.cartridge.len() >= 0x10000 || (m.mbc == 0 && m.rom_bank == 1 && m.cartridge.len() >= 0x8000)
}

/// The controller type for a cartridge type code (header byte 0x147): none, MBC1 or
/// MBC2; other codes are not supported.
pub open spec fn mbc_of_code(code: u8) -> Option<u8> {
    if code == 0 {
        Some(0u8)
    } else if code == 1 || code == 2 || code == 3 || code == 0x13 {
        Some(1u8)
    } else if code == 5 || code == 6 {
        Some(2u8)
    } else {
        None
    }
}

/// Well-formedness of the machine state.
pub open spec fn machine_wf(m: MachineModel) -> bool {
    &&& m.memory.len() == MEMORY_SIZE
    &&& m.ram.len() == RAM_BANK_MEMORY_SIZE
    &&& m.ram_bank <= 3
    &&& m.rom_bank != 0
    &&& m.mbc <= 2
    &&& mbc_of_code(m.memory[0x147]) == Some(m.mbc)
    &&& cartridge_ok(m)
}

/// Offset of the selected ROM bank in the cartridge image (bank * 16 KiB, wrapped to 16 bits).
pub open spec fn rom_offset(bank: u8) -> int {
    (bank as int * 0x4000) % 0x10000
}

/// Index in the cartridge image of a read at `addr` (0x4000..=0x7FFF).
pub open spec fn rom_index(m: MachineModel, addr: u16) -> int {
    addr - 0x4000 + rom_offset(m.rom_bank)
}

/// Index in the cartridge RAM of an access at `addr` (0xA000..=0xBFFF).
pub open spec fn ram_index(m: MachineModel, addr: u16) -> int {
    addr - 0xA000 + m.ram_bank as int * 0x2000
}

/// The joypad register as the CPU reads it: P1 inverted, masked with the pressed keys
/// of the selected group.
pub open spec fn joypad_value(p1: u8, joypad: u8) -> u8 {
    let result = p1 ^ 0xFF;
    if result & 0x10 == 0 {
        result & ((joypad >> 4u8) | 0xF0)
    } else if result & 0x20 == 0 {
        result & ((joypad & 0xF) | 0xF0)
    } else {
        result
    }
}

/// A read of the bus at `addr`.
#[verifier::opaque]
pub open spec fn bus_read(m: MachineModel, addr: u16) -> u8 {
    if 0x4000 <= addr <= 0x7FFF {
        m.cartridge[rom_index(m, addr)]
    } else if 0xA000 <= addr <= 0xBFFF {
        m.ram[ram_index(m, addr)]
    } else if addr == 0xFF00 {
        joypad_value(m.memory[0xFF00], m.joypad)
    } else {
        m.memory[addr as int]
    }
}

/// A write of 0x0000..0x1FFF on MBC1/MBC2: enables or disables cartridge RAM.
pub open spec fn enable_ram_bank_spec(m: MachineModel, addr: u16, data: u8) -> MachineModel {
    if m.mbc == 2 && addr & 0x10 == 0x10 {
        m
    } else if data & 0xF == 0xA {
        MachineModel { ram_enabled: true, ..m }
    } else if data & 0xF == 0 {
        MachineModel { ram_enabled: false, ..m }
    } else {
        m
    }
}

/// Bank 0 selects bank 1.
pub open spec fn nonzero_bank(b: u8) -> u8 {
    if b == 0 { 1 } else { b }
}

/// A write of 0x2000..0x3FFF on MBC1/MBC2: the low bits of the ROM bank.
pub open spec fn change_lo_rom_bank_spec(m: MachineModel, data: u8) -> MachineModel {
    if m.mbc == 2 {
        MachineModel { rom_bank: nonzero_bank(data & 0xF), ..m }
    } else {
        MachineModel { rom_bank: nonzero_bank((m.rom_bank & 224) | (data & 31)), ..m }
    }
}

/// MBC1 in ROM banking mode, a write of 0x4000..0x5FFF: the high bits of the ROM bank.
pub open spec fn change_hi_rom_bank_spec(m: MachineModel, data: u8) -> MachineModel {
    MachineModel { rom_bank: nonzero_bank((m.rom_bank & 31) | (data & 224)), ..m }
}

/// MBC1, a write of 0x6000..0x7FFF: ROM or RAM banking mode.
pub open spec fn change_rom_ram_mode_spec(m: MachineModel, data: u8) -> MachineModel {
    let rom_banking = data & 1 == 0;
    MachineModel { rom_banking, ram_bank: if rom_banking { 0 } else { m.ram_bank }, ..m }
}

/// A write of the bus at `addr`.
#[verifier::opaque]
pub open spec fn bus_write(m: MachineModel, addr: u16, value: u8) -> MachineModel {
    let mbc12 = m.mbc == 1 || m.mbc == 2;
    if addr < 0x2000 {
        if mbc12 { enable_ram_bank_spec(m, addr, value) } else { m }
    } else if addr < 0x4000 {
        if mbc12 { change_lo_rom_bank_spec(m, value) } else { m }
    } else if addr < 0x6000 {
        if m.mbc == 1 {
            if m.rom_banking {
                change_hi_rom_bank_spec(m, value)
            } else {
                MachineModel { ram_bank: value & 0x3, ..m }
            }
        } else {
            m
        }
    } else if addr < 0x8000 {
        if m.mbc == 1 { change_rom_ram_mode_spec(m, value) } else { m }
    } else if 0xA000 <= addr < 0xC000 {
        if m.ram_enabled {
            MachineModel { ram: m.ram.update(ram_index(m, addr), value), ..m }
        } else {
            m
        }
    } else if 0xFEA0 <= addr < 0xFEFF {
        m
    } else if addr == 0xFF44 {
        MachineModel { memory: m.memory.update(0xFF44, 0), ..m }
    } else {
        MachineModel { memory: m.memory.update(addr as int, value), ..m }
    }
}

/// Replaces the registers.
pub open spec fn with_regs(m: MachineModel, r: Registers) -> MachineModel {
    MachineModel { regs: r, ..m }
}

/// PC += 1.
pub open spec fn inc_pc(m: MachineModel) -> MachineModel {
    with_regs(m, Registers { pc: add16(m.regs.pc as int, 1), ..m.regs })
}

/// The byte after the opcode at PC.
pub open spec fn next_byte(m: MachineModel) -> u8 {
    bus_read(m, add16(m.regs.pc as int, 1))
}

/// The little-endian word after the opcode at PC.
pub open spec fn next_word(m: MachineModel) -> u16 {
    word(bus_read(m, add16(m.regs.pc as int, 2)), bus_read(m, add16(m.regs.pc as int, 1)))
}

/// PC += 2.
pub open spec fn skip_word(m: MachineModel) -> MachineModel {
    with_regs(m, Registers { pc: add16(m.regs.pc as int, 2), ..m.regs })
}

/// Pushes a word: SP -= 1, high byte; SP -= 1, low byte.
pub open spec fn push(m: MachineModel, v: u16) -> MachineModel {
    let sp1 = sub16(m.regs.sp as int, 1);
    let m1 = bus_write(with_regs(m, Registers { sp: sp1, ..m.regs }), sp1, hi_byte(v));
    let sp2 = sub16(sp1 as int, 1);
    bus_write(with_regs(m1, Registers { sp: sp2, ..m1.regs }), sp2, lo_byte(v))
}

/// The state after a pop: each byte read is cleared through the bus, SP += 2.
pub open spec fn pop_state(m: MachineModel) -> MachineModel {
    let sp = m.regs.sp;
    let m1 = bus_write(m, sp, 0);
    let sp1 = add16(sp as int, 1);
    let m2 = with_regs(m1, Registers { sp: sp1, ..m1.regs });
    let m3 = bus_write(m2, sp1, 0);
    with_regs(m3, Registers { sp: add16(sp1 as int, 1), ..m3.regs })
}

/// The word a pop returns: low byte at SP, high byte at SP + 1 (read after the first
/// byte has been cleared).
pub open spec fn pop_value(m: MachineModel) -> u16 {
    let sp = m.regs.sp;
    let lo = bus_read(m, sp);
    let m1 = bus_write(m, sp, 0);
    let sp1 = add16(sp as int, 1);
    let m2 = with_regs(m1, Registers { sp: sp1, ..m1.regs });
    word(bus_read(m2, sp1), lo)
}

/// Operand `k` of the 8-bit register encoding: B, C, D, E, H, L, (HL), A.
pub open spec fn get_r8(m: MachineModel, k: u8) -> u8 {
    if k == 0 {
        m.regs.b
    } else if k == 1 {
        m.regs.c
    } else if k == 2 {
        m.regs.d
    } else if k == 3 {
        m.regs.e
    } else if k == 4 {
        m.regs.h
    } else if k == 5 {
        m.regs.l
    } else if k == 6 {
        bus_read(m, hl(m.regs))
    } else {
        m.regs.a
    }
}

/// Stores into operand `k` of the 8-bit register encoding.
pub open spec fn set_r8(m: MachineModel, k: u8, v: u8) -> MachineModel {
    if k == 0 {
        with_regs(m, Registers { b: v, ..m.regs })
    } else if k == 1 {
        with_regs(m, Registers { c: v, ..m.regs })
    } else if k == 2 {
        with_regs(m, Registers { d: v, ..m.regs })
    } else if k == 3 {
        with_regs(m, Registers { e: v, ..m.regs })
    } else if k == 4 {
        with_regs(m, Registers { h: v, ..m.regs })
    } else if k == 5 {
        with_regs(m, Registers { l: v, ..m.regs })
    } else if k == 6 {
        bus_write(m, hl(m.regs), v)
    } else {
        with_regs(m, Registers { a: v, ..m.regs })
    }
}

/// A read does not depend on the registers.
pub broadcast proof fn lemma_bus_read_regs(m: MachineModel, r: Registers, addr: u16)
    ensures
        #[trigger] bus_read(with_regs(m, r), addr) == bus_read(m, addr),
{
    reveal(bus_read);
}

/// A write does not depend on the registers and leaves them as they are.
pub broadcast proof fn lemma_bus_write_regs(m: MachineModel, r: Registers, addr: u16, value: u8)
    ensures
        #[trigger] bus_write(with_regs(m, r), addr, value) == with_regs(bus_write(m, addr, value), r),
{
    reveal(bus_write);
    assert(bus_write(with_regs(m, r), addr, value) =~= with_regs(bus_write(m, addr, value), r));
}

/// A write leaves the registers, the cartridge image, the controller type and the
/// joypad state as they were, and keeps the state well formed.
pub broadcast proof fn lemma_bus_write_frame(m: MachineModel, addr: u16, value: u8)
    ensures
        #[trigger] bus_write(m, addr, value).regs == m.regs,
        bus_write(m, addr, value).cartridge == m.cartridge,
        bus_write(m, addr, value).mbc == m.mbc,
        bus_write(m, addr, value).joypad == m.joypad,
        machine_wf(m) ==> machine_wf(bus_write(m, addr, value)),
{
    reveal(bus_write);
    assert((value & 0x3) <= 3) by (bit_vector);
}


impl Machine {
    /// Reads the bus.
    pub fn read_memory(&self, address: u16) -> (r: u8)
        requires
            machine_wf(self@),
        ensures
            r == bus_read(self@, address),
    {
        reveal(bus_read);
        if (address >= 0x4000) && (address <= 0x7FFF) {
            let new_address = address - 0x4000;
            let offset = (self.rom_bank as u16).wrapping_mul(0x4000);
            assert(offset as int == rom_offset(self.rom_bank)) by (nonlinear_arith)
                requires
                    offset == ((self.rom_bank as nat * 0x4000nat) % 0x10000nat) as u16,
            ;
            assert(rom_offset(self.rom_bank) <= 0xC000) by {
                assert(offset as int == (self.rom_bank as int % 4) * 0x4000) by (nonlinear_arith)
                    requires
                        offset == ((self.rom_bank as nat * 0x4000nat) % 0x10000nat) as u16,
                ;
            }
            if self.cartridge.len() < 0x10000 {
                assert(self.rom_bank == 1);
                assert(offset == 0x4000);
            }
            return self.cartridge[(new_address + offset) as usize];
        } else if (address >= 0xA000) && (address <= 0xBFFF) {
            let new_address = address - 0xA000;
            return self.ram_bank_memory[(new_address + (self.ram_bank as u16 * 0x2000)) as usize];
        } else if 0xFF00 == address {
            return self.get_joypad_state();
        }
        return self.memory[address as usize];
    }

    /// The joypad register as read through the bus.
    pub fn get_joypad_state(&self) -> (r: u8)
        requires
            machine_wf(self@),
        ensures
            r == joypad_value(self.memory@[0xFF00], self.joypad_state),
    {
        let p1 = self.memory[0xFF00];
        let result = p1 ^ 0xFF;
        let is_standard_button = result & 0b00010000 == 0;
        let is_directional_button = result & 0b00100000 == 0;
        if is_standard_button {
            let top_joypad = self.joypad_state >> 4;
            return result & (top_joypad | 0xF0);
        } else if is_directional_button {
            let bottom_joypad = self.joypad_state & 0xF;
            return result & (bottom_joypad | 0xF0);
        }
        result
    }

    fn enable_ram_bank(&mut self, address: u16, data: u8)
        ensures
            final(self)@ == enable_ram_bank_spec(old(self)@, address, data),
    {
        if self.mbc == 2 {
            if address & 0b00010000 == 0b00010000 {
                return;
            }
        }
        let lower_nibble = data & 0xF;
        if lower_nibble == 0xA {
            self.is_ram_enabled = true;
        } else if lower_nibble == 0x0 {
            self.is_ram_enabled = false;
        }
    }

    fn change_lo_rom_bank(&mut self, data: u8)
        ensures
            final(self)@ == change_lo_rom_bank_spec(old(self)@, data),
            final(self).rom_bank != 0,
            old(self).mbc == 2 ==> final(self).rom_bank == (if data & 0x0F == 0 { 1u8 } else { data & 0x0F }),
            old(self).mbc != 2 ==> final(self).rom_bank == (if (old(self).rom_bank & 0xE0) | (data & 0x1F) == 0 {
                1u8
            } else {
                (old(self).rom_bank & 0xE0) | (data & 0x1F)
            }),
    {
        if self.mbc == 2 {
            self.rom_bank = data & 0xF;
            if self.rom_bank == 0 {
                self.rom_bank = 1;
            }
            return;
        }
        let lower_5_bits = data & 31;
        self.rom_bank = self.rom_bank & 224;
        self.rom_bank = self.rom_bank | lower_5_bits;
        if self.rom_bank == 0 {
            self.rom_bank = 1;
        }
    }

    fn change_hi_rom_bank(&mut self, data: u8)
        ensures
            final(self)@ == change_hi_rom_bank_spec(old(self)@, data),
            final(self).rom_bank != 0,
    {
        self.rom_bank = self.rom_bank & 31;
        let new_data = data & 224;
        self.rom_bank = self.rom_bank | new_data;
        if self.rom_bank == 0 {
            self.rom_bank = 1;
        }
    }

    fn change_ram_bank(&mut self, data: u8)
        ensures
            final(self)@ == (MachineModel { ram_bank: data & 0x3, ..old(self)@ }),
    {
        self.ram_bank = data & 0x3;
    }

    fn change_rom_ram_mode(&mut self, data: u8)
        ensures
            final(self)@ == change_rom_ram_mode_spec(old(self)@, data),
    {
        let new_data = data & 0x1;
        self.is_rom_banking_enabled = new_data == 0;
        if self.is_rom_banking_enabled {
            self.ram_bank = 0
        }
    }

    /// Writes the bus.
    pub fn write_memory(&mut self, address: u16, value: u8)
        requires
            machine_wf(old(self)@),
        ensures
            final(self)@ == bus_write(old(self)@, address, value),
            machine_wf(final(self)@),
    {
        proof {
            lemma_bus_write_frame(self@, address, value);
            reveal(bus_write);
        }
        let is_mbc_one_or_two = self.mbc == 1 || self.mbc == 2;
        if address < 0x2000 {
            if is_mbc_one_or_two {
                self.enable_ram_bank(address, value);
            }
        } else if (address >= 0x200) && (address < 0x4000) {
            if is_mbc_one_or_two {
                self.change_lo_rom_bank(value);
            }
        } else if (address >= 0x4000) && (address < 0x6000) {
            if self.mbc == 1 {
                if self.is_rom_banking_enabled {
                    self.change_hi_rom_bank(value);
                } else {
                    self.change_ram_bank(value)
                }
            }
        } else if (address >= 0x6000) && (address < 0x8000) {
            if self.mbc == 1 {
                self.change_rom_ram_mode(value);
            }
        } else if (address >= 0xA000) && (address < 0xC000) {
            if self.is_ram_enabled {
                let new_address = address - 0xA000;
                self.ram_bank_memory.set((new_address + (self.ram_bank as u16 * 0x2000)) as usize, value);
            }
        } else if (address >= 0xFEA0) && (address < 0xFEFF) {
        } else if address == 0xFF44 {
            self.memory.set(address as usize, 0);
        } else {
            self.memory.set(address as usize, value);
        }
    }
}

} // verus!
