//! CPU registers, the flag register and the arithmetic/logic unit.

use vstd::prelude::*;
use crate::bits::{bitvec_bits, bitvec_from_elem, bitvec_set, bitvec_to_bytes};
use bit_vec::BitVec;

verus! {

/// The flag register plus the interrupt master enable flag.
#[derive(Clone, Copy, Debug)]
pub struct Flag {
    /// Zero flag (0x80 in the F byte).
    pub z: bool,
    /// Subtraction flag (0x40).
    pub n: bool,
    /// Half-carry flag (0x20).
    pub h: bool,
    /// Carry flag (0x10).
    pub c: bool,
    /// Interrupt master enable.
    pub ime: bool,
}

/// The SM83 register file.
#[derive(Clone, Copy, Debug)]
pub struct Registers {
    pub a: u8,
    pub b: u8,
    pub c: u8,
    pub d: u8,
    pub e: u8,
    pub h: u8,
    pub l: u8,
    pub f: Flag,
    pub sp: u16,
    pub pc: u16,
}

// ---------------------------------------------------------------------------
// Byte and word arithmetic

/// `hi:lo` as a 16-bit word.
pub open spec fn word(hi: u8, lo: u8) -> u16 {
    (hi as int * 256 + lo as int) as u16
}

/// High byte of a word.
pub open spec fn hi_byte(v: u16) -> u8 {
    (v as int / 256) as u8
}

/// Low byte of a word.
pub open spec fn lo_byte(v: u16) -> u8 {
    (v as int % 256) as u8
}

/// Addition modulo 2^8.
pub open spec fn add8(x: int, y: int) -> u8 {
    ((x + y) % 256) as u8
}

/// Subtraction modulo 2^8.
pub open spec fn sub8(x: int, y: int) -> u8 {
    ((x - y) % 256) as u8
}

/// Addition modulo 2^16.
pub open spec fn add16(x: int, y: int) -> u16 {
    ((x + y) % 65536) as u16
}

/// Subtraction modulo 2^16.
pub open spec fn sub16(x: int, y: int) -> u16 {
    ((x - y) % 65536) as u16
}

/// The register pair HL.
pub open spec fn hl(r: Registers) -> u16 {
    word(r.h, r.l)
}

/// The register pair BC.
pub open spec fn bc(r: Registers) -> u16 {
    word(r.b, r.c)
}

/// The register pair DE.
pub open spec fn de(r: Registers) -> u16 {
    word(r.d, r.e)
}

/// The F register as a byte: Z, N, H and C in bits 7 to 4.
pub open spec fn f_byte(f: Flag) -> u8 {
    ((if f.z { 128int } else { 0 }) + (if f.n { 64int } else { 0 }) + (if f.h { 32int } else { 0 })
        + (if f.c { 16int } else { 0 })) as u8
}

/// Replaces Z, N, H and C, keeping IME.
pub open spec fn with_flags(r: Registers, z: bool, n: bool, h: bool, c: bool) -> Registers {
    Registers { f: Flag { z, n, h, c, ime: r.f.ime }, ..r }
}

/// Adds a signed offset to a word the way the emulator does it: the magnitude of the
/// offset is taken with 8-bit wrapping, so an offset of -128 moves the word forward by
/// 128; the sum wraps modulo 2^16.
pub open spec fn add_signed(u: u16, s: i8) -> u16 {
    if s == -128 {
        add16(u as int, 128)
    } else {
        add16(u as int, s as int)
    }
}

/// Half carry of `u + s` as the emulator computes it, `sum` being the result.
pub open spec fn half_carry_u16_i8(u: u16, s: i8, sum: u16) -> bool {
    if s >= 0 {
        (u as int % 16) + (s as int % 16) > 15
    } else {
        (sum as int % 16) <= (u as int % 16)
    }
}

/// Carry of `u + s` as the emulator computes it, `sum` being the result.
pub open spec fn carry_u16_i8(u: u16, s: i8, sum: u16) -> bool {
    if s >= 0 {
        (u as int % 256) + s as int > 255
    } else {
        (sum as int % 256) <= (u as int % 256)
    }
}

// ---------------------------------------------------------------------------
// Arithmetic and logic on A

/// ADD A, n.
pub open spec fn add_a_spec(r: Registers, n: u8) -> Registers {
    let v = add8(r.a as int, n as int);
    with_flags(
        Registers { a: v, ..r },
        v == 0,
        false,
        (r.a as int % 16) + (n as int % 16) >= 16,
        r.a as int + n as int >= 256,
    )
}

/// ADC A, n.
pub open spec fn adc_a_spec(r: Registers, n: u8) -> Registers {
    let cf: int = if r.f.c { 1 } else { 0 };
    let v = add8(r.a as int, n as int + cf);
    with_flags(
        Registers { a: v, ..r },
        v == 0,
        false,
        (r.a as int % 16) + (n as int % 16) + cf >= 16,
        r.a as int + n as int + cf >= 256,
    )
}

/// SUB n (the result is stored in A).
pub open spec fn sub_a_spec(r: Registers, n: u8) -> Registers {
    let v = sub8(r.a as int, n as int);
    with_flags(
        Registers { a: v, ..r },
        v == 0,
        true,
        (r.a as int % 16) < (n as int % 16),
        r.a < n,
    )
}

/// SBC A, n.
pub open spec fn sbc_a_spec(r: Registers, n: u8) -> Registers {
    let cf: int = if r.f.c { 1 } else { 0 };
    let v = sub8(r.a as int, n as int + cf);
    with_flags(
        Registers { a: v, ..r },
        v == 0,
        true,
        (r.a as int % 16) < (n as int % 16) + cf,
        (r.a as int) < n as int + cf,
    )
}

/// AND n.
pub open spec fn and_a_spec(r: Registers, n: u8) -> Registers {
    let v = r.a & n;
    with_flags(Registers { a: v, ..r }, v == 0, false, true, false)
}

/// XOR n.
pub open spec fn xor_a_spec(r: Registers, n: u8) -> Registers {
    let v = r.a ^ n;
    with_flags(Registers { a: v, ..r }, v == 0, false, false, false)
}

/// OR n.
pub open spec fn or_a_spec(r: Registers, n: u8) -> Registers {
    let v = r.a | n;
    with_flags(Registers { a: v, ..r }, v == 0, false, false, false)
}

/// CP n: the flags of A - n, A unchanged.
pub open spec fn cp_a_spec(r: Registers, n: u8) -> Registers {
    with_flags(r, r.a == n, true, (r.a as int % 16) < (n as int % 16), r.a < n)
}

/// The eight-way ALU selected by bits 5..3 of the opcode.
pub open spec fn alu_spec(op: u8, r: Registers, n: u8) -> Registers {
    if op == 0 {
        add_a_spec(r, n)
    } else if op == 1 {
        adc_a_spec(r, n)
    } else if op == 2 {
        sub_a_spec(r, n)
    } else if op == 3 {
        sbc_a_spec(r, n)
    } else if op == 4 {
        and_a_spec(r, n)
    } else if op == 5 {
        xor_a_spec(r, n)
    } else if op == 6 {
        or_a_spec(r, n)
    } else {
        cp_a_spec(r, n)
    }
}

/// BIT b, x: Z is set when bit `b` of `x` is clear; C is kept.
pub open spec fn bit_spec(r: Registers, b: u8, x: u8) -> Registers {
    with_flags(r, (x >> b) & 1 == 0, false, true, r.f.c)
}

/// INC on an 8-bit value: the result and the new registers' flags.
pub open spec fn inc8_flags(r: Registers, x: u8) -> Registers {
    with_flags(r, add8(x as int, 1) == 0, false, x as int % 16 == 15, r.f.c)
}

/// DEC on an 8-bit value: the new registers' flags.
pub open spec fn dec8_flags(r: Registers, x: u8) -> Registers {
    with_flags(r, sub8(x as int, 1) == 0, true, x as int % 16 == 0, r.f.c)
}

/// ADD HL, w.
pub open spec fn add_hl_spec(r: Registers, w: u16) -> Registers {
    let v = add16(hl(r) as int, w as int);
    with_flags(
        Registers { h: hi_byte(v), l: lo_byte(v), ..r },
        r.f.z,
        false,
        (hl(r) as int % 4096) + (w as int % 4096) >= 4096,
        hl(r) as int + w as int >= 65536,
    )
}

/// The decimal adjustment of A after a BCD addition or subtraction.
pub open spec fn daa_spec(r: Registers) -> Registers {
    let low: int = if r.f.h || (!r.f.n && (r.a as int % 16) > 9) { 6 } else { 0 };
    let high: bool = r.f.c || (!r.f.n && r.a > 0x99);
    let adjust: int = low + if high { 0x60int } else { 0 };
    let v = if r.f.n { sub8(r.a as int, adjust) } else { add8(r.a as int, adjust) };
    with_flags(Registers { a: v, ..r }, v == 0, r.f.n, false, high)
}

// ---------------------------------------------------------------------------
// Rotations and shifts: (result, carry out)

pub open spec fn rlc_val(x: u8) -> u8 {
    ((x as int * 2) % 256 + x as int / 128) as u8
}

pub open spec fn rrc_val(x: u8) -> u8 {
    (x as int / 2 + (x as int % 2) * 128) as u8
}

pub open spec fn rl_val(x: u8, c: bool) -> u8 {
    ((x as int * 2) % 256 + if c { 1int } else { 0 }) as u8
}

pub open spec fn rr_val(x: u8, c: bool) -> u8 {
    (x as int / 2 + if c { 128int } else { 0 }) as u8
}

pub open spec fn sla_val(x: u8) -> u8 {
    ((x as int * 2) % 256) as u8
}

pub open spec fn sra_val(x: u8) -> u8 {
    (x as int / 2 + if x >= 128 { 128int } else { 0 }) as u8
}

pub open spec fn swap_val(x: u8) -> u8 {
    ((x as int % 16) * 16 + x as int / 16) as u8
}

pub open spec fn srl_val(x: u8) -> u8 {
    (x as int / 2) as u8
}

/// The CB-prefixed rotation/shift selected by `op` (bits 5..3 of the second byte):
/// RLC, RRC, RL, RR, SLA, SRA, SWAP, SRL. Returns the result and the new carry.
pub open spec fn shift_spec(op: u8, x: u8, c: bool) -> (u8, bool) {
    if op == 0 {
        (rlc_val(x), x >= 128)
    } else if op == 1 {
        (rrc_val(x), x % 2 == 1)
    } else if op == 2 {
        (rl_val(x, c), x >= 128)
    } else if op == 3 {
        (rr_val(x, c), x % 2 == 1)
    } else if op == 4 {
        (sla_val(x), x >= 128)
    } else if op == 5 {
        (sra_val(x), x % 2 == 1)
    } else if op == 6 {
        (swap_val(x), false)
    } else {
        (srl_val(x), x % 2 == 1)
    }
}

/// Single bit mask `1 << b`.
pub open spec fn bit_mask(b: u8) -> u8 {
    (1u8 << b) as u8
}

impl Registers {
    /// XOR n: A ^= n, Z from the result, other flags cleared.
    pub fn xor_a_n(&mut self, n: u8)
        ensures
            *final(self) == xor_a_spec(*old(self), n),
    {
        let mut flag_z = false;
        let flag_n = false;
        let flag_h = false;
        let flag_c = false;
        let result = self.a ^ n;
        if result == 0 {
            flag_z = true;
        }
        self.f.set_flag(flag_z, flag_n, flag_h, flag_c);
        self.set_a(result);
    }

    /// AND n: A &= n, H set.
    pub fn and_a_n(&mut self, n: u8)
        ensures
            *final(self) == and_a_spec(*old(self), n),
    {
        let mut flag_z = false;
        let flag_n = false;
        let flag_c = false;
        let result = self.a & n;
        if result == 0 {
            flag_z = true;
        }
        let flag_h = true;
        self.f.set_flag(flag_z, flag_n, flag_h, flag_c);
        self.set_a(result);
    }

    /// OR n: A |= n.
    pub fn or_a_n(&mut self, n: u8)
        ensures
            *final(self) == or_a_spec(*old(self), n),
    {
        let a = self.a;
        let value = n | a;
        assert(value == a | n) by (bit_vector)
            requires
                value == n | a,
        ;
        self.set_a(value);
        self.f.set_flag(value == 0, false, false, false);
    }

    /// SBC A, n: A - n - carry.
    pub fn sbc_a_n(&mut self, n: u8)
        ensures
            *final(self) == sbc_a_spec(*old(self), n),
    {
        let a = self.a as u16;
        let n16 = n as u16;
        let cf: u16 = if self.f.c { 1 } else { 0 };
        let r = a.wrapping_sub(n16).wrapping_sub(cf);
        let result = r as u8;
        let flag_z = result == 0;
        let flag_h = (a ^ n16 ^ r) & 0x10 != 0;
        let flag_c = r & 0x100 != 0;
        let flag_n = true;
        proof {
            let ghost av = self.a;
            assert(flag_h == ((av as int % 16) < (n as int % 16) + cf) && flag_c == ((av as int) < n as int + cf)
                && result == sub8(av as int, n as int + cf)) by (bit_vector)
                requires
                    a == av as u16,
                    n16 == n as u16,
                    cf <= 1,
                    r == (if a - n16 - cf < 0 { a - n16 - cf + 0x10000 } else { a - n16 - cf }) as u16,
                    flag_h == ((a ^ n16 ^ r) & 0x10 != 0),
                    flag_c == (r & 0x100 != 0),
                    result == r as u8,
            ;
        }
        self.set_a(result);
        self.f.set_flag(flag_z, flag_n, flag_h, flag_c);
    }

    /// ADC A, n: A + n + carry.
    pub fn adc_a_n(&mut self, n: u8)
        ensures
            *final(self) == adc_a_spec(*old(self), n),
    {
        let a = self.a as u16;
        let n16 = n as u16;
        let cf: u16 = if self.f.c { 1 } else { 0 };
        let r = a.wrapping_add(n16).wrapping_add(cf);
        let result = r as u8;
        let flag_z = result == 0;
        let flag_h = (a ^ n16 ^ r) & 0x10 != 0;
        let flag_c = r & 0x100 != 0;
        let flag_n = false;
        proof {
            let ghost av = self.a;
            assert(r == a + n16 + cf);
            assert(flag_h == ((av as int % 16) + (n as int % 16) + cf >= 16) && flag_c == (av as int + n as int + cf >= 256)
                && result == add8(av as int, n as int + cf)) by (bit_vector)
                requires
                    a == av as u16,
                    n16 == n as u16,
                    cf <= 1,
                    r == a + n16 + cf,
                    flag_h == ((a ^ n16 ^ r) & 0x10 != 0),
                    flag_c == (r & 0x100 != 0),
                    result == r as u8,
            ;
        }
        self.set_a(result);
        self.f.set_flag(flag_z, flag_n, flag_h, flag_c);
    }

    /// ADD A, n.
    pub fn add_a_n(&mut self, n: u8)
        ensures
            *final(self) == add_a_spec(*old(self), n),
    {
        let mut flag_z = false;
        let flag_n = false;
        let mut flag_h = false;
        let mut flag_c = false;
        let value = self.a.wrapping_add(n);
        if value == 0 {
            flag_z = true;
        }
        if self.check_half_carry(self.a, n) {
            flag_h = true
        }
        if self.check_carry(self.a, n) {
            flag_c = true;
        }
        self.set_a(value);
        self.f.set_flag(flag_z, flag_n, flag_h, flag_c);
    }

    /// SUB n: A - n.
    pub fn sub_a_n(&mut self, n: u8)
        ensures
            *final(self) == sub_a_spec(*old(self), n),
    {
        let value = self.a.wrapping_sub(n);
        let flag_h = self.check_half_carry_sub(self.a, n);
        let flag_c = self.a < n;
        self.set_a(value);
        self.f.set_flag(value == 0, true, flag_h, flag_c);
    }

    /// CP n: compares A with n.
    pub fn cp_a_n(&mut self, n: u8)
        ensures
            *final(self) == cp_a_spec(*old(self), n),
    {
        let flag_h = self.check_half_carry_sub(self.a, n);
        self.f.set_flag(self.a == n, true, flag_h, self.a < n);
    }

    /// The ALU operation `op` (0..8) on A and `n`.
    pub fn alu(&mut self, op: u8, n: u8)
        requires
            op < 8,
        ensures
            *final(self) == alu_spec(op, *old(self), n),
    {
        if op == 0 {
            self.add_a_n(n);
        } else if op == 1 {
            self.adc_a_n(n);
        } else if op == 2 {
            self.sub_a_n(n);
        } else if op == 3 {
            self.sbc_a_n(n);
        } else if op == 4 {
            self.and_a_n(n);
        } else if op == 5 {
            self.xor_a_n(n);
        } else if op == 6 {
            self.or_a_n(n);
        } else {
            self.cp_a_n(n);
        }
    }

    /// BIT b, register: tests bit `bit_idx` of `register`.
    pub fn bit_b_r(&mut self, bit_idx: u8, register: u8)
        requires
            bit_idx < 8,
        ensures
            *final(self) == bit_spec(*old(self), bit_idx, register),
    {
        let check_bits: u8 = 1u8 << bit_idx;
        let bit = register & check_bits;
        proof {
            assert((bit == 0) == ((register >> bit_idx) & 1 == 0)) by (bit_vector)
                requires
                    bit_idx < 8,
                    check_bits == 1u8 << bit_idx,
                    bit == register & check_bits,
            ;
        }
        let flag_z = bit == 0;
        let flag_c = self.f.c;
        self.f.set_flag(flag_z, false, true, flag_c);
    }

    /// Adds a signed 8-bit offset to a word (see [`add_signed`]).
    pub fn add_signed_number(&self, unsigned: u16, signed: i8) -> (r: u16)
        ensures
            r == add_signed(unsigned, signed),
    {
        let is_minus = signed < 0;
        let value: u16 = if signed == -128 { 0xFF80 } else if is_minus { (-signed) as u16 } else { signed as u16 };
        if is_minus {
            unsigned.wrapping_sub(value)
        } else {
            unsigned.wrapping_add(value)
        }
    }

    /// PC += 1 (modulo 2^16).
    pub fn inc_pc(&mut self)
        ensures
            *final(self) == (Registers { pc: add16(old(self).pc as int, 1), ..*old(self) }),
    {
        self.pc = self.pc.wrapping_add(1);
    }

    /// Half carry of `unsigned + signed` (see [`half_carry_u16_i8`]).
    pub fn check_half_carry_u16_plus_i8(&self, unsigned: u16, signed: i8, sum_value: u16) -> (r: bool)
        ensures
            r == half_carry_u16_i8(unsigned, signed, sum_value),
    {
        if signed >= 0 {
            let s = signed as u16;
            assert((s & 0xF) as int == s as int % 16 && (unsigned & 0xF) as int == unsigned as int % 16) by (bit_vector);
            ((unsigned & 0xF) + (s & 0xF)) > 0xF
        } else {
            assert((sum_value & 0xF) as int == sum_value as int % 16 && (unsigned & 0xF) as int == unsigned as int % 16) by (bit_vector);
            (sum_value & 0xF) <= (unsigned & 0xF)
        }
    }

    /// Carry of `unsigned + signed` (see [`carry_u16_i8`]).
    pub fn check_carry_u16_plus_i8(&self, unsigned: u16, signed: i8, sum_value: u16) -> (r: bool)
        ensures
            r == carry_u16_i8(unsigned, signed, sum_value),
    {
        if signed >= 0 {
            let s = signed as u16;
            assert((unsigned & 0xFF) as int == unsigned as int % 256) by (bit_vector);
            ((unsigned & 0xFF) + s) > 0xFF
        } else {
            assert((sum_value & 0xFF) as int == sum_value as int % 256 && (unsigned & 0xFF) as int == unsigned as int % 256) by (bit_vector);
            (sum_value & 0xFF) <= (unsigned & 0xFF)
        }
    }

    /// Whether `num_a + num_b` carries out of bit 7.
    pub fn check_carry(&self, num_a: u8, num_b: u8) -> (r: bool)
        ensures
            r == (num_a as int + num_b as int >= 256),
    {
        let s: u16 = num_a as u16 + num_b as u16;
        let r = s & 0x100 == 0x100;
        assert(r == (s >= 256)) by (bit_vector)
            requires
                s <= 510,
                r == (s & 0x100 == 0x100),
        ;
        r
    }

    /// Whether `num_a + num_b` carries out of bit 3.
    pub fn check_half_carry(&self, num_a: u8, num_b: u8) -> (r: bool)
        ensures
            r == ((num_a as int % 16) + (num_b as int % 16) >= 16),
    {
        assert(num_a & 0xf <= 15 && num_b & 0xf <= 15) by (bit_vector);
        let s: u8 = (num_a & 0xf) + (num_b & 0xf);
        let r = s & 0x010 == 0x010;
        assert(r == ((num_a as int % 16) + (num_b as int % 16) >= 16)) by (bit_vector)
            requires
                s == (num_a & 0xf) + (num_b & 0xf),
                r == (s & 0x010 == 0x010),
        ;
        r
    }

    /// Whether `num_a - num_b` borrows from bit 4.
    pub fn check_half_carry_sub(&self, num_a: u8, num_b: u8) -> (r: bool)
        ensures
            r == ((num_a as int % 16) < (num_b as int % 16)),
    {
        assert((num_a & 0xf) as int == num_a as int % 16 && (num_b & 0xf) as int == num_b as int % 16) by (bit_vector);
        (num_a & 0xf) < (num_b & 0xf)
    }

    /// Whether `num_a + num_b` carries out of bit 15.
    pub fn check_carry_two_bytes(&self, num_a: u16, num_b: u16) -> (r: bool)
        ensures
            r == (num_a as int + num_b as int >= 65536),
    {
        let s: u32 = num_a as u32 + num_b as u32;
        let r = s & 0x10000 == 0x10000;
        assert(r == (s >= 65536)) by (bit_vector)
            requires
                s <= 131070,
                r == (s & 0x10000 == 0x10000),
        ;
        r
    }

    /// Whether `num_a + num_b` carries out of bit 11.
    pub fn check_half_carry_two_bytes(&self, num_a: u16, num_b: u16) -> (r: bool)
        ensures
            r == ((num_a as int % 4096) + (num_b as int % 4096) >= 4096),
    {
        assert(num_a & 0xfff <= 0xfff && num_b & 0xfff <= 0xfff) by (bit_vector);
        let s: u16 = (num_a & 0xfff) + (num_b & 0xfff);
        let r = s & 0x1000 == 0x1000;
        assert(r == ((num_a as int % 4096) + (num_b as int % 4096) >= 4096)) by (bit_vector)
            requires
                s == (num_a & 0xfff) + (num_b & 0xfff),
                r == (s & 0x1000 == 0x1000),
        ;
        r
    }

    /// The word `first_b:second_b`.
    pub fn combine_two_bytes(&self, first_b: u8, second_b: u8) -> (r: u16)
        ensures
            r == word(first_b, second_b),
    {
        let two_bytes_value = ((first_b as u16) << 8) | second_b as u16;
        assert(two_bytes_value == first_b as u16 * 256 + second_b as u16) by (bit_vector)
            requires
                two_bytes_value == ((first_b as u16) << 8) | second_b as u16,
        ;
        two_bytes_value
    }

    pub fn set_pc(&mut self, value: u16)
        ensures
            *final(self) == (Registers { pc: value, ..*old(self) }),
    {
        self.pc = value
    }

    pub fn set_a(&mut self, value: u8)
        ensures
            *final(self) == (Registers { a: value, ..*old(self) }),
    {
        self.a = value
    }

    pub fn set_b(&mut self, value: u8)
        ensures
            *final(self) == (Registers { b: value, ..*old(self) }),
    {
        self.b = value
    }

    pub fn set_c(&mut self, value: u8)
        ensures
            *final(self) == (Registers { c: value, ..*old(self) }),
    {
        self.c = value
    }

    pub fn set_d(&mut self, value: u8)
        ensures
            *final(self) == (Registers { d: value, ..*old(self) }),
    {
        self.d = value
    }

    pub fn set_e(&mut self, value: u8)
        ensures
            *final(self) == (Registers { e: value, ..*old(self) }),
    {
        self.e = value
    }

    pub fn set_h(&mut self, value: u8)
        ensures
            *final(self) == (Registers { h: value, ..*old(self) }),
    {
        self.h = value
    }

    pub fn set_l(&mut self, value: u8)
        ensures
            *final(self) == (Registers { l: value, ..*old(self) }),
    {
        self.l = value
    }

    /// HL = value.
    pub fn set_hl(&mut self, value: u16)
        ensures
            *final(self) == (Registers { h: hi_byte(value), l: lo_byte(value), ..*old(self) }),
    {
        let (hi, lo) = split_word(value);
        self.h = hi;
        self.l = lo;
    }

    /// DE = value.
    pub fn set_de(&mut self, value: u16)
        ensures
            *final(self) == (Registers { d: hi_byte(value), e: lo_byte(value), ..*old(self) }),
    {
        let (hi, lo) = split_word(value);
        self.d = hi;
        self.e = lo;
    }

    /// BC = value.
    pub fn set_bc(&mut self, value: u16)
        ensures
            *final(self) == (Registers { b: hi_byte(value), c: lo_byte(value), ..*old(self) }),
    {
        let (hi, lo) = split_word(value);
        self.b = hi;
        self.c = lo;
    }

    /// AF = value: A from the high byte, Z/N/H/C from bits 7..4 of the low byte;
    /// IME is kept.
    pub fn set_af(&mut self, value: u16)
        ensures
            *final(self) == with_flags(
                Registers { a: hi_byte(value), ..*old(self) },
                lo_byte(value) & 0x80 == 0x80,
                lo_byte(value) & 0x40 == 0x40,
                lo_byte(value) & 0x20 == 0x20,
                lo_byte(value) & 0x10 == 0x10,
            ),
    {
        let (hi, flag) = split_word(value);
        self.a = hi;
        let flag_z = flag & 0x80 == 0x80;
        let flag_n = flag & 0x40 == 0x40;
        let flag_h = flag & 0x20 == 0x20;
        let flag_c = flag & 0x10 == 0x10;
        self.f.set_flag(flag_z, flag_n, flag_h, flag_c);
    }

    pub fn set_sp(&mut self, value: u16)
        ensures
            *final(self) == (Registers { sp: value, ..*old(self) }),
    {
        self.sp = value
    }

    /// The F register as a byte (Z, N, H, C in bits 7..4), assembled with `BitVec`.
    pub fn get_f_as_byte(&self) -> (r: u8)
        ensures
            r == f_byte(self.f),
    {
        let mut bv = bitvec_from_elem(8, false);
        if self.f.z {
            bitvec_set(&mut bv, 0, true);
        }
        if self.f.n {
            bitvec_set(&mut bv, 1, true);
        }
        if self.f.h {
            bitvec_set(&mut bv, 2, true);
        }
        if self.f.c {
            bitvec_set(&mut bv, 3, true);
        }
        let bytes = bitvec_to_bytes(&bv);
        proof {
            let s = bitvec_bits(bv);
            assert(s.len() == 8);
            assert(s =~= seq![self.f.z, self.f.n, self.f.h, self.f.c, false, false, false, false]);
        }
        bytes[0]
    }
}

impl Flag {
    /// Sets Z, N, H and C.
    pub fn set_flag(&mut self, z: bool, n: bool, h: bool, c: bool)
        ensures
            *final(self) == (Flag { z, n, h, c, ime: old(self).ime }),
    {
        self.z = z;
        self.n = n;
        self.h = h;
        self.c = c;
    }

    /// Sets the interrupt master enable flag.
    pub fn set_ime(&mut self, interupt_enabled: bool)
        ensures
            *final(self) == (Flag { ime: interupt_enabled, ..*old(self) }),
    {
        self.ime = interupt_enabled
    }
}

/// Splits a word into its high and low bytes.
pub fn split_word(value: u16) -> (r: (u8, u8))
    ensures
        r.0 == hi_byte(value),
        r.1 == lo_byte(value),
{
    let hi = (value >> 8) as u8;
    let lo = (value & 0xff) as u8;
    assert(hi as int == value as int / 256) by (bit_vector)
        requires
            hi == (value >> 8) as u8,
    ;
    assert(lo as int == value as int % 256) by (bit_vector)
        requires
            lo == (value & 0xff) as u8,
    ;
    (hi, lo)
}

} // verus!
