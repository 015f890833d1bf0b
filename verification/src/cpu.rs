//! The CPU core: the register file with its flag algebra, the
//! fetch-decode-execute loop over the full base and extended opcode spaces,
//! interrupt servicing, and halt semantics.  Every 8-bit bus access costs 4
//! cycles, counted in the per-step tick tally.
//!
//! An undefined opcode in the base space is a decode fault: it latches the
//! fault flag and freezes the core (the reference behavior terminates
//! emulation), so stepping is total.

use vstd::prelude::*;

use crate::mmu::MMU;
use crate::cartridge::LoadError;

verus! {

/// The zero flag, bit 7 of the flags register.
pub open spec fn flag_z(f: u8) -> bool {
    (f >> 7) & 1 == 1
}

/// The subtract flag, bit 6 of the flags register.
pub open spec fn flag_n(f: u8) -> bool {
    (f >> 6) & 1 == 1
}

/// The half-carry flag, bit 5 of the flags register.
pub open spec fn flag_h(f: u8) -> bool {
    (f >> 5) & 1 == 1
}

/// The carry flag, bit 4 of the flags register.
pub open spec fn flag_c(f: u8) -> bool {
    (f >> 4) & 1 == 1
}

/// The reference half-carry formula for addition: a carry out of bit 3 into
/// bit 4, over the low nibbles and the carry-in.
pub open spec fn half_carry_add(a: u8, b: u8, cin: u8) -> bool {
    (a % 16) + (b % 16) + cin > 15
}

/// The reference carry formula for addition: a carry out of bit 7.
pub open spec fn carry_add(a: u8, b: u8, cin: u8) -> bool {
    a + b + cin > 255
}

/// The reference half-carry formula for subtraction: a borrow into bit 4.
pub open spec fn half_borrow_sub(a: u8, b: u8, cin: u8) -> bool {
    (a % 16) < (b % 16) + cin
}

/// The reference carry formula for subtraction: a borrow out of bit 7.
pub open spec fn borrow_sub(a: u8, b: u8, cin: u8) -> bool {
    (a as int) < b + cin
}

/// A 16-bit register pair from its high and low bytes.
pub open spec fn pair(hi: u8, lo: u8) -> u16 {
    ((hi as u16) << 8) | (lo as u16)
}

/// Splitting a 16-bit value into its bytes and recomposing them returns the
/// value, and the pair of two bytes splits back into them.
pub proof fn lemma_pair(v: u16, hi: u8, lo: u8)
    ensures
        pair(((v >> 8) & 0xFF) as u8, (v & 0xFF) as u8) == v,
        (pair(hi, lo) >> 8) & 0xFF == hi,
        pair(hi, lo) & 0xFF == lo,
        pair(hi, lo) == hi * 256 + lo,
{
    assert((((((v >> 8) & 0xFF) as u8) as u16) << 8) | (((v & 0xFF) as u8) as u16) == v && (((
    (hi as u16) << 8) | (lo as u16)) >> 8) & 0xFF == hi && (((hi as u16) << 8) | (lo as u16))
        & 0xFF == lo && (((hi as u16) << 8) | (lo as u16)) == (hi as u16) * 256 + (lo as u16))
        by (bit_vector);
}

/// The branch condition encoded by a 2-bit condition index: not-zero, zero,
/// not-carry, carry.
pub open spec fn cond_spec(f: u8, idx: u8) -> bool {
    if idx == 0 {
        !flag_z(f)
    } else if idx == 1 {
        flag_z(f)
    } else if idx == 2 {
        !flag_c(f)
    } else {
        flag_c(f)
    }
}

pub struct CPU {
    /// The memory bus the core drives.
    pub mmu: MMU,
    /// The accumulator.
    pub reg_a: u8,
    /// The flags register; its low nibble is always zero.
    pub reg_f: u8,
    pub reg_b: u8,
    pub reg_c: u8,
    pub reg_d: u8,
    pub reg_e: u8,
    pub reg_h: u8,
    pub reg_l: u8,
    /// The program counter.
    pub pc: u16,
    /// The stack pointer.
    pub sp: u16,
    /// The interrupt master enable.
    pub ime: bool,
    /// Halted: steps consume cycles without fetching.
    pub halted: bool,
    /// Decode fault latch: an undefined base-space opcode was fetched and
    /// the core is frozen.
    pub fault: bool,
    /// Cycles consumed in the current step.
    pub tick: u8,
}

impl CPU {
    /// Well-formedness: the bus is well formed and the low nibble of the
    /// flags register is zero.
    pub open spec fn inv(self) -> bool {
        &&& self.mmu.inv()
        &&& self.reg_f & 0x0F == 0
    }

    /// Everything but the flags register is unchanged.
    pub open spec fn eq_except_f(pre: CPU, post: CPU) -> bool {
        post == (CPU { reg_f: post.reg_f, ..pre })
    }

    /// Everything but the accumulator and the flags register is unchanged.
    pub open spec fn eq_except_af(pre: CPU, post: CPU) -> bool {
        post == (CPU { reg_a: post.reg_a, reg_f: post.reg_f, ..pre })
    }

    /// A core at power-on, owning its bus: the boot procedure is skipped, so
    /// the program counter starts at the cartridge entry address.  A
    /// cartridge image the bus rejects aborts construction with its load
    /// error.
    pub fn new(bios: Vec<u8>, rom: Vec<u8>) -> (r: Result<CPU, LoadError>)
        ensures
            r is Ok <==> crate::cartridge::load_check(rom@) is None,
            r matches Err(e) ==> crate::cartridge::load_check(rom@) == Some(e),
            r matches Ok(c) ==> ({
                &&& c.inv()
                &&& c.reg_a == 0 && c.reg_f == 0 && c.reg_b == 0 && c.reg_c == 0
                &&& c.reg_d == 0 && c.reg_e == 0 && c.reg_h == 0 && c.reg_l == 0
                &&& c.pc == 0x0100
                &&& c.sp == 0
                &&& !c.ime && !c.halted && !c.fault
                &&& c.tick == 0
                &&& c.mmu.bios.bios@ == bios@
                &&& c.mmu.cartridge.rom@ == rom@
                &&& c.mmu.int_flag == 0 && c.mmu.int_enable == 0
            }),
    {
        let mmu = match MMU::new(bios, rom) {
            Ok(m) => m,
            Err(e) => {
                return Err(e);
            },
        };

        proof {
            assert(0u8 & 0x0F == 0) by (bit_vector);
        }
        Ok(
            CPU {
                mmu,
                reg_a: 0,
                reg_f: 0,
                reg_b: 0,
                reg_c: 0,
                reg_d: 0,
                reg_e: 0,
                reg_h: 0,
                reg_l: 0,
                ime: false,
                halted: false,
                fault: false,
                pc: 0x0100,
                sp: 0,
                tick: 0,
            },
        )
    }

    /// The accumulator-flags pair.
    pub fn af(&self) -> (r: u16)
        ensures
            r == pair(self.reg_a, self.reg_f),
    {
        (self.reg_a as u16) << 8 | self.reg_f as u16
    }

    /// Stores the accumulator-flags pair; the low nibble of the flags half
    /// must be clear, as the flags register always keeps it zero.
    pub fn set_af(&mut self, val: u16)
        requires
            old(self).inv(),
            val & 0x0F == 0,
        ensures
            final(self).inv(),
            final(self).reg_a == ((val >> 8) & 0xFF) as u8,
            final(self).reg_f == (val & 0xFF) as u8,
            pair(final(self).reg_a, final(self).reg_f) == val,
            CPU::eq_except_af(*old(self), *final(self)),
    {
        self.reg_a = (val >> 8 & 0xFF) as u8;
        self.reg_f = (val & 0xFF) as u8;
        proof {
            lemma_pair(val, 0, 0);
            assert(val & 0x0F == 0 ==> ((val & 0xFF) as u8) & 0x0F == 0) by (bit_vector);
        }
    }

    /// The BC pair.
    pub fn bc(&self) -> (r: u16)
        ensures
            r == pair(self.reg_b, self.reg_c),
    {
        (self.reg_b as u16) << 8 | self.reg_c as u16
    }

    /// Stores the BC pair.
    pub fn set_bc(&mut self, val: u16)
        ensures
            final(self).reg_b == ((val >> 8) & 0xFF) as u8,
            final(self).reg_c == (val & 0xFF) as u8,
            pair(final(self).reg_b, final(self).reg_c) == val,
            (*final(self)) == (CPU { reg_b: final(self).reg_b, reg_c: final(self).reg_c, ..*old(self) }),
    {
        self.reg_b = (val >> 8 & 0xFF) as u8;
        self.reg_c = (val & 0xFF) as u8;
        proof {
            lemma_pair(val, 0, 0);
        }
    }

    /// The DE pair.
    pub fn de(&self) -> (r: u16)
        ensures
            r == pair(self.reg_d, self.reg_e),
    {
        (self.reg_d as u16) << 8 | self.reg_e as u16
    }

    /// Stores the DE pair.
    pub fn set_de(&mut self, val: u16)
        ensures
            final(self).reg_d == ((val >> 8) & 0xFF) as u8,
            final(self).reg_e == (val & 0xFF) as u8,
            pair(final(self).reg_d, final(self).reg_e) == val,
            (*final(self)) == (CPU { reg_d: final(self).reg_d, reg_e: final(self).reg_e, ..*old(self) }),
    {
        self.reg_d = (val >> 8 & 0xFF) as u8;
        self.reg_e = (val & 0xFF) as u8;
        proof {
            lemma_pair(val, 0, 0);
        }
    }

    /// The HL pair.
    pub fn hl(&self) -> (r: u16)
        ensures
            r == pair(self.reg_h, self.reg_l),
    {
        (self.reg_h as u16) << 8 | self.reg_l as u16
    }

    /// Stores the HL pair.
    pub fn set_hl(&mut self, val: u16)
        ensures
            final(self).reg_h == ((val >> 8) & 0xFF) as u8,
            final(self).reg_l == (val & 0xFF) as u8,
            pair(final(self).reg_h, final(self).reg_l) == val,
            (*final(self)) == (CPU { reg_h: final(self).reg_h, reg_l: final(self).reg_l, ..*old(self) }),
    {
        self.reg_h = (val >> 8 & 0xFF) as u8;
        self.reg_l = (val & 0xFF) as u8;
        proof {
            lemma_pair(val, 0, 0);
        }
    }

    /// Stores the zero flag, leaving the other flags and the zero low
    /// nibble untouched.
    pub fn set_f_z(&mut self, z: bool)
        ensures
            flag_z(final(self).reg_f) == z,
            flag_n(final(self).reg_f) == flag_n(old(self).reg_f),
            flag_h(final(self).reg_f) == flag_h(old(self).reg_f),
            flag_c(final(self).reg_f) == flag_c(old(self).reg_f),
            final(self).reg_f & 0x0F == old(self).reg_f & 0x0F,
            CPU::eq_except_f(*old(self), *final(self)),
    {
        let f = self.reg_f;
        if z {
            self.reg_f = f | 0x80;
        } else {
            self.reg_f = f & 0x7F;
        }
        proof {
            assert(((f | 0x80) >> 7) & 1 == 1 && ((f & 0x7F) >> 7) & 1 == 0 && ((f | 0x80) >> 6)
                & 1 == (f >> 6) & 1 && ((f & 0x7F) >> 6) & 1 == (f >> 6) & 1 && ((f | 0x80) >> 5)
                & 1 == (f >> 5) & 1 && ((f & 0x7F) >> 5) & 1 == (f >> 5) & 1 && ((f | 0x80) >> 4)
                & 1 == (f >> 4) & 1 && ((f & 0x7F) >> 4) & 1 == (f >> 4) & 1 && (f | 0x80) & 0x0F
                == f & 0x0F && (f & 0x7F) & 0x0F == f & 0x0F) by (bit_vector);
        }
    }

    /// The zero flag.
    pub fn f_z(&self) -> (r: bool)
        ensures
            r == flag_z(self.reg_f),
    {
        (self.reg_f >> 7) & 1 == 1
    }

    /// Stores the subtract flag.
    pub fn set_f_n(&mut self, n: bool)
        ensures
            flag_n(final(self).reg_f) == n,
            flag_z(final(self).reg_f) == flag_z(old(self).reg_f),
            flag_h(final(self).reg_f) == flag_h(old(self).reg_f),
            flag_c(final(self).reg_f) == flag_c(old(self).reg_f),
            final(self).reg_f & 0x0F == old(self).reg_f & 0x0F,
            CPU::eq_except_f(*old(self), *final(self)),
    {
        let f = self.reg_f;
        if n {
            self.reg_f = f | 0x40;
        } else {
            self.reg_f = f & 0xBF;
        }
        proof {
            assert(((f | 0x40) >> 6) & 1 == 1 && ((f & 0xBF) >> 6) & 1 == 0 && ((f | 0x40) >> 7)
                & 1 == (f >> 7) & 1 && ((f & 0xBF) >> 7) & 1 == (f >> 7) & 1 && ((f | 0x40) >> 5)
                & 1 == (f >> 5) & 1 && ((f & 0xBF) >> 5) & 1 == (f >> 5) & 1 && ((f | 0x40) >> 4)
                & 1 == (f >> 4) & 1 && ((f & 0xBF) >> 4) & 1 == (f >> 4) & 1 && (f | 0x40) & 0x0F
                == f & 0x0F && (f & 0xBF) & 0x0F == f & 0x0F) by (bit_vector);
        }
    }

    /// The subtract flag.
    pub fn f_n(&self) -> (r: bool)
        ensures
            r == flag_n(self.reg_f),
    {
        (self.reg_f >> 6) & 1 == 1
    }

    /// Stores the half-carry flag.
    pub fn set_f_h(&mut self, h: bool)
        ensures
            flag_h(final(self).reg_f) == h,
            flag_z(final(self).reg_f) == flag_z(old(self).reg_f),
            flag_n(final(self).reg_f) == flag_n(old(self).reg_f),
            flag_c(final(self).reg_f) == flag_c(old(self).reg_f),
            final(self).reg_f & 0x0F == old(self).reg_f & 0x0F,
            CPU::eq_except_f(*old(self), *final(self)),
    {
        let f = self.reg_f;
        if h {
            self.reg_f = f | 0x20;
        } else {
            self.reg_f = f & 0xDF;
        }
        proof {
            assert(((f | 0x20) >> 5) & 1 == 1 && ((f & 0xDF) >> 5) & 1 == 0 && ((f | 0x20) >> 7)
                & 1 == (f >> 7) & 1 && ((f & 0xDF) >> 7) & 1 == (f >> 7) & 1 && ((f | 0x20) >> 6)
                & 1 == (f >> 6) & 1 && ((f & 0xDF) >> 6) & 1 == (f >> 6) & 1 && ((f | 0x20) >> 4)
                & 1 == (f >> 4) & 1 && ((f & 0xDF) >> 4) & 1 == (f >> 4) & 1 && (f | 0x20) & 0x0F
                == f & 0x0F && (f & 0xDF) & 0x0F == f & 0x0F) by (bit_vector);
        }
    }

    /// The half-carry flag.
    pub fn f_h(&self) -> (r: bool)
        ensures
            r == flag_h(self.reg_f),
    {
        (self.reg_f >> 5) & 1 == 1
    }

    /// Stores the carry flag.
    pub fn set_f_c(&mut self, c: bool)
        ensures
            flag_c(final(self).reg_f) == c,
            flag_z(final(self).reg_f) == flag_z(old(self).reg_f),
            flag_n(final(self).reg_f) == flag_n(old(self).reg_f),
            flag_h(final(self).reg_f) == flag_h(old(self).reg_f),
            final(self).reg_f & 0x0F == old(self).reg_f & 0x0F,
            CPU::eq_except_f(*old(self), *final(self)),
    {
        let f = self.reg_f;
        if c {
            self.reg_f = f | 0x10;
        } else {
            self.reg_f = f & 0xEF;
        }
        proof {
            assert(((f | 0x10) >> 4) & 1 == 1 && ((f & 0xEF) >> 4) & 1 == 0 && ((f | 0x10) >> 7)
                & 1 == (f >> 7) & 1 && ((f & 0xEF) >> 7) & 1 == (f >> 7) & 1 && ((f | 0x10) >> 6)
                & 1 == (f >> 6) & 1 && ((f & 0xEF) >> 6) & 1 == (f >> 6) & 1 && ((f | 0x10) >> 5)
                & 1 == (f >> 5) & 1 && ((f & 0xEF) >> 5) & 1 == (f >> 5) & 1 && (f | 0x10) & 0x0F
                == f & 0x0F && (f & 0xEF) & 0x0F == f & 0x0F) by (bit_vector);
        }
    }

    /// The carry flag.
    pub fn f_c(&self) -> (r: bool)
        ensures
            r == flag_c(self.reg_f),
    {
        (self.reg_f >> 4) & 1 == 1
    }

    /// Checks the branch condition encoded by a 2-bit condition index.
    pub fn cc(&self, idx: u8) -> (r: bool)
        requires
            idx <= 3,
        ensures
            r == cond_spec(self.reg_f, idx),
    {
        match idx {
            0 => !self.f_z(),
            1 => self.f_z(),
            2 => !self.f_c(),
            _ => self.f_c(),
        }
    }

    /// Writes an 8-bit value to the bus, counting the 4-cycle access.
    pub fn write_mem8(&mut self, addr: u16, val: u8)
        requires
            old(self).inv(),
            old(self).tick <= 251,
        ensures
            final(self).inv(),
            crate::mmu::bus_write_effect(old(self).mmu, final(self).mmu, addr, val),
            final(self).tick == old(self).tick + 4,
            (*final(self)) == (CPU { mmu: final(self).mmu, tick: final(self).tick, ..*old(self) }),
    {
        self.mmu.write(addr, val);

        self.tick = self.tick + 4;
    }

    /// Reads an 8-bit value from the bus, counting the 4-cycle access.
    pub fn read_mem8(&mut self, addr: u16) -> (r: u8)
        requires
            old(self).inv(),
            old(self).tick <= 251,
        ensures
            final(self).inv(),
            r == old(self).mmu.read_spec(addr),
            final(self).mmu == crate::mmu::after_read(old(self).mmu, addr),
            final(self).tick == old(self).tick + 4,
            (*final(self)) == (CPU { mmu: final(self).mmu, tick: final(self).tick, ..*old(self) }),
    {
        let ret = self.mmu.read(addr);

        self.tick = self.tick + 4;

        ret
    }

    /// Writes a 16-bit value to the bus, low byte first, as two accesses.
    pub fn write_mem16(&mut self, addr: u16, val: u16)
        requires
            old(self).inv(),
            old(self).tick <= 247,
        ensures
            final(self).inv(),
            crate::mmu::write16_effect(old(self).mmu, final(self).mmu, addr, val),
            final(self).tick == old(self).tick + 8,
            (*final(self)) == (CPU { mmu: final(self).mmu, tick: final(self).tick, ..*old(self) }),
    {
        self.write_mem8(addr, (val & 0xFF) as u8);
        let ghost mid = self.mmu;
        self.write_mem8(addr.wrapping_add(1), (val >> 8) as u8);
        proof {
            assert((val >> 8) as u8 == ((val >> 8) & 0xFF) as u8) by (bit_vector);
            assert(crate::mmu::bus_write_effect(old(self).mmu, mid, addr, (val & 0xFF) as u8));
            assert(crate::mmu::bus_write_effect(
                mid,
                self.mmu,
                addr.wrapping_add(1),
                (val >> 8) as u8,
            ));
        }
    }

    /// Reads a 16-bit value from the bus, low byte first, as two accesses.
    pub fn read_mem16(&mut self, addr: u16) -> (r: u16)
        requires
            old(self).inv(),
            old(self).tick <= 247,
        ensures
            final(self).inv(),
            r == crate::mmu::read16_spec(old(self).mmu, addr),
            final(self).mmu == crate::mmu::after_read(
                crate::mmu::after_read(old(self).mmu, addr),
                addr.wrapping_add(1),
            ),
            final(self).tick == old(self).tick + 8,
            (*final(self)) == (CPU { mmu: final(self).mmu, tick: final(self).tick, ..*old(self) }),
    {
        let lo = self.read_mem8(addr);
        let hi = self.read_mem8(addr.wrapping_add(1));

        (hi as u16) << 8 | lo as u16
    }

    /// Reads and consumes the 8-bit immediate at the program counter.
    pub fn read_d8(&mut self) -> (r: u8)
        requires
            old(self).inv(),
            old(self).tick <= 251,
        ensures
            final(self).inv(),
            r == old(self).mmu.read_spec(old(self).pc),
            final(self).mmu == crate::mmu::after_read(old(self).mmu, old(self).pc),
            final(self).pc == old(self).pc.wrapping_add(1),
            final(self).tick == old(self).tick + 4,
            (*final(self)) == (CPU {
                mmu: final(self).mmu,
                pc: final(self).pc,
                tick: final(self).tick,
                ..*old(self)
            }),
    {
        let pc = self.pc;
        let imm = self.read_mem8(pc);
        self.pc = self.pc.wrapping_add(1);

        imm
    }

    /// Reads and consumes the 16-bit immediate at the program counter.
    pub fn read_d16(&mut self) -> (r: u16)
        requires
            old(self).inv(),
            old(self).tick <= 247,
        ensures
            final(self).inv(),
            r == crate::mmu::read16_spec(old(self).mmu, old(self).pc),
            final(self).mmu == crate::mmu::after_read(
                crate::mmu::after_read(old(self).mmu, old(self).pc),
                old(self).pc.wrapping_add(1),
            ),
            final(self).pc == old(self).pc.wrapping_add(2),
            final(self).tick == old(self).tick + 8,
            (*final(self)) == (CPU {
                mmu: final(self).mmu,
                pc: final(self).pc,
                tick: final(self).tick,
                ..*old(self)
            }),
    {
        let pc = self.pc;
        let imm = self.read_mem16(pc);
        self.pc = self.pc.wrapping_add(2);

        imm
    }

    /// The register selected by a 3-bit operand index, for the seven plain
    /// register operands (index 6 is the memory operand).
    pub open spec fn r8_spec(self, idx: u8) -> u8 {
        if idx == 0 {
            self.reg_b
        } else if idx == 1 {
            self.reg_c
        } else if idx == 2 {
            self.reg_d
        } else if idx == 3 {
            self.reg_e
        } else if idx == 4 {
            self.reg_h
        } else if idx == 5 {
            self.reg_l
        } else {
            self.reg_a
        }
    }

    /// Writes the 8-bit operand selected by a 3-bit index: a register, or
    /// the byte at HL for index 6 (one 4-cycle bus access).
    pub fn write_r8(&mut self, idx: u8, val: u8)
        requires
            old(self).inv(),
            idx <= 7,
            old(self).tick <= 251,
        ensures
            final(self).inv(),
            idx != 6 ==> final(self).r8_spec(idx) == val && final(self).tick == old(self).tick
                && final(self).mmu == old(self).mmu && final(self).reg_f == old(self).reg_f
                && final(self).pc == old(self).pc && final(self).sp == old(self).sp,
            idx != 6 ==> final(self).reg_b == (if idx == 0 { val } else { old(self).reg_b })
                && final(self).reg_c == (if idx == 1 { val } else { old(self).reg_c })
                && final(self).reg_d == (if idx == 2 { val } else { old(self).reg_d })
                && final(self).reg_e == (if idx == 3 { val } else { old(self).reg_e })
                && final(self).reg_h == (if idx == 4 { val } else { old(self).reg_h })
                && final(self).reg_l == (if idx == 5 { val } else { old(self).reg_l })
                && final(self).reg_a == (if idx == 7 { val } else { old(self).reg_a }),
            idx == 6 ==> crate::mmu::bus_write_effect(
                old(self).mmu,
                final(self).mmu,
                pair(old(self).reg_h, old(self).reg_l),
                val,
            ) && final(self).tick == old(self).tick + 4 && (*final(self)) == (CPU {
                mmu: final(self).mmu,
                tick: final(self).tick,
                ..*old(self)
            }),
            final(self).reg_f == old(self).reg_f,
            final(self).pc == old(self).pc,
            final(self).sp == old(self).sp,
            final(self).halted == old(self).halted,
            final(self).fault == old(self).fault,
            final(self).ime == old(self).ime,
    {
        match idx {
            0 => self.reg_b = val,
            1 => self.reg_c = val,
            2 => self.reg_d = val,
            3 => self.reg_e = val,
            4 => self.reg_h = val,
            5 => self.reg_l = val,
            6 => {
                let hl = self.hl();
                self.write_mem8(hl, val);
            },
            _ => self.reg_a = val,
        }
    }

    /// Reads the 8-bit operand selected by a 3-bit index: a register, or the
    /// byte at HL for index 6 (one 4-cycle bus access).
    pub fn read_r8(&mut self, idx: u8) -> (r: u8)
        requires
            old(self).inv(),
            idx <= 7,
            old(self).tick <= 251,
        ensures
            final(self).inv(),
            idx != 6 ==> r == old(self).r8_spec(idx) && (*final(self)) == (*old(self)),
            idx == 6 ==> r == old(self).mmu.read_spec(pair(old(self).reg_h, old(self).reg_l))
                && final(self).mmu == crate::mmu::after_read(
                old(self).mmu,
                pair(old(self).reg_h, old(self).reg_l),
            ) && final(self).tick == old(self).tick + 4 && (*final(self)) == (CPU {
                mmu: final(self).mmu,
                tick: final(self).tick,
                ..*old(self)
            }),
    {
        match idx {
            0 => self.reg_b,
            1 => self.reg_c,
            2 => self.reg_d,
            3 => self.reg_e,
            4 => self.reg_h,
            5 => self.reg_l,
            6 => {
                let hl = self.hl();
                self.read_mem8(hl)
            },
            _ => self.reg_a,
        }
    }

    /// The register pair selected by a 2-bit operand index: BC, DE, HL or
    /// the stack pointer.
    pub open spec fn r16_spec(self, idx: u8) -> u16 {
        if idx == 0 {
            pair(self.reg_b, self.reg_c)
        } else if idx == 1 {
            pair(self.reg_d, self.reg_e)
        } else if idx == 2 {
            pair(self.reg_h, self.reg_l)
        } else {
            self.sp
        }
    }

    /// Writes the 16-bit operand selected by a 2-bit index.
    pub fn write_r16(&mut self, idx: u8, val: u16)
        requires
            idx <= 3,
        ensures
            final(self).r16_spec(idx) == val,
            forall|j: u8| j <= 3 && j != idx ==> final(self).r16_spec(j) == old(self).r16_spec(j),
            final(self).mmu == old(self).mmu,
            final(self).reg_a == old(self).reg_a,
            final(self).reg_f == old(self).reg_f,
            final(self).pc == old(self).pc,
            final(self).tick == old(self).tick,
            final(self).ime == old(self).ime,
            final(self).halted == old(self).halted,
            final(self).fault == old(self).fault,
    {
        match idx {
            0 => self.set_bc(val),
            1 => self.set_de(val),
            2 => self.set_hl(val),
            _ => self.sp = val,
        }
    }

    /// Reads the 16-bit operand selected by a 2-bit index.
    pub fn read_r16(&mut self, idx: u8) -> (r: u16)
        requires
            idx <= 3,
        ensures
            r == old(self).r16_spec(idx),
            (*final(self)) == (*old(self)),
    {
        match idx {
            0 => self.bc(),
            1 => self.de(),
            2 => self.hl(),
            _ => self.sp,
        }
    }

    /// The value of the 8-bit operand selected by a 3-bit index: a register,
    /// or the byte at HL for index 6.
    pub open spec fn operand8(s: CPU, idx: u8) -> u8 {
        if idx == 6 {
            s.mmu.read_spec(pair(s.reg_h, s.reg_l))
        } else {
            s.r8_spec(idx)
        }
    }

    /// The core after reading the 8-bit operand selected by a 3-bit index:
    /// the memory operand costs one bus access.
    pub open spec fn after_operand8(s: CPU, idx: u8) -> CPU {
        if idx == 6 {
            CPU {
                mmu: crate::mmu::after_read(s.mmu, pair(s.reg_h, s.reg_l)),
                tick: (s.tick + 4) as u8,
                ..s
            }
        } else {
            s
        }
    }

    /// The 8-bit immediate at the program counter.
    pub open spec fn imm8(s: CPU) -> u8 {
        s.mmu.read_spec(s.pc)
    }

    /// The core after consuming the 8-bit immediate.
    pub open spec fn after_imm8(s: CPU) -> CPU {
        CPU {
            mmu: crate::mmu::after_read(s.mmu, s.pc),
            pc: s.pc.wrapping_add(1),
            tick: (s.tick + 4) as u8,
            ..s
        }
    }

    /// The 16-bit immediate at the program counter.
    pub open spec fn imm16(s: CPU) -> u16 {
        crate::mmu::read16_spec(s.mmu, s.pc)
    }

    /// The core after consuming the 16-bit immediate.
    pub open spec fn after_imm16(s: CPU) -> CPU {
        CPU {
            mmu: crate::mmu::after_read(
                crate::mmu::after_read(s.mmu, s.pc),
                s.pc.wrapping_add(1),
            ),
            pc: s.pc.wrapping_add(2),
            tick: (s.tick + 8) as u8,
            ..s
        }
    }

    /// NOP: does nothing.
    pub fn nop(&mut self)
        ensures
            (*final(self)) == (*old(self)),
    {
    }

    /// LD r16, d16: loads a 16-bit immediate into a register pair.
    pub fn ld_r16_d16(&mut self, reg: u8)
        requires
            old(self).inv(),
            reg <= 3,
            old(self).tick <= 200,
        ensures
            final(self).inv(),
            final(self).r16_spec(reg) == CPU::imm16(*old(self)),
            forall|j: u8|
                j <= 3 && j != reg ==> final(self).r16_spec(j) == CPU::after_imm16(
                    *old(self),
                ).r16_spec(j),
            final(self).mmu == CPU::after_imm16(*old(self)).mmu,
            final(self).pc == old(self).pc.wrapping_add(2),
            final(self).tick == old(self).tick + 8,
            final(self).reg_a == old(self).reg_a,
            final(self).reg_f == old(self).reg_f,
            final(self).ime == old(self).ime,
            final(self).halted == old(self).halted,
            final(self).fault == old(self).fault,
    {
        let val = self.read_d16();

        self.write_r16(reg, val);
    }

    /// LD (d16), SP: stores the stack pointer at an absolute address.
    pub fn ld_ind_d16_sp(&mut self)
        requires
            old(self).inv(),
            old(self).tick <= 200,
        ensures
            final(self).inv(),
            crate::mmu::write16_effect(
                CPU::after_imm16(*old(self)).mmu,
                final(self).mmu,
                CPU::imm16(*old(self)),
                old(self).sp,
            ),
            final(self).tick == old(self).tick + 16,
            (*final(self)) == (CPU {
                mmu: final(self).mmu,
                pc: old(self).pc.wrapping_add(2),
                tick: final(self).tick,
                ..*old(self)
            }),
    {
        let addr = self.read_d16();
        let sp = self.sp;

        self.write_mem16(addr, sp);
    }

    /// LD SP, HL: copies HL into the stack pointer (one internal cycle).
    pub fn ld_sp_hl(&mut self)
        requires
            old(self).tick <= 200,
        ensures
            (*final(self)) == (CPU {
                sp: pair(old(self).reg_h, old(self).reg_l),
                tick: (old(self).tick + 4) as u8,
                ..*old(self)
            }),
    {
        self.tick = self.tick + 4;

        self.sp = self.hl();
    }

    /// ADD HL, r16: 16-bit addition into HL.  The half-carry is the carry
    /// out of bit 11 and the carry the carry out of bit 15; the zero flag is
    /// untouched.
    pub fn add_hl_r16(&mut self, reg: u8)
        requires
            old(self).inv(),
            reg <= 3,
            old(self).tick <= 200,
        ensures
            final(self).inv(),
            pair(final(self).reg_h, final(self).reg_l) == old(self).r16_spec(2).wrapping_add(
                old(self).r16_spec(reg),
            ),
            flag_z(final(self).reg_f) == flag_z(old(self).reg_f),
            !flag_n(final(self).reg_f),
            flag_h(final(self).reg_f) == (old(self).r16_spec(2) % 4096 + old(self).r16_spec(reg)
                % 4096 > 4095),
            flag_c(final(self).reg_f) == (old(self).r16_spec(2) + old(self).r16_spec(reg) > 65535),
            (*final(self)) == (CPU {
                reg_h: final(self).reg_h,
                reg_l: final(self).reg_l,
                reg_f: final(self).reg_f,
                tick: (old(self).tick + 4) as u8,
                ..*old(self)
            }),
    {
        let hl = self.hl();
        let val = self.read_r16(reg);

        proof {
            crate::bits::lemma_low_12(hl);
            crate::bits::lemma_low_12(val);
        }
        let half_carry = (hl & 0xFFF) + (val & 0xFFF) > 0xFFF;
        let sum: u32 = hl as u32 + val as u32;
        let carry = sum > 0xFFFF;
        let res = (sum % 0x10000) as u16;
        self.set_hl(res);

        self.tick = self.tick + 4;

        self.set_f_n(false);
        self.set_f_h(half_carry);
        self.set_f_c(carry);
    }

    /// The flag effect shared by ADD SP, d8 and LD HL, SP+d8: the half-carry
    /// and carry are computed on the low byte of the stack pointer and the
    /// signed displacement; zero and subtract are cleared.
    pub fn add_sp_signed(&mut self, offset: i8) -> (r: u16)
        requires
            old(self).inv(),
        ensures
            final(self).inv(),
            r == old(self).sp.wrapping_add(offset as u16),
            !flag_z(final(self).reg_f),
            !flag_n(final(self).reg_f),
            flag_h(final(self).reg_f) == (old(self).sp % 16 + (offset as u16) % 16 > 15),
            flag_c(final(self).reg_f) == (old(self).sp % 256 + (offset as u16) % 256 > 255),
            CPU::eq_except_f(*old(self), *final(self)),
    {
        let val = offset as u16;
        let sp = self.sp;

        proof {
            assert(sp & 0x0F == sp % 16 && val & 0x0F == val % 16 && sp & 0xFF == sp % 256 && val
                & 0xFF == val % 256) by (bit_vector);
        }
        let half_carry = (sp & 0x0F) + (val & 0x0F) > 0x0F;
        let carry = (sp & 0xFF) + (val & 0xFF) > 0xFF;

        self.set_f_z(false);
        self.set_f_n(false);
        self.set_f_h(half_carry);
        self.set_f_c(carry);

        sp.wrapping_add(val)
    }

    /// ADD SP, d8: adds a signed 8-bit immediate to the stack pointer.
    pub fn add_sp_d8(&mut self)
        requires
            old(self).inv(),
            old(self).tick <= 200,
        ensures
            final(self).inv(),
            final(self).sp == old(self).sp.wrapping_add((CPU::imm8(*old(self)) as i8) as u16),
            !flag_z(final(self).reg_f),
            !flag_n(final(self).reg_f),
            flag_h(final(self).reg_f) == (old(self).sp % 16 + ((CPU::imm8(*old(self)) as i8) as u16) % 16 > 15),
            flag_c(final(self).reg_f) == (old(self).sp % 256 + ((CPU::imm8(*old(self)) as i8) as u16) % 256 > 255),
            (*final(self)) == (CPU {
                mmu: CPU::after_imm8(*old(self)).mmu,
                pc: old(self).pc.wrapping_add(1),
                sp: final(self).sp,
                reg_f: final(self).reg_f,
                tick: (old(self).tick + 12) as u8,
                ..*old(self)
            }),
    {
        let val = self.read_d8() as i8;

        let r = self.add_sp_signed(val);
        self.sp = r;

        self.tick = self.tick + 8;
    }

    /// LD HL, SP+d8: loads the stack pointer plus a signed 8-bit immediate
    /// into HL.
    pub fn ld_hl_sp_d8(&mut self)
        requires
            old(self).inv(),
            old(self).tick <= 200,
        ensures
            final(self).inv(),
            pair(final(self).reg_h, final(self).reg_l) == old(self).sp.wrapping_add(
                (CPU::imm8(*old(self)) as i8) as u16,
            ),
            !flag_z(final(self).reg_f),
            !flag_n(final(self).reg_f),
            flag_h(final(self).reg_f) == (old(self).sp % 16 + ((CPU::imm8(*old(self)) as i8) as u16) % 16 > 15),
            flag_c(final(self).reg_f) == (old(self).sp % 256 + ((CPU::imm8(*old(self)) as i8) as u16) % 256 > 255),
            (*final(self)) == (CPU {
                mmu: CPU::after_imm8(*old(self)).mmu,
                pc: old(self).pc.wrapping_add(1),
                reg_h: final(self).reg_h,
                reg_l: final(self).reg_l,
                reg_f: final(self).reg_f,
                tick: (old(self).tick + 8) as u8,
                ..*old(self)
            }),
    {
        let offset = self.read_d8() as i8;

        self.tick = self.tick + 4;

        let res = self.add_sp_signed(offset);
        self.set_hl(res);
    }

    /// The AND of the accumulator with a value: zero flag from the result,
    /// half-carry set, subtract and carry cleared.
    pub fn alu_and(&mut self, val: u8)
        requires
            old(self).inv(),
        ensures
            final(self).inv(),
            final(self).reg_a == (old(self).reg_a & val),
            flag_z(final(self).reg_f) == (final(self).reg_a == 0),
            !flag_n(final(self).reg_f),
            flag_h(final(self).reg_f),
            !flag_c(final(self).reg_f),
            CPU::eq_except_af(*old(self), *final(self)),
    {
        let res = self.reg_a & val;

        self.reg_a = res;

        self.set_f_z(res == 0);
        self.set_f_n(false);
        self.set_f_h(true);
        self.set_f_c(false);
    }

    /// The OR of the accumulator with a value: zero flag from the result,
    /// the other flags cleared.
    pub fn alu_or(&mut self, val: u8)
        requires
            old(self).inv(),
        ensures
            final(self).inv(),
            final(self).reg_a == (old(self).reg_a | val),
            flag_z(final(self).reg_f) == (final(self).reg_a == 0),
            !flag_n(final(self).reg_f),
            !flag_h(final(self).reg_f),
            !flag_c(final(self).reg_f),
            CPU::eq_except_af(*old(self), *final(self)),
    {
        let res = self.reg_a | val;

        self.reg_a = res;

        self.set_f_z(res == 0);
        self.set_f_n(false);
        self.set_f_h(false);
        self.set_f_c(false);
    }

    /// The XOR of the accumulator with a value: zero flag from the result,
    /// the other flags cleared.
    pub fn alu_xor(&mut self, val: u8)
        requires
            old(self).inv(),
        ensures
            final(self).inv(),
            final(self).reg_a == (old(self).reg_a ^ val),
            flag_z(final(self).reg_f) == (final(self).reg_a == 0),
            !flag_n(final(self).reg_f),
            !flag_h(final(self).reg_f),
            !flag_c(final(self).reg_f),
            CPU::eq_except_af(*old(self), *final(self)),
    {
        let res = self.reg_a ^ val;

        self.reg_a = res;

        self.set_f_z(res == 0);
        self.set_f_n(false);
        self.set_f_h(false);
        self.set_f_c(false);
    }

    /// The comparison of the accumulator with a value: the flags of a
    /// subtraction, with the accumulator untouched.
    pub fn alu_cp(&mut self, val: u8)
        requires
            old(self).inv(),
        ensures
            final(self).inv(),
            flag_z(final(self).reg_f) == (old(self).reg_a == val),
            flag_n(final(self).reg_f),
            flag_h(final(self).reg_f) == half_borrow_sub(old(self).reg_a, val, 0),
            flag_c(final(self).reg_f) == borrow_sub(old(self).reg_a, val, 0),
            CPU::eq_except_f(*old(self), *final(self)),
    {
        let reg_a = self.reg_a;

        self.set_f_z(reg_a == val);
        self.set_f_n(true);
        self.set_f_h(reg_a & 0x0F < val & 0x0F);
        self.set_f_c(reg_a < val);
        proof {
            crate::bits::lemma_low_nibble(reg_a);
            crate::bits::lemma_low_nibble(val);
        }
    }

    /// The addition of a value (plus carry-in) into the accumulator: the
    /// four flags take the documented zero, subtract, half-carry and carry
    /// values.
    pub fn alu_add(&mut self, val: u8, cin: u8)
        requires
            old(self).inv(),
            cin <= 1,
        ensures
            final(self).inv(),
            final(self).reg_a == old(self).reg_a.wrapping_add(val).wrapping_add(cin),
            flag_z(final(self).reg_f) == (final(self).reg_a == 0),
            !flag_n(final(self).reg_f),
            flag_h(final(self).reg_f) == half_carry_add(old(self).reg_a, val, cin),
            flag_c(final(self).reg_f) == carry_add(old(self).reg_a, val, cin),
            CPU::eq_except_af(*old(self), *final(self)),
    {
        let a = self.reg_a;
        proof {
            crate::bits::lemma_low_nibble(a);
            crate::bits::lemma_low_nibble(val);
        }
        let res = a.wrapping_add(val).wrapping_add(cin);
        let half_carry = (a & 0x0F) + (val & 0x0F) + cin > 0x0F;
        let carry = (a as u16) + (val as u16) + (cin as u16) > 0xFF;

        self.reg_a = res;

        self.set_f_z(res == 0);
        self.set_f_n(false);
        self.set_f_h(half_carry);
        self.set_f_c(carry);
    }

    /// The subtraction of a value (plus borrow-in) from the accumulator: the
    /// four flags take the documented zero, subtract, half-carry and carry
    /// values.
    pub fn alu_sub(&mut self, val: u8, cin: u8)
        requires
            old(self).inv(),
            cin <= 1,
        ensures
            final(self).inv(),
            final(self).reg_a == old(self).reg_a.wrapping_sub(val).wrapping_sub(cin),
            flag_z(final(self).reg_f) == (final(self).reg_a == 0),
            flag_n(final(self).reg_f),
            flag_h(final(self).reg_f) == half_borrow_sub(old(self).reg_a, val, cin),
            flag_c(final(self).reg_f) == borrow_sub(old(self).reg_a, val, cin),
            CPU::eq_except_af(*old(self), *final(self)),
    {
        let a = self.reg_a;
        proof {
            crate::bits::lemma_low_nibble(a);
            crate::bits::lemma_low_nibble(val);
        }
        let res = a.wrapping_sub(val).wrapping_sub(cin);
        let half_carry = (a & 0x0F) < (val & 0x0F) + cin;
        let carry = (a as u16) < (val as u16) + (cin as u16);

        self.reg_a = res;

        self.set_f_z(res == 0);
        self.set_f_n(true);
        self.set_f_h(half_carry);
        self.set_f_c(carry);
    }

    /// Decimal-adjusts the accumulator after a BCD addition or subtraction.
    pub fn daa(&mut self)
        requires
            old(self).inv(),
        ensures
            final(self).inv(),
            final(self).reg_a == daa_result(old(self).reg_a, old(self).reg_f).0,
            flag_c(final(self).reg_f) == daa_result(old(self).reg_a, old(self).reg_f).1,
            flag_z(final(self).reg_f) == (final(self).reg_a == 0),
            flag_n(final(self).reg_f) == flag_n(old(self).reg_f),
            !flag_h(final(self).reg_f),
            CPU::eq_except_af(*old(self), *final(self)),
    {
        let mut reg_a = self.reg_a;

        if !self.f_n() {
            if self.f_c() || reg_a > 0x99 {
                reg_a = reg_a.wrapping_add(0x60);
                self.set_f_c(true);
            }
            proof {
                crate::bits::lemma_low_nibble(reg_a);
            }
            if self.f_h() || reg_a & 0x0F > 0x09 {
                reg_a = reg_a.wrapping_add(0x06);
            }
        } else {
            if self.f_c() {
                reg_a = reg_a.wrapping_sub(0x60);
            }
            if self.f_h() {
                reg_a = reg_a.wrapping_sub(0x06);
            }
        }

        self.reg_a = reg_a;

        self.set_f_z(reg_a == 0);
        self.set_f_h(false);
    }

    /// CPL: complements the accumulator, setting subtract and half-carry.
    pub fn cpl(&mut self)
        requires
            old(self).inv(),
        ensures
            final(self).inv(),
            final(self).reg_a == !old(self).reg_a,
            flag_n(final(self).reg_f),
            flag_h(final(self).reg_f),
            flag_z(final(self).reg_f) == flag_z(old(self).reg_f),
            flag_c(final(self).reg_f) == flag_c(old(self).reg_f),
            CPU::eq_except_af(*old(self), *final(self)),
    {
        self.reg_a = !self.reg_a;
        self.set_f_n(true);
        self.set_f_h(true);
    }

    /// CCF: complements the carry flag, clearing subtract and half-carry.
    pub fn ccf(&mut self)
        requires
            old(self).inv(),
        ensures
            final(self).inv(),
            flag_c(final(self).reg_f) == !flag_c(old(self).reg_f),
            !flag_n(final(self).reg_f),
            !flag_h(final(self).reg_f),
            flag_z(final(self).reg_f) == flag_z(old(self).reg_f),
            CPU::eq_except_f(*old(self), *final(self)),
    {
        self.set_f_n(false);
        self.set_f_h(false);

        let reg_c = self.f_c();
        self.set_f_c(!reg_c);
    }

    /// SCF: sets the carry flag, clearing subtract and half-carry.
    pub fn scf(&mut self)
        requires
            old(self).inv(),
        ensures
            final(self).inv(),
            flag_c(final(self).reg_f),
            !flag_n(final(self).reg_f),
            !flag_h(final(self).reg_f),
            flag_z(final(self).reg_f) == flag_z(old(self).reg_f),
            CPU::eq_except_f(*old(self), *final(self)),
    {
        self.set_f_n(false);
        self.set_f_h(false);
        self.set_f_c(true);
    }
}

/// The state shape of a read-modify-write on the 8-bit operand selected by
/// `idx`, storing `res`: a register operand is replaced in place; the memory
/// operand costs one read and one write through the bus.  The flags register
/// is left open for the operation's own flag clauses.
pub open spec fn rmw_effect(pre: CPU, post: CPU, idx: u8, res: u8) -> bool {
    if idx == 6 {
        &&& crate::mmu::bus_write_effect(
            crate::mmu::after_read(pre.mmu, pair(pre.reg_h, pre.reg_l)),
            post.mmu,
            pair(pre.reg_h, pre.reg_l),
            res,
        )
        &&& post == (CPU {
            mmu: post.mmu,
            reg_f: post.reg_f,
            tick: (pre.tick + 8) as u8,
            ..pre
        })
    } else {
        post == (CPU {
            reg_b: if idx == 0 { res } else { pre.reg_b },
            reg_c: if idx == 1 { res } else { pre.reg_c },
            reg_d: if idx == 2 { res } else { pre.reg_d },
            reg_e: if idx == 3 { res } else { pre.reg_e },
            reg_h: if idx == 4 { res } else { pre.reg_h },
            reg_l: if idx == 5 { res } else { pre.reg_l },
            reg_a: if idx == 7 { res } else { pre.reg_a },
            reg_f: post.reg_f,
            ..pre
        })
    }
}

/// The state shape of a plain store to the 8-bit operand selected by `idx`:
/// a register operand is replaced; the memory operand costs one bus write.
pub open spec fn store8_effect(pre: CPU, post: CPU, idx: u8, res: u8) -> bool {
    if idx == 6 {
        &&& crate::mmu::bus_write_effect(pre.mmu, post.mmu, pair(pre.reg_h, pre.reg_l), res)
        &&& post == (CPU { mmu: post.mmu, tick: (pre.tick + 4) as u8, ..pre })
    } else {
        post == (CPU {
            reg_b: if idx == 0 { res } else { pre.reg_b },
            reg_c: if idx == 1 { res } else { pre.reg_c },
            reg_d: if idx == 2 { res } else { pre.reg_d },
            reg_e: if idx == 3 { res } else { pre.reg_e },
            reg_h: if idx == 4 { res } else { pre.reg_h },
            reg_l: if idx == 5 { res } else { pre.reg_l },
            reg_a: if idx == 7 { res } else { pre.reg_a },
            ..pre
        })
    }
}

impl CPU {
    /// INC r8: increments the selected operand.  The half-carry reflects a
    /// carry out of the low nibble; the carry flag is untouched.
    pub fn inc_r8(&mut self, reg: u8)
        requires
            old(self).inv(),
            reg <= 7,
            old(self).tick <= 200,
        ensures
            final(self).inv(),
            rmw_effect(
                *old(self),
                *final(self),
                reg,
                CPU::operand8(*old(self), reg).wrapping_add(1),
            ),
            flag_z(final(self).reg_f) == (CPU::operand8(*old(self), reg).wrapping_add(1) == 0),
            flag_h(final(self).reg_f) == (CPU::operand8(*old(self), reg) % 16 == 15),
            !flag_n(final(self).reg_f),
            flag_c(final(self).reg_f) == flag_c(old(self).reg_f),
    {
        let orig = self.read_r8(reg);
        proof {
            crate::bits::lemma_low_nibble(orig);
        }
        let res = orig.wrapping_add(1);

        self.set_f_z(res == 0);
        self.set_f_h(orig & 0x0F == 0x0F);
        self.set_f_n(false);
        self.write_r8(reg, res);
    }

    /// DEC r8: decrements the selected operand.  The half-carry reflects a
    /// borrow into the low nibble; the carry flag is untouched.
    pub fn dec_r8(&mut self, reg: u8)
        requires
            old(self).inv(),
            reg <= 7,
            old(self).tick <= 200,
        ensures
            final(self).inv(),
            rmw_effect(
                *old(self),
                *final(self),
                reg,
                CPU::operand8(*old(self), reg).wrapping_sub(1),
            ),
            flag_z(final(self).reg_f) == (CPU::operand8(*old(self), reg).wrapping_sub(1) == 0),
            flag_h(final(self).reg_f) == (CPU::operand8(*old(self), reg) % 16 == 0),
            flag_n(final(self).reg_f),
            flag_c(final(self).reg_f) == flag_c(old(self).reg_f),
    {
        let orig = self.read_r8(reg);
        proof {
            crate::bits::lemma_low_nibble(orig);
        }
        let res = orig.wrapping_sub(1);

        self.set_f_z(res == 0);
        self.set_f_h(orig & 0x0F == 0x00);
        self.set_f_n(true);
        self.write_r8(reg, res);
    }

    /// BIT pos, r8: tests one bit of the selected operand into the zero
    /// flag; the carry flag is untouched.
    pub fn bit(&mut self, pos: u8, reg: u8)
        requires
            old(self).inv(),
            pos <= 7,
            reg <= 7,
            old(self).tick <= 200,
        ensures
            final(self).inv(),
            flag_z(final(self).reg_f) == ((CPU::operand8(*old(self), reg) >> pos) & 1 == 0),
            !flag_n(final(self).reg_f),
            flag_h(final(self).reg_f),
            flag_c(final(self).reg_f) == flag_c(old(self).reg_f),
            CPU::eq_except_f(CPU::after_operand8(*old(self), reg), *final(self)),
    {
        let v = self.read_r8(reg);
        let z = (v >> pos & 1) == 0;
        self.set_f_z(z);
        self.set_f_n(false);
        self.set_f_h(true);
    }

    /// SET pos, r8: sets one bit of the selected operand.
    pub fn set(&mut self, pos: u8, reg: u8)
        requires
            old(self).inv(),
            pos <= 7,
            reg <= 7,
            old(self).tick <= 200,
        ensures
            final(self).inv(),
            final(self).reg_f == old(self).reg_f,
            rmw_effect(
                *old(self),
                *final(self),
                reg,
                CPU::operand8(*old(self), reg) | (1u8 << pos),
            ),
    {
        let val = self.read_r8(reg);
        self.write_r8(reg, val | (1u8 << pos));
    }

    /// RES pos, r8: resets one bit of the selected operand.
    pub fn res(&mut self, pos: u8, reg: u8)
        requires
            old(self).inv(),
            pos <= 7,
            reg <= 7,
            old(self).tick <= 200,
        ensures
            final(self).inv(),
            final(self).reg_f == old(self).reg_f,
            rmw_effect(
                *old(self),
                *final(self),
                reg,
                CPU::operand8(*old(self), reg) & !(1u8 << pos),
            ),
    {
        let val = self.read_r8(reg);
        self.write_r8(reg, val & !(1u8 << pos));
    }

    /// RL r8: rotates the selected operand left through the carry flag.
    pub fn rl(&mut self, reg: u8)
        requires
            old(self).inv(),
            reg <= 7,
            old(self).tick <= 200,
        ensures
            final(self).inv(),
            rmw_effect(*old(self), *final(self), reg, rl_res(CPU::operand8(*old(self), reg), flag_c(old(self).reg_f))),
            flag_z(final(self).reg_f) == (rl_res(CPU::operand8(*old(self), reg), flag_c(old(self).reg_f)) == 0),
            !flag_n(final(self).reg_f),
            !flag_h(final(self).reg_f),
            flag_c(final(self).reg_f) == ((CPU::operand8(*old(self), reg) >> 7) & 1 == 1),
    {
        let orig = self.read_r8(reg);
        let res = (orig << 1) | (if self.f_c() {
            1
        } else {
            0
        });
        self.write_r8(reg, res);

        self.set_f_z(res == 0);
        self.set_f_n(false);
        self.set_f_h(false);
        self.set_f_c(orig >> 7 & 1 == 1);
    }

    /// RLC r8: rotates the selected operand left.
    pub fn rlc(&mut self, reg: u8)
        requires
            old(self).inv(),
            reg <= 7,
            old(self).tick <= 200,
        ensures
            final(self).inv(),
            rmw_effect(*old(self), *final(self), reg, (CPU::operand8(*old(self), reg) << 1) | (CPU::operand8(*old(self), reg) >> 7)),
            flag_z(final(self).reg_f) == ((CPU::operand8(*old(self), reg) << 1) | (CPU::operand8(*old(self), reg) >> 7) == 0),
            !flag_n(final(self).reg_f),
            !flag_h(final(self).reg_f),
            flag_c(final(self).reg_f) == ((CPU::operand8(*old(self), reg) >> 7) & 1 == 1),
    {
        let orig = self.read_r8(reg);
        let res = (orig << 1) | (orig >> 7);
        self.write_r8(reg, res);

        self.set_f_z(res == 0);
        self.set_f_n(false);
        self.set_f_h(false);
        self.set_f_c(orig >> 7 & 1 == 1);
    }

    /// RR r8: rotates the selected operand right through the carry flag.
    pub fn rr(&mut self, reg: u8)
        requires
            old(self).inv(),
            reg <= 7,
            old(self).tick <= 200,
        ensures
            final(self).inv(),
            rmw_effect(*old(self), *final(self), reg, rr_res(CPU::operand8(*old(self), reg), flag_c(old(self).reg_f))),
            flag_z(final(self).reg_f) == (rr_res(CPU::operand8(*old(self), reg), flag_c(old(self).reg_f)) == 0),
            !flag_n(final(self).reg_f),
            !flag_h(final(self).reg_f),
            flag_c(final(self).reg_f) == (CPU::operand8(*old(self), reg) & 1 == 1),
    {
        let orig = self.read_r8(reg);
        let res = (orig >> 1) | (if self.f_c() {
            0x80
        } else {
            0
        });
        self.write_r8(reg, res);

        self.set_f_z(res == 0);
        self.set_f_n(false);
        self.set_f_h(false);
        self.set_f_c(orig & 1 == 1);
    }

    /// RRC r8: rotates the selected operand right.
    pub fn rrc(&mut self, reg: u8)
        requires
            old(self).inv(),
            reg <= 7,
            old(self).tick <= 200,
        ensures
            final(self).inv(),
            rmw_effect(*old(self), *final(self), reg, (CPU::operand8(*old(self), reg) >> 1) | (CPU::operand8(*old(self), reg) << 7)),
            flag_z(final(self).reg_f) == ((CPU::operand8(*old(self), reg) >> 1) | (CPU::operand8(*old(self), reg) << 7) == 0),
            !flag_n(final(self).reg_f),
            !flag_h(final(self).reg_f),
            flag_c(final(self).reg_f) == (CPU::operand8(*old(self), reg) & 1 == 1),
    {
        let orig = self.read_r8(reg);
        let res = (orig >> 1) | (orig << 7);
        self.write_r8(reg, res);

        self.set_f_z(res == 0);
        self.set_f_n(false);
        self.set_f_h(false);
        self.set_f_c(orig & 1 == 1);
    }

    /// SLA r8: shifts the selected operand left into the carry flag.
    pub fn sla(&mut self, reg: u8)
        requires
            old(self).inv(),
            reg <= 7,
            old(self).tick <= 200,
        ensures
            final(self).inv(),
            rmw_effect(*old(self), *final(self), reg, CPU::operand8(*old(self), reg) << 1),
            flag_z(final(self).reg_f) == (CPU::operand8(*old(self), reg) << 1 == 0),
            !flag_n(final(self).reg_f),
            !flag_h(final(self).reg_f),
            flag_c(final(self).reg_f) == (CPU::operand8(*old(self), reg) & 0x80 > 0),
    {
        let orig = self.read_r8(reg);
        let res = orig << 1;
        self.write_r8(reg, res);

        self.set_f_z(res == 0);
        self.set_f_n(false);
        self.set_f_h(false);
        self.set_f_c(orig & 0x80 > 0);
    }

    /// SRA r8: shifts the selected operand right arithmetically (the sign
    /// bit is kept) into the carry flag.
    pub fn sra(&mut self, reg: u8)
        requires
            old(self).inv(),
            reg <= 7,
            old(self).tick <= 200,
        ensures
            final(self).inv(),
            rmw_effect(*old(self), *final(self), reg, (CPU::operand8(*old(self), reg) >> 1) | (CPU::operand8(*old(self), reg) & 0x80)),
            flag_z(final(self).reg_f) == ((CPU::operand8(*old(self), reg) >> 1) | (CPU::operand8(*old(self), reg) & 0x80) == 0),
            !flag_n(final(self).reg_f),
            !flag_h(final(self).reg_f),
            flag_c(final(self).reg_f) == (CPU::operand8(*old(self), reg) & 1 > 0),
    {
        let orig = self.read_r8(reg);
        let res = (orig >> 1) | (orig & 0x80);
        self.write_r8(reg, res);

        self.set_f_z(res == 0);
        self.set_f_n(false);
        self.set_f_h(false);
        self.set_f_c(orig & 1 > 0);
    }

    /// SWAP r8: swaps the nibbles of the selected operand, clearing the
    /// other flags.
    pub fn swap(&mut self, reg: u8)
        requires
            old(self).inv(),
            reg <= 7,
            old(self).tick <= 200,
        ensures
            final(self).inv(),
            rmw_effect(*old(self), *final(self), reg, ((CPU::operand8(*old(self), reg) & 0x0F) << 4) | ((CPU::operand8(*old(self), reg) & 0xF0) >> 4)),
            flag_z(final(self).reg_f) == (((CPU::operand8(*old(self), reg) & 0x0F) << 4) | ((CPU::operand8(*old(self), reg) & 0xF0) >> 4) == 0),
            !flag_n(final(self).reg_f),
            !flag_h(final(self).reg_f),
            !flag_c(final(self).reg_f),
    {
        let orig = self.read_r8(reg);
        let res = ((orig & 0x0F) << 4) | ((orig & 0xF0) >> 4);
        self.write_r8(reg, res);

        self.set_f_z(res == 0);
        self.set_f_n(false);
        self.set_f_h(false);
        self.set_f_c(false);
    }

    /// SRL r8: shifts the selected operand right logically into the carry
    /// flag.
    pub fn srl(&mut self, reg: u8)
        requires
            old(self).inv(),
            reg <= 7,
            old(self).tick <= 200,
        ensures
            final(self).inv(),
            rmw_effect(*old(self), *final(self), reg, CPU::operand8(*old(self), reg) >> 1),
            flag_z(final(self).reg_f) == (CPU::operand8(*old(self), reg) >> 1 == 0),
            !flag_n(final(self).reg_f),
            !flag_h(final(self).reg_f),
            flag_c(final(self).reg_f) == (CPU::operand8(*old(self), reg) & 1 == 1),
    {
        let orig = self.read_r8(reg);
        let res = orig >> 1;
        self.write_r8(reg, res);

        self.set_f_z(res == 0);
        self.set_f_n(false);
        self.set_f_h(false);
        self.set_f_c(orig & 1 == 1);
    }

    /// ADD r8: adds the selected operand to the accumulator.
    pub fn add_r8(&mut self, reg: u8)
        requires
            old(self).inv(),
            reg <= 7,
            old(self).tick <= 200,
        ensures
            final(self).inv(),
            CPU::eq_except_af(CPU::after_operand8(*old(self), reg), *final(self)),
            final(self).reg_a == old(self).reg_a.wrapping_add(CPU::operand8(*old(self), reg)),
            flag_z(final(self).reg_f) == (final(self).reg_a == 0),
            !flag_n(final(self).reg_f),
            flag_h(final(self).reg_f) == half_carry_add(old(self).reg_a, CPU::operand8(*old(self), reg), 0),
            flag_c(final(self).reg_f) == carry_add(old(self).reg_a, CPU::operand8(*old(self), reg), 0),
    {
        let val = self.read_r8(reg);

        self.alu_add(val, 0);
    }

    /// ADC r8: adds the selected operand and the carry flag to the
    /// accumulator.
    pub fn adc_r8(&mut self, reg: u8)
        requires
            old(self).inv(),
            reg <= 7,
            old(self).tick <= 200,
        ensures
            final(self).inv(),
            CPU::eq_except_af(CPU::after_operand8(*old(self), reg), *final(self)),
            final(self).reg_a == old(self).reg_a.wrapping_add(CPU::operand8(*old(self), reg)).wrapping_add(carry_in(old(self).reg_f)),
            flag_z(final(self).reg_f) == (final(self).reg_a == 0),
            !flag_n(final(self).reg_f),
            flag_h(final(self).reg_f) == half_carry_add(old(self).reg_a, CPU::operand8(*old(self), reg), carry_in(old(self).reg_f)),
            flag_c(final(self).reg_f) == carry_add(old(self).reg_a, CPU::operand8(*old(self), reg), carry_in(old(self).reg_f)),
    {
        let val = self.read_r8(reg);

        let cin: u8 = if self.f_c() {
            1
        } else {
            0
        };
        self.alu_add(val, cin);
    }

    /// SUB r8: subtracts the selected operand from the accumulator.
    pub fn sub_r8(&mut self, reg: u8)
        requires
            old(self).inv(),
            reg <= 7,
            old(self).tick <= 200,
        ensures
            final(self).inv(),
            CPU::eq_except_af(CPU::after_operand8(*old(self), reg), *final(self)),
            final(self).reg_a == old(self).reg_a.wrapping_sub(CPU::operand8(*old(self), reg)),
            flag_z(final(self).reg_f) == (final(self).reg_a == 0),
            flag_n(final(self).reg_f),
            flag_h(final(self).reg_f) == half_borrow_sub(old(self).reg_a, CPU::operand8(*old(self), reg), 0),
            flag_c(final(self).reg_f) == borrow_sub(old(self).reg_a, CPU::operand8(*old(self), reg), 0),
    {
        let val = self.read_r8(reg);

        self.alu_sub(val, 0);
    }

    /// SBC r8: subtracts the selected operand and the carry flag from the
    /// accumulator.
    pub fn sbc_r8(&mut self, reg: u8)
        requires
            old(self).inv(),
            reg <= 7,
            old(self).tick <= 200,
        ensures
            final(self).inv(),
            CPU::eq_except_af(CPU::after_operand8(*old(self), reg), *final(self)),
            final(self).reg_a == old(self).reg_a.wrapping_sub(CPU::operand8(*old(self), reg)).wrapping_sub(carry_in(old(self).reg_f)),
            flag_z(final(self).reg_f) == (final(self).reg_a == 0),
            flag_n(final(self).reg_f),
            flag_h(final(self).reg_f) == half_borrow_sub(old(self).reg_a, CPU::operand8(*old(self), reg), carry_in(old(self).reg_f)),
            flag_c(final(self).reg_f) == borrow_sub(old(self).reg_a, CPU::operand8(*old(self), reg), carry_in(old(self).reg_f)),
    {
        let val = self.read_r8(reg);

        let cin: u8 = if self.f_c() {
            1
        } else {
            0
        };
        self.alu_sub(val, cin);
    }

    /// AND r8: masks the accumulator with the selected operand.
    pub fn and_r8(&mut self, reg: u8)
        requires
            old(self).inv(),
            reg <= 7,
            old(self).tick <= 200,
        ensures
            final(self).inv(),
            CPU::eq_except_af(CPU::after_operand8(*old(self), reg), *final(self)),
            final(self).reg_a == (old(self).reg_a & CPU::operand8(*old(self), reg)),
            flag_z(final(self).reg_f) == (final(self).reg_a == 0),
            !flag_n(final(self).reg_f),
            flag_h(final(self).reg_f),
            !flag_c(final(self).reg_f),
    {
        let val = self.read_r8(reg);

        self.alu_and(val);
    }

    /// OR r8: ors the accumulator with the selected operand.
    pub fn or_r8(&mut self, reg: u8)
        requires
            old(self).inv(),
            reg <= 7,
            old(self).tick <= 200,
        ensures
            final(self).inv(),
            CPU::eq_except_af(CPU::after_operand8(*old(self), reg), *final(self)),
            final(self).reg_a == (old(self).reg_a | CPU::operand8(*old(self), reg)),
            flag_z(final(self).reg_f) == (final(self).reg_a == 0),
            !flag_n(final(self).reg_f),
            !flag_h(final(self).reg_f),
            !flag_c(final(self).reg_f),
    {
        let val = self.read_r8(reg);

        self.alu_or(val);
    }

    /// XOR r8: xors the accumulator with the selected operand.
    pub fn xor_r8(&mut self, reg: u8)
        requires
            old(self).inv(),
            reg <= 7,
            old(self).tick <= 200,
        ensures
            final(self).inv(),
            CPU::eq_except_af(CPU::after_operand8(*old(self), reg), *final(self)),
            final(self).reg_a == (old(self).reg_a ^ CPU::operand8(*old(self), reg)),
            flag_z(final(self).reg_f) == (final(self).reg_a == 0),
            !flag_n(final(self).reg_f),
            !flag_h(final(self).reg_f),
            !flag_c(final(self).reg_f),
    {
        let val = self.read_r8(reg);

        self.alu_xor(val);
    }

    /// CP r8: compares the accumulator with the selected operand.
    pub fn cp_r8(&mut self, reg: u8)
        requires
            old(self).inv(),
            reg <= 7,
            old(self).tick <= 200,
        ensures
            final(self).inv(),
            CPU::eq_except_f(CPU::after_operand8(*old(self), reg), *final(self)),
            flag_z(final(self).reg_f) == (old(self).reg_a == CPU::operand8(*old(self), reg)),
            flag_n(final(self).reg_f),
            flag_h(final(self).reg_f) == half_borrow_sub(old(self).reg_a, CPU::operand8(*old(self), reg), 0),
            flag_c(final(self).reg_f) == borrow_sub(old(self).reg_a, CPU::operand8(*old(self), reg), 0),
    {
        let val = self.read_r8(reg);

        self.alu_cp(val);
    }

    /// ADD d8: adds the 8-bit immediate to the accumulator.
    pub fn add_d8(&mut self)
        requires
            old(self).inv(),
            old(self).tick <= 200,
        ensures
            final(self).inv(),
            CPU::eq_except_af(CPU::after_imm8(*old(self)), *final(self)),
            final(self).reg_a == old(self).reg_a.wrapping_add(CPU::imm8(*old(self))),
            flag_z(final(self).reg_f) == (final(self).reg_a == 0),
            !flag_n(final(self).reg_f),
            flag_h(final(self).reg_f) == half_carry_add(old(self).reg_a, CPU::imm8(*old(self)), 0),
            flag_c(final(self).reg_f) == carry_add(old(self).reg_a, CPU::imm8(*old(self)), 0),
    {
        let val = self.read_d8();

        self.alu_add(val, 0);
    }

    /// ADC d8: adds the 8-bit immediate and the carry flag.
    pub fn adc_d8(&mut self)
        requires
            old(self).inv(),
            old(self).tick <= 200,
        ensures
            final(self).inv(),
            CPU::eq_except_af(CPU::after_imm8(*old(self)), *final(self)),
            final(self).reg_a == old(self).reg_a.wrapping_add(CPU::imm8(*old(self))).wrapping_add(carry_in(old(self).reg_f)),
            flag_z(final(self).reg_f) == (final(self).reg_a == 0),
            !flag_n(final(self).reg_f),
            flag_h(final(self).reg_f) == half_carry_add(old(self).reg_a, CPU::imm8(*old(self)), carry_in(old(self).reg_f)),
            flag_c(final(self).reg_f) == carry_add(old(self).reg_a, CPU::imm8(*old(self)), carry_in(old(self).reg_f)),
    {
        let val = self.read_d8();

        let cin: u8 = if self.f_c() {
            1
        } else {
            0
        };
        self.alu_add(val, cin);
    }

    /// SUB d8: subtracts the 8-bit immediate from the accumulator.
    pub fn sub_d8(&mut self)
        requires
            old(self).inv(),
            old(self).tick <= 200,
        ensures
            final(self).inv(),
            CPU::eq_except_af(CPU::after_imm8(*old(self)), *final(self)),
            final(self).reg_a == old(self).reg_a.wrapping_sub(CPU::imm8(*old(self))),
            flag_z(final(self).reg_f) == (final(self).reg_a == 0),
            flag_n(final(self).reg_f),
            flag_h(final(self).reg_f) == half_borrow_sub(old(self).reg_a, CPU::imm8(*old(self)), 0),
            flag_c(final(self).reg_f) == borrow_sub(old(self).reg_a, CPU::imm8(*old(self)), 0),
    {
        let val = self.read_d8();

        self.alu_sub(val, 0);
    }

    /// SBC d8: subtracts the 8-bit immediate and the carry flag.
    pub fn sbc_d8(&mut self)
        requires
            old(self).inv(),
            old(self).tick <= 200,
        ensures
            final(self).inv(),
            CPU::eq_except_af(CPU::after_imm8(*old(self)), *final(self)),
            final(self).reg_a == old(self).reg_a.wrapping_sub(CPU::imm8(*old(self))).wrapping_sub(carry_in(old(self).reg_f)),
            flag_z(final(self).reg_f) == (final(self).reg_a == 0),
            flag_n(final(self).reg_f),
            flag_h(final(self).reg_f) == half_borrow_sub(old(self).reg_a, CPU::imm8(*old(self)), carry_in(old(self).reg_f)),
            flag_c(final(self).reg_f) == borrow_sub(old(self).reg_a, CPU::imm8(*old(self)), carry_in(old(self).reg_f)),
    {
        let val = self.read_d8();

        let cin: u8 = if self.f_c() {
            1
        } else {
            0
        };
        self.alu_sub(val, cin);
    }

    /// AND d8: masks the accumulator with the 8-bit immediate.
    pub fn and_d8(&mut self)
        requires
            old(self).inv(),
            old(self).tick <= 200,
        ensures
            final(self).inv(),
            CPU::eq_except_af(CPU::after_imm8(*old(self)), *final(self)),
            final(self).reg_a == (old(self).reg_a & CPU::imm8(*old(self))),
            flag_z(final(self).reg_f) == (final(self).reg_a == 0),
            !flag_n(final(self).reg_f),
            flag_h(final(self).reg_f),
            !flag_c(final(self).reg_f),
    {
        let val = self.read_d8();

        self.alu_and(val);
    }

    /// OR d8: ors the accumulator with the 8-bit immediate.
    pub fn or_d8(&mut self)
        requires
            old(self).inv(),
            old(self).tick <= 200,
        ensures
            final(self).inv(),
            CPU::eq_except_af(CPU::after_imm8(*old(self)), *final(self)),
            final(self).reg_a == (old(self).reg_a | CPU::imm8(*old(self))),
            flag_z(final(self).reg_f) == (final(self).reg_a == 0),
            !flag_n(final(self).reg_f),
            !flag_h(final(self).reg_f),
            !flag_c(final(self).reg_f),
    {
        let val = self.read_d8();

        self.alu_or(val);
    }

    /// XOR d8: xors the accumulator with the 8-bit immediate.
    pub fn xor_d8(&mut self)
        requires
            old(self).inv(),
            old(self).tick <= 200,
        ensures
            final(self).inv(),
            CPU::eq_except_af(CPU::after_imm8(*old(self)), *final(self)),
            final(self).reg_a == (old(self).reg_a ^ CPU::imm8(*old(self))),
            flag_z(final(self).reg_f) == (final(self).reg_a == 0),
            !flag_n(final(self).reg_f),
            !flag_h(final(self).reg_f),
            !flag_c(final(self).reg_f),
    {
        let val = self.read_d8();

        self.alu_xor(val);
    }

    /// CP d8: compares the accumulator with the 8-bit immediate.
    pub fn cp_d8(&mut self)
        requires
            old(self).inv(),
            old(self).tick <= 200,
        ensures
            final(self).inv(),
            CPU::eq_except_f(CPU::after_imm8(*old(self)), *final(self)),
            flag_z(final(self).reg_f) == (old(self).reg_a == CPU::imm8(*old(self))),
            flag_n(final(self).reg_f),
            flag_h(final(self).reg_f) == half_borrow_sub(old(self).reg_a, CPU::imm8(*old(self)), 0),
            flag_c(final(self).reg_f) == borrow_sub(old(self).reg_a, CPU::imm8(*old(self)), 0),
    {
        let imm = self.read_d8();

        self.alu_cp(imm);
    }

    /// LD (HL+), A: stores the accumulator at HL, then increments HL.
    pub fn ldi_hl_a(&mut self)
        requires
            old(self).inv(),
            old(self).tick <= 200,
        ensures
            final(self).inv(),
            crate::mmu::bus_write_effect(
                old(self).mmu,
                final(self).mmu,
                pair(old(self).reg_h, old(self).reg_l),
                old(self).reg_a,
            ),
            pair(final(self).reg_h, final(self).reg_l) == pair(
                old(self).reg_h,
                old(self).reg_l,
            ).wrapping_add(1),
            (*final(self)) == (CPU {
                mmu: final(self).mmu,
                reg_h: final(self).reg_h,
                reg_l: final(self).reg_l,
                tick: (old(self).tick + 4) as u8,
                ..*old(self)
            }),
    {
        let addr = self.hl();
        let reg_a = self.reg_a;
        self.write_mem8(addr, reg_a);
        let hl = self.hl();
        self.set_hl(hl.wrapping_add(1));
    }

    /// LD (HL-), A: stores the accumulator at HL, then decrements HL.
    pub fn ldd_hl_a(&mut self)
        requires
            old(self).inv(),
            old(self).tick <= 200,
        ensures
            final(self).inv(),
            crate::mmu::bus_write_effect(
                old(self).mmu,
                final(self).mmu,
                pair(old(self).reg_h, old(self).reg_l),
                old(self).reg_a,
            ),
            pair(final(self).reg_h, final(self).reg_l) == pair(
                old(self).reg_h,
                old(self).reg_l,
            ).wrapping_sub(1),
            (*final(self)) == (CPU {
                mmu: final(self).mmu,
                reg_h: final(self).reg_h,
                reg_l: final(self).reg_l,
                tick: (old(self).tick + 4) as u8,
                ..*old(self)
            }),
    {
        let addr = self.hl();
        let reg_a = self.reg_a;
        self.write_mem8(addr, reg_a);
        let hl = self.hl();
        self.set_hl(hl.wrapping_sub(1));
    }

    /// LD A, (HL+): loads the accumulator from HL, then increments HL.
    pub fn ldi_a_hl(&mut self)
        requires
            old(self).inv(),
            old(self).tick <= 200,
        ensures
            final(self).inv(),
            final(self).reg_a == old(self).mmu.read_spec(pair(old(self).reg_h, old(self).reg_l)),
            pair(final(self).reg_h, final(self).reg_l) == pair(
                old(self).reg_h,
                old(self).reg_l,
            ).wrapping_add(1),
            (*final(self)) == (CPU {
                mmu: crate::mmu::after_read(old(self).mmu, pair(old(self).reg_h, old(self).reg_l)),
                reg_a: final(self).reg_a,
                reg_h: final(self).reg_h,
                reg_l: final(self).reg_l,
                tick: (old(self).tick + 4) as u8,
                ..*old(self)
            }),
    {
        let addr = self.hl();
        self.reg_a = self.read_mem8(addr);
        let hl = self.hl();
        self.set_hl(hl.wrapping_add(1));
    }

    /// LD A, (HL-): loads the accumulator from HL, then decrements HL.
    pub fn ldd_a_hl(&mut self)
        requires
            old(self).inv(),
            old(self).tick <= 200,
        ensures
            final(self).inv(),
            final(self).reg_a == old(self).mmu.read_spec(pair(old(self).reg_h, old(self).reg_l)),
            pair(final(self).reg_h, final(self).reg_l) == pair(
                old(self).reg_h,
                old(self).reg_l,
            ).wrapping_sub(1),
            (*final(self)) == (CPU {
                mmu: crate::mmu::after_read(old(self).mmu, pair(old(self).reg_h, old(self).reg_l)),
                reg_a: final(self).reg_a,
                reg_h: final(self).reg_h,
                reg_l: final(self).reg_l,
                tick: (old(self).tick + 4) as u8,
                ..*old(self)
            }),
    {
        let addr = self.hl();
        self.reg_a = self.read_mem8(addr);
        let hl = self.hl();
        self.set_hl(hl.wrapping_sub(1));
    }

    /// LD (BC), A: stores the accumulator at BC.
    pub fn ld_ind_bc_a(&mut self)
        requires
            old(self).inv(),
            old(self).tick <= 200,
        ensures
            final(self).inv(),
            crate::mmu::bus_write_effect(
                old(self).mmu,
                final(self).mmu,
                pair(old(self).reg_b, old(self).reg_c),
                old(self).reg_a,
            ),
            (*final(self)) == (CPU {
                mmu: final(self).mmu,
                tick: (old(self).tick + 4) as u8,
                ..*old(self)
            }),
    {
        let addr = self.bc();
        let reg_a = self.reg_a;
        self.write_mem8(addr, reg_a);
    }

    /// LD (DE), A: stores the accumulator at DE.
    pub fn ld_ind_de_a(&mut self)
        requires
            old(self).inv(),
            old(self).tick <= 200,
        ensures
            final(self).inv(),
            crate::mmu::bus_write_effect(
                old(self).mmu,
                final(self).mmu,
                pair(old(self).reg_d, old(self).reg_e),
                old(self).reg_a,
            ),
            (*final(self)) == (CPU {
                mmu: final(self).mmu,
                tick: (old(self).tick + 4) as u8,
                ..*old(self)
            }),
    {
        let addr = self.de();
        let reg_a = self.reg_a;
        self.write_mem8(addr, reg_a);
    }

    /// LD A, (BC): loads the accumulator from BC.
    pub fn ld_a_ind_bc(&mut self)
        requires
            old(self).inv(),
            old(self).tick <= 200,
        ensures
            final(self).inv(),
            final(self).reg_a == old(self).mmu.read_spec(pair(old(self).reg_b, old(self).reg_c)),
            (*final(self)) == (CPU {
                mmu: crate::mmu::after_read(old(self).mmu, pair(old(self).reg_b, old(self).reg_c)),
                reg_a: final(self).reg_a,
                tick: (old(self).tick + 4) as u8,
                ..*old(self)
            }),
    {
        let bc = self.bc();

        self.reg_a = self.read_mem8(bc);
    }

    /// LD A, (DE): loads the accumulator from DE.
    pub fn ld_a_ind_de(&mut self)
        requires
            old(self).inv(),
            old(self).tick <= 200,
        ensures
            final(self).inv(),
            final(self).reg_a == old(self).mmu.read_spec(pair(old(self).reg_d, old(self).reg_e)),
            (*final(self)) == (CPU {
                mmu: crate::mmu::after_read(old(self).mmu, pair(old(self).reg_d, old(self).reg_e)),
                reg_a: final(self).reg_a,
                tick: (old(self).tick + 4) as u8,
                ..*old(self)
            }),
    {
        let de = self.de();

        self.reg_a = self.read_mem8(de);
    }

    /// Jumps to an address (one internal cycle).
    pub fn jp_addr(&mut self, addr: u16)
        requires
            old(self).tick <= 240,
        ensures
            (*final(self)) == (CPU { pc: addr, tick: (old(self).tick + 4) as u8, ..*old(self) }),
    {
        self.pc = addr;

        self.tick = self.tick + 4;
    }

    /// JP cc, d16: jumps to the 16-bit immediate when the condition holds.
    pub fn jp_cc_d8(&mut self, cci: u8)
        requires
            old(self).inv(),
            cci <= 3,
            old(self).tick <= 200,
        ensures
            final(self).inv(),
            final(self).pc == (if cond_spec(old(self).reg_f, cci) {
                CPU::imm16(*old(self))
            } else {
                old(self).pc.wrapping_add(2)
            }),
            final(self).tick == old(self).tick + 8 + (if cond_spec(old(self).reg_f, cci) {
                4int
            } else {
                0int
            }),
            (*final(self)) == (CPU {
                mmu: CPU::after_imm16(*old(self)).mmu,
                pc: final(self).pc,
                tick: final(self).tick,
                ..*old(self)
            }),
    {
        let addr = self.read_d16();

        if self.cc(cci) {
            self.jp_addr(addr);
        }
    }

    /// JP d16: jumps to the 16-bit immediate.
    pub fn jp_d16(&mut self)
        requires
            old(self).inv(),
            old(self).tick <= 200,
        ensures
            final(self).inv(),
            (*final(self)) == (CPU {
                mmu: CPU::after_imm16(*old(self)).mmu,
                pc: CPU::imm16(*old(self)),
                tick: (old(self).tick + 12) as u8,
                ..*old(self)
            }),
    {
        let address = self.read_d16();

        self.jp_addr(address);
    }

    /// JP (HL): jumps to HL, with no extra cycle.
    pub fn jp_hl(&mut self)
        ensures
            (*final(self)) == (CPU { pc: pair(old(self).reg_h, old(self).reg_l), ..*old(self) }),
    {
        self.pc = self.hl();
    }

    /// JR cc, d8: jumps by the signed 8-bit displacement when the condition
    /// holds.
    pub fn jr_cc_d8(&mut self, cci: u8)
        requires
            old(self).inv(),
            cci <= 3,
            old(self).tick <= 200,
        ensures
            final(self).inv(),
            final(self).pc == (if cond_spec(old(self).reg_f, cci) {
                old(self).pc.wrapping_add(1).wrapping_add((CPU::imm8(*old(self)) as i8) as u16)
            } else {
                old(self).pc.wrapping_add(1)
            }),
            final(self).tick == old(self).tick + 4 + (if cond_spec(old(self).reg_f, cci) {
                4int
            } else {
                0int
            }),
            (*final(self)) == (CPU {
                mmu: CPU::after_imm8(*old(self)).mmu,
                pc: final(self).pc,
                tick: final(self).tick,
                ..*old(self)
            }),
    {
        let offset = self.read_d8() as i8;

        if self.cc(cci) {
            self.jr_rel(offset);
        }
    }

    /// Jumps by a signed displacement (one internal cycle).
    pub fn jr_rel(&mut self, offset: i8)
        requires
            old(self).tick <= 240,
        ensures
            (*final(self)) == (CPU {
                pc: old(self).pc.wrapping_add(offset as u16),
                tick: (old(self).tick + 4) as u8,
                ..*old(self)
            }),
    {
        self.pc = self.pc.wrapping_add(offset as u16);

        self.tick = self.tick + 4;
    }

    /// JR d8: jumps by the signed 8-bit displacement.
    pub fn jr_d8(&mut self)
        requires
            old(self).inv(),
            old(self).tick <= 200,
        ensures
            final(self).inv(),
            (*final(self)) == (CPU {
                mmu: CPU::after_imm8(*old(self)).mmu,
                pc: old(self).pc.wrapping_add(1).wrapping_add((CPU::imm8(*old(self)) as i8) as u16),
                tick: (old(self).tick + 8) as u8,
                ..*old(self)
            }),
    {
        let offset = self.read_d8() as i8;

        self.jr_rel(offset);
    }

    /// LD (0xFF00+d8), A: stores the accumulator into the I/O page at the
    /// 8-bit immediate offset.
    pub fn ld_io_d8_a(&mut self)
        requires
            old(self).inv(),
            old(self).tick <= 200,
        ensures
            final(self).inv(),
            crate::mmu::bus_write_effect(
                CPU::after_imm8(*old(self)).mmu,
                final(self).mmu,
                0xFF00 | (CPU::imm8(*old(self)) as u16),
                old(self).reg_a,
            ),
            (*final(self)) == (CPU {
                mmu: final(self).mmu,
                pc: old(self).pc.wrapping_add(1),
                tick: (old(self).tick + 8) as u8,
                ..*old(self)
            }),
    {
        let offset = self.read_d8() as u16;
        let addr = 0xFF00 | offset;
        let reg_a = self.reg_a;

        self.write_mem8(addr, reg_a);
    }

    /// LD A, (0xFF00+d8): loads the accumulator from the I/O page at the
    /// 8-bit immediate offset.
    pub fn ld_a_io_d8(&mut self)
        requires
            old(self).inv(),
            old(self).tick <= 200,
        ensures
            final(self).inv(),
            final(self).reg_a == CPU::after_imm8(*old(self)).mmu.read_spec(
                0xFF00 | (CPU::imm8(*old(self)) as u16),
            ),
            (*final(self)) == (CPU {
                mmu: crate::mmu::after_read(
                    CPU::after_imm8(*old(self)).mmu,
                    0xFF00 | (CPU::imm8(*old(self)) as u16),
                ),
                reg_a: final(self).reg_a,
                pc: old(self).pc.wrapping_add(1),
                tick: (old(self).tick + 8) as u8,
                ..*old(self)
            }),
    {
        let offset = self.read_d8() as u16;
        let addr = 0xFF00 | offset;

        self.reg_a = self.read_mem8(addr);
    }

    /// LD (0xFF00+C), A: stores the accumulator into the I/O page at the C
    /// register offset.
    pub fn ld_io_c_a(&mut self)
        requires
            old(self).inv(),
            old(self).tick <= 200,
        ensures
            final(self).inv(),
            crate::mmu::bus_write_effect(
                old(self).mmu,
                final(self).mmu,
                0xFF00 | (old(self).reg_c as u16),
                old(self).reg_a,
            ),
            (*final(self)) == (CPU {
                mmu: final(self).mmu,
                tick: (old(self).tick + 4) as u8,
                ..*old(self)
            }),
    {
        let addr = 0xFF00 | self.reg_c as u16;
        let reg_a = self.reg_a;

        self.write_mem8(addr, reg_a);
    }

    /// LD A, (0xFF00+C): loads the accumulator from the I/O page at the C
    /// register offset.
    pub fn ld_a_io_c(&mut self)
        requires
            old(self).inv(),
            old(self).tick <= 200,
        ensures
            final(self).inv(),
            final(self).reg_a == old(self).mmu.read_spec(0xFF00 | (old(self).reg_c as u16)),
            (*final(self)) == (CPU {
                mmu: crate::mmu::after_read(old(self).mmu, 0xFF00 | (old(self).reg_c as u16)),
                reg_a: final(self).reg_a,
                tick: (old(self).tick + 4) as u8,
                ..*old(self)
            }),
    {
        let addr = 0xFF00 | self.reg_c as u16;

        self.reg_a = self.read_mem8(addr);
    }

    /// LD r8, d8: loads the 8-bit immediate into the selected operand.
    pub fn ld_r8_d8(&mut self, reg: u8)
        requires
            old(self).inv(),
            reg <= 7,
            old(self).tick <= 200,
        ensures
            final(self).inv(),
            store8_effect(CPU::after_imm8(*old(self)), *final(self), reg, CPU::imm8(*old(self))),
    {
        let imm = self.read_d8();

        self.write_r8(reg, imm);
    }

    /// LD r8, r8: copies the second selected operand into the first.
    pub fn ld_r8_r8(&mut self, reg1: u8, reg2: u8)
        requires
            old(self).inv(),
            reg1 <= 7,
            reg2 <= 7,
            old(self).tick <= 200,
        ensures
            final(self).inv(),
            store8_effect(
                CPU::after_operand8(*old(self), reg2),
                *final(self),
                reg1,
                CPU::operand8(*old(self), reg2),
            ),
    {
        let val = self.read_r8(reg2);
        self.write_r8(reg1, val);
    }

    /// Pushes the program counter and jumps to an address (one internal
    /// cycle plus the 16-bit push).
    pub fn call_addr(&mut self, addr: u16)
        requires
            old(self).inv(),
            old(self).tick <= 220,
        ensures
            final(self).inv(),
            crate::mmu::write16_effect(
                old(self).mmu,
                final(self).mmu,
                old(self).sp.wrapping_sub(2),
                old(self).pc,
            ),
            (*final(self)) == (CPU {
                mmu: final(self).mmu,
                pc: addr,
                sp: old(self).sp.wrapping_sub(2),
                tick: (old(self).tick + 12) as u8,
                ..*old(self)
            }),
    {
        self.sp = self.sp.wrapping_sub(2);
        let sp = self.sp;
        let pc = self.pc;

        self.tick = self.tick + 4;

        self.write_mem16(sp, pc);
        self.pc = addr;
    }

    /// CALL d16: pushes the return address and jumps to the 16-bit
    /// immediate.
    pub fn call_d16(&mut self)
        requires
            old(self).inv(),
            old(self).tick <= 200,
        ensures
            final(self).inv(),
            crate::mmu::write16_effect(
                CPU::after_imm16(*old(self)).mmu,
                final(self).mmu,
                old(self).sp.wrapping_sub(2),
                old(self).pc.wrapping_add(2),
            ),
            (*final(self)) == (CPU {
                mmu: final(self).mmu,
                pc: CPU::imm16(*old(self)),
                sp: old(self).sp.wrapping_sub(2),
                tick: (old(self).tick + 20) as u8,
                ..*old(self)
            }),
    {
        let addr = self.read_d16();

        self.call_addr(addr);
    }

    /// CALL cc, d16: calls the 16-bit immediate when the condition holds.
    pub fn call_cc_d16(&mut self, cci: u8)
        requires
            old(self).inv(),
            cci <= 3,
            old(self).tick <= 200,
        ensures
            final(self).inv(),
            cond_spec(old(self).reg_f, cci) ==> crate::mmu::write16_effect(
                CPU::after_imm16(*old(self)).mmu,
                final(self).mmu,
                old(self).sp.wrapping_sub(2),
                old(self).pc.wrapping_add(2),
            ) && (*final(self)) == (CPU {
                mmu: final(self).mmu,
                pc: CPU::imm16(*old(self)),
                sp: old(self).sp.wrapping_sub(2),
                tick: (old(self).tick + 20) as u8,
                ..*old(self)
            }),
            !cond_spec(old(self).reg_f, cci) ==> (*final(self)) == (CPU {
                mmu: CPU::after_imm16(*old(self)).mmu,
                pc: old(self).pc.wrapping_add(2),
                tick: (old(self).tick + 8) as u8,
                ..*old(self)
            }),
    {
        let addr = self.read_d16();

        if self.cc(cci) {
            self.call_addr(addr);
        }
    }

    /// RST: calls a fixed low-page address.
    pub fn rst(&mut self, addr: u8)
        requires
            old(self).inv(),
            old(self).tick <= 200,
        ensures
            final(self).inv(),
            crate::mmu::write16_effect(
                old(self).mmu,
                final(self).mmu,
                old(self).sp.wrapping_sub(2),
                old(self).pc,
            ),
            (*final(self)) == (CPU {
                mmu: final(self).mmu,
                pc: addr as u16,
                sp: old(self).sp.wrapping_sub(2),
                tick: (old(self).tick + 12) as u8,
                ..*old(self)
            }),
    {
        self.call_addr(addr as u16);
    }

    /// Pops the program counter from the stack (one internal cycle plus the
    /// 16-bit pop).
    pub fn ret_addr(&mut self)
        requires
            old(self).inv(),
            old(self).tick <= 200,
        ensures
            final(self).inv(),
            (*final(self)) == (CPU {
                mmu: crate::mmu::after_read(
                    crate::mmu::after_read(old(self).mmu, old(self).sp),
                    old(self).sp.wrapping_add(1),
                ),
                pc: crate::mmu::read16_spec(old(self).mmu, old(self).sp),
                sp: old(self).sp.wrapping_add(2),
                tick: (old(self).tick + 12) as u8,
                ..*old(self)
            }),
    {
        let sp = self.sp;
        let pc = self.read_mem16(sp);
        self.pc = pc;
        self.sp = self.sp.wrapping_add(2);

        self.tick = self.tick + 4;
    }

    /// RET: pops the return address.
    pub fn ret(&mut self)
        requires
            old(self).inv(),
            old(self).tick <= 200,
        ensures
            final(self).inv(),
            (*final(self)) == (CPU {
                mmu: crate::mmu::after_read(
                    crate::mmu::after_read(old(self).mmu, old(self).sp),
                    old(self).sp.wrapping_add(1),
                ),
                pc: crate::mmu::read16_spec(old(self).mmu, old(self).sp),
                sp: old(self).sp.wrapping_add(2),
                tick: (old(self).tick + 12) as u8,
                ..*old(self)
            }),
    {
        self.ret_addr();
    }

    /// RET cc: pops the return address when the condition holds (one extra
    /// internal cycle for the test).
    pub fn ret_cc(&mut self, cci: u8)
        requires
            old(self).inv(),
            cci <= 3,
            old(self).tick <= 180,
        ensures
            final(self).inv(),
            cond_spec(old(self).reg_f, cci) ==> (*final(self)) == (CPU {
                mmu: crate::mmu::after_read(
                    crate::mmu::after_read(old(self).mmu, old(self).sp),
                    old(self).sp.wrapping_add(1),
                ),
                pc: crate::mmu::read16_spec(old(self).mmu, old(self).sp),
                sp: old(self).sp.wrapping_add(2),
                tick: (old(self).tick + 16) as u8,
                ..*old(self)
            }),
            !cond_spec(old(self).reg_f, cci) ==> (*final(self)) == (CPU {
                tick: (old(self).tick + 4) as u8,
                ..*old(self)
            }),
    {
        self.tick = self.tick + 4;

        if self.cc(cci) {
            self.ret_addr();
        }
    }

    /// PUSH BC: pushes the BC pair (one internal cycle plus the 16-bit
    /// push).
    pub fn push_bc(&mut self)
        requires
            old(self).inv(),
            old(self).tick <= 200,
        ensures
            final(self).inv(),
            crate::mmu::write16_effect(
                old(self).mmu,
                final(self).mmu,
                old(self).sp.wrapping_sub(2),
                pair(old(self).reg_b, old(self).reg_c),
            ),
            (*final(self)) == (CPU {
                mmu: final(self).mmu,
                sp: old(self).sp.wrapping_sub(2),
                tick: (old(self).tick + 12) as u8,
                ..*old(self)
            }),
    {
        self.sp = self.sp.wrapping_sub(2);
        let val = self.bc();
        let sp = self.sp;

        self.tick = self.tick + 4;

        self.write_mem16(sp, val);
    }

    /// PUSH DE: pushes the DE pair.
    pub fn push_de(&mut self)
        requires
            old(self).inv(),
            old(self).tick <= 200,
        ensures
            final(self).inv(),
            crate::mmu::write16_effect(
                old(self).mmu,
                final(self).mmu,
                old(self).sp.wrapping_sub(2),
                pair(old(self).reg_d, old(self).reg_e),
            ),
            (*final(self)) == (CPU {
                mmu: final(self).mmu,
                sp: old(self).sp.wrapping_sub(2),
                tick: (old(self).tick + 12) as u8,
                ..*old(self)
            }),
    {
        self.sp = self.sp.wrapping_sub(2);
        let val = self.de();
        let sp = self.sp;

        self.tick = self.tick + 4;

        self.write_mem16(sp, val);
    }

    /// PUSH HL: pushes the HL pair.
    pub fn push_hl(&mut self)
        requires
            old(self).inv(),
            old(self).tick <= 200,
        ensures
            final(self).inv(),
            crate::mmu::write16_effect(
                old(self).mmu,
                final(self).mmu,
                old(self).sp.wrapping_sub(2),
                pair(old(self).reg_h, old(self).reg_l),
            ),
            (*final(self)) == (CPU {
                mmu: final(self).mmu,
                sp: old(self).sp.wrapping_sub(2),
                tick: (old(self).tick + 12) as u8,
                ..*old(self)
            }),
    {
        self.sp = self.sp.wrapping_sub(2);
        let val = self.hl();
        let sp = self.sp;

        self.tick = self.tick + 4;

        self.write_mem16(sp, val);
    }

    /// PUSH AF: pushes the accumulator-flags pair.
    pub fn push_af(&mut self)
        requires
            old(self).inv(),
            old(self).tick <= 200,
        ensures
            final(self).inv(),
            crate::mmu::write16_effect(
                old(self).mmu,
                final(self).mmu,
                old(self).sp.wrapping_sub(2),
                pair(old(self).reg_a, old(self).reg_f),
            ),
            (*final(self)) == (CPU {
                mmu: final(self).mmu,
                sp: old(self).sp.wrapping_sub(2),
                tick: (old(self).tick + 12) as u8,
                ..*old(self)
            }),
    {
        self.sp = self.sp.wrapping_sub(2);
        let val = self.af();
        let sp = self.sp;

        self.tick = self.tick + 4;

        self.write_mem16(sp, val);
    }

    /// POP BC: pops into the BC pair.
    pub fn pop_bc(&mut self)
        requires
            old(self).inv(),
            old(self).tick <= 200,
        ensures
            final(self).inv(),
            pair(final(self).reg_b, final(self).reg_c) == crate::mmu::read16_spec(
                old(self).mmu,
                old(self).sp,
            ),
            (*final(self)) == (CPU {
                mmu: crate::mmu::after_read(
                    crate::mmu::after_read(old(self).mmu, old(self).sp),
                    old(self).sp.wrapping_add(1),
                ),
                reg_b: final(self).reg_b,
                reg_c: final(self).reg_c,
                sp: old(self).sp.wrapping_add(2),
                tick: (old(self).tick + 8) as u8,
                ..*old(self)
            }),
    {
        let sp = self.sp;
        let val = self.read_mem16(sp);
        self.set_bc(val);
        self.sp = self.sp.wrapping_add(2);
    }

    /// POP DE: pops into the DE pair.
    pub fn pop_de(&mut self)
        requires
            old(self).inv(),
            old(self).tick <= 200,
        ensures
            final(self).inv(),
            pair(final(self).reg_d, final(self).reg_e) == crate::mmu::read16_spec(
                old(self).mmu,
                old(self).sp,
            ),
            (*final(self)) == (CPU {
                mmu: crate::mmu::after_read(
                    crate::mmu::after_read(old(self).mmu, old(self).sp),
                    old(self).sp.wrapping_add(1),
                ),
                reg_d: final(self).reg_d,
                reg_e: final(self).reg_e,
                sp: old(self).sp.wrapping_add(2),
                tick: (old(self).tick + 8) as u8,
                ..*old(self)
            }),
    {
        let sp = self.sp;
        let val = self.read_mem16(sp);
        self.set_de(val);
        self.sp = self.sp.wrapping_add(2);
    }

    /// POP HL: pops into the HL pair.
    pub fn pop_hl(&mut self)
        requires
            old(self).inv(),
            old(self).tick <= 200,
        ensures
            final(self).inv(),
            pair(final(self).reg_h, final(self).reg_l) == crate::mmu::read16_spec(
                old(self).mmu,
                old(self).sp,
            ),
            (*final(self)) == (CPU {
                mmu: crate::mmu::after_read(
                    crate::mmu::after_read(old(self).mmu, old(self).sp),
                    old(self).sp.wrapping_add(1),
                ),
                reg_h: final(self).reg_h,
                reg_l: final(self).reg_l,
                sp: old(self).sp.wrapping_add(2),
                tick: (old(self).tick + 8) as u8,
                ..*old(self)
            }),
    {
        let sp = self.sp;
        let val = self.read_mem16(sp);
        self.set_hl(val);
        self.sp = self.sp.wrapping_add(2);
    }

    /// POP AF: pops into the accumulator-flags pair; the low nibble of the
    /// flags register always reads back as zero.
    pub fn pop_af(&mut self)
        requires
            old(self).inv(),
            old(self).tick <= 200,
        ensures
            final(self).inv(),
            pair(final(self).reg_a, final(self).reg_f) == crate::mmu::read16_spec(
                old(self).mmu,
                old(self).sp,
            ) & 0xFFF0,
            (*final(self)) == (CPU {
                mmu: crate::mmu::after_read(
                    crate::mmu::after_read(old(self).mmu, old(self).sp),
                    old(self).sp.wrapping_add(1),
                ),
                reg_a: final(self).reg_a,
                reg_f: final(self).reg_f,
                sp: old(self).sp.wrapping_add(2),
                tick: (old(self).tick + 8) as u8,
                ..*old(self)
            }),
    {
        let sp = self.sp;
        let val = self.read_mem16(sp) & 0xFFF0;
        proof {
            let v = crate::mmu::read16_spec(old(self).mmu, old(self).sp);
            assert((v & 0xFFF0) & 0x0F == 0) by (bit_vector);
        }
        self.set_af(val);
        self.sp = self.sp.wrapping_add(2);
    }

    /// RLCA: rotates the accumulator left; the zero flag is cleared.
    pub fn rlca(&mut self)
        requires
            old(self).inv(),
            old(self).tick <= 200,
        ensures
            final(self).inv(),
            final(self).reg_a == (old(self).reg_a << 1) | (old(self).reg_a >> 7),
            !flag_z(final(self).reg_f),
            !flag_n(final(self).reg_f),
            !flag_h(final(self).reg_f),
            flag_c(final(self).reg_f) == ((old(self).reg_a >> 7) & 1 == 1),
            CPU::eq_except_af(*old(self), *final(self)),
    {
        self.rlc(7);
        self.set_f_z(false);
    }

    /// RLA: rotates the accumulator left through carry; the zero flag is
    /// cleared.
    pub fn rla(&mut self)
        requires
            old(self).inv(),
            old(self).tick <= 200,
        ensures
            final(self).inv(),
            final(self).reg_a == rl_res(old(self).reg_a, flag_c(old(self).reg_f)),
            !flag_z(final(self).reg_f),
            !flag_n(final(self).reg_f),
            !flag_h(final(self).reg_f),
            flag_c(final(self).reg_f) == ((old(self).reg_a >> 7) & 1 == 1),
            CPU::eq_except_af(*old(self), *final(self)),
    {
        self.rl(7);
        self.set_f_z(false);
    }

    /// RRCA: rotates the accumulator right; the zero flag is cleared.
    pub fn rrca(&mut self)
        requires
            old(self).inv(),
            old(self).tick <= 200,
        ensures
            final(self).inv(),
            final(self).reg_a == (old(self).reg_a >> 1) | (old(self).reg_a << 7),
            !flag_z(final(self).reg_f),
            !flag_n(final(self).reg_f),
            !flag_h(final(self).reg_f),
            flag_c(final(self).reg_f) == (old(self).reg_a & 1 == 1),
            CPU::eq_except_af(*old(self), *final(self)),
    {
        self.rrc(7);
        self.set_f_z(false);
    }

    /// RRA: rotates the accumulator right through carry; the zero flag is
    /// cleared.
    pub fn rra(&mut self)
        requires
            old(self).inv(),
            old(self).tick <= 200,
        ensures
            final(self).inv(),
            final(self).reg_a == rr_res(old(self).reg_a, flag_c(old(self).reg_f)),
            !flag_z(final(self).reg_f),
            !flag_n(final(self).reg_f),
            !flag_h(final(self).reg_f),
            flag_c(final(self).reg_f) == (old(self).reg_a & 1 == 1),
            CPU::eq_except_af(*old(self), *final(self)),
    {
        self.rr(7);
        self.set_f_z(false);
    }

    /// INC r16: increments the selected register pair (one internal cycle);
    /// no flags change.
    pub fn inc_r16(&mut self, reg: u8)
        requires
            reg <= 3,
            old(self).tick <= 200,
        ensures
            final(self).r16_spec(reg) == old(self).r16_spec(reg).wrapping_add(1),
            forall|j: u8| j <= 3 && j != reg ==> final(self).r16_spec(j) == old(self).r16_spec(j),
            final(self).mmu == old(self).mmu,
            final(self).reg_a == old(self).reg_a,
            final(self).reg_f == old(self).reg_f,
            final(self).pc == old(self).pc,
            final(self).tick == old(self).tick + 4,
            final(self).ime == old(self).ime,
            final(self).halted == old(self).halted,
            final(self).fault == old(self).fault,
    {
        let val = self.read_r16(reg);
        self.write_r16(reg, val.wrapping_add(1));

        self.tick = self.tick + 4;
    }

    /// DEC r16: decrements the selected register pair (one internal cycle);
    /// no flags change.
    pub fn dec_r16(&mut self, reg: u8)
        requires
            reg <= 3,
            old(self).tick <= 200,
        ensures
            final(self).r16_spec(reg) == old(self).r16_spec(reg).wrapping_sub(1),
            forall|j: u8| j <= 3 && j != reg ==> final(self).r16_spec(j) == old(self).r16_spec(j),
            final(self).mmu == old(self).mmu,
            final(self).reg_a == old(self).reg_a,
            final(self).reg_f == old(self).reg_f,
            final(self).pc == old(self).pc,
            final(self).tick == old(self).tick + 4,
            final(self).ime == old(self).ime,
            final(self).halted == old(self).halted,
            final(self).fault == old(self).fault,
    {
        let val = self.read_r16(reg);
        self.write_r16(reg, val.wrapping_sub(1));

        self.tick = self.tick + 4;
    }

    /// LD (d16), A: stores the accumulator at the 16-bit immediate address.
    pub fn ld_ind_d16_a(&mut self)
        requires
            old(self).inv(),
            old(self).tick <= 200,
        ensures
            final(self).inv(),
            crate::mmu::bus_write_effect(
                CPU::after_imm16(*old(self)).mmu,
                final(self).mmu,
                CPU::imm16(*old(self)),
                old(self).reg_a,
            ),
            (*final(self)) == (CPU {
                mmu: final(self).mmu,
                pc: old(self).pc.wrapping_add(2),
                tick: (old(self).tick + 12) as u8,
                ..*old(self)
            }),
    {
        let addr = self.read_d16();
        let reg_a = self.reg_a;

        self.write_mem8(addr, reg_a);
    }

    /// LD A, (d16): loads the accumulator from the 16-bit immediate address.
    pub fn ld_a_ind_d16(&mut self)
        requires
            old(self).inv(),
            old(self).tick <= 200,
        ensures
            final(self).inv(),
            final(self).reg_a == CPU::after_imm16(*old(self)).mmu.read_spec(CPU::imm16(*old(self))),
            (*final(self)) == (CPU {
                mmu: crate::mmu::after_read(
                    CPU::after_imm16(*old(self)).mmu,
                    CPU::imm16(*old(self)),
                ),
                reg_a: final(self).reg_a,
                pc: old(self).pc.wrapping_add(2),
                tick: (old(self).tick + 12) as u8,
                ..*old(self)
            }),
    {
        let addr = self.read_d16();

        self.reg_a = self.read_mem8(addr);
    }

    /// DI: disables interrupts.
    pub fn di(&mut self)
        ensures
            (*final(self)) == (CPU { ime: false, ..*old(self) }),
    {
        self.ime = false;
    }

    /// EI: enables interrupts.
    pub fn ei(&mut self)
        ensures
            (*final(self)) == (CPU { ime: true, ..*old(self) }),
    {
        self.ime = true;
    }

    /// RETI: pops the return address and enables interrupts.
    pub fn reti(&mut self)
        requires
            old(self).inv(),
            old(self).tick <= 200,
        ensures
            final(self).inv(),
            (*final(self)) == (CPU {
                mmu: crate::mmu::after_read(
                    crate::mmu::after_read(old(self).mmu, old(self).sp),
                    old(self).sp.wrapping_add(1),
                ),
                pc: crate::mmu::read16_spec(old(self).mmu, old(self).sp),
                sp: old(self).sp.wrapping_add(2),
                ime: true,
                tick: (old(self).tick + 12) as u8,
                ..*old(self)
            }),
    {
        self.ime = true;

        self.ret_addr();
    }

    /// HALT: halts the core, but only while the interrupt master enable is
    /// set (a HALT with interrupts disabled is ignored; the hardware's halt
    /// bug is not reproduced).
    pub fn halt(&mut self)
        ensures
            (*final(self)) == (CPU { halted: old(self).halted || old(self).ime, ..*old(self) }),
    {
        if self.ime {
            self.halted = true;
        }
    }
}

impl CPU {
    /// Decodes and executes one extended-space operation: the byte after
    /// the prefix selects a rotate, shift, swap or single-bit operation and
    /// its operand from its bit fields.  Every extended byte is defined.
    pub fn prefix(&mut self)
        requires
            old(self).inv(),
            old(self).tick <= 100,
        ensures
            final(self).inv(),
            final(self).ime == old(self).ime,
            final(self).halted == old(self).halted,
            final(self).fault == old(self).fault,
            final(self).pc == old(self).pc.wrapping_add(1),
            old(self).tick + 4 <= final(self).tick <= old(self).tick + 16,
            cb_effect(*old(self), *final(self)),
    {
        let opcode = self.read_d8();
        let pos = opcode >> 3 & 0x7;
        let reg = opcode & 0x7;
        proof {
            assert(opcode >> 3 & 0x7 <= 7 && opcode & 0x7 <= 7) by (bit_vector);
        }

        match opcode {
            0x00..=0x07 => self.rlc(reg),
            0x08..=0x0F => self.rrc(reg),
            0x10..=0x17 => self.rl(reg),
            0x18..=0x1F => self.rr(reg),
            0x20..=0x27 => self.sla(reg),
            0x28..=0x2F => self.sra(reg),
            0x30..=0x37 => self.swap(reg),
            0x38..=0x3F => self.srl(reg),
            0x40..=0x7F => self.bit(pos, reg),
            0x80..=0xBF => self.res(pos, reg),
            _ => self.set(pos, reg),
        }
    }

    /// Checks the pending interrupts and services the highest-priority one
    /// (the lowest set bit of the flag and enable conjunction).
    pub fn check_irqs(&mut self)
        requires
            old(self).inv(),
            old(self).tick <= 200,
        ensures
            final(self).inv(),
            pending_irq(old(self).mmu.int_flag, old(self).mmu.int_enable) is None ==> (*final(self)) == (*old(self)),
            pending_irq(old(self).mmu.int_flag, old(self).mmu.int_enable) matches Some(id)
                ==> isr_effect(*old(self), *final(self), id),
    {
        if self.mmu.int_flag & 0x01 > 0 && self.mmu.int_enable & 0x01 > 0 {
            self.call_isr(0);
        } else if self.mmu.int_flag & 0x02 > 0 && self.mmu.int_enable & 0x02 > 0 {
            self.call_isr(1);
        } else if self.mmu.int_flag & 0x04 > 0 && self.mmu.int_enable & 0x04 > 0 {
            self.call_isr(2);
        } else if self.mmu.int_flag & 0x08 > 0 && self.mmu.int_enable & 0x08 > 0 {
            self.call_isr(3);
        } else if self.mmu.int_flag & 0x10 > 0 && self.mmu.int_enable & 0x10 > 0 {
            self.call_isr(4);
        }
    }

    /// Services one interrupt: clears its flag bit, clears the interrupt
    /// master enable and the halted state, pushes the program counter and
    /// jumps to the interrupt's fixed vector.
    pub fn call_isr(&mut self, id: u8)
        requires
            old(self).inv(),
            id <= 4,
            old(self).tick <= 200,
        ensures
            final(self).inv(),
            isr_effect(*old(self), *final(self), id),
    {
        self.mmu.int_flag = self.mmu.int_flag & !(1u8 << id);
        self.ime = false;
        self.halted = false;

        let isr: u16 = match id {
            0 => 0x40,
            1 => 0x48,
            2 => 0x50,
            3 => 0x58,
            _ => 0x60,
        };

        self.tick = self.tick + 8;

        self.call_addr(isr);
    }

    /// Fetches, decodes and executes one instruction at the program counter.
    /// An undefined base-space opcode latches the decode fault and changes
    /// nothing else; a defined opcode executes with its documented register,
    /// flag, memory and cycle effect (each operation's own contract), and
    /// never faults.
    pub fn fetch_and_exec(&mut self)
        requires
            old(self).inv(),
            !old(self).fault,
            old(self).tick == 0,
        ensures
            final(self).inv(),
            final(self).fault == !valid_opcode(old(self).mmu.read_spec(old(self).pc)),
            !valid_opcode(old(self).mmu.read_spec(old(self).pc)) ==> (*final(self)) == (CPU {
                mmu: crate::mmu::after_read(old(self).mmu, old(self).pc),
                pc: old(self).pc.wrapping_add(1),
                tick: 4,
                fault: true,
                ..*old(self)
            }),
            4 <= final(self).tick <= 24,
            exec_effect(*old(self), *final(self)),
    {
        let opcode = self.read_d8();
        let reg = opcode & 7;
        let reg2 = opcode >> 3 & 7;
        proof {
            assert(opcode & 7 <= 7 && opcode >> 3 & 7 <= 7) by (bit_vector);
        }

        match opcode {
            0x00 => self.nop(),
            0x01 | 0x11 | 0x21 | 0x31 => {
                proof {
                    assert((0x01u8 >> 3) & 7 == 0 && (0x11u8 >> 3) & 7 == 2 && (0x21u8 >> 3) & 7
                        == 4 && (0x31u8 >> 3) & 7 == 6 && 0x01u8 >> 4 == 0 && 0x11u8 >> 4 == 1
                        && 0x21u8 >> 4 == 2 && 0x31u8 >> 4 == 3) by (bit_vector);
                }
                let idx = opcode >> 4;
                self.ld_r16_d16(idx);
            },
            0x08 => self.ld_ind_d16_sp(),
            0xF9 => self.ld_sp_hl(),
            0x02 => self.ld_ind_bc_a(),
            0x12 => self.ld_ind_de_a(),
            0x0A => self.ld_a_ind_bc(),
            0x1A => self.ld_a_ind_de(),
            0xC5 => self.push_bc(),
            0xD5 => self.push_de(),
            0xE5 => self.push_hl(),
            0xF5 => self.push_af(),
            0xC1 => self.pop_bc(),
            0xD1 => self.pop_de(),
            0xE1 => self.pop_hl(),
            0xF1 => self.pop_af(),
            0xC2 | 0xD2 | 0xCA | 0xDA => {
                proof {
                    assert((0xC2u8 >> 3) & 7 == 0 && (0xD2u8 >> 3) & 7 == 2 && (0xCAu8 >> 3) & 7
                        == 1 && (0xDAu8 >> 3) & 7 == 3) by (bit_vector);
                }
                self.jp_cc_d8(reg2);
            },
            0xC3 => self.jp_d16(),
            0xE9 => self.jp_hl(),
            0x20 | 0x30 | 0x28 | 0x38 => {
                proof {
                    assert((0x20u8 >> 3) & 7 == 4 && (0x30u8 >> 3) & 7 == 6 && (0x28u8 >> 3) & 7
                        == 5 && (0x38u8 >> 3) & 7 == 7) by (bit_vector);
                }
                self.jr_cc_d8(reg2 - 4);
            },
            0x18 => self.jr_d8(),
            0x07 => self.rlca(),
            0x17 => self.rla(),
            0x0F => self.rrca(),
            0x1F => self.rra(),
            0x09 | 0x19 | 0x29 | 0x39 => {
                proof {
                    assert(0x09u8 >> 4 == 0 && 0x19u8 >> 4 == 1 && 0x29u8 >> 4 == 2 && 0x39u8 >> 4
                        == 3) by (bit_vector);
                }
                let idx = opcode >> 4;
                self.add_hl_r16(idx);
            },
            0xE8 => self.add_sp_d8(),
            0xF8 => self.ld_hl_sp_d8(),
            0x80..=0x87 => self.add_r8(reg),
            0x88..=0x8F => self.adc_r8(reg),
            0x90..=0x97 => self.sub_r8(reg),
            0x98..=0x9F => self.sbc_r8(reg),
            0xA0..=0xA7 => self.and_r8(reg),
            0xB0..=0xB7 => self.or_r8(reg),
            0xA8..=0xAF => self.xor_r8(reg),
            0xB8..=0xBF => self.cp_r8(reg),
            0x27 => self.daa(),
            0x2F => self.cpl(),
            0x37 => self.scf(),
            0x3F => self.ccf(),
            0xC6 => self.add_d8(),
            0xD6 => self.sub_d8(),
            0xE6 => self.and_d8(),
            0xF6 => self.or_d8(),
            0xCE => self.adc_d8(),
            0xDE => self.sbc_d8(),
            0xEE => self.xor_d8(),
            0xFE => self.cp_d8(),
            0x22 => self.ldi_hl_a(),
            0x32 => self.ldd_hl_a(),
            0x2A => self.ldi_a_hl(),
            0x3A => self.ldd_a_hl(),
            0xE0 => self.ld_io_d8_a(),
            0xF0 => self.ld_a_io_d8(),
            0xE2 => self.ld_io_c_a(),
            0xF2 => self.ld_a_io_c(),
            0x06 | 0x0E | 0x16 | 0x1E | 0x26 | 0x2E | 0x36 | 0x3E => self.ld_r8_d8(reg2),
            0x04 | 0x0C | 0x14 | 0x1C | 0x24 | 0x2C | 0x34 | 0x3C => self.inc_r8(reg2),
            0x05 | 0x0D | 0x15 | 0x1D | 0x25 | 0x2D | 0x35 | 0x3D => self.dec_r8(reg2),
            0x40..=0x75 | 0x77..=0x7F => self.ld_r8_r8(reg2, reg),
            0xEA => self.ld_ind_d16_a(),
            0xFA => self.ld_a_ind_d16(),
            0x03 | 0x13 | 0x23 | 0x33 => {
                proof {
                    assert(0x03u8 >> 4 == 0 && 0x13u8 >> 4 == 1 && 0x23u8 >> 4 == 2 && 0x33u8 >> 4
                        == 3) by (bit_vector);
                }
                let idx = opcode >> 4;
                self.inc_r16(idx);
            },
            0x0B | 0x1B | 0x2B | 0x3B => {
                proof {
                    assert(0x0Bu8 >> 4 == 0 && 0x1Bu8 >> 4 == 1 && 0x2Bu8 >> 4 == 2 && 0x3Bu8 >> 4
                        == 3) by (bit_vector);
                }
                let idx = opcode >> 4;
                self.dec_r16(idx);
            },
            0xCD => self.call_d16(),
            0xC4 | 0xD4 | 0xCC | 0xDC => {
                proof {
                    assert((0xC4u8 >> 3) & 7 == 0 && (0xD4u8 >> 3) & 7 == 2 && (0xCCu8 >> 3) & 7
                        == 1 && (0xDCu8 >> 3) & 7 == 3) by (bit_vector);
                }
                self.call_cc_d16(reg2);
            },
            0xC9 => self.ret(),
            0xC0 | 0xD0 | 0xC8 | 0xD8 => {
                proof {
                    assert((0xC0u8 >> 3) & 7 == 0 && (0xD0u8 >> 3) & 7 == 2 && (0xC8u8 >> 3) & 7
                        == 1 && (0xD8u8 >> 3) & 7 == 3) by (bit_vector);
                }
                self.ret_cc(reg2);
            },
            0xD9 => self.reti(),
            0xC7 | 0xCF | 0xD7 | 0xDF | 0xE7 | 0xEF | 0xF7 | 0xFF => self.rst(opcode - 0xC7),
            0xF3 => self.di(),
            0xFB => self.ei(),
            0xCB => self.prefix(),
            0x76 => self.halt(),
            _ => {
                self.fault = true;
            },
        }
    }

    /// Runs one step: a halted core consumes a fixed 4-cycle tick, otherwise
    /// one instruction is fetched and executed; the bus then advances by the
    /// consumed cycles.  With the interrupt master enable set, the pending
    /// interrupts are checked, the highest-priority one is serviced, and the
    /// bus advances again by the service cost.  Returns the total cycles
    /// consumed.  A faulted core does not step at all.
    pub fn step(&mut self) -> (r: u8)
        requires
            old(self).inv(),
        ensures
            final(self).inv(),
            old(self).fault ==> r == 0 && (*final(self)) == (*old(self)),
            !old(self).fault ==> 4 <= r <= 44,
            !old(self).fault && old(self).halted && !old(self).ime ==> r == 4
                && crate::mmu::update_effect(old(self).mmu, final(self).mmu, 4) && (*final(self))
                == (CPU { mmu: final(self).mmu, tick: 4, ..*old(self) }),
            !old(self).fault && old(self).halted ==> final(self).reg_a == old(self).reg_a
                && final(self).reg_f == old(self).reg_f && final(self).reg_b == old(self).reg_b
                && final(self).reg_c == old(self).reg_c && final(self).reg_d == old(self).reg_d
                && final(self).reg_e == old(self).reg_e && final(self).reg_h == old(self).reg_h
                && final(self).reg_l == old(self).reg_l,
            !old(self).fault && !old(self).halted ==> final(self).fault == !valid_opcode(
                old(self).mmu.read_spec(old(self).pc),
            ),
            old(self).halted && !old(self).fault ==> final(self).fault == old(self).fault,
            !old(self).fault ==> step_effect(*old(self), *final(self), r),
    {
        if self.fault {
            return 0;
        }

        let mut total_tick: u8 = 0;

        self.tick = 0;

        if self.halted {
            self.tick = 4;
        } else {
            self.fetch_and_exec();
        }

        let ghost c1 = *self;
        total_tick = self.tick;

        let t1 = self.tick;
        self.mmu.update(t1);
        let ghost m1 = self.mmu;

        if self.ime {
            self.tick = 0;
            self.check_irqs();
            let ghost c3 = *self;
            let t2 = self.tick;
            self.mmu.update(t2);
            let ghost m2 = self.mmu;

            total_tick = total_tick + t2;

            proof {
                assert(crate::mmu::update_effect(c1.mmu, m1, c1.tick));
                if pending_irq(m1.int_flag, m1.int_enable) is Some {
                    assert(isr_effect(
                        CPU { mmu: m1, tick: 0, ..c1 },
                        c3,
                        pending_irq(m1.int_flag, m1.int_enable)->Some_0,
                    ));
                    assert(crate::mmu::update_effect(c3.mmu, m2, 20));
                    assert(*self == (CPU { mmu: m2, ..c3 }));
                } else {
                    assert(crate::mmu::update_effect(m1, m2, 0));
                    assert(*self == (CPU { mmu: m2, tick: 0, ..c1 }));
                }
                assert(step_effect(*old(self), *self, total_tick));
            }
        } else {
            proof {
                assert(crate::mmu::update_effect(c1.mmu, m1, c1.tick));
                assert(*self == (CPU { mmu: m1, ..c1 }));
                assert(step_effect(*old(self), *self, total_tick));
            }
        }

        total_tick
    }
}

/// The fixed vector address of each interrupt source.
pub open spec fn isr_vector(id: u8) -> u16 {
    if id == 0 {
        0x40
    } else if id == 1 {
        0x48
    } else if id == 2 {
        0x50
    } else if id == 3 {
        0x58
    } else {
        0x60
    }
}

/// The highest-priority pending interrupt: the lowest bit set in both the
/// interrupt flag and the interrupt enable register.
pub open spec fn pending_irq(iflag: u8, ien: u8) -> Option<u8> {
    if iflag & 0x01 != 0 && ien & 0x01 != 0 {
        Some(0)
    } else if iflag & 0x02 != 0 && ien & 0x02 != 0 {
        Some(1)
    } else if iflag & 0x04 != 0 && ien & 0x04 != 0 {
        Some(2)
    } else if iflag & 0x08 != 0 && ien & 0x08 != 0 {
        Some(3)
    } else if iflag & 0x10 != 0 && ien & 0x10 != 0 {
        Some(4)
    } else {
        None
    }
}

/// What servicing interrupt `id` does: its flag bit is cleared, the
/// interrupt master enable and the halted state are cleared, the program
/// counter is pushed (two bus writes) and execution continues at the
/// interrupt's vector, costing 20 cycles.
pub open spec fn isr_effect(pre: CPU, post: CPU, id: u8) -> bool {
    &&& crate::mmu::write16_effect(
        MMU { int_flag: pre.mmu.int_flag & !(1u8 << id), ..pre.mmu },
        post.mmu,
        pre.sp.wrapping_sub(2),
        pre.pc,
    )
    &&& post == (CPU {
        mmu: post.mmu,
        pc: isr_vector(id),
        sp: pre.sp.wrapping_sub(2),
        ime: false,
        halted: false,
        tick: (pre.tick + 20) as u8,
        ..pre
    })
}

/// Whether a byte is an opcode the execution core accepts: the eleven
/// undefined base-space entries are decode faults, and so is the stop
/// opcode, which this core does not implement.
pub open spec fn valid_opcode(op: u8) -> bool {
    !(op == 0x10 || op == 0xD3 || op == 0xDB || op == 0xDD || op == 0xE3 || op == 0xE4 || op
        == 0xEB || op == 0xEC || op == 0xED || op == 0xF4 || op == 0xFC || op == 0xFD)
}


/// The result of an extended-space rotate, shift or swap, selected by the
/// operation's row index: rotate left/right (plain and through carry), the
/// arithmetic and logical shifts, and the nibble swap.
pub open spec fn shift_res(sel: u8, v: u8, carry: bool) -> u8 {
    if sel == 0 {
        (v << 1) | (v >> 7)
    } else if sel == 1 {
        (v >> 1) | (v << 7)
    } else if sel == 2 {
        rl_res(v, carry)
    } else if sel == 3 {
        rr_res(v, carry)
    } else if sel == 4 {
        v << 1
    } else if sel == 5 {
        (v >> 1) | (v & 0x80)
    } else if sel == 6 {
        ((v & 0x0F) << 4) | ((v & 0xF0) >> 4)
    } else {
        v >> 1
    }
}

/// The carry flag an extended-space rotate, shift or swap leaves: the bit
/// shifted out, or clear for the nibble swap.
pub open spec fn shift_carry(sel: u8, v: u8) -> bool {
    if sel == 0 || sel == 2 {
        (v >> 7) & 1 == 1
    } else if sel == 1 || sel == 3 {
        v & 1 == 1
    } else if sel == 4 {
        v & 0x80 > 0
    } else if sel == 5 {
        v & 1 > 0
    } else if sel == 6 {
        false
    } else {
        v & 1 == 1
    }
}

/// What one extended-space rotate, shift or swap does to the operand
/// selected by `reg`, starting from core state `t`.
pub open spec fn cb_shift_effect(t: CPU, post: CPU, reg: u8, sel: u8) -> bool {
    let v = CPU::operand8(t, reg);
    let res = shift_res(sel, v, flag_c(t.reg_f));
    &&& rmw_effect(t, post, reg, res)
    &&& flag_z(post.reg_f) == (res == 0)
    &&& !flag_n(post.reg_f)
    &&& !flag_h(post.reg_f)
    &&& flag_c(post.reg_f) == shift_carry(sel, v)
}

/// What one extended-space operation does: the byte after the prefix is
/// fetched at `pre`'s program counter and selects a rotate, shift or swap,
/// a bit test, a bit reset or a bit set, with its operand and bit position
/// taken from the byte's fields.
pub open spec fn cb_effect(pre: CPU, post: CPU) -> bool {
    let op2 = CPU::imm8(pre);
    let t = CPU::after_imm8(pre);
    let reg = op2 & 0x7;
    let pos = (op2 >> 3) & 0x7;
    if op2 < 0x08 {
        cb_shift_effect(t, post, reg, 0)
    } else if op2 < 0x10 {
        cb_shift_effect(t, post, reg, 1)
    } else if op2 < 0x18 {
        cb_shift_effect(t, post, reg, 2)
    } else if op2 < 0x20 {
        cb_shift_effect(t, post, reg, 3)
    } else if op2 < 0x28 {
        cb_shift_effect(t, post, reg, 4)
    } else if op2 < 0x30 {
        cb_shift_effect(t, post, reg, 5)
    } else if op2 < 0x38 {
        cb_shift_effect(t, post, reg, 6)
    } else if op2 < 0x40 {
        cb_shift_effect(t, post, reg, 7)
    } else if op2 < 0x80 {
        &&& CPU::eq_except_f(CPU::after_operand8(t, reg), post)
        &&& flag_z(post.reg_f) == ((CPU::operand8(t, reg) >> pos) & 1 == 0)
        &&& !flag_n(post.reg_f)
        &&& flag_h(post.reg_f)
        &&& flag_c(post.reg_f) == flag_c(t.reg_f)
    } else if op2 < 0xC0 {
        &&& post.reg_f == t.reg_f
        &&& rmw_effect(t, post, reg, CPU::operand8(t, reg) & !(1u8 << pos))
    } else {
        &&& post.reg_f == t.reg_f
        &&& rmw_effect(t, post, reg, CPU::operand8(t, reg) | (1u8 << pos))
    }
}

/// What one accumulator operation does: `sel` ranges over the eight
/// arithmetic and logical rows (add, add-with-carry, subtract,
/// subtract-with-carry, and, xor, or, compare), `v` is the operand value and
/// `base` the core after the operand was read.  The four flags take the
/// documented zero, subtract, half-carry and carry values.
pub open spec fn alu_acc_effect(s: CPU, base: CPU, post: CPU, v: u8, sel: u8) -> bool {
    if sel == 0 {
        &&& CPU::eq_except_af(base, post)
        &&& post.reg_a == s.reg_a.wrapping_add(v)
        &&& flag_z(post.reg_f) == (post.reg_a == 0)
        &&& !flag_n(post.reg_f)
        &&& flag_h(post.reg_f) == half_carry_add(s.reg_a, v, 0)
        &&& flag_c(post.reg_f) == carry_add(s.reg_a, v, 0)
    } else if sel == 1 {
        &&& CPU::eq_except_af(base, post)
        &&& post.reg_a == s.reg_a.wrapping_add(v).wrapping_add(carry_in(s.reg_f))
        &&& flag_z(post.reg_f) == (post.reg_a == 0)
        &&& !flag_n(post.reg_f)
        &&& flag_h(post.reg_f) == half_carry_add(s.reg_a, v, carry_in(s.reg_f))
        &&& flag_c(post.reg_f) == carry_add(s.reg_a, v, carry_in(s.reg_f))
    } else if sel == 2 {
        &&& CPU::eq_except_af(base, post)
        &&& post.reg_a == s.reg_a.wrapping_sub(v)
        &&& flag_z(post.reg_f) == (post.reg_a == 0)
        &&& flag_n(post.reg_f)
        &&& flag_h(post.reg_f) == half_borrow_sub(s.reg_a, v, 0)
        &&& flag_c(post.reg_f) == borrow_sub(s.reg_a, v, 0)
    } else if sel == 3 {
        &&& CPU::eq_except_af(base, post)
        &&& post.reg_a == s.reg_a.wrapping_sub(v).wrapping_sub(carry_in(s.reg_f))
        &&& flag_z(post.reg_f) == (post.reg_a == 0)
        &&& flag_n(post.reg_f)
        &&& flag_h(post.reg_f) == half_borrow_sub(s.reg_a, v, carry_in(s.reg_f))
        &&& flag_c(post.reg_f) == borrow_sub(s.reg_a, v, carry_in(s.reg_f))
    } else if sel == 4 {
        &&& CPU::eq_except_af(base, post)
        &&& post.reg_a == (s.reg_a & v)
        &&& flag_z(post.reg_f) == (post.reg_a == 0)
        &&& !flag_n(post.reg_f)
        &&& flag_h(post.reg_f)
        &&& !flag_c(post.reg_f)
    } else if sel == 5 {
        &&& CPU::eq_except_af(base, post)
        &&& post.reg_a == (s.reg_a ^ v)
        &&& flag_z(post.reg_f) == (post.reg_a == 0)
        &&& !flag_n(post.reg_f)
        &&& !flag_h(post.reg_f)
        &&& !flag_c(post.reg_f)
    } else if sel == 6 {
        &&& CPU::eq_except_af(base, post)
        &&& post.reg_a == (s.reg_a | v)
        &&& flag_z(post.reg_f) == (post.reg_a == 0)
        &&& !flag_n(post.reg_f)
        &&& !flag_h(post.reg_f)
        &&& !flag_c(post.reg_f)
    } else {
        &&& CPU::eq_except_f(base, post)
        &&& flag_z(post.reg_f) == (s.reg_a == v)
        &&& flag_n(post.reg_f)
        &&& flag_h(post.reg_f) == half_borrow_sub(s.reg_a, v, 0)
        &&& flag_c(post.reg_f) == borrow_sub(s.reg_a, v, 0)
    }
}

/// What a 16-bit push does: the stack pointer drops by two and the value is
/// stored there through the bus.
pub open spec fn push_effect(s: CPU, post: CPU, v: u16) -> bool {
    &&& crate::mmu::write16_effect(s.mmu, post.mmu, s.sp.wrapping_sub(2), v)
    &&& post == (CPU {
        mmu: post.mmu,
        sp: s.sp.wrapping_sub(2),
        tick: (s.tick + 12) as u8,
        ..s
    })
}

/// What a return does: the program counter is popped and the stack pointer
/// rises by two, with one extra internal cycle.
pub open spec fn ret_effect(s: CPU, post: CPU) -> bool {
    post == (CPU {
        mmu: crate::mmu::after_read16(s.mmu, s.sp),
        pc: crate::mmu::read16_spec(s.mmu, s.sp),
        sp: s.sp.wrapping_add(2),
        tick: (s.tick + 12) as u8,
        ..s
    })
}

/// What one defined instruction does, as a function of its opcode byte:
/// `s` is the core just after the opcode fetch, and each arm restates the
/// operation's documented register, flag, memory and cycle effect.  (An
/// undefined byte never reaches this relation: it latches the decode fault
/// instead, see `exec_effect`.)
pub open spec fn instr_effect(s: CPU, post: CPU, op: u8) -> bool {
    if op == 0x00 {
        post == s
    } else if op == 0x01 || op == 0x11 || op == 0x21 || op == 0x31 {
        &&& post.r16_spec(op >> 4) == CPU::imm16(s)
        &&& (forall|j: u8|
            j <= 3 && j != op >> 4 ==> post.r16_spec(j) == CPU::after_imm16(s).r16_spec(j))
        &&& post.mmu == CPU::after_imm16(s).mmu
        &&& post.pc == s.pc.wrapping_add(2)
        &&& post.tick == s.tick + 8
        &&& post.reg_a == s.reg_a
        &&& post.reg_f == s.reg_f
        &&& post.ime == s.ime
        &&& post.halted == s.halted
        &&& post.fault == s.fault
    } else if op == 0x08 {
        &&& crate::mmu::write16_effect(CPU::after_imm16(s).mmu, post.mmu, CPU::imm16(s), s.sp)
        &&& post == (CPU {
            mmu: post.mmu,
            pc: s.pc.wrapping_add(2),
            tick: (s.tick + 16) as u8,
            ..s
        })
    } else if op == 0xF9 {
        post == (CPU { sp: pair(s.reg_h, s.reg_l), tick: (s.tick + 4) as u8, ..s })
    } else if op == 0x02 {
        &&& crate::mmu::bus_write_effect(s.mmu, post.mmu, pair(s.reg_b, s.reg_c), s.reg_a)
        &&& post == (CPU { mmu: post.mmu, tick: (s.tick + 4) as u8, ..s })
    } else if op == 0x12 {
        &&& crate::mmu::bus_write_effect(s.mmu, post.mmu, pair(s.reg_d, s.reg_e), s.reg_a)
        &&& post == (CPU { mmu: post.mmu, tick: (s.tick + 4) as u8, ..s })
    } else if op == 0x0A {
        post == (CPU {
            mmu: crate::mmu::after_read(s.mmu, pair(s.reg_b, s.reg_c)),
            reg_a: s.mmu.read_spec(pair(s.reg_b, s.reg_c)),
            tick: (s.tick + 4) as u8,
            ..s
        })
    } else if op == 0x1A {
        post == (CPU {
            mmu: crate::mmu::after_read(s.mmu, pair(s.reg_d, s.reg_e)),
            reg_a: s.mmu.read_spec(pair(s.reg_d, s.reg_e)),
            tick: (s.tick + 4) as u8,
            ..s
        })
    } else if op == 0xC5 {
        push_effect(s, post, pair(s.reg_b, s.reg_c))
    } else if op == 0xD5 {
        push_effect(s, post, pair(s.reg_d, s.reg_e))
    } else if op == 0xE5 {
        push_effect(s, post, pair(s.reg_h, s.reg_l))
    } else if op == 0xF5 {
        push_effect(s, post, pair(s.reg_a, s.reg_f))
    } else if op == 0xC1 {
        &&& pair(post.reg_b, post.reg_c) == crate::mmu::read16_spec(s.mmu, s.sp)
        &&& post == (CPU {
            mmu: crate::mmu::after_read16(s.mmu, s.sp),
            reg_b: post.reg_b,
            reg_c: post.reg_c,
            sp: s.sp.wrapping_add(2),
            tick: (s.tick + 8) as u8,
            ..s
        })
    } else if op == 0xD1 {
        &&& pair(post.reg_d, post.reg_e) == crate::mmu::read16_spec(s.mmu, s.sp)
        &&& post == (CPU {
            mmu: crate::mmu::after_read16(s.mmu, s.sp),
            reg_d: post.reg_d,
            reg_e: post.reg_e,
            sp: s.sp.wrapping_add(2),
            tick: (s.tick + 8) as u8,
            ..s
        })
    } else if op == 0xE1 {
        &&& pair(post.reg_h, post.reg_l) == crate::mmu::read16_spec(s.mmu, s.sp)
        &&& post == (CPU {
            mmu: crate::mmu::after_read16(s.mmu, s.sp),
            reg_h: post.reg_h,
            reg_l: post.reg_l,
            sp: s.sp.wrapping_add(2),
            tick: (s.tick + 8) as u8,
            ..s
        })
    } else if op == 0xF1 {
        &&& pair(post.reg_a, post.reg_f) == crate::mmu::read16_spec(s.mmu, s.sp) & 0xFFF0
        &&& post == (CPU {
            mmu: crate::mmu::after_read16(s.mmu, s.sp),
            reg_a: post.reg_a,
            reg_f: post.reg_f,
            sp: s.sp.wrapping_add(2),
            tick: (s.tick + 8) as u8,
            ..s
        })
    } else if op == 0xC2 || op == 0xD2 || op == 0xCA || op == 0xDA {
        &&& post.pc == (if cond_spec(s.reg_f, (op >> 3) & 7) {
            CPU::imm16(s)
        } else {
            s.pc.wrapping_add(2)
        })
        &&& post.tick == s.tick + 8 + (if cond_spec(s.reg_f, (op >> 3) & 7) {
            4int
        } else {
            0int
        })
        &&& post == (CPU { mmu: CPU::after_imm16(s).mmu, pc: post.pc, tick: post.tick, ..s })
    } else if op == 0xC3 {
        post == (CPU {
            mmu: CPU::after_imm16(s).mmu,
            pc: CPU::imm16(s),
            tick: (s.tick + 12) as u8,
            ..s
        })
    } else if op == 0xE9 {
        post == (CPU { pc: pair(s.reg_h, s.reg_l), ..s })
    } else if op == 0x20 || op == 0x30 || op == 0x28 || op == 0x38 {
        &&& post.pc == (if cond_spec(s.reg_f, (((op >> 3) & 7) - 4) as u8) {
            s.pc.wrapping_add(1).wrapping_add((CPU::imm8(s) as i8) as u16)
        } else {
            s.pc.wrapping_add(1)
        })
        &&& post.tick == s.tick + 4 + (if cond_spec(s.reg_f, (((op >> 3) & 7) - 4) as u8) {
            4int
        } else {
            0int
        })
        &&& post == (CPU { mmu: CPU::after_imm8(s).mmu, pc: post.pc, tick: post.tick, ..s })
    } else if op == 0x18 {
        post == (CPU {
            mmu: CPU::after_imm8(s).mmu,
            pc: s.pc.wrapping_add(1).wrapping_add((CPU::imm8(s) as i8) as u16),
            tick: (s.tick + 8) as u8,
            ..s
        })
    } else if op == 0x07 {
        &&& CPU::eq_except_af(s, post)
        &&& post.reg_a == (s.reg_a << 1) | (s.reg_a >> 7)
        &&& !flag_z(post.reg_f)
        &&& !flag_n(post.reg_f)
        &&& !flag_h(post.reg_f)
        &&& flag_c(post.reg_f) == ((s.reg_a >> 7) & 1 == 1)
    } else if op == 0x17 {
        &&& CPU::eq_except_af(s, post)
        &&& post.reg_a == rl_res(s.reg_a, flag_c(s.reg_f))
        &&& !flag_z(post.reg_f)
        &&& !flag_n(post.reg_f)
        &&& !flag_h(post.reg_f)
        &&& flag_c(post.reg_f) == ((s.reg_a >> 7) & 1 == 1)
    } else if op == 0x0F {
        &&& CPU::eq_except_af(s, post)
        &&& post.reg_a == (s.reg_a >> 1) | (s.reg_a << 7)
        &&& !flag_z(post.reg_f)
        &&& !flag_n(post.reg_f)
        &&& !flag_h(post.reg_f)
        &&& flag_c(post.reg_f) == (s.reg_a & 1 == 1)
    } else if op == 0x1F {
        &&& CPU::eq_except_af(s, post)
        &&& post.reg_a == rr_res(s.reg_a, flag_c(s.reg_f))
        &&& !flag_z(post.reg_f)
        &&& !flag_n(post.reg_f)
        &&& !flag_h(post.reg_f)
        &&& flag_c(post.reg_f) == (s.reg_a & 1 == 1)
    } else if op == 0x09 || op == 0x19 || op == 0x29 || op == 0x39 {
        &&& pair(post.reg_h, post.reg_l) == s.r16_spec(2).wrapping_add(s.r16_spec(op >> 4))
        &&& flag_z(post.reg_f) == flag_z(s.reg_f)
        &&& !flag_n(post.reg_f)
        &&& flag_h(post.reg_f) == (s.r16_spec(2) % 4096 + s.r16_spec(op >> 4) % 4096 > 4095)
        &&& flag_c(post.reg_f) == (s.r16_spec(2) + s.r16_spec(op >> 4) > 65535)
        &&& post == (CPU {
            reg_h: post.reg_h,
            reg_l: post.reg_l,
            reg_f: post.reg_f,
            tick: (s.tick + 4) as u8,
            ..s
        })
    } else if op == 0xE8 {
        &&& post.sp == s.sp.wrapping_add((CPU::imm8(s) as i8) as u16)
        &&& !flag_z(post.reg_f)
        &&& !flag_n(post.reg_f)
        &&& flag_h(post.reg_f) == (s.sp % 16 + ((CPU::imm8(s) as i8) as u16) % 16 > 15)
        &&& flag_c(post.reg_f) == (s.sp % 256 + ((CPU::imm8(s) as i8) as u16) % 256 > 255)
        &&& post == (CPU {
            mmu: CPU::after_imm8(s).mmu,
            pc: s.pc.wrapping_add(1),
            sp: post.sp,
            reg_f: post.reg_f,
            tick: (s.tick + 12) as u8,
            ..s
        })
    } else if op == 0xF8 {
        &&& pair(post.reg_h, post.reg_l) == s.sp.wrapping_add((CPU::imm8(s) as i8) as u16)
        &&& !flag_z(post.reg_f)
        &&& !flag_n(post.reg_f)
        &&& flag_h(post.reg_f) == (s.sp % 16 + ((CPU::imm8(s) as i8) as u16) % 16 > 15)
        &&& flag_c(post.reg_f) == (s.sp % 256 + ((CPU::imm8(s) as i8) as u16) % 256 > 255)
        &&& post == (CPU {
            mmu: CPU::after_imm8(s).mmu,
            pc: s.pc.wrapping_add(1),
            reg_h: post.reg_h,
            reg_l: post.reg_l,
            reg_f: post.reg_f,
            tick: (s.tick + 8) as u8,
            ..s
        })
    } else if 0x80 <= op < 0xC0 {
        let v = CPU::operand8(s, op & 7);
        let base = CPU::after_operand8(s, op & 7);
        if op < 0x88 {
            alu_acc_effect(s, base, post, v, 0)
        } else if op < 0x90 {
            alu_acc_effect(s, base, post, v, 1)
        } else if op < 0x98 {
            alu_acc_effect(s, base, post, v, 2)
        } else if op < 0xA0 {
            alu_acc_effect(s, base, post, v, 3)
        } else if op < 0xA8 {
            alu_acc_effect(s, base, post, v, 4)
        } else if op < 0xB0 {
            alu_acc_effect(s, base, post, v, 5)
        } else if op < 0xB8 {
            alu_acc_effect(s, base, post, v, 6)
        } else {
            alu_acc_effect(s, base, post, v, 7)
        }
    } else if op == 0x27 {
        &&& CPU::eq_except_af(s, post)
        &&& post.reg_a == daa_result(s.reg_a, s.reg_f).0
        &&& flag_c(post.reg_f) == daa_result(s.reg_a, s.reg_f).1
        &&& flag_z(post.reg_f) == (post.reg_a == 0)
        &&& flag_n(post.reg_f) == flag_n(s.reg_f)
        &&& !flag_h(post.reg_f)
    } else if op == 0x2F {
        &&& CPU::eq_except_af(s, post)
        &&& post.reg_a == !s.reg_a
        &&& flag_n(post.reg_f)
        &&& flag_h(post.reg_f)
        &&& flag_z(post.reg_f) == flag_z(s.reg_f)
        &&& flag_c(post.reg_f) == flag_c(s.reg_f)
    } else if op == 0x37 {
        &&& CPU::eq_except_f(s, post)
        &&& flag_c(post.reg_f)
        &&& !flag_n(post.reg_f)
        &&& !flag_h(post.reg_f)
        &&& flag_z(post.reg_f) == flag_z(s.reg_f)
    } else if op == 0x3F {
        &&& CPU::eq_except_f(s, post)
        &&& flag_c(post.reg_f) == !flag_c(s.reg_f)
        &&& !flag_n(post.reg_f)
        &&& !flag_h(post.reg_f)
        &&& flag_z(post.reg_f) == flag_z(s.reg_f)
    } else if op == 0xC6 || op == 0xCE || op == 0xD6 || op == 0xDE || op == 0xE6 || op == 0xEE
        || op == 0xF6 || op == 0xFE {
        let v = CPU::imm8(s);
        let base = CPU::after_imm8(s);
        if op == 0xC6 {
            alu_acc_effect(s, base, post, v, 0)
        } else if op == 0xCE {
            alu_acc_effect(s, base, post, v, 1)
        } else if op == 0xD6 {
            alu_acc_effect(s, base, post, v, 2)
        } else if op == 0xDE {
            alu_acc_effect(s, base, post, v, 3)
        } else if op == 0xE6 {
            alu_acc_effect(s, base, post, v, 4)
        } else if op == 0xEE {
            alu_acc_effect(s, base, post, v, 5)
        } else if op == 0xF6 {
            alu_acc_effect(s, base, post, v, 6)
        } else {
            alu_acc_effect(s, base, post, v, 7)
        }
    } else if op == 0x22 {
        &&& crate::mmu::bus_write_effect(s.mmu, post.mmu, pair(s.reg_h, s.reg_l), s.reg_a)
        &&& pair(post.reg_h, post.reg_l) == pair(s.reg_h, s.reg_l).wrapping_add(1)
        &&& post == (CPU {
            mmu: post.mmu,
            reg_h: post.reg_h,
            reg_l: post.reg_l,
            tick: (s.tick + 4) as u8,
            ..s
        })
    } else if op == 0x32 {
        &&& crate::mmu::bus_write_effect(s.mmu, post.mmu, pair(s.reg_h, s.reg_l), s.reg_a)
        &&& pair(post.reg_h, post.reg_l) == pair(s.reg_h, s.reg_l).wrapping_sub(1)
        &&& post == (CPU {
            mmu: post.mmu,
            reg_h: post.reg_h,
            reg_l: post.reg_l,
            tick: (s.tick + 4) as u8,
            ..s
        })
    } else if op == 0x2A {
        &&& post.reg_a == s.mmu.read_spec(pair(s.reg_h, s.reg_l))
        &&& pair(post.reg_h, post.reg_l) == pair(s.reg_h, s.reg_l).wrapping_add(1)
        &&& post == (CPU {
            mmu: crate::mmu::after_read(s.mmu, pair(s.reg_h, s.reg_l)),
            reg_a: post.reg_a,
            reg_h: post.reg_h,
            reg_l: post.reg_l,
            tick: (s.tick + 4) as u8,
            ..s
        })
    } else if op == 0x3A {
        &&& post.reg_a == s.mmu.read_spec(pair(s.reg_h, s.reg_l))
        &&& pair(post.reg_h, post.reg_l) == pair(s.reg_h, s.reg_l).wrapping_sub(1)
        &&& post == (CPU {
            mmu: crate::mmu::after_read(s.mmu, pair(s.reg_h, s.reg_l)),
            reg_a: post.reg_a,
            reg_h: post.reg_h,
            reg_l: post.reg_l,
            tick: (s.tick + 4) as u8,
            ..s
        })
    } else if op == 0xE0 {
        &&& crate::mmu::bus_write_effect(
            CPU::after_imm8(s).mmu,
            post.mmu,
            0xFF00 | (CPU::imm8(s) as u16),
            s.reg_a,
        )
        &&& post == (CPU {
            mmu: post.mmu,
            pc: s.pc.wrapping_add(1),
            tick: (s.tick + 8) as u8,
            ..s
        })
    } else if op == 0xF0 {
        &&& post.reg_a == CPU::after_imm8(s).mmu.read_spec(0xFF00 | (CPU::imm8(s) as u16))
        &&& post == (CPU {
            mmu: crate::mmu::after_read(CPU::after_imm8(s).mmu, 0xFF00 | (CPU::imm8(s) as u16)),
            reg_a: post.reg_a,
            pc: s.pc.wrapping_add(1),
            tick: (s.tick + 8) as u8,
            ..s
        })
    } else if op == 0xE2 {
        &&& crate::mmu::bus_write_effect(s.mmu, post.mmu, 0xFF00 | (s.reg_c as u16), s.reg_a)
        &&& post == (CPU { mmu: post.mmu, tick: (s.tick + 4) as u8, ..s })
    } else if op == 0xF2 {
        &&& post.reg_a == s.mmu.read_spec(0xFF00 | (s.reg_c as u16))
        &&& post == (CPU {
            mmu: crate::mmu::after_read(s.mmu, 0xFF00 | (s.reg_c as u16)),
            reg_a: post.reg_a,
            tick: (s.tick + 4) as u8,
            ..s
        })
    } else if op == 0x06 || op == 0x0E || op == 0x16 || op == 0x1E || op == 0x26 || op == 0x2E
        || op == 0x36 || op == 0x3E {
        store8_effect(CPU::after_imm8(s), post, (op >> 3) & 7, CPU::imm8(s))
    } else if op == 0x04 || op == 0x0C || op == 0x14 || op == 0x1C || op == 0x24 || op == 0x2C
        || op == 0x34 || op == 0x3C {
        let v = CPU::operand8(s, (op >> 3) & 7);
        &&& rmw_effect(s, post, (op >> 3) & 7, v.wrapping_add(1))
        &&& flag_z(post.reg_f) == (v.wrapping_add(1) == 0)
        &&& flag_h(post.reg_f) == (v % 16 == 15)
        &&& !flag_n(post.reg_f)
        &&& flag_c(post.reg_f) == flag_c(s.reg_f)
    } else if op == 0x05 || op == 0x0D || op == 0x15 || op == 0x1D || op == 0x25 || op == 0x2D
        || op == 0x35 || op == 0x3D {
        let v = CPU::operand8(s, (op >> 3) & 7);
        &&& rmw_effect(s, post, (op >> 3) & 7, v.wrapping_sub(1))
        &&& flag_z(post.reg_f) == (v.wrapping_sub(1) == 0)
        &&& flag_h(post.reg_f) == (v % 16 == 0)
        &&& flag_n(post.reg_f)
        &&& flag_c(post.reg_f) == flag_c(s.reg_f)
    } else if op == 0x76 {
        post == (CPU { halted: s.halted || s.ime, ..s })
    } else if 0x40 <= op < 0x80 {
        store8_effect(CPU::after_operand8(s, op & 7), post, (op >> 3) & 7, CPU::operand8(s, op & 7))
    } else if op == 0xEA {
        &&& crate::mmu::bus_write_effect(CPU::after_imm16(s).mmu, post.mmu, CPU::imm16(s), s.reg_a)
        &&& post == (CPU {
            mmu: post.mmu,
            pc: s.pc.wrapping_add(2),
            tick: (s.tick + 12) as u8,
            ..s
        })
    } else if op == 0xFA {
        &&& post.reg_a == CPU::after_imm16(s).mmu.read_spec(CPU::imm16(s))
        &&& post == (CPU {
            mmu: crate::mmu::after_read(CPU::after_imm16(s).mmu, CPU::imm16(s)),
            reg_a: post.reg_a,
            pc: s.pc.wrapping_add(2),
            tick: (s.tick + 12) as u8,
            ..s
        })
    } else if op == 0x03 || op == 0x13 || op == 0x23 || op == 0x33 {
        &&& post.r16_spec(op >> 4) == s.r16_spec(op >> 4).wrapping_add(1)
        &&& (forall|j: u8| j <= 3 && j != op >> 4 ==> post.r16_spec(j) == s.r16_spec(j))
        &&& post.mmu == s.mmu
        &&& post.reg_a == s.reg_a
        &&& post.reg_f == s.reg_f
        &&& post.pc == s.pc
        &&& post.tick == s.tick + 4
        &&& post.ime == s.ime
        &&& post.halted == s.halted
        &&& post.fault == s.fault
    } else if op == 0x0B || op == 0x1B || op == 0x2B || op == 0x3B {
        &&& post.r16_spec(op >> 4) == s.r16_spec(op >> 4).wrapping_sub(1)
        &&& (forall|j: u8| j <= 3 && j != op >> 4 ==> post.r16_spec(j) == s.r16_spec(j))
        &&& post.mmu == s.mmu
        &&& post.reg_a == s.reg_a
        &&& post.reg_f == s.reg_f
        &&& post.pc == s.pc
        &&& post.tick == s.tick + 4
        &&& post.ime == s.ime
        &&& post.halted == s.halted
        &&& post.fault == s.fault
    } else if op == 0xCD {
        &&& crate::mmu::write16_effect(
            CPU::after_imm16(s).mmu,
            post.mmu,
            s.sp.wrapping_sub(2),
            s.pc.wrapping_add(2),
        )
        &&& post == (CPU {
            mmu: post.mmu,
            pc: CPU::imm16(s),
            sp: s.sp.wrapping_sub(2),
            tick: (s.tick + 20) as u8,
            ..s
        })
    } else if op == 0xC4 || op == 0xD4 || op == 0xCC || op == 0xDC {
        if cond_spec(s.reg_f, (op >> 3) & 7) {
            &&& crate::mmu::write16_effect(
                CPU::after_imm16(s).mmu,
                post.mmu,
                s.sp.wrapping_sub(2),
                s.pc.wrapping_add(2),
            )
            &&& post == (CPU {
                mmu: post.mmu,
                pc: CPU::imm16(s),
                sp: s.sp.wrapping_sub(2),
                tick: (s.tick + 20) as u8,
                ..s
            })
        } else {
            post == (CPU {
                mmu: CPU::after_imm16(s).mmu,
                pc: s.pc.wrapping_add(2),
                tick: (s.tick + 8) as u8,
                ..s
            })
        }
    } else if op == 0xC9 {
        ret_effect(s, post)
    } else if op == 0xC0 || op == 0xD0 || op == 0xC8 || op == 0xD8 {
        if cond_spec(s.reg_f, (op >> 3) & 7) {
            post == (CPU {
                mmu: crate::mmu::after_read16(s.mmu, s.sp),
                pc: crate::mmu::read16_spec(s.mmu, s.sp),
                sp: s.sp.wrapping_add(2),
                tick: (s.tick + 16) as u8,
                ..s
            })
        } else {
            post == (CPU { tick: (s.tick + 4) as u8, ..s })
        }
    } else if op == 0xD9 {
        post == (CPU {
            mmu: crate::mmu::after_read16(s.mmu, s.sp),
            pc: crate::mmu::read16_spec(s.mmu, s.sp),
            sp: s.sp.wrapping_add(2),
            ime: true,
            tick: (s.tick + 12) as u8,
            ..s
        })
    } else if op == 0xC7 || op == 0xCF || op == 0xD7 || op == 0xDF || op == 0xE7 || op == 0xEF
        || op == 0xF7 || op == 0xFF {
        &&& crate::mmu::write16_effect(s.mmu, post.mmu, s.sp.wrapping_sub(2), s.pc)
        &&& post == (CPU {
            mmu: post.mmu,
            pc: (op - 0xC7) as u16,
            sp: s.sp.wrapping_sub(2),
            tick: (s.tick + 12) as u8,
            ..s
        })
    } else if op == 0xF3 {
        post == (CPU { ime: false, ..s })
    } else if op == 0xFB {
        post == (CPU { ime: true, ..s })
    } else if op == 0xCB {
        cb_effect(s, post)
    } else {
        true
    }
}

/// What one fetch-decode-execute round does: the opcode byte at the program
/// counter is fetched; an undefined byte only latches the decode fault,
/// while a defined byte executes with its documented effect.
pub open spec fn exec_effect(pre: CPU, post: CPU) -> bool {
    let op = CPU::imm8(pre);
    if !valid_opcode(op) {
        post == (CPU { fault: true, ..CPU::after_imm8(pre) })
    } else {
        instr_effect(CPU::after_imm8(pre), post, op)
    }
}

/// What one step of a running (non-faulted) core does: a halted core only
/// consumes a fixed 4-cycle tick, otherwise one instruction executes; the
/// bus advances by the consumed cycles; and only with the interrupt master
/// enable set are the pending interrupts polled, the highest-priority one
/// serviced, and the bus advanced again by the service cost.  The returned
/// tally is the fetch/execute cycles plus the service cycles (zero when no
/// interrupt was serviced).
pub open spec fn step_effect(pre: CPU, post: CPU, r: u8) -> bool {
    exists|c1: CPU, m1: MMU|
        {
            &&& (if pre.halted {
                c1 == (CPU { tick: 4, ..pre })
            } else {
                exec_effect(CPU { tick: 0, ..pre }, c1)
            })
            &&& #[trigger] crate::mmu::update_effect(c1.mmu, m1, c1.tick)
            &&& (if !c1.ime {
                &&& post == (CPU { mmu: m1, ..c1 })
                &&& r == c1.tick
            } else {
                match pending_irq(m1.int_flag, m1.int_enable) {
                    Option::None => {
                        &&& (exists|m2: MMU|
                            #[trigger] crate::mmu::update_effect(m1, m2, 0) && post == (CPU {
                                mmu: m2,
                                tick: 0,
                                ..c1
                            }))
                        &&& r == c1.tick
                    },
                    Option::Some(id) => {
                        &&& (exists|c3: CPU, m2: MMU|
                            isr_effect(CPU { mmu: m1, tick: 0, ..c1 }, c3, id)
                                && #[trigger] crate::mmu::update_effect(c3.mmu, m2, 20) && post
                                == (CPU { mmu: m2, ..c3 }))
                        &&& r == c1.tick + 20
                    },
                }
            })
        }
}

/// The numeric carry-in encoded by the carry flag.
pub open spec fn carry_in(f: u8) -> u8 {
    if flag_c(f) {
        1
    } else {
        0
    }
}

/// The result of a rotate left through carry.
pub open spec fn rl_res(v: u8, carry: bool) -> u8 {
    (v << 1) | (if carry {
        1u8
    } else {
        0u8
    })
}

/// The result of a rotate right through carry.
pub open spec fn rr_res(v: u8, carry: bool) -> u8 {
    (v >> 1) | (if carry {
        0x80u8
    } else {
        0u8
    })
}

/// The decimal-adjust result: the adjusted accumulator and the carry flag.
/// After an addition each out-of-range nibble is corrected upward (setting
/// carry when the high nibble was corrected); after a subtraction the
/// recorded carry and half-carry select downward corrections.
pub open spec fn daa_result(a: u8, f: u8) -> (u8, bool) {
    if !flag_n(f) {
        let a1 = if flag_c(f) || a > 0x99 {
            a.wrapping_add(0x60)
        } else {
            a
        };
        let c1 = if flag_c(f) || a > 0x99 {
            true
        } else {
            flag_c(f)
        };
        let a2 = if flag_h(f) || a1 % 16 > 9 {
            a1.wrapping_add(0x06)
        } else {
            a1
        };
        (a2, c1)
    } else {
        let a1 = if flag_c(f) {
            a.wrapping_sub(0x60)
        } else {
            a
        };
        let a2 = if flag_h(f) {
            a1.wrapping_sub(0x06)
        } else {
            a1
        };
        (a2, flag_c(f))
    }
}


} // verus!
