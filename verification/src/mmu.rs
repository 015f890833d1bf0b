//! The memory bus: a flat 16-bit address space routed to the cartridge, the
//! picture unit, work and high RAM, the timer, the input latch, the serial
//! port and the color register block.  The bus owns the interrupt flag and
//! enable registers, performs OAM and VRAM DMA, and advances every
//! peripheral on each clock update, collecting their one-shot interrupt
//! requests into the interrupt flag register.
//!
//! Routing is lenient: a read of an unmapped address (including the audio
//! region, which this core does not model) returns 0xFF and a write to one
//! is dropped.

use vstd::prelude::*;

use crate::bios::BIOS;
use crate::cartridge::Cartridge;
use crate::cartridge::LoadError;
use crate::cgb::CGB;
use crate::gamepad::GamePad;
use crate::ppu::PPU;
use crate::serial::Serial;
use crate::timer::Timer;

verus! {

/// Bytes of work RAM: eight 4 KiB banks.
pub const WRAM_SIZE: usize = 32768;

/// Bytes of one work RAM bank.
pub const WRAM_BANK_SIZE: usize = 4096;

/// Bytes of high RAM.
pub const HRAM_SIZE: usize = 127;

pub struct MMU {
    /// The boot code image and its latch.
    pub bios: BIOS,
    /// The cartridge with its banking controller.
    pub cartridge: Cartridge,
    /// The color-mode register block.
    pub cgb: CGB,
    /// Work RAM.
    pub wram: Vec<u8>,
    /// High RAM.
    pub hram: Vec<u8>,
    /// The serial port.
    pub serial: Serial,
    /// The input latch.
    pub gamepad: GamePad,
    /// The timer.
    pub timer: Timer,
    /// The picture unit.
    pub ppu: PPU,
    /// 0xFF0F: the interrupt flag register.
    pub int_flag: u8,
    /// 0xFFFF: the interrupt enable register.
    pub int_enable: u8,
}

impl MMU {
    /// Well-formedness: the RAM regions have their fixed sizes and every
    /// peripheral is well formed.
    pub open spec fn inv(self) -> bool {
        &&& self.wram@.len() == 32768
        &&& self.hram@.len() == 127
        &&& self.cartridge.inv()
        &&& self.cgb.inv()
        &&& self.gamepad.inv()
        &&& self.ppu.inv()
    }

    /// The selected work RAM bank for the switchable upper half of the
    /// window: bank 1 until color features are unlocked, then the low three
    /// bits of the bank-select register.
    pub open spec fn wram_bank_spec(self) -> int {
        if self.cgb.unlock_flg {
            (self.cgb.svbk & 0x07) as int
        } else {
            1
        }
    }

    /// The work RAM index a bus address in the work RAM window (or its echo)
    /// selects: the lower half of the window is bank 0, the upper half the
    /// selected bank.
    pub open spec fn wram_index(self, addr: u16) -> int {
        let a = (addr & 0x1FFF) as int;
        if a < 0x1000 {
            a
        } else {
            0x1000 * self.wram_bank_spec() + (a - 0x1000)
        }
    }

    /// What a read returns, as a function of the bus state: the routing
    /// table of the address space.
    pub open spec fn read_spec(self, addr: u16) -> u8 {
        if addr < 0x8000 {
            if self.bios.is_boot && addr <= 0xFF {
                self.bios.read_spec(addr)
            } else {
                self.cartridge.read_spec(addr)
            }
        } else if addr < 0xA000 {
            self.ppu.read_spec(addr)
        } else if addr < 0xC000 {
            self.cartridge.read_spec(addr)
        } else if addr < 0xFE00 {
            self.wram@[self.wram_index(addr)]
        } else if addr < 0xFEA0 {
            self.ppu.read_spec(addr)
        } else if addr == 0xFF00 {
            self.gamepad.read_spec(addr)
        } else if 0xFF01 <= addr <= 0xFF02 {
            self.serial.read_spec(addr)
        } else if 0xFF04 <= addr <= 0xFF07 {
            self.timer.read_spec(addr)
        } else if addr == 0xFF0F {
            self.int_flag
        } else if (0xFF40 <= addr <= 0xFF45) || (0xFF47 <= addr <= 0xFF4B) {
            self.ppu.read_spec(addr)
        } else if 0xFF4D <= addr <= 0xFF77 {
            self.cgb.read_spec(addr)
        } else if 0xFF80 <= addr <= 0xFFFE {
            self.hram@[(addr & 0x7F) as int]
        } else if addr == 0xFFFF {
            self.int_enable
        } else {
            0xFF
        }
    }

    /// Whether a bus address is RAM-mapped and currently writable: work RAM
    /// and its echo, high RAM, VRAM outside pixel transfer, and OAM during
    /// H-blank or V-blank.  Writing such an address stores the byte that a
    /// read then returns.
    pub open spec fn ram_mapped(self, addr: u16) -> bool {
        ||| (0xC000 <= addr < 0xFE00)
        ||| (0xFF80 <= addr < 0xFFFF)
        ||| (0x8000 <= addr < 0xA000 && self.ppu.mode_spec() != 3)
        ||| (0xFE00 <= addr < 0xFEA0 && (self.ppu.mode_spec() == 0 || self.ppu.mode_spec() == 1))
    }
}

/// What one routed write does to the bus: the RAM regions and the two
/// interrupt registers are stored exactly, the banking latches and timer,
/// pad, serial and picture registers take their documented effect through
/// the owning peripheral, and every component outside the written window is
/// unchanged.  Writing a RAM-mapped address stores the byte a read then
/// returns.
pub open spec fn write_effect(pre: MMU, post: MMU, addr: u16, val: u8) -> bool {
    &&& post.bios == pre.bios
    &&& post.int_flag == (if addr == 0xFF0F {
        val
    } else {
        pre.int_flag
    })
    &&& post.int_enable == (if addr == 0xFFFF {
        val
    } else {
        pre.int_enable
    })
    &&& post.wram@ == (if 0xC000 <= addr < 0xFE00 {
        pre.wram@.update(pre.wram_index(addr), val)
    } else {
        pre.wram@
    })
    &&& post.hram@ == (if 0xFF80 <= addr < 0xFFFF {
        pre.hram@.update((addr & 0x7F) as int, val)
    } else {
        pre.hram@
    })
    &&& (!(addr < 0x8000 || (0xA000 <= addr < 0xC000)) ==> post.cartridge == pre.cartridge)
    &&& post.cartridge.rom@ == pre.cartridge.rom@
    &&& post.cartridge.num_rom_banks == pre.cartridge.num_rom_banks
    &&& post.cartridge.mbc_type == pre.cartridge.mbc_type
    &&& post.cartridge.cgb_flg == pre.cartridge.cgb_flg
    &&& post.cartridge.ram_enable == (if addr < 0x2000 {
        val & 0x0F == 0x0A
    } else {
        pre.cartridge.ram_enable
    })
    &&& post.cartridge.bank_no_lower == (if 0x2000 <= addr < 0x4000 {
        val & 0x1F
    } else {
        pre.cartridge.bank_no_lower
    })
    &&& post.cartridge.bank_no_upper == (if 0x4000 <= addr < 0x6000 {
        val & 0x03
    } else {
        pre.cartridge.bank_no_upper
    })
    &&& post.cartridge.mode == (if 0x6000 <= addr < 0x8000 {
        val & 0x01 > 0
    } else {
        pre.cartridge.mode
    })
    &&& post.cartridge.ram@ == (if 0xA000 <= addr < 0xC000 && pre.cartridge.ram_enable
        && pre.cartridge.ram_index_spec(addr) < pre.cartridge.ram@.len() {
        pre.cartridge.ram@.update(pre.cartridge.ram_index_spec(addr), val)
    } else {
        pre.cartridge.ram@
    })
    &&& (!((0x8000 <= addr < 0xA000) || (0xFE00 <= addr < 0xFEA0) || (0xFF40 <= addr <= 0xFF4B
        && addr != 0xFF46)) ==> post.ppu == pre.ppu)
    &&& (0x8000 <= addr < 0xA000 && pre.ppu.mode_spec() != 3 ==> post.ppu.vram@
        == pre.ppu.vram@.update(pre.ppu.vram_index(addr), val))
    &&& (!(0x8000 <= addr < 0xA000 && pre.ppu.mode_spec() != 3) ==> post.ppu.vram
        == pre.ppu.vram)
    &&& (0xFE00 <= addr < 0xFEA0 && (pre.ppu.mode_spec() == 0 || pre.ppu.mode_spec() == 1)
        ==> post.ppu.oam@ == pre.ppu.oam@.update(addr - 0xFE00, val))
    &&& (!(0xFE00 <= addr < 0xFEA0 && (pre.ppu.mode_spec() == 0 || pre.ppu.mode_spec() == 1))
        ==> post.ppu.oam == pre.ppu.oam)
    &&& post.ppu.frame_buffer@ == pre.ppu.frame_buffer@
    &&& post.ppu.irq_vblank == pre.ppu.irq_vblank
    &&& (!(0xFF40 <= addr <= 0xFF4B) ==> post.ppu == (PPU {
        vram: post.ppu.vram,
        oam: post.ppu.oam,
        ..pre.ppu
    }))
    &&& (addr != 0xFF00 ==> post.gamepad == pre.gamepad)
    &&& (addr == 0xFF00 ==> post.gamepad.key == ((pre.gamepad.key & 0xCF) | (val & 0x30))
        && post.gamepad.key_state == pre.gamepad.key_state && post.gamepad.irq == pre.gamepad.irq)
    &&& (!(0xFF01 <= addr <= 0xFF02) ==> post.serial == pre.serial)
    &&& (addr == 0xFF01 ==> post.serial == (Serial { sb: val, ..pre.serial }))
    &&& (addr == 0xFF02 ==> post.serial == (Serial { sc: val, ..pre.serial }))
    &&& (!(0xFF04 <= addr <= 0xFF07) ==> post.timer == pre.timer)
    &&& post.timer.irq == pre.timer.irq
    &&& post.timer.cnt == (if addr == 0xFF04 {
        0u16
    } else {
        pre.timer.cnt
    })
    &&& post.timer.tima == (if addr == 0xFF05 {
        val
    } else {
        pre.timer.tima
    })
    &&& post.timer.tma == (if addr == 0xFF06 {
        val
    } else {
        pre.timer.tma
    })
    &&& post.timer.tac == (if addr == 0xFF07 {
        val & 0x7
    } else {
        pre.timer.tac
    })
    &&& (!(0xFF4D <= addr <= 0xFF77) ==> post.cgb == pre.cgb)
    &&& (addr == 0xFF4F ==> post.cgb.vbk == val)
    &&& (addr == 0xFF70 ==> post.cgb.svbk == val)
    &&& (ram_mapped_write_read_back(pre, post, addr, val))
}

/// The round-trip clause of a routed write: a RAM-mapped store reads back.
pub open spec fn ram_mapped_write_read_back(pre: MMU, post: MMU, addr: u16, val: u8) -> bool {
    pre.ram_mapped(addr) ==> post.read_spec(addr) == val
}

/// The bus after a routed read: only the boot latch can change, and it
/// clears exactly on the first read past the boot region.
pub open spec fn after_read(pre: MMU, addr: u16) -> MMU {
    MMU {
        bios: BIOS {
            bios: pre.bios.bios,
            is_boot: pre.bios.is_boot && !(0x0100 <= addr < 0x8000),
        },
        ..pre
    }
}

/// What the state change of a routed read is.
pub open spec fn read_effect(pre: MMU, post: MMU, addr: u16) -> bool {
    post == after_read(pre, addr)
}

/// The bus after a 16-bit read: two routed reads at `addr` and the address
/// after it.
pub open spec fn after_read16(pre: MMU, addr: u16) -> MMU {
    after_read(after_read(pre, addr), addr.wrapping_add(1))
}

/// What one 16-bit bus read returns: the low byte at `addr`, the high byte
/// at the following address, each read through the routing table in order.
pub open spec fn read16_spec(pre: MMU, addr: u16) -> u16 {
    let lo = pre.read_spec(addr);
    let hi = after_read(pre, addr).read_spec(addr.wrapping_add(1));
    ((hi as u16) << 8) | (lo as u16)
}

/// The destination address of a VRAM DMA transfer, from its register pair.
pub open spec fn vram_dma_dst(pre: MMU) -> u16 {
    ((pre.cgb.hdma3 as u16) << 8) | (pre.cgb.hdma4 as u16)
}

/// The all-ones envelope mask over a VRAM DMA transfer's byte index: 16
/// bytes in H-blank mode (bit 7 of the written value set), up to 2048 in
/// general-purpose mode.
pub open spec fn vram_dma_mask(val: u8) -> u16 {
    if val & 0x80 != 0 {
        0x0F
    } else {
        0x7FF
    }
}

/// What storing `val` to the VRAM DMA start register does: the transfer
/// copies through the bus routing and is marked complete, and its stores are
/// confined to the destination envelope `[dst, dst | mask]` — every
/// component none of whose addresses lie in that envelope is unchanged.  The
/// ROM, the boot image, the frame buffer and the pending V-blank request are
/// never touched, and the boot latch can only clear.  (The transfer is
/// instantaneous; per-block H-blank pacing is not modelled.)
pub open spec fn vram_dma_effect(pre: MMU, post: MMU, val: u8) -> bool {
    let lo = vram_dma_dst(pre);
    let hi = vram_dma_dst(pre) | vram_dma_mask(val);
    &&& post.cgb.hdma5 == 0xFF
    &&& post.bios.bios == pre.bios.bios
    &&& (post.bios.is_boot ==> pre.bios.is_boot)
    &&& post.cartridge.rom@ == pre.cartridge.rom@
    &&& post.cartridge.num_rom_banks == pre.cartridge.num_rom_banks
    &&& post.cartridge.mbc_type == pre.cartridge.mbc_type
    &&& post.cartridge.cgb_flg == pre.cartridge.cgb_flg
    &&& post.ppu.frame_buffer@ == pre.ppu.frame_buffer@
    &&& post.ppu.irq_vblank == pre.ppu.irq_vblank
    &&& (lo > 0x7FFF && (hi < 0xA000 || lo > 0xBFFF) ==> post.cartridge == pre.cartridge)
    &&& ((hi < 0x8000 || lo > 0x9FFF) && (hi < 0xFE00 || lo > 0xFE9F) && (hi < 0xFF40 || lo
        > 0xFF4B) ==> post.ppu == pre.ppu)
    &&& (hi < 0xC000 || lo > 0xFDFF ==> post.wram@ == pre.wram@)
    &&& (hi < 0xFF80 || lo > 0xFFFE ==> post.hram@ == pre.hram@)
    &&& (hi < 0xFF0F || lo > 0xFF0F ==> post.int_flag == pre.int_flag)
    &&& (hi < 0xFFFF ==> post.int_enable == pre.int_enable)
    &&& (hi < 0xFF04 || lo > 0xFF07 ==> post.timer == pre.timer)
    &&& (hi < 0xFF00 || lo > 0xFF00 ==> post.gamepad == pre.gamepad)
    &&& (hi < 0xFF01 || lo > 0xFF02 ==> post.serial == pre.serial)
    &&& (hi < 0xFF4D || lo > 0xFF77 ==> post.cgb == (CGB { hdma5: 0xFF, ..pre.cgb }))
}

/// Every written address of a VRAM DMA transfer lies in the destination
/// envelope: bitwise-oring an index bounded by an all-ones mask moves the
/// address only up, and at most to the fully-ored end.
proof fn lemma_or_envelope(d: u16, i: u16, m: u16)
    requires
        i <= m,
        m == 0x0F || m == 0x7FF,
    ensures
        d <= (d | i),
        (d | i) <= (d | m),
{
    assert((m == 0x0F || m == 0x7FF) && i <= m ==> d <= (d | i) && (d | i) <= (d | m))
        by (bit_vector);
}

/// What one routed write does, whatever the address: a store to the OAM DMA
/// trigger runs the OAM DMA transfer, a store to the VRAM DMA start register
/// runs that transfer and marks it complete, and every other store takes the
/// plain routed effect.
pub open spec fn bus_write_effect(pre: MMU, post: MMU, addr: u16, val: u8) -> bool {
    if addr == 0xFF46 {
        oam_dma_effect(pre, post, val)
    } else if addr == 0xFF55 {
        vram_dma_effect(pre, post, val)
    } else {
        write_effect(pre, post, addr, val)
    }
}

/// What two consecutive routed writes (low byte at `addr`, high byte at the
/// following address) do to the bus.
pub open spec fn write16_effect(pre: MMU, post: MMU, addr: u16, val: u16) -> bool {
    exists|mid: MMU|
        #[trigger] bus_write_effect(pre, mid, addr, (val & 0xFF) as u8) && bus_write_effect(
            mid,
            post,
            addr.wrapping_add(1),
            (val >> 8) as u8,
        )
}

/// The picture unit as the bus presents it to a clock update, with the
/// color-mode fields mirrored from the register block.
pub open spec fn mirrored_ppu(pre: MMU) -> PPU {
    PPU {
        cgb_mode: pre.cgb.cgb_mode,
        cgb_unlock_flg: pre.cgb.unlock_flg,
        vram_bank: pre.cgb.vbk,
        ..pre.ppu
    }
}

/// What one clock update does to the bus: every peripheral advances by
/// `tick` cycles in the fixed order, each one-shot interrupt request raised
/// by a peripheral is collected into its interrupt-flag bit and cleared, and
/// nothing else changes.
pub open spec fn update_effect(pre: MMU, post: MMU, tick: u8) -> bool {
    let p = mirrored_ppu(pre);
    &&& post.bios == pre.bios
    &&& post.cartridge == pre.cartridge
    &&& post.cgb == pre.cgb
    &&& post.wram@ == pre.wram@
    &&& post.hram@ == pre.hram@
    &&& post.int_enable == pre.int_enable
    &&& post.gamepad == (GamePad { irq: false, ..pre.gamepad })
    &&& post.serial.sb == pre.serial.sb
    &&& post.serial.sc == pre.serial.sc
    &&& post.serial.tick == pre.serial.tick
    &&& !post.serial.irq
    &&& post.serial.is_start_req == (pre.serial.sc & 0x80 != 0)
    &&& post.timer.tma == pre.timer.tma
    &&& post.timer.tac == pre.timer.tac
    &&& post.timer.cnt == pre.timer.cnt.wrapping_add(tick as u16)
    &&& post.timer.tima == crate::timer::tima_after(pre.timer, tick)
    &&& !post.timer.irq
    &&& !post.ppu.irq_vblank
    &&& !post.ppu.irq_lcdc
    &&& post.ppu.cnt == crate::ppu::ppu_cnt_after(p, tick)
    &&& post.ppu.ly == crate::ppu::ppu_ly_after(p, tick)
    &&& post.ppu.stat == crate::ppu::ppu_stat_after(p, tick)
    &&& post.ppu.lcdc == pre.ppu.lcdc
    &&& post.ppu.scy == pre.ppu.scy
    &&& post.ppu.scx == pre.ppu.scx
    &&& post.ppu.lyc == pre.ppu.lyc
    &&& post.ppu.dma == pre.ppu.dma
    &&& post.ppu.bgp == pre.ppu.bgp
    &&& post.ppu.obp0 == pre.ppu.obp0
    &&& post.ppu.obp1 == pre.ppu.obp1
    &&& post.ppu.wy == pre.ppu.wy
    &&& post.ppu.wx == pre.ppu.wx
    &&& post.ppu.cgb_mode == pre.cgb.cgb_mode
    &&& post.ppu.cgb_unlock_flg == pre.cgb.unlock_flg
    &&& post.ppu.vram_bank == pre.cgb.vbk
    &&& post.ppu.vram@ == pre.ppu.vram@
    &&& post.ppu.oam@ == pre.ppu.oam@
    &&& (forall|i: int|
        0 <= i < 23040 && !(pre.ppu.ly * 160 <= i < pre.ppu.ly * 160 + 160)
            ==> post.ppu.frame_buffer@[i] == pre.ppu.frame_buffer@[i])
    &&& (crate::ppu::ppu_steps(p, tick) && p.stat & 0x03 == 2 ==> ({
        let mid = PPU {
            stat: (p.stat & 0xF8) | 3,
            cnt: crate::ppu::ppu_cnt_after(p, tick),
            ..p
        };
        &&& post.ppu.scanline@ == crate::ppu::composed_scanline(mid)
        &&& (forall|i: int|
            0 <= i < 160 ==> post.ppu.frame_buffer@[p.ly * 160 + i] == post.ppu.scanline@[i])
    }))
    &&& post.int_flag == ({
        let f0 = pre.int_flag;
        let f1 = if crate::ppu::ppu_vblank_after(p, tick) {
            f0 | 0x01
        } else {
            f0
        };
        let f2 = if crate::ppu::ppu_lcdc_irq_after(p, tick) {
            f1 | 0x02
        } else {
            f1
        };
        let f3 = if crate::timer::timer_irq_after(pre.timer, tick) {
            f2 | 0x04
        } else {
            f2
        };
        let f4 = if pre.serial.irq || pre.serial.sc & 0x80 != 0 {
            f3 | 0x08
        } else {
            f3
        };
        if pre.gamepad.irq {
            f4 | 0x10
        } else {
            f4
        }
    })
}

impl MMU {
    /// A bus at power-on, wrapping a boot code image and a cartridge image.
    /// Loading validates the cartridge header; a rejected image aborts
    /// construction with its load error and no partial state.
    pub fn new(bios: Vec<u8>, rom: Vec<u8>) -> (r: Result<MMU, LoadError>)
        ensures
            r is Ok <==> crate::cartridge::load_check(rom@) is None,
            r matches Err(e) ==> crate::cartridge::load_check(rom@) == Some(e),
            r matches Ok(m) ==> ({
                &&& m.inv()
                &&& m.bios.bios@ == bios@
                &&& m.bios.is_boot
                &&& m.cartridge.rom@ == rom@
                &&& !m.cartridge.ram_enable
                &&& m.cartridge.bank_no_lower == 0
                &&& m.cartridge.bank_no_upper == 0
                &&& !m.cartridge.mode
                &&& m.wram@ == Seq::<u8>::new(32768, |i: int| 0u8)
                &&& m.hram@ == Seq::<u8>::new(127, |i: int| 0u8)
                &&& m.int_flag == 0
                &&& m.int_enable == 0
                &&& m.ppu.lcdc == 0x80
                &&& m.ppu.stat == 0x02
                &&& m.ppu.ly == 0
                &&& m.ppu.cnt == 0
                &&& !m.ppu.irq_vblank
                &&& !m.ppu.irq_lcdc
                &&& m.timer == (Timer { tima: 0, tma: 0, tac: 0, cnt: 0, irq: false })
                &&& m.gamepad.key == 0xFF
                &&& m.gamepad.key_state == 0xFF
                &&& !m.gamepad.irq
                &&& !m.serial.irq
                &&& !m.cgb.unlock_flg
            }),
    {
        let cartridge = match Cartridge::new(rom) {
            Ok(c) => c,
            Err(e) => {
                return Err(e);
            },
        };

        Ok(
            MMU {
                bios: BIOS::new(bios),
                cartridge,
                cgb: CGB::new(),
                wram: crate::common::filled_vec::<u8>(WRAM_SIZE, 0),
                hram: crate::common::filled_vec::<u8>(HRAM_SIZE, 0),
                serial: Serial::new(),
                gamepad: GamePad::new(),
                ppu: PPU::new(),
                timer: Timer::new(),
                int_flag: 0,
                int_enable: 0,
            },
        )
    }

    /// The work RAM index selected by a bus address in the work RAM window
    /// or its echo.
    fn wram_idx(&self, addr: u16) -> (i: usize)
        requires
            0xC000 <= addr < 0xFE00,
        ensures
            i == self.wram_index(addr),
            i < 32768,
    {
        let a = (addr & 0x1FFF) as usize;
        proof {
            assert(addr & 0x1FFF < 0x2000) by (bit_vector);
        }
        if a < 0x1000 {
            a
        } else {
            let bank: usize = if self.cgb.unlock_flg {
                let s = self.cgb.svbk;
                proof {
                    assert(s & 0x07 <= 7) by (bit_vector);
                }
                (s & 0x07) as usize
            } else {
                1
            };
            WRAM_BANK_SIZE * bank + (a - 0x1000)
        }
    }

    /// A routed write that never starts a DMA transfer: the write surface of
    /// the routing table.  The DMA loops store through this, so a transfer
    /// whose destination lands on a DMA trigger register only stores the
    /// byte.
    fn write_raw(&mut self, addr: u16, val: u8)
        requires
            old(self).inv(),
        ensures
            final(self).inv(),
            write_effect(*old(self), *final(self), addr, val),
    {
        match addr {
            0x0000..=0x7FFF => self.cartridge.write(addr, val),
            0x8000..=0x9FFF => self.ppu.write(addr, val),
            0xA000..=0xBFFF => self.cartridge.write(addr, val),
            0xC000..=0xFDFF => {
                let i = self.wram_idx(addr);
                self.wram[i] = val;
            },
            0xFE00..=0xFE9F => self.ppu.write(addr, val),
            0xFF00 => self.gamepad.write(addr, val),
            0xFF01..=0xFF02 => self.serial.write(addr, val),
            0xFF04..=0xFF07 => self.timer.write(addr, val),
            0xFF0F => self.int_flag = val,
            0xFF40..=0xFF45 | 0xFF47..=0xFF4B => self.ppu.write(addr, val),
            0xFF4D..=0xFF77 => self.cgb.write(addr, val),
            0xFF80..=0xFFFE => {
                proof {
                    assert(0xFF80 <= addr <= 0xFFFE ==> addr & 0x7F < 127) by (bit_vector);
                }
                let i = (addr & 0x7F) as usize;
                self.hram[i] = val;
            },
            0xFFFF => self.int_enable = val,
            _ => (),
        }
    }

    /// A routed write.  Storing to the OAM DMA trigger copies 160 bytes from
    /// the written source page into OAM through the bus; storing to the VRAM
    /// DMA start register runs the VRAM DMA transfer.  Every other address
    /// takes the plain routed effect.
    pub fn write(&mut self, addr: u16, val: u8)
        requires
            old(self).inv(),
        ensures
            final(self).inv(),
            bus_write_effect(*old(self), *final(self), addr, val),
    {
        match addr {
            0xFF46 => self.oam_dma_start(val),
            0xFF55 => {
                self.cgb.write(addr, val);
                proof {
                    assert(self.cgb == (CGB { hdma5: val, ..old(self).cgb }));
                }
                let ghost mid = *self;
                self.cgb_dma_start();
                proof {
                    assert(mid == (MMU { cgb: mid.cgb, ..*old(self) }));
                    assert(vram_dma_effect(mid, *self, val));
                }
            },
            _ => self.write_raw(addr, val),
        }
    }

    /// A routed read.  Reading never changes bus state, except that the
    /// first read past the boot region disables the boot code mapping.
    pub fn read(&mut self, addr: u16) -> (r: u8)
        requires
            old(self).inv(),
        ensures
            final(self).inv(),
            r == old(self).read_spec(addr),
            read_effect(*old(self), *final(self), addr),
    {
        match addr {
            0x0000..=0x7FFF => {
                if self.bios.is_boot {
                    if addr > 0x00FF {
                        self.bios.is_boot = false;
                        self.cartridge.read(addr)
                    } else {
                        self.bios.read(addr)
                    }
                } else {
                    self.cartridge.read(addr)
                }
            },
            0x8000..=0x9FFF => self.ppu.read(addr),
            0xA000..=0xBFFF => self.cartridge.read(addr),
            0xC000..=0xFDFF => {
                let i = self.wram_idx(addr);
                self.wram[i]
            },
            0xFE00..=0xFE9F => self.ppu.read(addr),
            0xFF00 => self.gamepad.read(addr),
            0xFF01..=0xFF02 => self.serial.read(addr),
            0xFF04..=0xFF07 => self.timer.read(addr),
            0xFF0F => self.int_flag,
            0xFF40..=0xFF45 | 0xFF47..=0xFF4B => self.ppu.read(addr),
            0xFF4D..=0xFF77 => self.cgb.read(addr),
            0xFF80..=0xFFFE => {
                proof {
                    assert(0xFF80 <= addr <= 0xFFFE ==> addr & 0x7F < 127) by (bit_vector);
                }
                let i = (addr & 0x7F) as usize;
                self.hram[i]
            },
            0xFFFF => self.int_enable,
            _ => 0xFF,
        }
    }

    /// Advances every peripheral by `tick` cycles in the fixed order, then
    /// collects the one-shot interrupt requests into the interrupt flag
    /// register.
    pub fn update(&mut self, tick: u8)
        requires
            old(self).inv(),
        ensures
            final(self).inv(),
            update_effect(*old(self), *final(self), tick),
    {
        self.ppu.cgb_mode = self.cgb.cgb_mode;
        self.ppu.cgb_unlock_flg = self.cgb.unlock_flg;
        self.ppu.vram_bank = self.cgb.vbk;

        self.bios.update(tick);
        self.cgb.update(tick);
        self.cartridge.update(tick);
        self.ppu.update(tick);
        self.timer.update(tick);
        self.gamepad.update(tick);
        self.serial.update(tick);

        self.irq_poll();
    }

    /// Collects each peripheral's one-shot interrupt request into its bit of
    /// the interrupt flag register, clearing the peripheral's own flag:
    /// bit 0 V-blank, bit 1 LCD-STAT, bit 2 timer, bit 3 serial, bit 4 input.
    fn irq_poll(&mut self)
        ensures
            final(self).int_flag == ({
                let f0 = old(self).int_flag;
                let f1 = if old(self).ppu.irq_vblank {
                    f0 | 0x01
                } else {
                    f0
                };
                let f2 = if old(self).ppu.irq_lcdc {
                    f1 | 0x02
                } else {
                    f1
                };
                let f3 = if old(self).timer.irq {
                    f2 | 0x04
                } else {
                    f2
                };
                let f4 = if old(self).serial.irq {
                    f3 | 0x08
                } else {
                    f3
                };
                if old(self).gamepad.irq {
                    f4 | 0x10
                } else {
                    f4
                }
            }),
            !final(self).ppu.irq_vblank,
            !final(self).ppu.irq_lcdc,
            !final(self).timer.irq,
            !final(self).serial.irq,
            !final(self).gamepad.irq,
            final(self).ppu == (PPU { irq_vblank: false, irq_lcdc: false, ..old(self).ppu }),
            final(self).timer == (Timer { irq: false, ..old(self).timer }),
            final(self).serial == (Serial { irq: false, ..old(self).serial }),
            final(self).gamepad == (GamePad { irq: false, ..old(self).gamepad }),
            final(self).bios == old(self).bios,
            final(self).cartridge == old(self).cartridge,
            final(self).cgb == old(self).cgb,
            final(self).wram@ == old(self).wram@,
            final(self).hram@ == old(self).hram@,
            final(self).int_enable == old(self).int_enable,
    {
        if self.ppu.irq_vblank {
            self.int_flag = self.int_flag | 0x01;
            self.ppu.irq_vblank = false;
        }

        if self.ppu.irq_lcdc {
            self.int_flag = self.int_flag | 0x02;
            self.ppu.irq_lcdc = false;
        }

        if self.timer.irq {
            self.int_flag = self.int_flag | 0x04;
            self.timer.irq = false;
        }

        if self.serial.irq {
            self.int_flag = self.int_flag | 0x08;
            self.serial.irq = false;
        }

        if self.gamepad.irq {
            self.int_flag = self.int_flag | 0x10;
            self.gamepad.irq = false;
        }
    }

    /// Runs a VRAM DMA transfer through the bus: 16 bytes in H-blank mode,
    /// the programmed length in general-purpose mode, copied instantaneously
    /// (per-block H-blank pacing is not modelled), then marks the transfer
    /// complete.
    pub fn cgb_dma_start(&mut self)
        requires
            old(self).inv(),
        ensures
            final(self).inv(),
            vram_dma_effect(*old(self), *final(self), old(self).cgb.hdma5),
    {
        let src_addr: u16 = ((self.cgb.hdma1 as u16) << 8) | self.cgb.hdma2 as u16;
        let dst_addr: u16 = ((self.cgb.hdma3 as u16) << 8) | self.cgb.hdma4 as u16;

        let dma_len: u16 = if (self.cgb.hdma5 & 0x80) != 0 {
            0x10
        } else {
            self.cgb.get_dma_len()
        };

        let ghost mask = vram_dma_mask(old(self).cgb.hdma5);
        let ghost lo = vram_dma_dst(*old(self));
        let ghost hi = vram_dma_dst(*old(self)) | mask;

        let mut i: u16 = 0;
        while i < dma_len
            invariant
                old(self).inv(),
                self.inv(),
                src_addr == ((old(self).cgb.hdma1 as u16) << 8) | (old(self).cgb.hdma2 as u16),
                dst_addr == vram_dma_dst(*old(self)),
                mask == vram_dma_mask(old(self).cgb.hdma5),
                lo == vram_dma_dst(*old(self)),
                hi == (vram_dma_dst(*old(self)) | mask),
                dma_len <= mask + 1,
                self.bios.bios == old(self).bios.bios,
                self.bios.is_boot ==> old(self).bios.is_boot,
                self.cartridge.rom@ == old(self).cartridge.rom@,
                self.cartridge.num_rom_banks == old(self).cartridge.num_rom_banks,
                self.cartridge.mbc_type == old(self).cartridge.mbc_type,
                self.cartridge.cgb_flg == old(self).cartridge.cgb_flg,
                self.ppu.frame_buffer@ == old(self).ppu.frame_buffer@,
                self.ppu.irq_vblank == old(self).ppu.irq_vblank,
                lo > 0x7FFF && (hi < 0xA000 || lo > 0xBFFF) ==> self.cartridge == old(
                    self,
                ).cartridge,
                (hi < 0x8000 || lo > 0x9FFF) && (hi < 0xFE00 || lo > 0xFE9F) && (hi < 0xFF40 || lo
                    > 0xFF4B) ==> self.ppu == old(self).ppu,
                hi < 0xC000 || lo > 0xFDFF ==> self.wram@ == old(self).wram@,
                hi < 0xFF80 || lo > 0xFFFE ==> self.hram@ == old(self).hram@,
                hi < 0xFF0F || lo > 0xFF0F ==> self.int_flag == old(self).int_flag,
                hi < 0xFFFF ==> self.int_enable == old(self).int_enable,
                hi < 0xFF04 || lo > 0xFF07 ==> self.timer == old(self).timer,
                hi < 0xFF00 || lo > 0xFF00 ==> self.gamepad == old(self).gamepad,
                hi < 0xFF01 || lo > 0xFF02 ==> self.serial == old(self).serial,
                hi < 0xFF4D || lo > 0xFF77 ==> self.cgb == old(self).cgb,
            decreases dma_len - i,
        {
            proof {
                lemma_or_envelope(dst_addr, i, mask);
            }
            let tmp = self.read(src_addr | i);
            self.write_raw(dst_addr | i, tmp);
            i = i + 1;
        }

        self.cgb.hdma5 = 0xFF;
    }

    /// Runs the OAM DMA transfer: copies 160 bytes from the written source
    /// page into OAM through the bus, so the source is read through the same
    /// routing as any CPU access.  A source page outside the RAM and
    /// cartridge range (0x80-0xDF) is rejected and the write is dropped.
    pub fn oam_dma_start(&mut self, val: u8)
        requires
            old(self).inv(),
        ensures
            final(self).inv(),
            oam_dma_effect(*old(self), *final(self), val),
    {
        if val < 0x80 || 0xDF < val {
            return ;
        }

        let src_base: u16 = (val as u16) * 256;

        let mut i: u16 = 0;
        while i < 160
            invariant
                old(self).inv(),
                self.inv(),
                0x80 <= val <= 0xDF,
                src_base == val * 256,
                i <= 160,
                eq_except_oam(*old(self), *self),
                self.ppu.oam@.len() == 160,
                forall|j: int| i <= j < 160 ==> self.ppu.oam@[j] == old(self).ppu.oam@[j],
                (old(self).ppu.mode_spec() == 0 || old(self).ppu.mode_spec() == 1) ==> (forall|j: int|
                    0 <= j < i ==> self.ppu.oam@[j] == old(self).read_spec((val * 256 + j) as u16)),
                !(old(self).ppu.mode_spec() == 0 || old(self).ppu.mode_spec() == 1)
                    ==> self.ppu.oam@ == old(self).ppu.oam@,
            decreases 160 - i,
        {
            let tmp = self.read(src_base + i);
            self.write_raw(0xFE00 + i, tmp);
            i = i + 1;
        }
        proof {
            if old(self).ppu.mode_spec() == 0 || old(self).ppu.mode_spec() == 1 {
                assert(self.ppu.oam@ =~= Seq::<u8>::new(
                    160,
                    |j: int| old(self).read_spec((val * 256 + j) as u16),
                ));
            }
        }
    }
}

/// Everything on the bus except the contents of OAM is unchanged.
pub open spec fn eq_except_oam(pre: MMU, post: MMU) -> bool {
    &&& post.bios == pre.bios
    &&& post.cartridge == pre.cartridge
    &&& post.cgb == pre.cgb
    &&& post.wram@ == pre.wram@
    &&& post.hram@ == pre.hram@
    &&& post.serial == pre.serial
    &&& post.gamepad == pre.gamepad
    &&& post.timer == pre.timer
    &&& post.int_flag == pre.int_flag
    &&& post.int_enable == pre.int_enable
    &&& post.ppu == (PPU { oam: post.ppu.oam, ..pre.ppu })
}

/// What the OAM DMA transfer does: with a valid source page and OAM
/// currently writable (H-blank or V-blank), OAM afterwards holds exactly the
/// 160 bytes that the bus read from the source page, and nothing else
/// changes; with OAM blocked the stores are dropped; with an invalid source
/// page nothing happens at all.
pub open spec fn oam_dma_effect(pre: MMU, post: MMU, val: u8) -> bool {
    if val < 0x80 || 0xDF < val {
        post == pre
    } else {
        &&& eq_except_oam(pre, post)
        &&& ((pre.ppu.mode_spec() == 0 || pre.ppu.mode_spec() == 1) ==> post.ppu.oam@ == Seq::<
            u8,
        >::new(160, |j: int| pre.read_spec((val * 256 + j) as u16)))
        &&& (!(pre.ppu.mode_spec() == 0 || pre.ppu.mode_spec() == 1) ==> post.ppu.oam@
            == pre.ppu.oam@)
    }
}

} // verus!
