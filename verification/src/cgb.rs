//! The color-mode register block: speed switch, VRAM and work-RAM bank
//! selects, the VRAM DMA port, and the two color palette tables written
//! through their auto-incrementing index ports.

use vstd::prelude::*;

verus! {

/// Color hardware running a compatible monochrome cartridge.
pub const CGB_MODE_DMG_COMPATI: u8 = 0x80;

/// Color-only cartridge.
pub const CGB_MODE_CGB: u8 = 0xC0;

/// Monochrome operation on color hardware.
pub const CGB_MODE_NON_CGB: u8 = 0xAA;

/// No mode selected yet.
pub const CGB_MODE_NONE: u8 = 0xFF;

/// Entries in each color palette table.
pub const COLOR_PALETTE_SIZE: usize = 64;

pub struct CGB {
    /// 0xFF4D: speed-switch preparation (bit 0 writable).
    pub key_1: u8,
    /// 0xFF4F: VRAM bank select.
    pub vbk: u8,
    /// 0xFF51: VRAM DMA source, high byte.
    pub hdma1: u8,
    /// 0xFF52: VRAM DMA source, low byte.
    pub hdma2: u8,
    /// 0xFF53: VRAM DMA destination, high byte.
    pub hdma3: u8,
    /// 0xFF54: VRAM DMA destination, low byte.
    pub hdma4: u8,
    /// 0xFF55: VRAM DMA length, mode and start.
    pub hdma5: u8,
    /// 0xFF56: infrared port.
    pub rp: u8,
    /// Background palette auto-increment flag (bit 7 of the 0xFF68 port).
    pub bgpi: u8,
    /// Background palette index (bits 5-0 of the 0xFF68 port).
    pub bcps: u8,
    /// 0xFF69: background color palette table.
    pub bg_color_palette: Vec<u8>,
    /// Object palette index (bits 5-0 of the 0xFF6A port).
    pub ocps: u8,
    /// Object palette auto-increment flag (bit 7 of the 0xFF6A port).
    pub obpi: u8,
    /// 0xFF6B: object color palette table.
    pub obj_color_palette: Vec<u8>,
    /// 0xFF6C: object priority mode.
    pub opri: u8,
    /// 0xFF70: work-RAM bank select.
    pub svbk: u8,
    /// 0xFF76: audio digital outputs 1 and 2 (read-only).
    pub pcm12: u8,
    /// 0xFF77: audio digital outputs 3 and 4 (read-only).
    pub pcm34: u8,
    /// Color features unlocked.
    pub unlock_flg: bool,
    /// The selected color mode.
    pub cgb_mode: u8,
}

impl CGB {
    /// Well-formedness: the palette tables hold 64 entries each and the
    /// palette index ports stay inside them.
    pub open spec fn inv(self) -> bool {
        &&& self.bg_color_palette@.len() == 64
        &&& self.obj_color_palette@.len() == 64
        &&& self.bcps < 64
        &&& self.ocps < 64
    }

    /// The register block at power-on: everything clear, no mode selected.
    pub fn new() -> (c: CGB)
        ensures
            c.inv(),
            c.key_1 == 0,
            c.vbk == 0,
            c.hdma1 == 0,
            c.hdma2 == 0,
            c.hdma3 == 0,
            c.hdma4 == 0,
            c.hdma5 == 0,
            c.rp == 0,
            c.bgpi == 0,
            c.bcps == 0,
            c.ocps == 0,
            c.obpi == 0,
            c.opri == 0,
            c.svbk == 0,
            c.pcm12 == 0,
            c.pcm34 == 0,
            !c.unlock_flg,
            c.cgb_mode == CGB_MODE_NONE,
            c.bg_color_palette@ == Seq::<u8>::new(64, |i: int| 0u8),
            c.obj_color_palette@ == Seq::<u8>::new(64, |i: int| 0u8),
    {
        let mut bg: Vec<u8> = Vec::new();
        let mut obj: Vec<u8> = Vec::new();
        let mut i: usize = 0;
        while i < COLOR_PALETTE_SIZE
            invariant
                i <= 64,
                bg@ =~= Seq::<u8>::new(i as nat, |j: int| 0u8),
                obj@ =~= Seq::<u8>::new(i as nat, |j: int| 0u8),
            decreases 64 - i,
        {
            bg.push(0);
            obj.push(0);
            i = i + 1;
        }
        proof {
            assert(bg@ =~= Seq::<u8>::new(64, |i: int| 0u8));
            assert(obj@ =~= Seq::<u8>::new(64, |i: int| 0u8));
        }
        CGB {
            key_1: 0,
            vbk: 0,
            hdma1: 0,
            hdma2: 0,
            hdma3: 0,
            hdma4: 0,
            hdma5: 0,
            rp: 0,
            bcps: 0,
            bgpi: 0,
            bg_color_palette: bg,
            ocps: 0,
            obpi: 0,
            obj_color_palette: obj,
            opri: 0,
            svbk: 0,
            pcm12: 0,
            pcm34: 0,
            unlock_flg: false,
            cgb_mode: CGB_MODE_NONE,
        }
    }

    /// Selects the color mode from the cartridge's compatibility flag and
    /// unlocks the color features.
    pub fn cgb_unlock(&mut self, cgb_flg: u8)
        ensures
            (*final(self)) == (CGB {
                cgb_mode: if cgb_flg == 0x80 {
                    CGB_MODE_DMG_COMPATI
                } else if cgb_flg == 0xC0 {
                    CGB_MODE_CGB
                } else {
                    CGB_MODE_NON_CGB
                },
                unlock_flg: true,
                ..(*old(self))
            }),
    {
        match cgb_flg {
            0x80 => self.cgb_mode = CGB_MODE_DMG_COMPATI,
            0xC0 => self.cgb_mode = CGB_MODE_CGB,
            _ => self.cgb_mode = CGB_MODE_NON_CGB,
        }

        self.unlock_flg = true;
    }

    /// The VRAM DMA transfer length encoded in the low seven bits of the
    /// length register: `(bits + 1) * 16` bytes, 16 to 2048.
    pub fn get_dma_len(&self) -> (len: u16)
        ensures
            len == ((self.hdma5 & 0x7F) + 1) * 16,
            16 <= len <= 2048,
    {
        let h = self.hdma5;
        let dma_len: u8 = h & 0x7F;
        proof {
            assert(h & 0x7F < 128) by (bit_vector);
        }
        (dma_len as u16 + 1) * 16
    }

    /// A write to the color registers at 0xFF4D-0xFF77.  The palette data
    /// ports store into the table at the current index and advance it when
    /// auto-increment is on; a write to an unmapped or read-only register in
    /// the window is dropped.
    pub fn write(&mut self, addr: u16, val: u8)
        requires
            old(self).inv(),
        ensures
            final(self).inv(),
            final(self).key_1 == if addr == 0xFF4D {
                val & 0x01
            } else {
                old(self).key_1
            },
            final(self).vbk == if addr == 0xFF4F {
                val
            } else {
                old(self).vbk
            },
            final(self).hdma1 == if addr == 0xFF51 {
                val
            } else {
                old(self).hdma1
            },
            final(self).hdma2 == if addr == 0xFF52 {
                val
            } else {
                old(self).hdma2
            },
            final(self).hdma3 == if addr == 0xFF53 {
                val
            } else {
                old(self).hdma3
            },
            final(self).hdma4 == if addr == 0xFF54 {
                val
            } else {
                old(self).hdma4
            },
            final(self).hdma5 == if addr == 0xFF55 {
                val
            } else {
                old(self).hdma5
            },
            final(self).rp == if addr == 0xFF56 {
                val
            } else {
                old(self).rp
            },
            final(self).opri == if addr == 0xFF6C {
                val
            } else {
                old(self).opri
            },
            final(self).svbk == if addr == 0xFF70 {
                val
            } else {
                old(self).svbk
            },
            addr == 0xFF68 ==> final(self).bgpi == (val & 0x80) >> 7
                && final(self).bcps == val & 0x3F,
            addr == 0xFF6A ==> final(self).obpi == (val & 0x80) >> 7
                && final(self).ocps == val & 0x3F,
            addr == 0xFF69 ==> final(self).bg_color_palette@
                == old(self).bg_color_palette@.update(old(self).bcps as int, val)
                && final(self).bcps == (if old(self).bgpi != 0 {
                    ((old(self).bcps + 1) as u8) & 0x3F
                } else {
                    old(self).bcps
                }),
            addr == 0xFF6B ==> final(self).obj_color_palette@
                == old(self).obj_color_palette@.update(old(self).ocps as int, val)
                && final(self).ocps == (if old(self).obpi != 0 {
                    ((old(self).ocps + 1) as u8) & 0x3F
                } else {
                    old(self).ocps
                }),
            addr != 0xFF68 && addr != 0xFF69 ==> final(self).bgpi == old(self).bgpi
                && final(self).bcps == old(self).bcps,
            addr != 0xFF6A && addr != 0xFF6B ==> final(self).obpi == old(self).obpi
                && final(self).ocps == old(self).ocps,
            addr != 0xFF69 ==> final(self).bg_color_palette == old(self).bg_color_palette,
            addr != 0xFF6B ==> final(self).obj_color_palette == old(self).obj_color_palette,
            final(self).unlock_flg == old(self).unlock_flg,
            final(self).cgb_mode == old(self).cgb_mode,
            final(self).pcm12 == old(self).pcm12,
            final(self).pcm34 == old(self).pcm34,
    {
        match addr {
            0xFF4D => self.key_1 = val & 0x01,
            0xFF4F => self.vbk = val,
            0xFF51 => self.hdma1 = val,
            0xFF52 => self.hdma2 = val,
            0xFF53 => self.hdma3 = val,
            0xFF54 => self.hdma4 = val,
            0xFF55 => self.hdma5 = val,
            0xFF56 => self.rp = val,
            0xFF68 => {
                self.bgpi = (val & 0x80) >> 7;
                self.bcps = val & 0x3F;
                proof {
                    assert(val & 0x3F < 64) by (bit_vector);
                }
            },
            0xFF69 => {
                let i = self.bcps as usize;
                self.bg_color_palette[i] = val;
                if self.bgpi != 0 {
                    self.bcps = (self.bcps + 1) & 0x3F;
                    proof {
                        let b = old(self).bcps;
                        assert(b < 64 ==> (b + 1) as u8 & 0x3F < 64) by (bit_vector);
                    }
                }
            },
            0xFF6A => {
                self.obpi = (val & 0x80) >> 7;
                self.ocps = val & 0x3F;
                proof {
                    assert(val & 0x3F < 64) by (bit_vector);
                }
            },
            0xFF6B => {
                let i = self.ocps as usize;
                self.obj_color_palette[i] = val;
                if self.obpi != 0 {
                    self.ocps = (self.ocps + 1) & 0x3F;
                    proof {
                        let b = old(self).ocps;
                        assert(b < 64 ==> (b + 1) as u8 & 0x3F < 64) by (bit_vector);
                    }
                }
            },
            0xFF6C => self.opri = val,
            0xFF70 => self.svbk = val,
            _ => (),
        }
    }

    /// A read of the color registers at 0xFF4D-0xFF77; an unmapped or
    /// write-only register in the window reads as 0xFF.
    pub fn read(&self, addr: u16) -> (r: u8)
        requires
            self.inv(),
        ensures
            r == self.read_spec(addr),
    {
        match addr {
            0xFF4D => self.key_1,
            0xFF4F => self.vbk,
            0xFF56 => self.rp,
            0xFF68 => self.bgpi << 7 | self.bcps,
            0xFF69 => self.bg_color_palette[self.bcps as usize],
            0xFF6A => self.obpi << 7 | self.ocps,
            0xFF6B => self.obj_color_palette[self.ocps as usize],
            0xFF6C => self.opri,
            0xFF70 => self.svbk,
            0xFF76 => self.pcm12,
            0xFF77 => self.pcm34,
            _ => 0xFF,
        }
    }

    /// What a read returns, as a function of the register block.
    pub open spec fn read_spec(self, addr: u16) -> u8 {
        if addr == 0xFF4D {
            self.key_1
        } else if addr == 0xFF4F {
            self.vbk
        } else if addr == 0xFF56 {
            self.rp
        } else if addr == 0xFF68 {
            self.bgpi << 7 | self.bcps
        } else if addr == 0xFF69 {
            self.bg_color_palette@[self.bcps as int]
        } else if addr == 0xFF6A {
            self.obpi << 7 | self.ocps
        } else if addr == 0xFF6B {
            self.obj_color_palette@[self.ocps as int]
        } else if addr == 0xFF6C {
            self.opri
        } else if addr == 0xFF70 {
            self.svbk
        } else if addr == 0xFF76 {
            self.pcm12
        } else if addr == 0xFF77 {
            self.pcm34
        } else {
            0xFF
        }
    }

    /// The register block is not clocked: advancing it changes nothing.
    pub fn update(&mut self, tick: u8)
        ensures
            (*final(self)) == (*old(self)),
    {
    }
}

} // verus!
