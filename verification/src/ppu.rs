//! The picture unit: VRAM and OAM storage, the control and status registers,
//! the four-mode scanline timing state machine, and the monochrome scanline
//! renderer composing background, window and sprites into the frame buffer.

use vstd::prelude::*;

verus! {

/// Bytes of VRAM: 8 KiB per bank, two banks in color mode.
pub const VRAM_SIZE: usize = 16384;

/// Bytes of one VRAM bank.
pub const VRAM_BANK_SIZE: usize = 8192;

/// Bytes of object-attribute memory: 40 sprite entries of 4 bytes.
pub const OAM_SIZE: usize = 160;

/// The four monochrome shades, from lightest to darkest.
pub const COLOR_WHITE: u8 = 0xFF;

pub const COLOR_LIGHT_GRAY: u8 = 0xAA;

pub const COLOR_DARK_GRAY: u8 = 0x55;

pub const COLOR_BLACK: u8 = 0x00;

/// A pixel value is one of the four monochrome shades.
pub open spec fn is_shade(v: u8) -> bool {
    v == 0xFF || v == 0xAA || v == 0x55 || v == 0x00
}

/// A 24-bit color, as the display collaborator consumes it.
#[derive(Default, Clone, PartialEq, Eq, Structural, Debug)]
pub struct RGB24Color {
    pub r: u8,
    pub g: u8,
    pub b: u8,
}

/// Whether the background pixel under a sprite came out of palette color 0
/// (sprites always show) or colors 1-3 (a sprite honoring background
/// priority is suppressed).
#[derive(Clone, Copy, PartialEq, Eq, Structural, Debug)]
pub enum BGPriority {
    Color0,
    Color123,
}

/// Widens a 5-bit color channel to 8 bits.
pub open spec fn channel5_to_8(c: u16) -> u8 {
    (((c * 8) as u16) | ((c / 4) as u16)) as u8
}

/// The 24-bit color a packed 15-bit color resolves to.
pub open spec fn rgb555_spec(v: u16) -> RGB24Color {
    RGB24Color {
        r: channel5_to_8(v % 32),
        g: channel5_to_8((v / 32) % 32),
        b: channel5_to_8((v / 1024) % 32),
    }
}

/// The monochrome shade that a 2-bit color number resolves to through a
/// palette register: the palette holds four 2-bit shade indices.
pub open spec fn shade_spec(color_num: u8, palette: u8) -> u8 {
    let idx = (palette >> ((color_num * 2) as u8)) & 0x03;
    if idx == 0 {
        0xFF
    } else if idx == 1 {
        0xAA
    } else if idx == 2 {
        0x55
    } else {
        0x00
    }
}

/// Cycles the timing state machine spends in each mode: OAM search (2),
/// pixel transfer (3), H-blank (0) per scanline, and one V-blank line (1).
pub open spec fn mode_threshold(mode: u8) -> u16 {
    if mode == 2 {
        80
    } else if mode == 3 {
        172
    } else if mode == 0 {
        204
    } else {
        456
    }
}

/// The status register after the coincidence bit is re-derived from the
/// current scanline and the compare register.
pub open spec fn lyc_stat(stat: u8, ly: u8, lyc: u8) -> u8 {
    if ly == lyc {
        stat | 0x04
    } else {
        stat & 0xFB
    }
}

/// The LCD-STAT interrupt request after the coincidence check: raised when
/// the scanline matches the compare register and the coincidence interrupt
/// is enabled.
pub open spec fn lyc_irq(stat: u8, ly: u8, lyc: u8, irq: bool) -> bool {
    irq || (ly == lyc && stat & 0x40 != 0)
}

/// The LCD-STAT interrupt request after a mode change: raised when the
/// status register enables the interrupt for the mode just entered.
pub open spec fn mode_irq(stat: u8, irq: bool) -> bool {
    irq || (stat & 0x03 == 0 && stat & 0x08 != 0) || (stat & 0x03 == 1 && stat & 0x10 != 0) || (
    stat & 0x03 == 2 && stat & 0x20 != 0)
}

/// Whether a clock advance of `tick` cycles crosses the current mode's cycle
/// budget, stepping the timing state machine once.
pub open spec fn ppu_steps(p: PPU, tick: u8) -> bool {
    p.lcdc & 0x80 != 0 && p.cnt.wrapping_add(tick as u16) >= mode_threshold(p.stat & 0x03)
}

/// The mode counter after a clock advance of `tick` cycles.
pub open spec fn ppu_cnt_after(p: PPU, tick: u8) -> u16 {
    if p.lcdc & 0x80 == 0 {
        p.cnt
    } else if ppu_steps(p, tick) {
        (p.cnt.wrapping_add(tick as u16) - mode_threshold(p.stat & 0x03)) as u16
    } else {
        p.cnt.wrapping_add(tick as u16)
    }
}

/// The scanline index after a clock advance of `tick` cycles: it advances at
/// the end of H-blank and of each V-blank line, wrapping to 0 after the last.
pub open spec fn ppu_ly_after(p: PPU, tick: u8) -> u8 {
    if !ppu_steps(p, tick) {
        p.ly
    } else if p.stat & 0x03 == 0 {
        (p.ly + 1) as u8
    } else if p.stat & 0x03 == 1 {
        if p.ly + 1 >= 154 {
            0
        } else {
            (p.ly + 1) as u8
        }
    } else {
        p.ly
    }
}

/// The status register after a clock advance of `tick` cycles: the mode field
/// steps through the four modes, and the coincidence bit is re-derived on
/// every scanline change.
pub open spec fn ppu_stat_after(p: PPU, tick: u8) -> u8 {
    if !ppu_steps(p, tick) {
        p.stat
    } else if p.stat & 0x03 == 2 {
        (p.stat & 0xF8) | 3
    } else if p.stat & 0x03 == 3 {
        p.stat & 0xF8
    } else if p.stat & 0x03 == 0 {
        lyc_stat(
            (p.stat & 0xF8) | (if p.ly + 1 >= 144 {
                1u8
            } else {
                2u8
            }),
            (p.ly + 1) as u8,
            p.lyc,
        )
    } else {
        if p.ly + 1 >= 154 {
            lyc_stat((p.stat & 0xF8) | 2, 0, p.lyc)
        } else {
            lyc_stat(p.stat, (p.ly + 1) as u8, p.lyc)
        }
    }
}

/// The V-blank interrupt request after a clock advance of `tick` cycles: the
/// pending request, or a fresh one when H-blank ends on the last visible
/// scanline.
pub open spec fn ppu_vblank_after(p: PPU, tick: u8) -> bool {
    p.irq_vblank || (ppu_steps(p, tick) && p.stat & 0x03 == 0 && p.ly + 1 >= 144)
}

/// The LCD-STAT interrupt request after a clock advance of `tick` cycles:
/// the pending request, or a fresh one from the mode-change and coincidence
/// conditions of the step taken.
pub open spec fn ppu_lcdc_irq_after(p: PPU, tick: u8) -> bool {
    if !ppu_steps(p, tick) {
        p.irq_lcdc
    } else if p.stat & 0x03 == 2 {
        p.irq_lcdc
    } else if p.stat & 0x03 == 3 {
        mode_irq(p.stat & 0xF8, p.irq_lcdc)
    } else if p.stat & 0x03 == 0 {
        let ly2 = (p.ly + 1) as u8;
        let stat2 = (p.stat & 0xF8) | (if ly2 >= 144 {
            1u8
        } else {
            2u8
        });
        mode_irq(lyc_stat(stat2, ly2, p.lyc), lyc_irq(stat2, ly2, p.lyc, p.irq_lcdc))
    } else {
        let ly2 = (p.ly + 1) as u8;
        if ly2 >= 154 {
            lyc_irq((p.stat & 0xF8) | 2, 0, p.lyc, mode_irq((p.stat & 0xF8) | 2, p.irq_lcdc))
        } else {
            lyc_irq(p.stat, ly2, p.lyc, p.irq_lcdc)
        }
    }
}

pub struct PPU {
    /// VRAM: tile data and tile maps, two banks in color mode.
    pub vram: Vec<u8>,
    /// Object-attribute memory: 40 sprite entries of 4 bytes.
    pub oam: Vec<u8>,
    /// 0xFF40 LCDC: LCD control.
    pub lcdc: u8,
    /// 0xFF41 STAT: status; bits 1-0 are the mode field.
    pub stat: u8,
    /// 0xFF42 SCY: background scroll Y.
    pub scy: u8,
    /// 0xFF43 SCX: background scroll X.
    pub scx: u8,
    /// 0xFF44 LY: current scanline index.
    pub ly: u8,
    /// 0xFF45 LYC: scanline compare.
    pub lyc: u8,
    /// 0xFF46 DMA: last written DMA source page.
    pub dma: u8,
    /// 0xFF47 BGP: background palette.
    pub bgp: u8,
    /// 0xFF48 OBP0: first object palette.
    pub obp0: u8,
    /// 0xFF49 OBP1: second object palette.
    pub obp1: u8,
    /// 0xFF4A WY: window Y position.
    pub wy: u8,
    /// 0xFF4B WX: window X position plus 7.
    pub wx: u8,
    /// One-shot V-blank interrupt request, collected by the bus.
    pub irq_vblank: bool,
    /// One-shot LCD-STAT interrupt request, collected by the bus.
    pub irq_lcdc: bool,
    /// Cycles elapsed in the current mode.
    pub cnt: u16,
    /// Whether each pixel of the current scanline came from background
    /// color 0, for sprite priority.
    pub bg_prio: Vec<BGPriority>,
    /// The monochrome frame buffer, one shade per pixel, row by row.
    pub frame_buffer: Vec<u8>,
    /// The scanline being composed.
    pub scanline: Vec<u8>,
    /// The color frame buffer (packed 15-bit colors), for color mode.
    pub frame_buffer_col: Vec<u16>,
    /// The color scanline scratch buffer.
    pub scanline_col: Vec<u16>,
    /// The color mode selected by the register block.
    pub cgb_mode: u8,
    /// Color features unlocked.
    pub cgb_unlock_flg: bool,
    /// The VRAM bank select mirrored from the register block.
    pub vram_bank: u8,
}

impl PPU {
    /// Well-formedness: the memories and buffers have their fixed sizes, the
    /// scanline index stays on the screen outside V-blank and within the
    /// V-blank lines inside it, and every composed pixel is a shade.
    pub open spec fn inv(self) -> bool {
        &&& self.vram@.len() == 16384
        &&& self.oam@.len() == 160
        &&& self.bg_prio@.len() == 160
        &&& self.frame_buffer@.len() == 23040
        &&& self.scanline@.len() == 160
        &&& self.frame_buffer_col@.len() == 23040
        &&& self.scanline_col@.len() == 160
        &&& self.ly <= 153
        &&& self.stat & 0x03 != 1 ==> self.ly <= 143
        &&& forall|i: int| 0 <= i < 160 ==> is_shade(#[trigger] self.scanline@[i])
        &&& forall|i: int| 0 <= i < 23040 ==> is_shade(#[trigger] self.frame_buffer@[i])
    }

    /// The mode field of the status register.
    pub open spec fn mode_spec(self) -> u8 {
        self.stat & 0x03
    }

    /// A picture unit at power-on: LCD enabled, OAM-search mode, with cleared
    /// memories and an all-black frame buffer.
    pub fn new() -> (p: PPU)
        ensures
            p.inv(),
            p.lcdc == 0x80,
            p.stat == 0x02,
            p.scy == 0 && p.scx == 0 && p.ly == 0 && p.lyc == 0 && p.dma == 0,
            p.bgp == 0 && p.obp0 == 0 && p.obp1 == 0 && p.wy == 0 && p.wx == 0,
            !p.irq_vblank && !p.irq_lcdc,
            p.cnt == 0,
            p.cgb_mode == 0 && !p.cgb_unlock_flg && p.vram_bank == 0,
            p.vram@ == Seq::<u8>::new(16384, |i: int| 0u8),
            p.oam@ == Seq::<u8>::new(160, |i: int| 0u8),
            p.frame_buffer@ == Seq::<u8>::new(23040, |i: int| 0u8),
    {
        PPU {
            vram: crate::common::filled_vec::<u8>(VRAM_SIZE, 0),
            oam: crate::common::filled_vec::<u8>(OAM_SIZE, 0),
            lcdc: 0x80,
            stat: 0x02,
            scy: 0,
            scx: 0,
            ly: 0,
            lyc: 0,
            dma: 0,
            bgp: 0,
            obp0: 0,
            obp1: 0,
            wy: 0,
            wx: 0,
            irq_vblank: false,
            irq_lcdc: false,
            cnt: 0,
            bg_prio: crate::common::filled_vec::<BGPriority>(
                crate::common::SCREEN_W as usize,
                BGPriority::Color0,
            ),
            scanline: crate::common::filled_vec::<u8>(crate::common::SCREEN_W as usize, 0),
            frame_buffer: crate::common::filled_vec::<u8>(crate::common::SCREEN_WH, 0),
            scanline_col: crate::common::filled_vec::<u16>(crate::common::SCREEN_W as usize, 0),
            frame_buffer_col: crate::common::filled_vec::<u16>(crate::common::SCREEN_WH, 0),
            cgb_mode: 0,
            cgb_unlock_flg: false,
            vram_bank: 0,
        }
    }

    /// The monochrome shade selected by a 2-bit color number through a
    /// palette register.
    pub fn map_color(&self, color_num: u8, palette: u8) -> (r: u8)
        requires
            color_num <= 3,
        ensures
            r == shade_spec(color_num, palette),
            is_shade(r),
    {
        match (palette >> (color_num * 2)) & 0x03 {
            0 => COLOR_WHITE,
            1 => COLOR_LIGHT_GRAY,
            2 => COLOR_DARK_GRAY,
            _ => COLOR_BLACK,
        }
    }

    /// The background palette number held in the low bits of a tile's
    /// attribute entry in the selected VRAM bank (a color-mode attribute
    /// lookup, so the bank select applies unconditionally).
    pub fn get_bg_plt_num(&self, addr: u16) -> (r: u8)
        requires
            self.inv(),
            addr < 8192,
        ensures
            r == self.vram@[addr + 8192 * ((self.vram_bank % 2) as int)] & 0x07,
            r <= 7,
    {
        let offset = VRAM_BANK_SIZE * ((self.vram_bank % 2) as usize);
        let b = self.vram[(addr as usize) + offset];
        proof {
            assert(b & 0x07 <= 7) by (bit_vector);
        }
        b & 0x07
    }

    /// Widens a packed 15-bit color to the 24-bit color the display
    /// collaborator consumes: each 5-bit channel is scaled to 8 bits.
    pub fn rgb555_to_rgb24(&self, rgb555: u16) -> (c: RGB24Color)
        ensures
            c == rgb555_spec(rgb555),
    {
        let r5 = rgb555 % 32;
        let g5 = (rgb555 / 32) % 32;
        let b5 = (rgb555 / 1024) % 32;
        RGB24Color {
            r: ((r5 * 8) | (r5 / 4)) as u8,
            g: ((g5 * 8) | (g5 / 4)) as u8,
            b: ((b5 * 8) | (b5 / 4)) as u8,
        }
    }

    /// The byte offset of the selected VRAM bank.
    pub open spec fn vram_off(self) -> int {
        if self.cgb_unlock_flg {
            8192 * ((self.vram_bank % 2) as int)
        } else {
            0
        }
    }

    /// The VRAM offset of the first byte of a tile row: tile data addressing
    /// uses plain tile-number indexing in one mode and signed indexing
    /// relative to the mid-bank anchor 0x1000 in the other.
    pub open spec fn tile_row_addr(tile_no: u8, offset_y: u8, tile_data_sel: bool) -> int {
        (if tile_data_sel || tile_no >= 0x80 {
            16 * (tile_no as int)
        } else {
            0x1000 + 16 * (tile_no as int)
        }) + 2 * offset_y
    }

    /// The two bit-planes of one row of a tile.
    pub open spec fn fetch_tile_spec(self, tile_no: u8, offset_y: u8, tile_data_sel: bool) -> (
        u8,
        u8,
    ) {
        (
            self.vram@[Self::tile_row_addr(tile_no, offset_y, tile_data_sel) + self.vram_off()],
            self.vram@[Self::tile_row_addr(tile_no, offset_y, tile_data_sel) + 1
                + self.vram_off()],
        )
    }

    /// Fetches one row of a tile from the tile data region of the selected
    /// VRAM bank.
    pub fn fetch_tile(&self, tile_no: u8, offset_y: u8, tile_data_sel: bool) -> (tile: (u8, u8))
        requires
            self.inv(),
            offset_y <= 7,
        ensures
            tile == self.fetch_tile_spec(tile_no, offset_y, tile_data_sel),
    {
        let tile_data_addr: u16 = if tile_data_sel || tile_no >= 0x80 {
            16 * (tile_no as u16)
        } else {
            0x1000 + 16 * (tile_no as u16)
        };
        let row_addr = tile_data_addr + 2 * (offset_y as u16);

        let offset: usize = if self.cgb_unlock_flg {
            VRAM_BANK_SIZE * ((self.vram_bank % 2) as usize)
        } else {
            0
        };
        let t0 = self.vram[(row_addr as usize) + offset];
        let t1 = self.vram[(row_addr as usize) + 1 + offset];

        (t0, t1)
    }

    /// The tile map entry for a tile coordinate: 32 tiles per row, the X
    /// coordinate wrapping within the map.
    pub open spec fn tile_map_index(tile_x: u8, tile_y: u8, tile_map_base: u16) -> int {
        tile_map_base + (tile_x % 32) + 32 * (tile_y as int)
    }

    /// The two bit-planes of one row of the background or window tile at a
    /// tile coordinate, through one of the two tile maps.
    pub open spec fn fetch_bg_window_spec(
        self,
        tile_x: u8,
        tile_y: u8,
        offset_y: u8,
        tile_map_base: u16,
    ) -> (u8, u8) {
        self.fetch_tile_spec(
            self.vram@[Self::tile_map_index(tile_x, tile_y, tile_map_base) + self.vram_off()],
            offset_y,
            self.lcdc & 0x10 > 0,
        )
    }

    /// Fetches one row of a background or window tile through the tile map
    /// at `tile_map_base`.
    pub fn fetch_bg_window_tile(&self, tile_x: u8, tile_y: u8, offset_y: u8, tile_map_base: u16)
        -> (tile: (u8, u8))
        requires
            self.inv(),
            offset_y <= 7,
            tile_y <= 31,
            tile_map_base == 0x1800 || tile_map_base == 0x1C00,
        ensures
            tile == self.fetch_bg_window_spec(tile_x, tile_y, offset_y, tile_map_base),
    {
        let tile_map_addr: u16 = tile_map_base + ((tile_x % 32) as u16) + 32 * (tile_y as u16);

        let offset: usize = if self.cgb_unlock_flg {
            VRAM_BANK_SIZE * ((self.vram_bank % 2) as usize)
        } else {
            0
        };
        let tile_no = self.vram[(tile_map_addr as usize) + offset];

        self.fetch_tile(tile_no, offset_y, self.lcdc & 0x10 > 0)
    }

    /// The tile map base selected for the background.
    pub open spec fn bg_map_base(self) -> u16 {
        if self.lcdc & 0x08 > 0 {
            0x1C00
        } else {
            0x1800
        }
    }

    /// The tile map base selected for the window.
    pub open spec fn window_map_base(self) -> u16 {
        if self.lcdc & 0x40 > 0 {
            0x1C00
        } else {
            0x1800
        }
    }

    /// Fetches one row of a background tile.
    pub fn fetch_bg_tile(&self, tile_x: u8, tile_y: u8, offset_y: u8) -> (tile: (u8, u8))
        requires
            self.inv(),
            offset_y <= 7,
            tile_y <= 31,
        ensures
            tile == self.fetch_bg_window_spec(tile_x, tile_y, offset_y, self.bg_map_base()),
    {
        let tile_map_base: u16 = if self.lcdc & 0x8 > 0 {
            0x1C00
        } else {
            0x1800
        };

        self.fetch_bg_window_tile(tile_x, tile_y, offset_y, tile_map_base)
    }

    /// Fetches one row of a window tile.
    pub fn fetch_window_tile(&self, tile_x: u8, tile_y: u8, offset_y: u8) -> (tile: (u8, u8))
        requires
            self.inv(),
            offset_y <= 7,
            tile_y <= 31,
        ensures
            tile == self.fetch_bg_window_spec(tile_x, tile_y, offset_y, self.window_map_base()),
    {
        let tile_map_base: u16 = if self.lcdc & 0x40 > 0 {
            0x1C00
        } else {
            0x1800
        };

        self.fetch_bg_window_tile(tile_x, tile_y, offset_y, tile_map_base)
    }

    /// The 2-bit color number of one pixel of a tile row: the two bit-planes
    /// contribute the low and high bit at the pixel's position.
    pub open spec fn color_num_spec(tile: (u8, u8), bitpos: u8) -> u8 {
        (((tile.1 >> bitpos) & 1) * 2 + ((tile.0 >> bitpos) & 1)) as u8
    }

    /// Extracts the 2-bit color number of one pixel from a tile row.
    pub fn get_color_num(&self, tile: (u8, u8), bitpos: u8) -> (r: u8)
        requires
            bitpos <= 7,
        ensures
            r == Self::color_num_spec(tile, bitpos),
            r <= 3,
    {
        let lo_bit = tile.0 >> bitpos & 1;
        let hi_bit = tile.1 >> bitpos & 1;
        proof {
            let t0 = tile.0;
            let t1 = tile.1;
            let p = bitpos;
            assert((t0 >> p) & 1 <= 1 && (t1 >> p) & 1 <= 1) by (bit_vector);
        }

        hi_bit * 2 + lo_bit
    }

    /// Renders the background (and, once triggered, the window) of the
    /// current scanline into the scanline buffer, recording for each pixel
    /// whether it came from palette color 0.  Each pixel is exactly the
    /// palette shade of the background color number at its column.
    pub fn render_bg(&mut self)
        requires
            old(self).inv(),
            old(self).ly <= 143,
        ensures
            final(self).inv(),
            same_regs(*old(self), *final(self)),
            same_mem(*old(self), *final(self)),
            same_irq(*old(self), *final(self)),
            same_col(*old(self), *final(self)),
            final(self).frame_buffer == old(self).frame_buffer,
            forall|i: int|
                0 <= i < 160 ==> final(self).scanline@[i] == shade_spec(
                    bg_color_num_at(*old(self), i),
                    old(self).bgp,
                ),
            forall|i: int|
                0 <= i < 160 ==> final(self).bg_prio@[i] == (if bg_color_num_at(*old(self), i)
                    == 0 {
                    BGPriority::Color0
                } else {
                    BGPriority::Color123
                }),
    {
        let mut tile_x: u8 = self.scx / 8;
        let mut tile_y: u8 = self.scy.wrapping_add(self.ly) / 8;

        let mut offset_x: u8 = self.scx % 8;
        let mut offset_y: u8 = self.scy.wrapping_add(self.ly) % 8;

        let mut tile = self.fetch_bg_tile(tile_x, tile_y, offset_y);

        let mut window = false;

        let mut x: u8 = 0;
        while x < 160
            invariant
                old(self).inv(),
                old(self).ly <= 143,
                self.inv(),
                same_regs(*old(self), *self),
                same_mem(*old(self), *self),
                same_irq(*old(self), *self),
                same_col(*old(self), *self),
                self.frame_buffer == old(self).frame_buffer,
                x <= 160,
                offset_x <= 7,
                offset_y <= 7,
                tile_y <= 31,
                window == (old(self).lcdc & 0x20 != 0 && old(self).wy <= old(self).ly && 7 <= old(
                    self,
                ).wx && old(self).wx - 7 < x),
                !window ==> ({
                    let sy = (old(self).scy + old(self).ly) % 256;
                    &&& offset_x == (old(self).scx % 8 + x) % 8
                    &&& offset_y == sy % 8
                    &&& tile_y == sy / 8
                    &&& tile_x == old(self).scx / 8 + (old(self).scx % 8 + x) / 8
                    &&& tile == old(self).fetch_bg_window_spec(
                        tile_x,
                        tile_y,
                        offset_y,
                        old(self).bg_map_base(),
                    )
                }),
                window ==> ({
                    let x0 = old(self).wx - 7;
                    &&& offset_x == (x - x0) % 8
                    &&& offset_y == (old(self).ly - old(self).wy) % 8
                    &&& tile_y == (old(self).ly - old(self).wy) / 8
                    &&& tile_x == (x - x0) / 8
                    &&& tile == old(self).fetch_bg_window_spec(
                        tile_x,
                        tile_y,
                        offset_y,
                        old(self).window_map_base(),
                    )
                }),
                forall|i: int|
                    0 <= i < x ==> self.scanline@[i] == shade_spec(
                        bg_color_num_at(*old(self), i),
                        old(self).bgp,
                    ),
                forall|i: int|
                    0 <= i < x ==> self.bg_prio@[i] == (if bg_color_num_at(*old(self), i) == 0 {
                        BGPriority::Color0
                    } else {
                        BGPriority::Color123
                    }),
            decreases 160 - x,
        {
            if self.lcdc & 0x20 > 0 {
                if self.wy <= self.ly && self.wx == x + 7 {
                    tile_x = 0;
                    tile_y = (self.ly - self.wy) / 8;
                    offset_x = 0;
                    offset_y = (self.ly - self.wy) % 8;
                    tile = self.fetch_window_tile(tile_x, tile_y, offset_y);
                    window = true;
                }
            }

            let color_num = self.get_color_num(tile, 7 - offset_x);
            let color = self.map_color(color_num, self.bgp);

            let xi = x as usize;
            self.bg_prio[xi] = if color_num == 0 {
                BGPriority::Color0
            } else {
                BGPriority::Color123
            };

            self.scanline[xi] = color;

            proof {
                if window {
                    lemma_step_mod8(x - (old(self).wx - 7));
                } else {
                    lemma_step_mod8(old(self).scx % 8 + x);
                }
            }
            offset_x = offset_x + 1;

            if offset_x >= 8 {
                offset_x = 0;
                tile_x = tile_x.wrapping_add(1);

                if window {
                    tile = self.fetch_window_tile(tile_x, tile_y, offset_y);
                } else {
                    tile = self.fetch_bg_tile(tile_x, tile_y, offset_y);
                }
            }

            x = x + 1;
        }
    }

    /// Renders up to ten visible sprites into the scanline buffer on top of
    /// the background, honoring X/Y flips, the two object palettes and the
    /// background-priority flag.  The resulting scanline is exactly the
    /// sprite scan composited over the incoming line.
    pub fn render_sprites(&mut self)
        requires
            old(self).inv(),
            old(self).ly <= 143,
        ensures
            final(self).inv(),
            same_regs(*old(self), *final(self)),
            same_mem(*old(self), *final(self)),
            same_irq(*old(self), *final(self)),
            same_col(*old(self), *final(self)),
            final(self).frame_buffer == old(self).frame_buffer,
            final(self).bg_prio == old(self).bg_prio,
            final(self).scanline@ == sprites_from(*old(self), old(self).bg_prio@, old(self).scanline@, 0, 0),
    {
        let mut n_sprites: u8 = 0;
        let height: u8 = if self.lcdc & 0x4 > 0 {
            16
        } else {
            8
        };

        let mut i: usize = 0;
        while i < 40
            invariant
                old(self).inv(),
                old(self).ly <= 143,
                self.inv(),
                same_regs(*old(self), *self),
                same_mem(*old(self), *self),
                same_irq(*old(self), *self),
                same_col(*old(self), *self),
                self.frame_buffer == old(self).frame_buffer,
                self.bg_prio == old(self).bg_prio,
                height == sprite_height(*old(self)),
                n_sprites <= 10 || i == 40,
                i <= 40,
                sprites_from(
                    *old(self),
                    old(self).bg_prio@,
                    self.scanline@,
                    i as int,
                    n_sprites as int,
                ) == sprites_from(*old(self), old(self).bg_prio@, old(self).scanline@, 0, 0),
            decreases 40 - i,
        {
            let entry_addr = i * 4;
            let sprite_y = self.oam[entry_addr];
            let sprite_x = self.oam[entry_addr + 1];
            let flags = self.oam[entry_addr + 3];

            let obj_prio = flags & 0x80 > 0;
            let flip_y = flags & 0x40 > 0;
            let flip_x = flags & 0x20 > 0;
            let palette = if flags & 0x10 > 0 {
                self.obp1
            } else {
                self.obp0
            };

            if sprite_y <= self.ly + 16 - height || sprite_y > self.ly + 16 {
                i = i + 1;
                continue ;
            }

            n_sprites = n_sprites + 1;
            if n_sprites > 10 {
                i = 40;
                continue ;
            }

            if sprite_x == 0 || sprite_x > 167 {
                i = i + 1;
                continue ;
            }

            let tile_no = if self.lcdc & 0x4 > 0 {
                if (self.ly + 8 < sprite_y) ^ flip_y {
                    self.oam[entry_addr + 2] & 0xFE
                } else {
                    self.oam[entry_addr + 2] | 0x01
                }
            } else {
                self.oam[entry_addr + 2]
            };

            let offset_y = if flip_y {
                7 - ((self.ly + 16 - sprite_y) % 8)
            } else {
                (self.ly + 16 - sprite_y) % 8
            };

            let tile = self.fetch_tile(tile_no, offset_y, true);
            proof {
                assert(tile == old(self).fetch_tile_spec(
                    sprite_tile_no(*old(self), i as int),
                    sprite_row_offset(*old(self), i as int),
                    true,
                ));
            }

            let ghost line0 = self.scanline@;
            let mut offset_x: u8 = 0;
            while offset_x < 8
                invariant
                    old(self).inv(),
                    self.inv(),
                    same_regs(*old(self), *self),
                    same_mem(*old(self), *self),
                    same_irq(*old(self), *self),
                    same_col(*old(self), *self),
                    self.frame_buffer == old(self).frame_buffer,
                    self.bg_prio == old(self).bg_prio,
                    offset_x <= 8,
                    1 <= sprite_x <= 167,
                    sprite_pixels(
                        old(self).bg_prio@,
                        self.scanline@,
                        sprite_x,
                        tile,
                        flip_x,
                        palette,
                        obj_prio,
                        offset_x as int,
                    ) == sprite_pixels(
                        old(self).bg_prio@,
                        line0,
                        sprite_x,
                        tile,
                        flip_x,
                        palette,
                        obj_prio,
                        0,
                    ),
                decreases 8 - offset_x,
            {
                if offset_x + sprite_x < 8 {
                    offset_x = offset_x + 1;
                    continue ;
                }

                let x = offset_x + sprite_x - 8;

                if x >= 160 {
                    proof {
                        lemma_sprite_pixels_off_screen(
                            old(self).bg_prio@,
                            self.scanline@,
                            sprite_x,
                            tile,
                            flip_x,
                            palette,
                            obj_prio,
                            offset_x as int,
                        );
                    }
                    offset_x = 8;
                    continue ;
                }

                let bitpos = if flip_x {
                    offset_x
                } else {
                    7 - offset_x
                };
                let color_num = self.get_color_num(tile, bitpos);
                if color_num == 0 {
                    offset_x = offset_x + 1;
                    continue ;
                }
                let masked = self.bg_prio[x as usize] == BGPriority::Color123;
                if masked && obj_prio {
                    offset_x = offset_x + 1;
                    continue ;
                }
                let color = self.map_color(color_num, palette);

                self.scanline[x as usize] = color;
                offset_x = offset_x + 1;
            }

            i = i + 1;
        }
    }

    /// Renders one scanline: composes the background (when enabled) and the
    /// sprites (when enabled) into the scanline buffer, then stores the
    /// buffer into the frame buffer row of the current scanline.  The buffer
    /// becomes exactly the composed scanline, and no other frame buffer row
    /// changes.
    pub fn render_scanline(&mut self)
        requires
            old(self).inv(),
            old(self).ly <= 143,
        ensures
            final(self).inv(),
            same_regs(*old(self), *final(self)),
            same_mem(*old(self), *final(self)),
            same_irq(*old(self), *final(self)),
            same_col(*old(self), *final(self)),
            final(self).scanline@ == composed_scanline(*old(self)),
            final(self).bg_prio@ == (if old(self).lcdc & 0x1 > 0 {
                bg_prio_line(*old(self))
            } else {
                old(self).bg_prio@
            }),
            forall|i: int|
                0 <= i < 23040 && !(old(self).ly * 160 <= i < old(self).ly * 160 + 160)
                    ==> final(self).frame_buffer@[i] == old(self).frame_buffer@[i],
            forall|i: int|
                0 <= i < 160 ==> final(self).frame_buffer@[old(self).ly * 160 + i]
                    == final(self).scanline@[i],
    {
        if self.lcdc & 0x1 > 0 {
            self.render_bg();
            proof {
                assert(self.scanline@ =~= bg_shade_line(*old(self)));
                assert(self.bg_prio@ =~= bg_prio_line(*old(self)));
            }
        }
        let ghost mid = *self;
        if self.lcdc & 0x2 > 0 {
            self.render_sprites();
            proof {
                lemma_sprites_from_same(mid, *old(self), mid.bg_prio@, mid.scanline@, 0, 0);
            }
        }

        let base = (self.ly as usize) * 160;
        let mut x: usize = 0;
        while x < 160
            invariant
                old(self).inv(),
                old(self).ly <= 143,
                self.inv(),
                same_regs(*old(self), *self),
                same_mem(*old(self), *self),
                same_irq(*old(self), *self),
                same_col(*old(self), *self),
                self.scanline@ == composed_scanline(*old(self)),
                self.bg_prio@ == (if old(self).lcdc & 0x1 > 0 {
                    bg_prio_line(*old(self))
                } else {
                    old(self).bg_prio@
                }),
                base == self.ly * 160,
                x <= 160,
                forall|i: int|
                    0 <= i < 23040 && !(base <= i < base + x) ==> self.frame_buffer@[i] == old(self).frame_buffer@[i],
                forall|i: int| 0 <= i < x ==> self.frame_buffer@[base + i] == self.scanline@[i],
            decreases 160 - x,
        {
            let v = self.scanline[x];
            self.frame_buffer[base + x] = v;
            x = x + 1;
        }
    }

    /// The frame buffer, read once per frame by the display collaborator.
    pub fn frame_buffer(&self) -> (r: &Vec<u8>)
        ensures
            r == self.frame_buffer,
    {
        &self.frame_buffer
    }

    /// Re-derives the coincidence bit from the scanline and compare
    /// registers, requesting the LCD-STAT interrupt on a match when the
    /// coincidence interrupt is enabled.
    pub fn update_lyc_interrupt(&mut self)
        ensures
            final(self).stat == lyc_stat(old(self).stat, old(self).ly, old(self).lyc),
            final(self).stat & 0x03 == old(self).stat & 0x03,
            final(self).irq_lcdc == lyc_irq(old(self).stat, old(self).ly, old(self).lyc, old(self).irq_lcdc),
            eq_except_stat_irq(*old(self), *final(self)),
    {
        if self.ly == self.lyc {
            self.stat = self.stat | 0x4;

            if self.stat & 0x40 > 0 {
                self.irq_lcdc = true;
            }
        } else {
            self.stat = self.stat & 0xFB;
        }
        proof {
            let s = old(self).stat;
            assert((s | 0x4) & 0x40 == s & 0x40 && (s | 0x4) & 0x03 == s & 0x03 && (s & 0xFB)
                & 0x03 == s & 0x03) by (bit_vector);
        }
    }

    /// Requests the LCD-STAT interrupt when the status register enables the
    /// interrupt for the mode currently in its mode field.
    pub fn update_mode_interrupt(&mut self)
        ensures
            final(self).irq_lcdc == mode_irq(old(self).stat, old(self).irq_lcdc),
            final(self).stat == old(self).stat,
            eq_except_stat_irq(*old(self), *final(self)),
    {
        match self.stat & 0x03 {
            0 => if self.stat & 0x8 > 0 {
                self.irq_lcdc = true;
            },
            1 => if self.stat & 0x10 > 0 {
                self.irq_lcdc = true;
            },
            2 => if self.stat & 0x20 > 0 {
                self.irq_lcdc = true;
            },
            _ => (),
        }
    }
}

/// The two memories are unchanged.
pub open spec fn same_mem(a: PPU, b: PPU) -> bool {
    &&& a.vram == b.vram
    &&& a.oam == b.oam
}

/// Every register and mirrored color-mode field is unchanged.
pub open spec fn same_regs(a: PPU, b: PPU) -> bool {
    &&& a.lcdc == b.lcdc
    &&& a.stat == b.stat
    &&& a.scy == b.scy
    &&& a.scx == b.scx
    &&& a.ly == b.ly
    &&& a.lyc == b.lyc
    &&& a.dma == b.dma
    &&& a.bgp == b.bgp
    &&& a.obp0 == b.obp0
    &&& a.obp1 == b.obp1
    &&& a.wy == b.wy
    &&& a.wx == b.wx
    &&& a.cnt == b.cnt
    &&& a.cgb_mode == b.cgb_mode
    &&& a.cgb_unlock_flg == b.cgb_unlock_flg
    &&& a.vram_bank == b.vram_bank
}

/// The two interrupt requests are unchanged.
pub open spec fn same_irq(a: PPU, b: PPU) -> bool {
    &&& a.irq_vblank == b.irq_vblank
    &&& a.irq_lcdc == b.irq_lcdc
}

/// The color-mode buffers are unchanged.
pub open spec fn same_col(a: PPU, b: PPU) -> bool {
    &&& a.frame_buffer_col == b.frame_buffer_col
    &&& a.scanline_col == b.scanline_col
}

/// Everything but the status register and the LCD-STAT request is unchanged.
pub open spec fn eq_except_stat_irq(a: PPU, b: PPU) -> bool {
    &&& same_mem(a, b)
    &&& same_col(a, b)
    &&& a.lcdc == b.lcdc
    &&& a.scy == b.scy
    &&& a.scx == b.scx
    &&& a.ly == b.ly
    &&& a.lyc == b.lyc
    &&& a.dma == b.dma
    &&& a.bgp == b.bgp
    &&& a.obp0 == b.obp0
    &&& a.obp1 == b.obp1
    &&& a.wy == b.wy
    &&& a.wx == b.wx
    &&& a.cnt == b.cnt
    &&& a.cgb_mode == b.cgb_mode
    &&& a.cgb_unlock_flg == b.cgb_unlock_flg
    &&& a.vram_bank == b.vram_bank
    &&& a.irq_vblank == b.irq_vblank
    &&& a.frame_buffer == b.frame_buffer
    &&& a.scanline == b.scanline
    &&& a.bg_prio == b.bg_prio
}

/// Whether the window overlays the background at column `x` of the current
/// scanline: the window must be enabled, its top edge at or above the
/// scanline, and its left edge (stored offset by 7) at or left of the column.
pub open spec fn window_at(p: PPU, x: int) -> bool {
    p.lcdc & 0x20 != 0 && p.wy <= p.ly && 7 <= p.wx && p.wx - 7 <= x
}

/// The 2-bit background or window color number at column `x` of the current
/// scanline: the tile row selected by the scrolled (or window-relative)
/// coordinates through the selected tile map, sampled at the pixel's bit
/// position.
pub open spec fn bg_color_num_at(p: PPU, x: int) -> u8 {
    if window_at(p, x) {
        let off = x - (p.wx - 7);
        PPU::color_num_spec(
            p.fetch_bg_window_spec(
                (off / 8) as u8,
                ((p.ly - p.wy) / 8) as u8,
                ((p.ly - p.wy) % 8) as u8,
                p.window_map_base(),
            ),
            (7 - off % 8) as u8,
        )
    } else {
        let sy = (p.scy + p.ly) % 256;
        PPU::color_num_spec(
            p.fetch_bg_window_spec(
                (p.scx / 8 + (p.scx % 8 + x) / 8) as u8,
                (sy / 8) as u8,
                (sy % 8) as u8,
                p.bg_map_base(),
            ),
            (7 - (p.scx % 8 + x) % 8) as u8,
        )
    }
}

/// The Y byte of OAM entry `i`.
pub open spec fn sprite_y_of(p: PPU, i: int) -> u8 {
    p.oam@[4 * i]
}

/// The X byte of OAM entry `i`.
pub open spec fn sprite_x_of(p: PPU, i: int) -> u8 {
    p.oam@[4 * i + 1]
}

/// The flags byte of OAM entry `i`.
pub open spec fn sprite_flags_of(p: PPU, i: int) -> u8 {
    p.oam@[4 * i + 3]
}

/// The configured sprite height: 16-pixel sprites when LCDC bit 2 is set.
pub open spec fn sprite_height(p: PPU) -> u8 {
    if p.lcdc & 0x4 > 0 {
        16
    } else {
        8
    }
}

/// Whether OAM entry `i` covers the current scanline.
pub open spec fn sprite_visible(p: PPU, i: int) -> bool {
    !(sprite_y_of(p, i) <= p.ly + 16 - sprite_height(p) || sprite_y_of(p, i) > p.ly + 16)
}

/// The tile number OAM entry `i` samples on the current scanline: 16-pixel
/// sprites use an even/odd tile pair selected by the row half and the
/// vertical flip.
pub open spec fn sprite_tile_no(p: PPU, i: int) -> u8 {
    if p.lcdc & 0x4 > 0 {
        if (p.ly + 8 < sprite_y_of(p, i)) != (sprite_flags_of(p, i) & 0x40 > 0) {
            p.oam@[4 * i + 2] & 0xFE
        } else {
            p.oam@[4 * i + 2] | 0x01
        }
    } else {
        p.oam@[4 * i + 2]
    }
}

/// The row within the tile that the current scanline samples of entry `i`,
/// honoring the vertical flip.
pub open spec fn sprite_row_offset(p: PPU, i: int) -> u8 {
    if sprite_flags_of(p, i) & 0x40 > 0 {
        (7 - ((p.ly + 16 - sprite_y_of(p, i)) % 8)) as u8
    } else {
        ((p.ly + 16 - sprite_y_of(p, i)) % 8) as u8
    }
}

/// One sprite row composited over the scanline, pixel by pixel from `off`:
/// each pixel lands at its screen column unless it falls off screen, is
/// transparent (color number 0), or defers to a background pixel of colors
/// 1-3 under the background-priority flag.
pub open spec fn sprite_pixels(
    prio: Seq<BGPriority>,
    line: Seq<u8>,
    sprite_x: u8,
    tile: (u8, u8),
    flip_x: bool,
    palette: u8,
    obj_prio: bool,
    off: int,
) -> Seq<u8>
    decreases 8 - off,
{
    if off < 0 || off >= 8 {
        line
    } else {
        let line2 = if off + sprite_x < 8 || off + sprite_x - 8 >= 160 {
            line
        } else {
            let x = off + sprite_x - 8;
            let cn = PPU::color_num_spec(
                tile,
                if flip_x {
                    off as u8
                } else {
                    (7 - off) as u8
                },
            );
            if cn == 0 {
                line
            } else if prio[x] == BGPriority::Color123 && obj_prio {
                line
            } else {
                line.update(x, shade_spec(cn, palette))
            }
        };
        sprite_pixels(prio, line2, sprite_x, tile, flip_x, palette, obj_prio, off + 1)
    }
}

/// The scanline after the sprite scan resumes at OAM entry `i` with `n`
/// visible sprites already taken: entries are scanned in index order, the
/// scan stops at the eleventh visible sprite, and a visible sprite with an
/// off-screen X byte is counted but draws nothing.
pub open spec fn sprites_from(p: PPU, prio: Seq<BGPriority>, line: Seq<u8>, i: int, n: int) -> Seq<
    u8,
>
    decreases 40 - i,
{
    if i < 0 || i >= 40 {
        line
    } else if !sprite_visible(p, i) {
        sprites_from(p, prio, line, i + 1, n)
    } else if n + 1 > 10 {
        line
    } else if sprite_x_of(p, i) == 0 || sprite_x_of(p, i) > 167 {
        sprites_from(p, prio, line, i + 1, n + 1)
    } else {
        sprites_from(
            p,
            prio,
            sprite_pixels(
                prio,
                line,
                sprite_x_of(p, i),
                p.fetch_tile_spec(sprite_tile_no(p, i), sprite_row_offset(p, i), true),
                sprite_flags_of(p, i) & 0x20 > 0,
                if sprite_flags_of(p, i) & 0x10 > 0 {
                    p.obp1
                } else {
                    p.obp0
                },
                sprite_flags_of(p, i) & 0x80 > 0,
                0,
            ),
            i + 1,
            n + 1,
        )
    }
}

/// The sprite scan reads only OAM, the tile data, the scanline index and the
/// sprite configuration: two picture units that agree on those compose the
/// same scanline.
pub proof fn lemma_sprites_from_same(
    p1: PPU,
    p2: PPU,
    prio: Seq<BGPriority>,
    line: Seq<u8>,
    i: int,
    n: int,
)
    requires
        p1.oam@ == p2.oam@,
        p1.vram@ == p2.vram@,
        p1.lcdc == p2.lcdc,
        p1.ly == p2.ly,
        p1.obp0 == p2.obp0,
        p1.obp1 == p2.obp1,
        p1.cgb_unlock_flg == p2.cgb_unlock_flg,
        p1.vram_bank == p2.vram_bank,
    ensures
        sprites_from(p1, prio, line, i, n) == sprites_from(p2, prio, line, i, n),
    decreases 40 - i,
{
    if 0 <= i < 40 {
        if !sprite_visible(p1, i) {
            lemma_sprites_from_same(p1, p2, prio, line, i + 1, n);
        } else if n + 1 > 10 {
        } else if sprite_x_of(p1, i) == 0 || sprite_x_of(p1, i) > 167 {
            lemma_sprites_from_same(p1, p2, prio, line, i + 1, n + 1);
        } else {
            lemma_sprites_from_same(
                p1,
                p2,
                prio,
                sprite_pixels(
                    prio,
                    line,
                    sprite_x_of(p1, i),
                    p1.fetch_tile_spec(sprite_tile_no(p1, i), sprite_row_offset(p1, i), true),
                    sprite_flags_of(p1, i) & 0x20 > 0,
                    if sprite_flags_of(p1, i) & 0x10 > 0 {
                        p1.obp1
                    } else {
                        p1.obp0
                    },
                    sprite_flags_of(p1, i) & 0x80 > 0,
                    0,
                ),
                i + 1,
                n + 1,
            );
        }
    }
}

/// The background shades of the current scanline, column by column.
pub open spec fn bg_shade_line(p: PPU) -> Seq<u8> {
    Seq::<u8>::new(160, |i: int| shade_spec(bg_color_num_at(p, i), p.bgp))
}

/// The background-priority record of the current scanline, column by column.
pub open spec fn bg_prio_line(p: PPU) -> Seq<BGPriority> {
    Seq::<BGPriority>::new(
        160,
        |i: int|
            if bg_color_num_at(p, i) == 0 {
                BGPriority::Color0
            } else {
                BGPriority::Color123
            },
    )
}

/// The fully composed scanline: the background layer when it is enabled
/// (else the stale buffer), with the sprite scan composited on top when
/// sprites are enabled.
pub open spec fn composed_scanline(p: PPU) -> Seq<u8> {
    let line1 = if p.lcdc & 0x1 > 0 {
        bg_shade_line(p)
    } else {
        p.scanline@
    };
    let prio1 = if p.lcdc & 0x1 > 0 {
        bg_prio_line(p)
    } else {
        p.bg_prio@
    };
    if p.lcdc & 0x2 > 0 {
        sprites_from(p, prio1, line1, 0, 0)
    } else {
        line1
    }
}

/// A sprite row whose remaining pixels all fall past the right screen edge
/// draws nothing more.
proof fn lemma_sprite_pixels_off_screen(
    prio: Seq<BGPriority>,
    line: Seq<u8>,
    sprite_x: u8,
    tile: (u8, u8),
    flip_x: bool,
    palette: u8,
    obj_prio: bool,
    off: int,
)
    requires
        0 <= off <= 8,
        off + sprite_x - 8 >= 160,
    ensures
        sprite_pixels(prio, line, sprite_x, tile, flip_x, palette, obj_prio, off) == line,
    decreases 8 - off,
{
    if off < 8 {
        lemma_sprite_pixels_off_screen(
            prio,
            line,
            sprite_x,
            tile,
            flip_x,
            palette,
            obj_prio,
            off + 1,
        );
    }
}

/// Stepping a non-negative counter by one either advances its remainder by
/// eight or wraps it and advances the quotient.
proof fn lemma_step_mod8(n: int)
    requires
        n >= 0,
    ensures
        (n + 1) % 8 == (if n % 8 == 7 {
            0int
        } else {
            n % 8 + 1
        }),
        (n + 1) / 8 == (if n % 8 == 7 {
            n / 8 + 1
        } else {
            n / 8
        }),
        0 <= n % 8 <= 7,
        0 <= n / 8 <= n,
{
    assert((n + 1) % 8 == (if n % 8 == 7 {
        0int
    } else {
        n % 8 + 1
    }) && (n + 1) / 8 == (if n % 8 == 7 {
        n / 8 + 1
    } else {
        n / 8
    }) && 0 <= n % 8 <= 7 && 0 <= n / 8 <= n) by (nonlinear_arith)
        requires
            n >= 0,
    ;
}

/// Reading the scanline register is idempotent between scanline boundaries:
/// a read never changes state, and a clock advance that stays within the
/// current mode's cycle budget leaves the scanline index, and so the value
/// the register reads back, unchanged.
pub proof fn lemma_ly_read_stable(p: PPU, tick: u8)
    requires
        p.lcdc & 0x80 != 0 ==> p.cnt.wrapping_add(tick as u16) < mode_threshold(p.stat & 0x03),
    ensures
        ppu_ly_after(p, tick) == p.ly,
        (PPU { cnt: ppu_cnt_after(p, tick), ..p }).read_spec(0xFF44) == p.read_spec(0xFF44),
{
}

/// OAM reads as 0xFF during the two active-rendering modes (OAM search and
/// pixel transfer), whatever was written there before.
pub proof fn lemma_oam_blocked_reads_ff(p: PPU, addr: u16)
    requires
        0xFE00 <= addr < 0xFEA0,
        p.mode_spec() == 2 || p.mode_spec() == 3,
    ensures
        p.read_spec(addr) == 0xFF,
{
}

/// The mode field survives masking the upper status bits and oring a mode in.
proof fn lemma_stat_mode(s: u8)
    ensures
        s & 0x03 <= 3,
        (s & 0xF8) & 0x03 == 0,
        ((s & 0xF8) | 1) & 0x03 == 1,
        ((s & 0xF8) | 2) & 0x03 == 2,
        ((s & 0xF8) | 3) & 0x03 == 3,
        ((s & 0xF8) | 1) & 0x10 == s & 0x10,
        ((s & 0xF8) | 2) & 0x20 == s & 0x20,
        (s & 0xF8) & 0x08 == s & 0x08,
        (s | 0x04) & 0x03 == s & 0x03,
        (s & 0xFB) & 0x03 == s & 0x03,
{
    assert(s & 0x03 <= 3 && (s & 0xF8) & 0x03 == 0 && ((s & 0xF8) | 1) & 0x03 == 1 && ((s & 0xF8) | 2) & 0x03 == 2
        && ((s & 0xF8) | 3) & 0x03 == 3 && ((s & 0xF8) | 1) & 0x10 == s & 0x10 && ((s & 0xF8) | 2)
        & 0x20 == s & 0x20 && (s & 0xF8) & 0x08 == s & 0x08 && (s | 0x04) & 0x03 == s & 0x03 && (s
        & 0xFB) & 0x03 == s & 0x03) by (bit_vector);
}

/// Where the timing state machine stands `t` cycles into a frame: on the
/// visible lines the scanline index is `t / 456` and the cycle within the
/// line selects OAM search, pixel transfer or H-blank with its elapsed
/// count; past the visible lines the machine sits in V-blank, one line per
/// 456 cycles.
pub open spec fn frame_phase(ly: u8, mode: u8, cnt: u16, t: int) -> bool {
    if 0 <= t < 65664 {
        let u = t % 456;
        &&& ly == t / 456
        &&& (if u < 80 {
            mode == 2 && cnt == u
        } else if u < 252 {
            mode == 3 && cnt == u - 80
        } else {
            mode == 0 && cnt == u - 252
        })
    } else if 65664 <= t < 70224 {
        &&& ly == 144 + (t - 65664) / 456
        &&& mode == 1
        &&& cnt == (t - 65664) % 456
    } else {
        false
    }
}

/// Division of a multiple-plus-remainder by the line length.
proof fn lemma_div456(q: int, r: int)
    requires
        0 <= q,
        0 <= r < 456,
    ensures
        (456 * q + r) / 456 == q,
        (456 * q + r) % 456 == r,
{
    assert((456 * q + r) / 456 == q && (456 * q + r) % 456 == r) by (nonlinear_arith)
        requires
            0 <= q,
            0 <= r < 456,
    ;
}

/// One clock advance keeps the timing state machine on the frame trajectory,
/// and raises a fresh V-blank request exactly when the advance crosses the
/// end of the last visible scanline.  Chained over the updates of one full
/// frame, the boundary is crossed exactly once, so the V-blank request is
/// raised exactly once and the scanline index returns to 0 after 70224
/// cycles.
pub proof fn lemma_frame_step(p: PPU, t: int, tick: u8)
    requires
        p.lcdc & 0x80 != 0,
        frame_phase(p.ly, p.stat & 0x03, p.cnt, t),
        1 <= tick <= 80,
    ensures
        frame_phase(
            ppu_ly_after(p, tick),
            ppu_stat_after(p, tick) & 0x03,
            ppu_cnt_after(p, tick),
            if t + tick < 70224 {
                t + tick
            } else {
                t + tick - 70224
            },
        ),
        ppu_vblank_after(p, tick) == (p.irq_vblank || (t < 65664 && t + tick >= 65664)),
{
    lemma_stat_mode(p.stat);
    lemma_stat_mode(p.stat & 0xF8);
    lemma_stat_mode((p.stat & 0xF8) | 1);
    lemma_stat_mode((p.stat & 0xF8) | 2);
    let c = p.cnt.wrapping_add(tick as u16);
    if t < 65664 {
        let q = t / 456;
        let r = t % 456;
        assert(t == 456 * q + r && 0 <= r < 456 && 0 <= q) by (nonlinear_arith)
            requires
                0 <= t < 65664,
                q == t / 456,
                r == t % 456,
        ;
        assert(q <= 143) by (nonlinear_arith)
            requires
                456 * q + r < 65664,
                0 <= r,
                0 <= q,
        ;
        if r + tick < 456 {
            lemma_div456(q, r + tick);
            assert(t + tick == 456 * q + (r + tick));
        } else {
            lemma_div456(q + 1, r + tick - 456);
            assert(t + tick == 456 * (q + 1) + (r + tick - 456));
        }
        if p.stat & 0x03 == 2 {
            assert(c == r + tick);
        } else if p.stat & 0x03 == 3 {
            assert(c == r - 80 + tick);
        } else {
            assert(c == r - 252 + tick);
            if c >= 204 {
                assert(ppu_ly_after(p, tick) == q + 1);
                if q + 1 == 144 {
                    assert(t + tick == 65664 + (r + tick - 456));
                    lemma_div456(0, r + tick - 456);
                }
            }
        }
    } else {
        let k = (t - 65664) / 456;
        let w = (t - 65664) % 456;
        assert(t - 65664 == 456 * k + w && 0 <= w < 456 && 0 <= k) by (nonlinear_arith)
            requires
                0 <= t - 65664 < 4560,
                k == (t - 65664) / 456,
                w == (t - 65664) % 456,
        ;
        assert(k <= 9) by (nonlinear_arith)
            requires
                456 * k + w < 4560,
                0 <= w,
                0 <= k,
        ;
        assert(c == w + tick);
        if w + tick < 456 {
            lemma_div456(k, w + tick);
            assert(t + tick - 65664 == 456 * k + (w + tick));
        } else {
            if k == 9 {
                assert(t + tick - 70224 == w + tick - 456);
                lemma_div456(0, w + tick - 456);
            } else {
                lemma_div456(k + 1, w + tick - 456);
                assert(t + tick - 65664 == 456 * (k + 1) + (w + tick - 456));
            }
        }
    }
}


impl PPU {
    /// The VRAM index a bus address in the VRAM window selects under the
    /// current bank select.
    pub open spec fn vram_index(self, addr: u16) -> int {
        (addr - 0x8000) + self.vram_off()
    }

    /// What a read returns, as a function of the picture unit state: VRAM
    /// reads as 0xFF during pixel transfer, OAM reads as 0xFF outside
    /// H-blank and V-blank, and the registers read back directly.  Any other
    /// address reads as 0xFF.
    pub open spec fn read_spec(self, addr: u16) -> u8 {
        if 0x8000 <= addr < 0xA000 {
            if self.mode_spec() != 3 {
                self.vram@[self.vram_index(addr)]
            } else {
                0xFF
            }
        } else if 0xFE00 <= addr < 0xFEA0 {
            if self.mode_spec() == 0 || self.mode_spec() == 1 {
                self.oam@[addr - 0xFE00]
            } else {
                0xFF
            }
        } else if addr == 0xFF40 {
            self.lcdc
        } else if addr == 0xFF41 {
            self.stat
        } else if addr == 0xFF42 {
            self.scy
        } else if addr == 0xFF43 {
            self.scx
        } else if addr == 0xFF44 {
            self.ly
        } else if addr == 0xFF45 {
            self.lyc
        } else if addr == 0xFF46 {
            self.dma
        } else if addr == 0xFF47 {
            self.bgp
        } else if addr == 0xFF48 {
            self.obp0
        } else if addr == 0xFF49 {
            self.obp1
        } else if addr == 0xFF4A {
            self.wy
        } else if addr == 0xFF4B {
            self.wx
        } else {
            0xFF
        }
    }

    /// A read from the picture unit's windows and registers.  Reading the
    /// scanline register never changes state, so two reads without an
    /// intervening clock advance return the same value.
    pub fn read(&self, addr: u16) -> (r: u8)
        requires
            self.inv(),
        ensures
            r == self.read_spec(addr),
    {
        match addr {
            0x8000..=0x9FFF => {
                if self.stat & 0x03 != 3 {
                    let offset: usize = if self.cgb_unlock_flg {
                        VRAM_BANK_SIZE * ((self.vram_bank % 2) as usize)
                    } else {
                        0
                    };
                    self.vram[((addr - 0x8000) as usize) + offset]
                } else {
                    0xFF
                }
            },
            0xFE00..=0xFE9F => {
                if self.stat & 0x03 == 0 || self.stat & 0x03 == 1 {
                    self.oam[(addr - 0xFE00) as usize]
                } else {
                    0xFF
                }
            },
            0xFF40 => self.lcdc,
            0xFF41 => self.stat,
            0xFF42 => self.scy,
            0xFF43 => self.scx,
            0xFF44 => self.ly,
            0xFF45 => self.lyc,
            0xFF46 => self.dma,
            0xFF47 => self.bgp,
            0xFF48 => self.obp0,
            0xFF49 => self.obp1,
            0xFF4A => self.wy,
            0xFF4B => self.wx,
            _ => 0xFF,
        }
    }

    /// A write into the picture unit's windows and registers.  VRAM writes
    /// are dropped during pixel transfer and OAM writes outside H-blank and
    /// V-blank.  Toggling the LCD enable bit restarts the timing state
    /// machine at scanline 0; status and compare writes re-evaluate the
    /// coincidence and mode interrupt conditions.  The scanline register is
    /// read-only, and a write to an unmapped address is dropped.
    pub fn write(&mut self, addr: u16, val: u8)
        requires
            old(self).inv(),
        ensures
            final(self).inv(),
            0x8000 <= addr < 0xA000 && old(self).mode_spec() != 3 ==> final(self).vram@ == old(
                self,
            ).vram@.update(old(self).vram_index(addr), val),
            !(0x8000 <= addr < 0xA000 && old(self).mode_spec() != 3) ==> final(self).vram == old(
                self,
            ).vram,
            0xFE00 <= addr < 0xFEA0 && (old(self).mode_spec() == 0 || old(self).mode_spec() == 1)
                ==> final(self).oam@ == old(self).oam@.update(addr - 0xFE00, val),
            !(0xFE00 <= addr < 0xFEA0 && (old(self).mode_spec() == 0 || old(self).mode_spec()
                == 1)) ==> final(self).oam == old(self).oam,
            same_col(*old(self), *final(self)),
            final(self).frame_buffer == old(self).frame_buffer,
            final(self).scanline == old(self).scanline,
            final(self).bg_prio == old(self).bg_prio,
            final(self).irq_vblank == old(self).irq_vblank,
            final(self).dma == old(self).dma,
            final(self).cgb_mode == old(self).cgb_mode,
            final(self).cgb_unlock_flg == old(self).cgb_unlock_flg,
            final(self).vram_bank == old(self).vram_bank,
            final(self).lcdc == if addr == 0xFF40 {
                val
            } else {
                old(self).lcdc
            },
            final(self).scy == if addr == 0xFF42 {
                val
            } else {
                old(self).scy
            },
            final(self).scx == if addr == 0xFF43 {
                val
            } else {
                old(self).scx
            },
            final(self).lyc == if addr == 0xFF45 {
                val
            } else {
                old(self).lyc
            },
            final(self).bgp == if addr == 0xFF47 {
                val
            } else {
                old(self).bgp
            },
            final(self).obp0 == if addr == 0xFF48 {
                val
            } else {
                old(self).obp0
            },
            final(self).obp1 == if addr == 0xFF49 {
                val
            } else {
                old(self).obp1
            },
            final(self).wy == if addr == 0xFF4A {
                val
            } else {
                old(self).wy
            },
            final(self).wx == if addr == 0xFF4B {
                val
            } else {
                old(self).wx
            },
            addr == 0xFF40 ==> ({
                if old(self).lcdc & 0x80 != val & 0x80 {
                    let stat2 = (old(self).stat & 0xF8) | (if val & 0x80 > 0 {
                        2u8
                    } else {
                        0u8
                    });
                    &&& final(self).ly == 0
                    &&& final(self).cnt == 0
                    &&& final(self).stat == stat2
                    &&& final(self).irq_lcdc == mode_irq(stat2, old(self).irq_lcdc)
                } else {
                    &&& final(self).ly == old(self).ly
                    &&& final(self).cnt == old(self).cnt
                    &&& final(self).stat == old(self).stat
                    &&& final(self).irq_lcdc == old(self).irq_lcdc
                }
            }),
            addr == 0xFF41 ==> ({
                let stat2 = (val & 0xF8) | (old(self).stat & 0x03);
                &&& final(self).stat == lyc_stat(stat2, old(self).ly, old(self).lyc)
                &&& final(self).irq_lcdc == mode_irq(
                    lyc_stat(stat2, old(self).ly, old(self).lyc),
                    lyc_irq(stat2, old(self).ly, old(self).lyc, old(self).irq_lcdc),
                )
                &&& final(self).ly == old(self).ly
                &&& final(self).cnt == old(self).cnt
            }),
            addr == 0xFF45 ==> ({
                if old(self).lyc != val {
                    &&& final(self).stat == lyc_stat(old(self).stat, old(self).ly, val)
                    &&& final(self).irq_lcdc == lyc_irq(
                        old(self).stat,
                        old(self).ly,
                        val,
                        old(self).irq_lcdc,
                    )
                } else {
                    &&& final(self).stat == old(self).stat
                    &&& final(self).irq_lcdc == old(self).irq_lcdc
                }
            }) && final(self).ly == old(self).ly && final(self).cnt == old(self).cnt,
            addr != 0xFF40 && addr != 0xFF41 && addr != 0xFF45 ==> final(self).stat == old(self).stat && final(self).ly == old(self).ly && final(self).cnt == old(self).cnt && final(self).irq_lcdc == old(self).irq_lcdc,
    {
        match addr {
            0x8000..=0x9FFF => {
                if self.stat & 0x03 != 3 {
                    let offset: usize = if self.cgb_unlock_flg {
                        VRAM_BANK_SIZE * ((self.vram_bank % 2) as usize)
                    } else {
                        0
                    };
                    let i = ((addr - 0x8000) as usize) + offset;
                    self.vram[i] = val;
                }
            },
            0xFE00..=0xFE9F => {
                if self.stat & 0x03 == 0 || self.stat & 0x03 == 1 {
                    let i = (addr - 0xFE00) as usize;
                    self.oam[i] = val;
                }
            },
            0xFF40 => {
                if self.lcdc & 0x80 != val & 0x80 {
                    self.ly = 0;
                    self.cnt = 0;

                    let mode: u8 = if val & 0x80 > 0 {
                        2
                    } else {
                        0
                    };
                    self.stat = (self.stat & 0xF8) | mode;
                    proof {
                        lemma_stat_mode(old(self).stat);
                    }
                    self.update_mode_interrupt();
                }

                self.lcdc = val;
            },
            0xFF41 => {
                self.stat = (val & 0xF8) | (self.stat & 0x03);
                proof {
                    let s = old(self).stat;
                    assert(((val & 0xF8) | (s & 0x03)) & 0x03 == s & 0x03) by (bit_vector);
                }
                self.update_lyc_interrupt();
                self.update_mode_interrupt();
            },
            0xFF42 => self.scy = val,
            0xFF43 => self.scx = val,
            0xFF44 => (),
            0xFF45 => {
                if self.lyc != val {
                    self.lyc = val;
                    self.update_lyc_interrupt();
                }
            },
            0xFF47 => self.bgp = val,
            0xFF48 => self.obp0 = val,
            0xFF49 => self.obp1 = val,
            0xFF4A => self.wy = val,
            0xFF4B => self.wx = val,
            _ => (),
        }
    }

    /// Advances the timing state machine by `tick` cycles.  While the LCD is
    /// enabled, the mode counter accumulates cycles and, when it crosses the
    /// current mode's budget, the machine steps: OAM search renders the
    /// scanline and enters pixel transfer; pixel transfer enters H-blank;
    /// H-blank advances the scanline, entering V-blank (raising the V-blank
    /// interrupt request) after the last visible line; each V-blank line
    /// advances the scanline until the index wraps to 0 and OAM search
    /// resumes.  The coincidence and mode interrupt conditions are
    /// re-evaluated on every scanline change.  At most one mode step is
    /// taken per call.
    pub fn update(&mut self, tick: u8)
        requires
            old(self).inv(),
        ensures
            final(self).inv(),
            final(self).vram == old(self).vram,
            final(self).oam == old(self).oam,
            same_col(*old(self), *final(self)),
            final(self).lcdc == old(self).lcdc,
            final(self).scy == old(self).scy,
            final(self).scx == old(self).scx,
            final(self).lyc == old(self).lyc,
            final(self).dma == old(self).dma,
            final(self).bgp == old(self).bgp,
            final(self).obp0 == old(self).obp0,
            final(self).obp1 == old(self).obp1,
            final(self).wy == old(self).wy,
            final(self).wx == old(self).wx,
            final(self).cgb_mode == old(self).cgb_mode,
            final(self).cgb_unlock_flg == old(self).cgb_unlock_flg,
            final(self).vram_bank == old(self).vram_bank,
            old(self).lcdc & 0x80 == 0 ==> (*final(self)) == (*old(self)),
            final(self).cnt == ppu_cnt_after(*old(self), tick),
            final(self).ly == ppu_ly_after(*old(self), tick),
            final(self).stat == ppu_stat_after(*old(self), tick),
            final(self).irq_vblank == ppu_vblank_after(*old(self), tick),
            final(self).irq_lcdc == ppu_lcdc_irq_after(*old(self), tick),
            forall|i: int|
                0 <= i < 23040 && !(old(self).ly * 160 <= i < old(self).ly * 160 + 160)
                    ==> final(self).frame_buffer@[i] == old(self).frame_buffer@[i],
            !(ppu_steps(*old(self), tick) && old(self).mode_spec() == 2) ==> final(self).frame_buffer == old(self).frame_buffer && final(self).scanline == old(self).scanline && final(self).bg_prio == old(self).bg_prio,
            ppu_steps(*old(self), tick) && old(self).mode_spec() == 2 ==> ({
                let mid = PPU {
                    stat: (old(self).stat & 0xF8) | 3,
                    cnt: ppu_cnt_after(*old(self), tick),
                    ..*old(self)
                };
                &&& final(self).scanline@ == composed_scanline(mid)
                &&& final(self).bg_prio@ == (if old(self).lcdc & 0x1 > 0 {
                    bg_prio_line(mid)
                } else {
                    old(self).bg_prio@
                })
                &&& (forall|i: int|
                    0 <= i < 160 ==> final(self).frame_buffer@[old(self).ly * 160 + i] == final(self).scanline@[i])
            }),
    {
        if self.lcdc & 0x80 == 0 {
            return ;
        }

        self.cnt = self.cnt.wrapping_add(tick as u16);

        let mode = self.stat & 0x03;
        proof {
            lemma_stat_mode(old(self).stat);
        }
        if mode == 2 {
            if self.cnt >= 80 {
                self.cnt = self.cnt - 80;
                self.stat = (self.stat & 0xF8) | 3;
                self.render_scanline();
            }
        } else if mode == 3 {
            if self.cnt >= 172 {
                self.cnt = self.cnt - 172;
                self.stat = self.stat & 0xF8;
                self.update_mode_interrupt();
            }
        } else if mode == 0 {
            if self.cnt >= 204 {
                self.cnt = self.cnt - 204;
                self.ly = self.ly + 1;

                if self.ly >= 144 {
                    self.stat = (self.stat & 0xF8) | 1;
                    self.irq_vblank = true;
                } else {
                    self.stat = (self.stat & 0xF8) | 2;
                }

                self.update_lyc_interrupt();
                self.update_mode_interrupt();
            }
        } else {
            if self.cnt >= 456 {
                self.cnt = self.cnt - 456;
                self.ly = self.ly + 1;

                if self.ly >= 154 {
                    self.stat = (self.stat & 0xF8) | 2;
                    self.ly = 0;

                    self.update_mode_interrupt();
                }

                self.update_lyc_interrupt();
            }
        }
    }
}

} // verus!
