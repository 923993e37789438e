pub mod debug;
pub mod registers;

use vstd::prelude::*;
use crate::io::gpu::registers::{
    bg_mode_num, with_flag16, BGMode, BgCnt, DISPSTATFlags, BldAlpha, BldCnt, Bldy, ColorSFX, Dispcnt, Dispstat, Mosaic, Ofs,
    ReferencePointCoord, RotationScalingParameter, WindowControl, DISPSTAT_HBLANK, DISPSTAT_HBLANK_IRQ_ENABLE,
    DISPSTAT_VBLANK, DISPSTAT_VBLANK_IRQ_ENABLE, DISPSTAT_VCOUNTER, DISPSTAT_VCOUNTER_IRQ_ENABLE,
};
use crate::io::interrupt_controller::{InterruptRequest, IRQ_HBLANK, IRQ_VBLANK, IRQ_VCOUNTER_MATCH};

verus! {

/// Width of the screen in pixels.
pub const WIDTH: usize = 240;
/// Height of the screen in pixels.
pub const HEIGHT: usize = 160;
/// Color value that marks a transparent pixel.
pub const TRANSPARENT_COLOR: u16 = 0x8000;

/// Bit `i` of a 16-bit word.
pub open spec fn flag16(x: u16, i: u16) -> bool {
    (x >> i) & 1 == 1
}

/// Layers that a pixel can come from.
#[derive(Clone, Copy, PartialEq, Eq, Structural)]
pub enum Layer {
    Bg0,
    Bg1,
    Bg2,
    Bg3,
    Obj,
    Bd,
}

/// Number of a layer: the backgrounds 0 to 3, objects 4, backdrop 5.
pub open spec fn layer_num(l: Layer) -> nat {
    match l {
        Layer::Bg0 => 0,
        Layer::Bg1 => 1,
        Layer::Bg2 => 2,
        Layer::Bg3 => 3,
        Layer::Obj => 4,
        Layer::Bd => 5,
    }
}

/// The layer with number `n` (below 6).
pub open spec fn layer_of(n: nat) -> Layer {
    if n == 0 { Layer::Bg0 }
    else if n == 1 { Layer::Bg1 }
    else if n == 2 { Layer::Bg2 }
    else if n == 3 { Layer::Bg3 }
    else if n == 4 { Layer::Obj }
    else { Layer::Bd }
}

impl Layer {
    pub fn from(value: usize) -> (r: Layer)
        requires
            value < 6,
        ensures
            r == layer_of(value as nat),
            layer_num(r) == value,
    {
        match value {
            0 => Layer::Bg0,
            1 => Layer::Bg1,
            2 => Layer::Bg2,
            3 => Layer::Bg3,
            4 => Layer::Obj,
            _ => Layer::Bd,
        }
    }

    pub fn num(self) -> (r: usize)
        ensures
            r == layer_num(self),
    {
        match self {
            Layer::Bg0 => 0,
            Layer::Bg1 => 1,
            Layer::Bg2 => 2,
            Layer::Bg3 => 3,
            Layer::Obj => 4,
            Layer::Bd => 5,
        }
    }
}

/// One pixel of the object layer of a scanline.
#[derive(Clone, Copy)]
pub struct OBJPixel {
    pub color: u16,
    pub priority: u8,
    pub semitransparent: bool,
}

impl OBJPixel {
    /// A transparent object pixel behind every background.
    pub fn none() -> (r: Self)
        ensures
            r.color == TRANSPARENT_COLOR,
            r.priority == 4,
            !r.semitransparent,
    {
        Self { color: TRANSPARENT_COLOR, priority: 4, semitransparent: false }
    }
}

/// The picture processing unit: display registers, palettes, video memory, and the
/// line buffers from which each scanline is composed.
pub struct Gpu {
    pub dispcnt: Dispcnt,
    pub green_swap: bool,
    pub dispstat: Dispstat,
    pub vcount: u8,
    pub bgcnts: [BgCnt; 4],
    pub hofs: [Ofs; 4],
    pub vofs: [Ofs; 4],
    pub _dxs: [RotationScalingParameter; 2],
    pub _dmxs: [RotationScalingParameter; 2],
    pub _dys: [RotationScalingParameter; 2],
    pub _dmys: [RotationScalingParameter; 2],
    pub bgxs: [ReferencePointCoord; 2],
    pub bgys: [ReferencePointCoord; 2],
    pub bgxs_latch: [ReferencePointCoord; 2],
    pub bgys_latch: [ReferencePointCoord; 2],
    pub mosaic: Mosaic,
    pub win_0_cnt: WindowControl,
    pub win_1_cnt: WindowControl,
    pub win_out_cnt: WindowControl,
    pub win_obj_cnt: WindowControl,
    pub bldcnt: BldCnt,
    pub bldalpha: BldAlpha,
    pub bldy: Bldy,
    pub bg_palettes: [u16; 0x100],
    pub obj_palettes: [u16; 0x100],
    /// Video RAM, 96 KiB.
    pub vram: Vec<u8>,
    /// Object attribute memory, 1 KiB.
    pub oam: Vec<u8>,
    pub hblank_called: bool,
    pub vblank_called: bool,
    pub rendered_frame: bool,
    /// Position within the scanline, 0 to 307.
    pub dot: u16,
    /// The four background line buffers, `WIDTH` pixels each, one after the other.
    pub bg_lines: Vec<u16>,
    /// The object line buffer.
    pub objs_line: Vec<OBJPixel>,
    /// Window membership of each pixel of the line (window 0, window 1, object
    /// window), `WIDTH` entries each.
    pub windows_lines: Vec<bool>,
    /// The frame buffer, `WIDTH * HEIGHT` colors.
    pub pixels: Vec<u16>,
}

impl Gpu {
    /// Buffer sizes and register field widths hold.
    pub open spec fn wf(&self) -> bool {
        &&& self.vram.len() == 0x18000
        &&& self.oam.len() == 0x400
        &&& self.bg_lines.len() == 4 * WIDTH
        &&& self.objs_line.len() == WIDTH
        &&& self.windows_lines.len() == 3 * WIDTH
        &&& self.pixels.len() == WIDTH * HEIGHT
        &&& self.vcount < 228
        &&& self.dot < 308
        &&& forall|i: int| 0 <= i < 4 ==> #[trigger] self.bgcnts[i].wf()
        &&& self.mosaic.wf()
        &&& self.bldalpha.eva <= 16
        &&& self.bldalpha.evb <= 16
        &&& self.bldy.evy <= 16
    }

    pub fn new() -> (r: Self)
        ensures
            r.wf(),
            r.vcount == 0 && r.dot == 0,
            r.dispcnt.flags.0 == 0 && r.dispcnt.mode == BGMode::Mode0,
            r.dispstat.flags.0 == 0 && r.dispstat.vcount_setting == 0,
            !r.hblank_called && !r.vblank_called && !r.rendered_frame,
            forall|i: int| 0 <= i < r.vram.len() ==> r.vram@[i] == 0,
            forall|i: int| 0 <= i < r.pixels.len() ==> r.pixels@[i] == 0,
            forall|i: int| 0 <= i < 0x100 ==> r.bg_palettes[i] == 0 && r.obj_palettes[i] == 0,
    {
        let gpu = Self {
            dispcnt: Dispcnt::new(),
            green_swap: false,
            dispstat: Dispstat::new(),
            vcount: 0,
            bgcnts: [BgCnt::new(), BgCnt::new(), BgCnt::new(), BgCnt::new()],
            hofs: [Ofs::new(), Ofs::new(), Ofs::new(), Ofs::new()],
            vofs: [Ofs::new(), Ofs::new(), Ofs::new(), Ofs::new()],
            _dxs: [RotationScalingParameter::new(), RotationScalingParameter::new()],
            _dmxs: [RotationScalingParameter::new(), RotationScalingParameter::new()],
            _dys: [RotationScalingParameter::new(), RotationScalingParameter::new()],
            _dmys: [RotationScalingParameter::new(), RotationScalingParameter::new()],
            bgxs: [ReferencePointCoord::new(), ReferencePointCoord::new()],
            bgys: [ReferencePointCoord::new(), ReferencePointCoord::new()],
            bgxs_latch: [ReferencePointCoord::new(), ReferencePointCoord::new()],
            bgys_latch: [ReferencePointCoord::new(), ReferencePointCoord::new()],
            mosaic: Mosaic::new(),
            win_0_cnt: WindowControl::new(),
            win_1_cnt: WindowControl::new(),
            win_out_cnt: WindowControl::new(),
            win_obj_cnt: WindowControl::new(),
            bldcnt: BldCnt::new(),
            bldalpha: BldAlpha::new(),
            bldy: Bldy::new(),
            bg_palettes: [0; 0x100],
            obj_palettes: [0; 0x100],
            vram: vec_filled_u8(0, 0x18000),
            oam: vec_filled_u8(0, 0x400),
            hblank_called: false,
            vblank_called: false,
            rendered_frame: false,
            dot: 0,
            bg_lines: vec_filled_u16(0, 4 * WIDTH),
            objs_line: vec_filled_obj(OBJPixel::none(), WIDTH),
            windows_lines: vec_filled_bool(false, 3 * WIDTH),
            pixels: vec_filled_u16(0, WIDTH * HEIGHT),
        };
        assert(gpu.bgcnts[0].wf() && gpu.bgcnts[1].wf() && gpu.bgcnts[2].wf() && gpu.bgcnts[3].wf());
        gpu
    }

    /// Maps an address in the video RAM region to an offset into the 96 KiB of VRAM:
    /// the upper 32 KiB mirror the object tiles.
    pub fn parse_vram_addr(addr: u32) -> (r: u32)
        ensures
            r == (if addr & 0x1FFFF < 0x10000 { addr & 0x1FFFF } else { (addr & 0x1FFFF) & 0x17FFF }),
            r < 0x18000,
    {
        proof {
            crate::bits::lemma_vram_addr(addr);
        }
        let addr = addr & 0x1FFFF;
        if addr < 0x10000 {
            addr
        } else {
            addr & 0x17FFF
        }
    }

    /// Offset into the object attribute memory.
    pub fn parse_oam_addr(addr: u32) -> (r: u32)
        ensures
            r == addr & 0x3FF,
            r < 0x400,
    {
        proof {
            crate::bits::lemma_and_le_u32(addr, 0x3FF);
        }
        addr & 0x3FF
    }

    /// Value of the display register byte at offset `off` (0 to 15).
    pub open spec fn register_byte(&self, off: u32) -> u8 {
        if off == 0 { self.dispcnt.read_spec(0) }
        else if off == 1 { self.dispcnt.read_spec(1) }
        else if off == 2 { if self.green_swap { 1 } else { 0 } }
        else if off == 3 { 0 }
        else if off == 4 { self.dispstat.flags.0 as u8 }
        else if off == 5 { self.dispstat.vcount_setting }
        else if off == 6 { self.vcount }
        else if off == 7 { 0 }
        else { self.bgcnts[((off - 8) / 2) as int].read_spec(((off - 8) % 2) as u8) }
    }

    /// Reads a byte of the display registers at `addr` (0x04000000 to 0x0400000F).
    pub fn read_register(&self, addr: u32) -> (r: u8)
        requires
            addr >> 12 == 0x04000,
            addr & 0xFFF < 0x10,
        ensures
            r == self.register_byte(addr & 0xFFF),
    {
        let off = addr & 0xFFF;
        match off {
            0x000 => self.dispcnt.read::<0>(),
            0x001 => self.dispcnt.read::<1>(),
            0x002 => self.green_swap as u8,
            0x003 => 0,
            0x004 => self.dispstat.read::<0>(),
            0x005 => self.dispstat.read::<1>(),
            0x006 => self.vcount,
            0x007 => 0,
            0x008 => self.bgcnts[0].read::<0>(),
            0x009 => self.bgcnts[0].read::<1>(),
            0x00A => self.bgcnts[1].read::<0>(),
            0x00B => self.bgcnts[1].read::<1>(),
            0x00C => self.bgcnts[2].read::<0>(),
            0x00D => self.bgcnts[2].read::<1>(),
            0x00E => self.bgcnts[3].read::<0>(),
            _ => self.bgcnts[3].read::<1>(),
        }
    }

    /// Writes a byte of the display registers at `addr` (0x04000000 to 0x0400000F);
    /// the vertical counter and the unused bytes ignore writes.
    pub fn write_register(&mut self, addr: u32, val: u8)
        requires
            old(self).wf(),
            addr >> 12 == 0x04000,
            addr & 0xFFF < 0x10,
            addr & 0xFFF == 0 ==> val & 7 < 6,
        ensures
            final(self).wf(),
            ({
                let off = addr & 0xFFF;
                if off < 2 {
                    *final(self) == (Gpu { dispcnt: old(self).dispcnt.written(off as u8, val), ..*old(self) })
                } else if off == 2 {
                    *final(self) == (Gpu { green_swap: val & 1 != 0, ..*old(self) })
                } else if off == 4 || off == 5 {
                    *final(self) == (Gpu { dispstat: old(self).dispstat.written((off - 4) as u8, val), ..*old(self) })
                } else if off >= 8 {
                    &&& final(self).bgcnts@ == old(self).bgcnts@.update(
                        (off - 8) / 2,
                        old(self).bgcnts[(off - 8) / 2].written(((off - 8) % 2) as u8, val),
                    )
                    &&& *final(self) == (Gpu { bgcnts: final(self).bgcnts, ..*old(self) })
                } else {
                    *final(self) == *old(self)
                }
            }),
    {
        let off = addr & 0xFFF;
        match off {
            0x000 => self.dispcnt.write::<0>(val),
            0x001 => self.dispcnt.write::<1>(val),
            0x002 => self.green_swap = val & 0x1 != 0,
            0x003 => (),
            0x004 => self.dispstat.write::<0>(val),
            0x005 => self.dispstat.write::<1>(val),
            0x006 => (),
            0x007 => (),
            0x008 => self.bgcnts[0].write::<0>(val),
            0x009 => self.bgcnts[0].write::<1>(val),
            0x00A => self.bgcnts[1].write::<0>(val),
            0x00B => self.bgcnts[1].write::<1>(val),
            0x00C => self.bgcnts[2].write::<0>(val),
            0x00D => self.bgcnts[2].write::<1>(val),
            0x00E => self.bgcnts[3].write::<0>(val),
            _ => self.bgcnts[3].write::<1>(val),
        }
    }

    /// Writes a byte of palette RAM: offsets below 0x200 are background colors, the
    /// rest object colors; bit 15 of a color is always clear.
    pub fn write_palette_ram(&mut self, addr: u32, value: u8)
        ensures
            ({
                let a = (addr & 0x3FF) as int;
                let index = (a % 0x200) / 2;
                let old_pal = if a < 0x200 { old(self).bg_palettes@ } else { old(self).obj_palettes@ };
                let new_color = if a % 2 == 0 {
                    (old_pal[index] & !0x00FFu16) | (value as u16)
                } else {
                    (old_pal[index] & !0xFF00u16) | (((value as u16) << 8u16) & !0x8000u16)
                };
                &&& a < 0x200 ==> final(self).bg_palettes@ == old_pal.update(index, new_color)
                    && *final(self) == (Gpu { bg_palettes: final(self).bg_palettes, ..*old(self) })
                &&& a >= 0x200 ==> final(self).obj_palettes@ == old_pal.update(index, new_color)
                    && *final(self) == (Gpu { obj_palettes: final(self).obj_palettes, ..*old(self) })
            }),
    {
        proof {
            crate::bits::lemma_and_le_u32(addr, 0x3FF);
        }
        let addr = (addr & 0x3FF) as usize;
        let index = (addr % 0x200) / 2;
        if addr < 0x200 {
            if addr % 2 == 0 {
                self.bg_palettes[index] = (self.bg_palettes[index] & !0x00FF) | (value as u16);
            } else {
                self.bg_palettes[index] = (self.bg_palettes[index] & !0xFF00) | (((value as u16) << 8) & !0x8000);
            }
        } else {
            if addr % 2 == 0 {
                self.obj_palettes[index] = (self.obj_palettes[index] & !0x00FF) | (value as u16);
            } else {
                self.obj_palettes[index] = (self.obj_palettes[index] & !0xFF00) | (((value as u16) << 8) & !0x8000);
            }
        }
    }

    /// Palette and color number of pixel (`tile_x`, `tile_y`) of tile `tile_num`, after
    /// flipping; (0, 0) when a background would read object tiles.
    pub open spec fn tile_color(
        &self,
        tile_start_addr: int,
        tile_num: int,
        flip_x: bool,
        flip_y: bool,
        bit_depth: int,
        tile_x: int,
        tile_y: int,
        palette_num: int,
    ) -> (int, int) {
        let addr = tile_start_addr + 8 * bit_depth * tile_num;
        if tile_start_addr < 0x10000 && addr >= 0x10000 {
            (0, 0)
        } else {
            let tx = if flip_x { 7 - tile_x } else { tile_x };
            let ty = if flip_y { 7 - tile_y } else { tile_y };
            let tile = self.vram@[addr + ty * bit_depth + tx / (8int / bit_depth)];
            if bit_depth == 8 {
                (0, tile as int)
            } else {
                (palette_num, ((tile >> (4 * (tx % 2)) as u8) & 0xF) as int)
            }
        }
    }

    fn get_color_from_tile(
        &self,
        tile_start_addr: usize,
        tile_num: usize,
        flip_x: bool,
        flip_y: bool,
        bit_depth: usize,
        tile_x: usize,
        tile_y: usize,
        palette_num: usize,
    ) -> (r: (usize, usize))
        requires
            self.wf(),
            tile_start_addr <= 0xC000,
            tile_num < 0x400,
            bit_depth == 4 || bit_depth == 8,
            tile_x < 8,
            tile_y < 8,
            palette_num < 16,
        ensures
            r.0 as int == self.tile_color(tile_start_addr as int, tile_num as int, flip_x, flip_y,
                bit_depth as int, tile_x as int, tile_y as int, palette_num as int).0,
            r.1 as int == self.tile_color(tile_start_addr as int, tile_num as int, flip_x, flip_y,
                bit_depth as int, tile_x as int, tile_y as int, palette_num as int).1,
            r.0 < 16,
            bit_depth == 4 ==> r.1 < 16,
            r.1 < 256,
    {
        assert(8 * bit_depth * tile_num <= 64 * 0x3FF) by (nonlinear_arith)
            requires
                bit_depth <= 8,
                tile_num < 0x400,
        ;
        let addr = tile_start_addr + 8 * bit_depth * tile_num;
        if tile_start_addr < 0x10000 && addr >= 0x10000 {
            return (0, 0);
        }
        let tile_x = if flip_x { 7 - tile_x } else { tile_x };
        let tile_y = if flip_y { 7 - tile_y } else { tile_y };
        let tile = self.vram[addr + tile_y * bit_depth + tile_x / (8 / bit_depth)];
        proof {
            crate::bits::lemma_u8_fields(tile);
        }
        if bit_depth == 8 {
            (0, tile as usize)
        } else {
            let shift: u8 = if tile_x % 2 == 0 { 0 } else { 4 };
            assert(shift == (4 * (tile_x % 2)) as u8);
            (palette_num, ((tile >> shift) & 0xF) as usize)
        }
    }

    /// Color of pixel `dot_x` of text background `bg` on the current line: the tile map
    /// entry under the scrolled, mosaic-snapped position selects a tile and palette.
    pub open spec fn text_pixel(&self, bg: int, dot_x: int) -> u16 {
        let bgcnt = self.bgcnts[bg];
        let x_offset = self.hofs[bg].0 as int;
        let y_offset = self.vofs[bg].0 as int;
        let tile_start_addr = bgcnt.tile_block as int * 0x4000;
        let bit_depth: int = if bgcnt.bpp8 { 8 } else { 4 };
        let mosaic_x: int = if bgcnt.mosaic { self.mosaic.bg_size.h_size as int } else { 1 };
        let mosaic_y: int = if bgcnt.mosaic { self.mosaic.bg_size.v_size as int } else { 1 };
        let x = (dot_x + x_offset) / mosaic_x * mosaic_x;
        let y = (self.vcount as int + y_offset) / mosaic_y * mosaic_y;
        let map_x = x / 8;
        let map_y = y / 8;
        let x_over = (map_x / 32) % 2 == 1;
        let y_over = (map_y / 32) % 2 == 1;
        let block: int = if bgcnt.screen_size == 0 {
            0
        } else if bgcnt.screen_size == 1 {
            if x_over { 0x800 } else { 0 }
        } else if bgcnt.screen_size == 2 {
            if y_over { 0x800 } else { 0 }
        } else {
            if x_over && y_over { 0x1800int } else if y_over { 0x1000int } else if x_over { 0x800int } else { 0int }
        };
        let addr = bgcnt.map_block as int * 0x800 + block + (map_y % 32) * 64 + (map_x % 32) * 2;
        let entry = (self.vram@[addr] as u16) | ((self.vram@[addr + 1] as u16) << 8u16);
        let c = self.tile_color(
            tile_start_addr,
            (entry & 0x3FF) as int,
            (entry >> 10u16) & 1 != 0,
            (entry >> 11u16) & 1 != 0,
            bit_depth,
            x % 8,
            y % 8,
            ((entry >> 12u16) & 0xF) as int,
        );
        if c.1 == 0 { TRANSPARENT_COLOR } else { self.bg_palettes@[c.0 * 16 + c.1] }
    }

    /// Color of pixel `dot_x` of text background `bg_i` on the current line.
    #[verifier::spinoff_prover]
    #[verifier::rlimit(30)]
    fn text_pixel_at(&self, bg_i: usize, dot_x: usize) -> (r: u16)
        requires
            self.wf(),
            bg_i < 4,
            dot_x < WIDTH,
        ensures
            r == self.text_pixel(bg_i as int, dot_x as int),
    {
        let x_offset = self.hofs[bg_i].0 as usize;
        let y_offset = self.vofs[bg_i].0 as usize;
        let bgcnt = self.bgcnts[bg_i];
        assert(bgcnt.wf());
        let tile_start_addr = bgcnt.tile_block as usize * 0x4000;
        let map_start_addr = bgcnt.map_block as usize * 0x800;
        let bit_depth: usize = if bgcnt.bpp8 { 8 } else { 4 };
        let (mosaic_x, mosaic_y) = if bgcnt.mosaic {
            (self.mosaic.bg_size.h_size as usize, self.mosaic.bg_size.v_size as usize)
        } else {
            (1usize, 1usize)
        };
        let dot_y = self.vcount as usize;
        proof {
            lemma_div_mul_le((dot_x + x_offset) as int, mosaic_x as int);
            lemma_div_mul_le((dot_y + y_offset) as int, mosaic_y as int);
        }
        let x = (dot_x + x_offset) / mosaic_x * mosaic_x;
        let y = (dot_y + y_offset) / mosaic_y * mosaic_y;
        let map_x = x / 8;
        let map_y = y / 8;
        let x_overflowed = (map_x / 32) % 2 == 1;
        let y_overflowed = (map_y / 32) % 2 == 1;
        let block: usize = if bgcnt.screen_size == 0 {
            0
        } else if bgcnt.screen_size == 1 {
            if x_overflowed { 0x800 } else { 0 }
        } else if bgcnt.screen_size == 2 {
            if y_overflowed { 0x800 } else { 0 }
        } else {
            if x_overflowed && y_overflowed {
                0x800 * 3
            } else if y_overflowed {
                0x800 * 2
            } else if x_overflowed {
                0x800
            } else {
                0
            }
        };
        let map_addr = map_start_addr + block;
        let map_x = map_x % 32;
        let map_y = map_y % 32;
        let addr = map_addr + map_y * 32 * 2 + map_x * 2;
        let screen_entry = (self.vram[addr] as u16) | ((self.vram[addr + 1] as u16) << 8);
        proof {
            crate::bits::lemma_entry_fields(screen_entry);
        }
        let tile_num = (screen_entry & 0x3FF) as usize;
        let flip_x = (screen_entry >> 10) & 0x1 != 0;
        let flip_y = (screen_entry >> 11) & 0x1 != 0;
        let palette_num = ((screen_entry >> 12) & 0xF) as usize;
        let (palette_num, color_num) = self.get_color_from_tile(
            tile_start_addr,
            tile_num,
            flip_x,
            flip_y,
            bit_depth,
            x % 8,
            y % 8,
            palette_num,
        );
        if color_num == 0 {
            TRANSPARENT_COLOR
        } else {
            self.bg_palettes[palette_num * 16 + color_num]
        }
    }

    /// Renders text background `bg` of the current line into its line buffer.
    fn render_text_line(&mut self, bg_i: usize)
        requires
            old(self).wf(),
            bg_i < 4,
        ensures
            final(self).wf(),
            forall|x: int| 0 <= x < WIDTH ==> final(self).bg_lines@[bg_i * WIDTH + x] == old(self).text_pixel(bg_i as int, x),
            forall|j: int| 0 <= j < 4 * WIDTH && !(bg_i * WIDTH <= j < bg_i * WIDTH + WIDTH)
                ==> final(self).bg_lines@[j] == old(self).bg_lines@[j],
            *final(self) == (Gpu { bg_lines: final(self).bg_lines, ..*old(self) }),
    {
        let mut dot_x: usize = 0;
        while dot_x < WIDTH
            invariant
                self.wf(),
                bg_i < 4,
                dot_x <= WIDTH,
                forall|x: int| 0 <= x < dot_x ==> self.bg_lines@[bg_i * WIDTH + x] == old(self).text_pixel(bg_i as int, x),
                forall|j: int| 0 <= j < 4 * WIDTH && !(bg_i * WIDTH <= j < bg_i * WIDTH + dot_x)
                    ==> self.bg_lines@[j] == old(self).bg_lines@[j],
                *self == (Gpu { bg_lines: self.bg_lines, ..*old(self) }),
            decreases WIDTH - dot_x,
        {
            let color = self.text_pixel_at(bg_i, dot_x);
            assert(self.text_pixel(bg_i as int, dot_x as int) == old(self).text_pixel(bg_i as int, dot_x as int));
            self.bg_lines.set(bg_i * WIDTH + dot_x, color);
            dot_x = dot_x + 1;
        }
    }

    /// The enabled backgrounds among `start..=end`, ordered by priority and, for equal
    /// priorities, by number.
    pub open spec fn sorted_bgs(&self, start: int, end: int) -> Seq<(usize, u8)> {
        sorted_bgs_of(self.dispcnt.flags.0, self.bgcnts, start, end)
    }

    /// The window control that applies at pixel `x` of the line.
    pub open spec fn window_control_spec(&self, x: int) -> WindowControl {
        if self.windows_lines@[x] {
            self.win_0_cnt
        } else if self.windows_lines@[WIDTH + x] {
            self.win_1_cnt
        } else if self.windows_lines@[2 * WIDTH + x] {
            self.win_obj_cnt
        } else if self.dispcnt.flags.0 >> 13u16 != 0 {
            self.win_out_cnt
        } else {
            WindowControl::all_spec()
        }
    }

    /// Which of BG0-BG3 and OBJ are shown at pixel `x`: enabled in DISPCNT and in the
    /// window that applies there.
    pub open spec fn enabled_spec(&self, x: int) -> Seq<bool> {
        let wc = self.window_control_spec(x);
        let f = self.dispcnt.flags.0;
        seq![
            flag16(f, 8) && wc.bg0_enable,
            flag16(f, 9) && wc.bg1_enable,
            flag16(f, 10) && wc.bg2_enable,
            flag16(f, 11) && wc.bg3_enable,
            flag16(f, 12) && wc.obj_enable,
        ]
    }

    /// Top two layers at `x` among the backgrounds and the backdrop: colors, layers and
    /// priorities.
    pub open spec fn bg_layers(&self, lines: Seq<u16>, bgs: Seq<(usize, u8)>, x: int) -> (u16, Layer, u8, u16, Layer, u8) {
        let vis = visible(lines, self.enabled_spec(x), bgs, bgs.len() as int, x);
        let bd = self.bg_palettes@[0];
        let c0 = if vis.len() > 0 { lines[vis[0].0 * WIDTH + x] } else { bd };
        let l0 = if vis.len() > 0 { layer_of(vis[0].0 as nat) } else { Layer::Bd };
        let p0 = if vis.len() > 0 { vis[0].1 } else { 4 };
        let c1 = if vis.len() > 1 { lines[vis[1].0 * WIDTH + x] } else { bd };
        let l1 = if vis.len() > 1 { layer_of(vis[1].0 as nat) } else { Layer::Bd };
        let p1 = if vis.len() > 1 { vis[1].1 } else { 4 };
        (c0, l0, p0, c1, l1, p1)
    }

    /// Top two layers at `x` once the object pixel is placed by its priority.
    pub open spec fn top_two(&self, lines: Seq<u16>, bgs: Seq<(usize, u8)>, x: int) -> (u16, Layer, u16, Layer) {
        let (c0, l0, p0, c1, l1, p1) = self.bg_layers(lines, bgs, x);
        let obj = self.objs_line@[x];
        if self.enabled_spec(x)[4] && obj.color != TRANSPARENT_COLOR {
            if obj.priority <= p0 {
                (obj.color, Layer::Obj, c0, l0)
            } else if obj.priority <= p1 {
                (c0, l0, obj.color, Layer::Obj)
            } else {
                (c0, l0, c1, l1)
            }
        } else {
            (c0, l0, c1, l1)
        }
    }

    /// Final color of pixel `x` of the line composed from the background line buffers
    /// `lines` of the backgrounds `bgs`, the object layer and the backdrop, with the
    /// color special effect applied.
    pub open spec fn pixel_spec(&self, lines: Seq<u16>, bgs: Seq<(usize, u8)>, x: int) -> u16 {
        let (c0, l0, c1, l1) = self.top_two(lines, bgs, x);
        let wc = self.window_control_spec(x);
        let trans_obj = l0 == Layer::Obj && self.objs_line@[x].semitransparent;
        let target1 = self.bldcnt.target_pixel1.enabled[layer_num(l0) as int] || trans_obj;
        let target2 = self.bldcnt.target_pixel2.enabled[layer_num(l1) as int];
        if wc.color_special_enable && target1 {
            let effect = if trans_obj && target2 { ColorSFX::AlphaBlend } else { self.bldcnt.effect };
            match effect {
                ColorSFX::NoEffect => c0,
                ColorSFX::AlphaBlend => if target2 {
                    alpha_blend(c0, c1, self.bldalpha.eva, self.bldalpha.evb)
                } else {
                    c0
                },
                ColorSFX::_BrightnessInc => brighten(c0, self.bldy.evy as u16),
                ColorSFX::_BrightnessDec => darken(c0, self.bldy.evy as u16),
            }
        } else {
            c0
        }
    }

    /// Enabled backgrounds among `start..=end` ordered by priority.
    fn sorted_backgrounds(&self, start_line: usize, end_line: usize) -> (r: Vec<(usize, u8)>)
        requires
            start_line <= end_line < 4,
        ensures
            r@ == self.sorted_bgs(start_line as int, end_line as int),
            forall|j: int| 0 <= j < r.len() ==> r@[j].0 < 4,
    {
        let mut bgs: Vec<(usize, u8)> = Vec::new();
        let mut p: u8 = 0;
        let ghost f = self.dispcnt.flags.0;
        let ghost c = self.bgcnts;
        while p < 4
            invariant
                start_line <= end_line < 4,
                p <= 4,
                p == 0 ==> bgs@ == Seq::<(usize, u8)>::empty(),
                p == 1 ==> bgs@ == bgs_in(f, c, start_line as int, end_line + 1, 0),
                p == 2 ==> bgs@ == bgs_in(f, c, start_line as int, end_line + 1, 0)
                    + bgs_in(f, c, start_line as int, end_line + 1, 1),
                p == 3 ==> bgs@ == bgs_in(f, c, start_line as int, end_line + 1, 0)
                    + bgs_in(f, c, start_line as int, end_line + 1, 1) + bgs_in(f, c, start_line as int, end_line + 1, 2),
                f == self.dispcnt.flags.0,
                c == self.bgcnts,
                p == 4 ==> bgs@ == self.sorted_bgs(start_line as int, end_line as int),
                forall|j: int| 0 <= j < bgs.len() ==> bgs@[j].0 < 4,
            decreases 4 - p,
        {
            let ghost before = bgs@;
            let mut bg = start_line;
            while bg <= end_line
                invariant
                    start_line <= bg <= end_line + 1,
                    end_line < 4,
                    p < 4,
                    bgs@ == before + bgs_in(f, c, start_line as int, bg as int, p),
                    f == self.dispcnt.flags.0,
                    c == self.bgcnts,
                    forall|j: int| 0 <= j < bgs.len() ==> bgs@[j].0 < 4,
                decreases end_line + 1 - bg,
            {
                if self.dispcnt.flags.get(8 + bg as u16) && self.bgcnts[bg].priority == p {
                    bgs.push((bg, p));
                }
                bg = bg + 1;
            }
            assert(bgs@ == before + bgs_in(f, c, start_line as int, end_line + 1, p));
            p = p + 1;
        }
        bgs
    }

    /// The window control that applies at pixel `dot_x`.
    fn window_control_at(&self, dot_x: usize) -> (r: WindowControl)
        requires
            self.wf(),
            dot_x < WIDTH,
        ensures
            r == self.window_control_spec(dot_x as int),
    {
        if self.windows_lines[dot_x] {
            self.win_0_cnt
        } else if self.windows_lines[WIDTH + dot_x] {
            self.win_1_cnt
        } else if self.windows_lines[2 * WIDTH + dot_x] {
            self.win_obj_cnt
        } else if self.dispcnt.windows_enabled() {
            self.win_out_cnt
        } else {
            WindowControl::all()
        }
    }

    /// The top two background layers at `dot_x`.
    fn background_layers(&self, bgs: &Vec<(usize, u8)>, dot_x: usize, enabled: &[bool; 5]) -> (r: (
        u16,
        Layer,
        u8,
        u16,
        Layer,
        u8,
    ))
        requires
            self.wf(),
            dot_x < WIDTH,
            forall|j: int| 0 <= j < bgs.len() ==> bgs@[j].0 < 4,
            enabled@ == self.enabled_spec(dot_x as int),
        ensures
            r == self.bg_layers(self.bg_lines@, bgs@, dot_x as int),
    {
        let bd = self.bg_palettes[0];
        let mut colors: [u16; 2] = [bd, bd];
        let mut layers: [Layer; 2] = [Layer::Bd, Layer::Bd];
        let mut priorities: [u8; 2] = [4, 4];
        let mut i: usize = 0;
        let mut k: usize = 0;
        let ghost x = dot_x as int;
        while k < bgs.len()
            invariant_except_break
                k <= bgs.len(),
                i < 2,
                i == visible(self.bg_lines@, enabled@, bgs@, k as int, x).len(),
            invariant
                self.wf(),
                dot_x < WIDTH,
                x == dot_x as int,
                forall|j: int| 0 <= j < bgs.len() ==> bgs@[j].0 < 4,
                enabled@ == self.enabled_spec(x),
                ({
                    let v = visible(self.bg_lines@, enabled@, bgs@, k as int, x);
                    &&& v.len() > 0 ==> colors[0] == self.bg_lines@[v[0].0 * WIDTH + x]
                        && layers[0] == layer_of(v[0].0 as nat) && priorities[0] == v[0].1
                    &&& v.len() == 0 ==> colors[0] == bd && layers[0] == Layer::Bd && priorities[0] == 4
                    &&& v.len() > 1 ==> colors[1] == self.bg_lines@[v[1].0 * WIDTH + x]
                        && layers[1] == layer_of(v[1].0 as nat) && priorities[1] == v[1].1
                    &&& v.len() <= 1 ==> colors[1] == bd && layers[1] == Layer::Bd && priorities[1] == 4
                }),
                bd == self.bg_palettes@[0],
            ensures
                ({
                    let v = visible(self.bg_lines@, enabled@, bgs@, k as int, x);
                    k == bgs.len() || v.len() == 2
                }),
                k <= bgs.len(),
            decreases bgs.len() - k,
        {
            let (bg_i, priority) = bgs[k];
            let idx = bg_i * WIDTH + dot_x;
            let color = self.bg_lines[idx];
            let ghost prev = visible(self.bg_lines@, enabled@, bgs@, k as int, x);
            k = k + 1;
            assert(visible(self.bg_lines@, enabled@, bgs@, k as int, x) == if color != TRANSPARENT_COLOR && enabled@[bg_i as int] {
                prev.push((bg_i, priority))
            } else {
                prev
            });
            if color != TRANSPARENT_COLOR && enabled[bg_i] {
                colors[i] = color;
                layers[i] = Layer::from(bg_i);
                priorities[i] = priority;
                if i == 0 {
                    i = i + 1;
                } else {
                    break;
                }
            }
        }
        proof {
            lemma_visible_prefix(self.bg_lines@, enabled@, bgs@, k as int, bgs.len() as int, x);
        }
        (colors[0], layers[0], priorities[0], colors[1], layers[1], priorities[1])
    }

    /// Final color of pixel `dot_x` composed from the backgrounds `bgs`.
    fn final_color(&self, bgs: &Vec<(usize, u8)>, dot_x: usize) -> (r: u16)
        requires
            self.wf(),
            dot_x < WIDTH,
            forall|j: int| 0 <= j < bgs.len() ==> bgs@[j].0 < 4,
        ensures
            r == self.pixel_spec(self.bg_lines@, bgs@, dot_x as int),
    {
        let window_control = self.window_control_at(dot_x);
        let f = &self.dispcnt.flags;
        let enabled: [bool; 5] = [
            f.get(8) && window_control.bg0_enable,
            f.get(9) && window_control.bg1_enable,
            f.get(10) && window_control.bg2_enable,
            f.get(11) && window_control.bg3_enable,
            f.get(12) && window_control.obj_enable,
        ];
        assert(enabled@ == self.enabled_spec(dot_x as int));
        let (c0, l0, p0, c1, l1, p1) = self.background_layers(bgs, dot_x, &enabled);
        let mut colors: [u16; 2] = [c0, c1];
        let mut layers: [Layer; 2] = [l0, l1];
        let obj = self.objs_line[dot_x];
        if enabled[4] && obj.color != TRANSPARENT_COLOR {
            if obj.priority <= p0 {
                colors[1] = colors[0];
                layers[1] = layers[0];
                colors[0] = obj.color;
                layers[0] = Layer::Obj;
            } else if obj.priority <= p1 {
                colors[1] = obj.color;
                layers[1] = Layer::Obj;
            }
        }
        let trans_obj = layers[0] == Layer::Obj && obj.semitransparent;
        let target1_enabled = self.bldcnt.target_pixel1.enabled[layers[0].num()] || trans_obj;
        let target2_enabled = self.bldcnt.target_pixel2.enabled[layers[1].num()];
        if window_control.color_special_enable && target1_enabled {
            let effect = if trans_obj && target2_enabled {
                ColorSFX::AlphaBlend
            } else {
                self.bldcnt.effect
            };
            match effect {
                ColorSFX::NoEffect => colors[0],
                ColorSFX::AlphaBlend => {
                    if target2_enabled {
                        blend_colors(colors[0], colors[1], self.bldalpha.eva, self.bldalpha.evb)
                    } else {
                        colors[0]
                    }
                },
                ColorSFX::_BrightnessInc => brighten_color(colors[0], self.bldy.evy as u16),
                ColorSFX::_BrightnessDec => darken_color(colors[0], self.bldy.evy as u16),
            }
        } else {
            colors[0]
        }
    }

    /// Composes scanline `vcount` of the frame from the background lines `start_line`
    /// to `end_line`, the object line and the backdrop, applying windows and color
    /// special effects, and clears the window masks of the line.
    pub fn process_lines(&mut self, start_line: usize, end_line: usize)
        requires
            old(self).wf(),
            start_line <= end_line < 4,
            old(self).vcount < HEIGHT,
        ensures
            final(self).wf(),
            final(self).pixels.len() == old(self).pixels.len(),
            forall|x: int| 0 <= x < WIDTH ==> #[trigger] final(self).pixels@[old(self).vcount * WIDTH + x]
                == old(self).pixel_spec(old(self).bg_lines@, old(self).sorted_bgs(start_line as int, end_line as int), x),
            forall|i: int| 0 <= i < final(self).pixels.len() && !(old(self).vcount * WIDTH <= i < old(self).vcount * WIDTH + WIDTH)
                ==> final(self).pixels@[i] == old(self).pixels@[i],
            forall|i: int| 0 <= i < 3 * WIDTH ==> !final(self).windows_lines@[i],
            *final(self) == (Gpu { pixels: final(self).pixels, windows_lines: final(self).windows_lines, ..*old(self) }),
    {
        let start_index = self.vcount as usize * WIDTH;
        assert(start_index + WIDTH <= WIDTH * HEIGHT) by (nonlinear_arith)
            requires
                start_index == self.vcount * 240,
                self.vcount < 160,
        ;
        let bgs = self.sorted_backgrounds(start_line, end_line);
        let mut line: Vec<u16> = Vec::with_capacity(WIDTH);
        let mut dot_x: usize = 0;
        while dot_x < WIDTH
            invariant
                self.wf(),
                dot_x <= WIDTH,
                line.len() == dot_x,
                forall|j: int| 0 <= j < bgs.len() ==> bgs@[j].0 < 4,
                bgs@ == self.sorted_bgs(start_line as int, end_line as int),
                forall|x: int| 0 <= x < dot_x ==> line@[x] == self.pixel_spec(self.bg_lines@, bgs@, x),
            decreases WIDTH - dot_x,
        {
            let color = self.final_color(&bgs, dot_x);
            line.push(color);
            dot_x = dot_x + 1;
        }
        let mut dot_x: usize = 0;
        while dot_x < WIDTH
            invariant
                self.wf(),
                dot_x <= WIDTH,
                line.len() == WIDTH,
                start_index == old(self).vcount * WIDTH,
                start_index + WIDTH <= self.pixels.len(),
                forall|x: int| 0 <= x < WIDTH ==> line@[x] == old(self).pixel_spec(old(self).bg_lines@,
                    old(self).sorted_bgs(start_line as int, end_line as int), x),
                forall|x: int| 0 <= x < dot_x ==> #[trigger] self.pixels@[start_index + x] == line@[x],
                forall|i: int| 0 <= i < self.pixels.len() && !(start_index <= i < start_index + dot_x)
                    ==> self.pixels@[i] == old(self).pixels@[i],
                forall|x: int|
                    #![trigger self.windows_lines@[x]]
                    0 <= x < dot_x ==> !self.windows_lines@[x] && !self.windows_lines@[WIDTH + x]
                        && !self.windows_lines@[2 * WIDTH + x],
                *self == (Gpu { pixels: self.pixels, windows_lines: self.windows_lines, ..*old(self) }),
            decreases WIDTH - dot_x,
        {
            self.windows_lines.set(dot_x, false);
            self.windows_lines.set(WIDTH + dot_x, false);
            self.windows_lines.set(2 * WIDTH + dot_x, false);
            self.pixels.set(start_index + dot_x, line[dot_x]);
            dot_x = dot_x + 1;
        }
        assert forall|i: int| 0 <= i < 3 * WIDTH implies !self.windows_lines@[i] by {
            if i < WIDTH {
            } else if i < 2 * WIDTH {
                assert(!self.windows_lines@[i - WIDTH]);
            } else {
                assert(!self.windows_lines@[i - 2 * WIDTH]);
            }
        }
    }

    /// Color of pixel `x` of background 2 on the current line in the bitmap modes:
    /// a 15-bit color from video RAM in mode 3, a palette entry in mode 4 (from the
    /// frame that DISPCNT selects), at the mosaic-snapped position.
    pub open spec fn bitmap_pixel(&self, x: int) -> u16 {
        let mx: int = if self.bgcnts[2].mosaic { self.mosaic.bg_size.h_size as int } else { 1 };
        let my: int = if self.bgcnts[2].mosaic { self.mosaic.bg_size.v_size as int } else { 1 };
        let y = self.vcount as int / my * my;
        let xx = x / mx * mx;
        if bg_mode_num(self.dispcnt.mode) == 3 {
            let addr = (y * WIDTH + xx) * 2;
            (self.vram@[addr] as u16) | ((self.vram@[addr + 1] as u16) << 8u16)
        } else {
            let start = (if self.dispcnt.flags.flag(4) { 0xA000int } else { 0int }) + y * WIDTH;
            self.bg_palettes@[self.vram@[start + xx] as int]
        }
    }

    /// Pixel `x` of the line buffer of background `b` once the current line is drawn:
    /// in mode 0 each displayed background holds its text pixels, in modes 3 and 4
    /// background 2 holds the bitmap, and every other buffer keeps its contents.
    pub open spec fn rendered_pixel(&self, b: int, x: int) -> u16 {
        let m = bg_mode_num(self.dispcnt.mode);
        if m == 0 && flag16(self.dispcnt.flags.0, (8 + b) as u16) {
            self.text_pixel(b, x)
        } else if (m == 3 || m == 4) && b == 2 {
            self.bitmap_pixel(x)
        } else {
            self.bg_lines@[b * WIDTH + x]
        }
    }

    /// The current line can be drawn: background mode 0, 3 or 4, and neither the
    /// objects nor windows 0 and 1 displayed.
    pub open spec fn renderable(&self) -> bool {
        let m = bg_mode_num(self.dispcnt.mode);
        &&& m == 0 || m == 3 || m == 4
        &&& !self.dispcnt.flags.flag(12)
        &&& !self.dispcnt.flags.flag(13)
        &&& !self.dispcnt.flags.flag(14)
    }

    /// First and last background composed in the current mode.
    pub open spec fn composed_range(&self) -> (int, int) {
        if bg_mode_num(self.dispcnt.mode) == 0 { (0, 3) } else { (2, 2) }
    }

    /// What drawing a line reads is the same in `self` and `other`.
    pub open spec fn same_picture_inputs(&self, other: &Gpu) -> bool {
        &&& self.dispcnt == other.dispcnt
        &&& self.vcount == other.vcount
        &&& self.bgcnts == other.bgcnts
        &&& self.hofs == other.hofs
        &&& self.vofs == other.vofs
        &&& self.mosaic == other.mosaic
        &&& self.win_0_cnt == other.win_0_cnt
        &&& self.win_1_cnt == other.win_1_cnt
        &&& self.win_out_cnt == other.win_out_cnt
        &&& self.win_obj_cnt == other.win_obj_cnt
        &&& self.bldcnt == other.bldcnt
        &&& self.bldalpha == other.bldalpha
        &&& self.bldy == other.bldy
        &&& self.bg_palettes == other.bg_palettes
        &&& self.vram@ == other.vram@
        &&& self.objs_line@ == other.objs_line@
        &&& self.windows_lines@ == other.windows_lines@
    }

    /// Drawing reads only the picture inputs.
    proof fn lemma_picture_frame(&self, other: &Gpu)
        requires
            self.same_picture_inputs(other),
        ensures
            forall|b: int, x: int| #[trigger] self.text_pixel(b, x) == other.text_pixel(b, x),
            forall|x: int| #[trigger] self.bitmap_pixel(x) == other.bitmap_pixel(x),
            forall|l: Seq<u16>, bgs: Seq<(usize, u8)>, x: int|
                #[trigger] self.pixel_spec(l, bgs, x) == other.pixel_spec(l, bgs, x),
            forall|s: int, e: int| #[trigger] self.sorted_bgs(s, e) == other.sorted_bgs(s, e),
            self.composed_range() == other.composed_range(),
            self.renderable() == other.renderable(),
    {
        assert forall|b: int, x: int| #[trigger] self.text_pixel(b, x) == other.text_pixel(b, x) by {
            self.lemma_text_pixel_frame(other, b, x);
        }
        assert forall|l: Seq<u16>, bgs: Seq<(usize, u8)>, x: int|
            #[trigger] self.pixel_spec(l, bgs, x) == other.pixel_spec(l, bgs, x) by {
            self.lemma_pixel_frame(other, l, bgs, x);
        }
    }

    proof fn lemma_text_pixel_frame(&self, other: &Gpu, b: int, x: int)
        requires
            self.same_picture_inputs(other),
        ensures
            self.text_pixel(b, x) == other.text_pixel(b, x),
    {
        let bgcnt = self.bgcnts[b];
        assert(bgcnt == other.bgcnts[b]);
        assert(self.hofs[b] == other.hofs[b]);
        assert(self.vofs[b] == other.vofs[b]);
    }

    proof fn lemma_pixel_frame(&self, other: &Gpu, l: Seq<u16>, bgs: Seq<(usize, u8)>, x: int)
        requires
            self.same_picture_inputs(other),
        ensures
            self.pixel_spec(l, bgs, x) == other.pixel_spec(l, bgs, x),
    {
        assert(self.window_control_spec(x) == other.window_control_spec(x));
        assert(self.enabled_spec(x) == other.enabled_spec(x));
        assert(self.bg_layers(l, bgs, x) == other.bg_layers(l, bgs, x));
        assert(self.objs_line@[x] == other.objs_line@[x]);
        assert(self.top_two(l, bgs, x) == other.top_two(l, bgs, x));
    }

    /// Draws the text backgrounds of mode 0 that DISPCNT displays.
    fn render_text_backgrounds(&mut self)
        requires
            old(self).wf(),
            bg_mode_num(old(self).dispcnt.mode) == 0,
        ensures
            final(self).wf(),
            forall|b: int, x: int| 0 <= b < 4 && 0 <= x < WIDTH ==>
                #[trigger] final(self).bg_lines@[b * WIDTH + x] == old(self).rendered_pixel(b, x),
            *final(self) == (Gpu { bg_lines: final(self).bg_lines, ..*old(self) }),
    {
        let mut bg: usize = 0;
        while bg < 4
            invariant
                self.wf(),
                bg <= 4,
                bg_mode_num(old(self).dispcnt.mode) == 0,
                *self == (Gpu { bg_lines: self.bg_lines, ..*old(self) }),
                forall|b: int, x: int| 0 <= b < 4 && 0 <= x < WIDTH ==>
                    #[trigger] self.bg_lines@[b * WIDTH + x] == if b < bg {
                        old(self).rendered_pixel(b, x)
                    } else {
                        old(self).bg_lines@[b * WIDTH + x]
                    },
            decreases 4 - bg,
        {
            if self.dispcnt.flags.get(8 + bg as u16) {
                let ghost before = *self;
                self.render_text_line(bg);
                proof {
                    before.lemma_picture_frame(old(self));
                    assert forall|b: int, x: int| 0 <= b < 4 && 0 <= x < WIDTH implies
                        #[trigger] self.bg_lines@[b * WIDTH + x] == if b < bg + 1 {
                            old(self).rendered_pixel(b, x)
                        } else {
                            old(self).bg_lines@[b * WIDTH + x]
                        } by {
                        if b == bg {
                            assert(before.text_pixel(b, x) == old(self).text_pixel(b, x));
                        } else {
                            assert(!(bg * WIDTH <= b * WIDTH + x < bg * WIDTH + WIDTH)) by (nonlinear_arith)
                                requires
                                    b != bg,
                                    0 <= x < 240,
                                    WIDTH == 240,
                            ;
                            assert(before.bg_lines@[b * WIDTH + x] == if b < bg {
                                old(self).rendered_pixel(b, x)
                            } else {
                                old(self).bg_lines@[b * WIDTH + x]
                            });
                        }
                    }
                }
            }
            bg = bg + 1;
        }
    }

    /// Draws background 2 of the bitmap modes 3 and 4 into its line buffer.
    fn render_bitmap_line(&mut self)
        requires
            old(self).wf(),
            old(self).vcount < HEIGHT,
            bg_mode_num(old(self).dispcnt.mode) == 3 || bg_mode_num(old(self).dispcnt.mode) == 4,
        ensures
            final(self).wf(),
            forall|b: int, x: int| 0 <= b < 4 && 0 <= x < WIDTH ==>
                #[trigger] final(self).bg_lines@[b * WIDTH + x] == old(self).rendered_pixel(b, x),
            *final(self) == (Gpu { bg_lines: final(self).bg_lines, ..*old(self) }),
    {
        let (mosaic_x, mosaic_y) = if self.bgcnts[2].mosaic {
            (self.mosaic.bg_size.h_size as usize, self.mosaic.bg_size.v_size)
        } else {
            (1usize, 1u8)
        };
        proof {
            lemma_div_mul_le(self.vcount as int, mosaic_y as int);
        }
        let y = self.vcount / mosaic_y * mosaic_y;
        let mode3 = self.dispcnt.mode.num() == 3;
        let start_addr: usize = if self.dispcnt.flags.get(4) { 0xA000 } else { 0 };
        let mut dot_x: usize = 0;
        while dot_x < WIDTH
            invariant
                self.wf(),
                dot_x <= WIDTH,
                old(self).vcount < HEIGHT,
                y as int == old(self).vcount as int / mosaic_y as int * mosaic_y as int,
                y < HEIGHT,
                mosaic_x as int == (if old(self).bgcnts[2].mosaic { old(self).mosaic.bg_size.h_size as int } else { 1 }),
                mosaic_y as int == (if old(self).bgcnts[2].mosaic { old(self).mosaic.bg_size.v_size as int } else { 1 }),
                1 <= mosaic_x,
                mode3 == (bg_mode_num(old(self).dispcnt.mode) == 3),
                bg_mode_num(old(self).dispcnt.mode) == 3 || bg_mode_num(old(self).dispcnt.mode) == 4,
                start_addr == (if old(self).dispcnt.flags.flag(4) { 0xA000int } else { 0int }),
                *self == (Gpu { bg_lines: self.bg_lines, ..*old(self) }),
                forall|b: int, x: int| 0 <= b < 4 && 0 <= x < WIDTH ==>
                    #[trigger] self.bg_lines@[b * WIDTH + x] == if b == 2 && x < dot_x {
                        old(self).rendered_pixel(b, x)
                    } else {
                        old(self).bg_lines@[b * WIDTH + x]
                    },
            decreases WIDTH - dot_x,
        {
            proof {
                lemma_div_mul_le(dot_x as int, mosaic_x as int);
            }
            let x = dot_x / mosaic_x * mosaic_x;
            assert(y as int * 240 + x <= 159 * 240 + 239) by (nonlinear_arith)
                requires
                    y < 160,
                    x < 240,
            ;
            let color = if mode3 {
                let addr = (y as usize * WIDTH + x) * 2;
                (self.vram[addr] as u16) | ((self.vram[addr + 1] as u16) << 8)
            } else {
                let i = self.vram[start_addr + y as usize * WIDTH + x];
                self.bg_palettes[i as usize]
            };
            let ghost before = self.bg_lines@;
            self.bg_lines.set(2 * WIDTH + dot_x, color);
            proof {
                assert forall|b: int, xx: int| 0 <= b < 4 && 0 <= xx < WIDTH implies
                    #[trigger] self.bg_lines@[b * WIDTH + xx] == if b == 2 && xx < dot_x + 1 {
                        old(self).rendered_pixel(b, xx)
                    } else {
                        old(self).bg_lines@[b * WIDTH + xx]
                    } by {
                    if b == 2 && xx == dot_x {
                    } else {
                        assert(b * WIDTH + xx != 2 * WIDTH + dot_x) by (nonlinear_arith)
                            requires
                                !(b == 2 && xx == dot_x),
                                0 <= xx < 240,
                                dot_x < 240,
                                WIDTH == 240,
                        ;
                        assert(before[b * WIDTH + xx] == if b == 2 && xx < dot_x {
                            old(self).rendered_pixel(b, xx)
                        } else {
                            old(self).bg_lines@[b * WIDTH + xx]
                        });
                    }
                }
            }
            dot_x = dot_x + 1;
        }
    }

    /// Draws the current line: renders the backgrounds of the mode into their line
    /// buffers and composes them into the frame.
    pub fn render_line(&mut self)
        requires
            old(self).wf(),
            old(self).vcount < HEIGHT,
            old(self).renderable(),
        ensures
            final(self).wf(),
            final(self).line_drawn(old(self)),
            *final(self) == (Gpu {
                bg_lines: final(self).bg_lines,
                pixels: final(self).pixels,
                windows_lines: final(self).windows_lines,
                ..*old(self)
            }),
    {
        if self.dispcnt.mode.num() == 0 {
            self.render_text_backgrounds();
            let ghost mid = *self;
            self.process_lines(0, 3);
            proof {
                mid.lemma_picture_frame(old(self));
            }
        } else {
            self.render_bitmap_line();
            let ghost mid = *self;
            self.process_lines(2, 2);
            proof {
                mid.lemma_picture_frame(old(self));
            }
        }
    }

    /// Line counter after the current dot: the next line once the last dot (307) of
    /// a line is done, wrapping after line 227.
    pub open spec fn next_vcount(&self) -> u8 {
        if self.dot == 307 { ((self.vcount + 1) % 228) as u8 } else { self.vcount }
    }

    /// Dot counter after the current dot.
    pub open spec fn next_dot(&self) -> u16 {
        if self.dot == 307 { 0 } else { (self.dot + 1) as u16 }
    }

    /// DISPSTAT status bits after the current dot: H-blank cleared on the visible dots
    /// and set at dot 250, V-blank set exactly outside the visible lines, V-counter
    /// match recomputed when a new line starts.
    pub open spec fn status_after_dot(&self) -> u16 {
        let f0 = self.dispstat.flags.0;
        let f1 = if self.dot < 240 {
            with_flag16(f0, 1, false)
        } else if self.dot == 250 {
            with_flag16(f0, 1, true)
        } else {
            f0
        };
        let f2 = with_flag16(f1, 0, self.vcount >= 160);
        if self.dot == 307 {
            with_flag16(f2, 2, self.next_vcount() == self.dispstat.vcount_setting)
        } else {
            f2
        }
    }

    /// Interrupts raised by the current dot: H-blank at dot 240, V-blank at the start of
    /// line 160, V-counter match when the new line equals the V-count setting, each if
    /// enabled in DISPSTAT.
    pub open spec fn dot_interrupts(&self) -> u16 {
        let f = self.dispstat.flags;
        let i1: u16 = if self.dot == 240 && f.flag(4) { 0u16 | (1u16 << 1u16) } else { 0 };
        let i2: u16 = if self.vcount == 160 && self.dot == 0 && f.flag(3) { i1 | (1u16 << 0u16) } else { i1 };
        if self.dot == 307 && self.next_vcount() == self.dispstat.vcount_setting && f.flag(5) {
            i2 | (1u16 << 2u16)
        } else {
            i2
        }
    }

    /// `self` holds the line of `before` drawn: every background line buffer holds the
    /// pixels of the mode, the row `vcount` of the frame holds the composed line, the
    /// other rows are unchanged and the window masks of the line are cleared.
    pub open spec fn line_drawn(&self, before: &Gpu) -> bool {
        let (s, e) = before.composed_range();
        &&& forall|b: int, x: int| 0 <= b < 4 && 0 <= x < WIDTH ==>
            #[trigger] self.bg_lines@[b * WIDTH + x] == before.rendered_pixel(b, x)
        &&& forall|x: int| 0 <= x < WIDTH ==> #[trigger] self.pixels@[before.vcount * WIDTH + x]
            == before.pixel_spec(self.bg_lines@, before.sorted_bgs(s, e), x)
        &&& forall|i: int| 0 <= i < self.pixels.len() && !(before.vcount * WIDTH <= i < before.vcount * WIDTH + WIDTH)
            ==> self.pixels@[i] == before.pixels@[i]
        &&& forall|i: int| 0 <= i < 3 * WIDTH ==> !self.windows_lines@[i]
    }

    /// Drawing the line of a state with the same picture inputs and buffers draws the
    /// same line.
    proof fn lemma_line_drawn_frame(&self, a: &Gpu, b: &Gpu)
        requires
            a.same_picture_inputs(b),
            a.bg_lines@ == b.bg_lines@,
            a.pixels@ == b.pixels@,
            self.line_drawn(a),
        ensures
            self.line_drawn(b),
    {
        a.lemma_picture_frame(b);
        assert forall|bg: int, x: int| 0 <= bg < 4 && 0 <= x < WIDTH implies
            #[trigger] a.rendered_pixel(bg, x) == b.rendered_pixel(bg, x) by {
            assert(a.text_pixel(bg, x) == b.text_pixel(bg, x));
            assert(a.bitmap_pixel(x) == b.bitmap_pixel(x));
        }
        let (s, e) = a.composed_range();
        assert(a.sorted_bgs(s, e) == b.sorted_bgs(s, e));
        assert forall|x: int| 0 <= x < WIDTH implies #[trigger] self.pixels@[b.vcount * WIDTH + x]
            == b.pixel_spec(self.bg_lines@, b.sorted_bgs(s, e), x) by {
            assert(a.pixel_spec(self.bg_lines@, a.sorted_bgs(s, e), x) == b.pixel_spec(self.bg_lines@, b.sorted_bgs(s, e), x));
        }
    }

    /// The status and interrupt work of a dot, before the line is drawn and the
    /// counters advance.
    fn dot_status(&mut self) -> (r: InterruptRequest)
        requires
            old(self).wf(),
        ensures
            final(self).wf(),
            r.0 == (if old(self).dot == 240 && old(self).dispstat.flags.flag(4) { 0u16 | (1u16 << 1u16) } else { 0 }),
            *final(self) == (Gpu {
                dispstat: Dispstat {
                    flags: DISPSTATFlags(with_flag16(
                        if old(self).dot < 240 {
                            with_flag16(old(self).dispstat.flags.0, 1, false)
                        } else if old(self).dot == 250 {
                            with_flag16(old(self).dispstat.flags.0, 1, true)
                        } else {
                            old(self).dispstat.flags.0
                        },
                        0,
                        old(self).vcount >= 160,
                    )),
                    ..old(self).dispstat
                },
                hblank_called: old(self).hblank_called || (old(self).dot == 250 && old(self).vcount < HEIGHT),
                vblank_called: old(self).vblank_called || (old(self).vcount == 160 && old(self).dot == 0),
                rendered_frame: old(self).rendered_frame || (old(self).vcount == 160 && old(self).dot == 0),
                ..*old(self)
            }),
    {
        let mut interrupts = InterruptRequest::empty();
        if self.dot < 240 {
            self.dispstat.set_flag(DISPSTAT_HBLANK, false);
        } else if self.dot == 240 {
            if self.dispstat.contains(DISPSTAT_HBLANK_IRQ_ENABLE) {
                interrupts.insert(IRQ_HBLANK);
            }
        } else if self.dot == 250 {
            self.dispstat.set_flag(DISPSTAT_HBLANK, true);
            if self.vcount < 160 {
                self.hblank_called = true;
            }
        }
        if self.vcount < 160 && self.vcount != 227 {
            self.dispstat.set_flag(DISPSTAT_VBLANK, false);
        } else {
            if self.vcount == 160 && self.dot == 0 {
                self.vblank_called = true;
            }
            self.dispstat.set_flag(DISPSTAT_VBLANK, true);
        }
        if self.vcount == 160 && self.dot == 0 {
            self.rendered_frame = true;
        }
        interrupts
    }

    /// Advances the dot and line counters, latching the affine reference points at the
    /// end of the frame and updating the V-counter match bit on a new line.
    fn advance_counters(&mut self) -> (matched: bool)
        requires
            old(self).wf(),
        ensures
            final(self).wf(),
            matched == (old(self).dot == 307 && old(self).next_vcount() == old(self).dispstat.vcount_setting),
            *final(self) == (Gpu {
                dispstat: Dispstat {
                    flags: DISPSTATFlags(if old(self).dot == 307 {
                        with_flag16(old(self).dispstat.flags.0, 2, old(self).next_vcount() == old(self).dispstat.vcount_setting)
                    } else {
                        old(self).dispstat.flags.0
                    }),
                    ..old(self).dispstat
                },
                vcount: old(self).next_vcount(),
                dot: old(self).next_dot(),
                bgxs_latch: if old(self).dot == 307 && old(self).vcount == 227 { old(self).bgxs } else { old(self).bgxs_latch },
                bgys_latch: if old(self).dot == 307 && old(self).vcount == 227 { old(self).bgys } else { old(self).bgys_latch },
                ..*old(self)
            }),
            final(self).vcount * 308 + final(self).dot == (old(self).vcount * 308 + old(self).dot + 1) % (228 * 308int),
    {
        let mut matched = false;
        self.dot = self.dot + 1;
        if self.dot == 308 {
            self.dot = 0;
            if self.vcount == 227 {
                self.bgxs_latch = self.bgxs;
                self.bgys_latch = self.bgys;
            }
            self.vcount = (self.vcount + 1) % 228;
            if self.vcount == self.dispstat.vcount_setting {
                self.dispstat.set_flag(DISPSTAT_VCOUNTER, true);
                matched = true;
            } else {
                self.dispstat.set_flag(DISPSTAT_VCOUNTER, false);
            }
        }
        proof {
            lemma_dot_position(old(self).vcount, old(self).dot, self.vcount, self.dot);
        }
        matched
    }

    /// Advances the display by one dot (one of the 308 dots of each of the 228 lines),
    /// updating the status register and the H-blank and V-blank indications, drawing
    /// the line at dot 241 of the visible lines, and returning the interrupts raised.
    pub fn emulate_dot(&mut self) -> (r: InterruptRequest)
        requires
            old(self).wf(),
            old(self).vcount < HEIGHT && old(self).dot == 241 ==> old(self).renderable(),
        ensures
            final(self).wf(),
            r.0 == old(self).dot_interrupts(),
            final(self).vcount * 308 + final(self).dot == (old(self).vcount * 308 + old(self).dot + 1) % (228 * 308int),
            old(self).vcount < HEIGHT && old(self).dot == 241 ==> final(self).line_drawn(old(self)),
            !(old(self).vcount < HEIGHT && old(self).dot == 241) ==> final(self).bg_lines == old(self).bg_lines
                && final(self).pixels == old(self).pixels && final(self).windows_lines == old(self).windows_lines,
            *final(self) == (Gpu {
                dispstat: Dispstat { flags: DISPSTATFlags(old(self).status_after_dot()), ..old(self).dispstat },
                vcount: old(self).next_vcount(),
                dot: old(self).next_dot(),
                hblank_called: old(self).hblank_called || (old(self).dot == 250 && old(self).vcount < HEIGHT),
                vblank_called: old(self).vblank_called || (old(self).vcount == 160 && old(self).dot == 0),
                rendered_frame: old(self).rendered_frame || (old(self).vcount == 160 && old(self).dot == 0),
                bgxs_latch: if old(self).dot == 307 && old(self).vcount == 227 { old(self).bgxs } else { old(self).bgxs_latch },
                bgys_latch: if old(self).dot == 307 && old(self).vcount == 227 { old(self).bgys } else { old(self).bgys_latch },
                bg_lines: final(self).bg_lines,
                pixels: final(self).pixels,
                windows_lines: final(self).windows_lines,
                ..*old(self)
            }),
    {
        let vblank_irq = self.dispstat.contains(DISPSTAT_VBLANK_IRQ_ENABLE);
        let vcounter_irq = self.dispstat.contains(DISPSTAT_VCOUNTER_IRQ_ENABLE);
        let mut interrupts = self.dot_status();
        if self.vcount < 160 && self.vcount != 227 && self.dot == 241 {
            let ghost mid = *self;
            self.render_line();
            proof {
                self.lemma_line_drawn_frame(&mid, old(self));
            }
        }
        if self.vcount == 160 && self.dot == 0 && vblank_irq {
            interrupts.insert(IRQ_VBLANK);
        }
        let matched = self.advance_counters();
        if matched && vcounter_irq {
            interrupts.insert(IRQ_VCOUNTER_MATCH);
        }
        interrupts
    }

    /// Whether an H-blank started since the last call; clears the indication.
    pub fn hblank_called(&mut self) -> (r: bool)
        ensures
            r == old(self).hblank_called,
            !final(self).hblank_called,
            *final(self) == (Gpu { hblank_called: false, ..*old(self) }),
    {
        let hblank_called = self.hblank_called;
        self.hblank_called = false;
        hblank_called
    }

    /// Whether a V-blank started since the last call; clears the indication.
    pub fn vblank_called(&mut self) -> (r: bool)
        ensures
            r == old(self).vblank_called,
            *final(self) == (Gpu { vblank_called: false, ..*old(self) }),
    {
        let vblank_called = self.vblank_called;
        self.vblank_called = false;
        vblank_called
    }
}

/// Whether background `bg` is enabled in the DISPCNT `flags` and has priority `p`.
pub open spec fn bg_has_priority(flags: u16, bgcnts: [BgCnt; 4], bg: int, p: u8) -> bool {
    flag16(flags, (8 + bg) as u16) && bgcnts[bg].priority == p
}

/// The enabled backgrounds among `lo..hi` with priority `p`, in increasing order.
pub open spec fn bgs_in(flags: u16, bgcnts: [BgCnt; 4], lo: int, hi: int, p: u8) -> Seq<(usize, u8)>
    decreases hi - lo,
{
    if hi <= lo {
        Seq::empty()
    } else {
        let r = bgs_in(flags, bgcnts, lo, hi - 1, p);
        if bg_has_priority(flags, bgcnts, hi - 1, p) { r.push(((hi - 1) as usize, p)) } else { r }
    }
}

/// The enabled backgrounds among `start..=end`, ordered by priority and, for equal
/// priorities, by number.
pub open spec fn sorted_bgs_of(flags: u16, bgcnts: [BgCnt; 4], start: int, end: int) -> Seq<(usize, u8)> {
    bgs_in(flags, bgcnts, start, end + 1, 0) + bgs_in(flags, bgcnts, start, end + 1, 1)
        + bgs_in(flags, bgcnts, start, end + 1, 2) + bgs_in(flags, bgcnts, start, end + 1, 3)
}

/// The backgrounds of `bgs[..k]` that have an opaque pixel at `x` in the line buffers
/// `lines` and are shown there according to `enabled`.
pub open spec fn visible(lines: Seq<u16>, enabled: Seq<bool>, bgs: Seq<(usize, u8)>, k: int, x: int) -> Seq<(usize, u8)>
    decreases k,
{
    if k <= 0 {
        Seq::empty()
    } else {
        let r = visible(lines, enabled, bgs, k - 1, x);
        let b = bgs[k - 1];
        if lines[b.0 * WIDTH + x] != TRANSPARENT_COLOR && enabled[b.0 as int] {
            r.push(b)
        } else {
            r
        }
    }
}

/// Visibility among a prefix of the backgrounds is a prefix of visibility among more.
proof fn lemma_visible_prefix(lines: Seq<u16>, enabled: Seq<bool>, bgs: Seq<(usize, u8)>, k: int, n: int, x: int)
    requires
        0 <= k <= n,
    ensures
        visible(lines, enabled, bgs, n, x).len() >= visible(lines, enabled, bgs, k, x).len(),
        forall|j: int| 0 <= j < visible(lines, enabled, bgs, k, x).len()
            ==> visible(lines, enabled, bgs, n, x)[j] == visible(lines, enabled, bgs, k, x)[j],
    decreases n - k,
{
    if k < n {
        lemma_visible_prefix(lines, enabled, bgs, k, n - 1, x);
    }
}

/// Advancing the dot counter advances the position within the frame by one.
proof fn lemma_dot_position(v: u8, d: u16, nv: u8, nd: u16)
    by (nonlinear_arith)
    requires
        v < 228,
        d < 308,
        d == 307 ==> nd == 0 && nv == (v + 1) % 228,
        d != 307 ==> nd == d + 1 && nv == v,
    ensures
        nv * 308 + nd == (v * 308 + d + 1) % (228 * 308int),
{
}

/// A vector of `n` copies of `v`.
pub fn vec_filled_u8(v: u8, n: usize) -> (r: Vec<u8>)
    ensures
        r.len() == n,
        forall|i: int| 0 <= i < n ==> r@[i] == v,
{
    let mut r: Vec<u8> = Vec::with_capacity(n);
    while r.len() < n
        invariant
            r.len() <= n,
            forall|i: int| 0 <= i < r.len() ==> r@[i] == v,
        decreases n - r.len(),
    {
        r.push(v);
    }
    r
}

/// A vector of `n` copies of `v`.
pub fn vec_filled_u16(v: u16, n: usize) -> (r: Vec<u16>)
    ensures
        r.len() == n,
        forall|i: int| 0 <= i < n ==> r@[i] == v,
{
    let mut r: Vec<u16> = Vec::with_capacity(n);
    while r.len() < n
        invariant
            r.len() <= n,
            forall|i: int| 0 <= i < r.len() ==> r@[i] == v,
        decreases n - r.len(),
    {
        r.push(v);
    }
    r
}

/// A vector of `n` copies of `v`.
pub fn vec_filled_bool(v: bool, n: usize) -> (r: Vec<bool>)
    ensures
        r.len() == n,
        forall|i: int| 0 <= i < n ==> r@[i] == v,
{
    let mut r: Vec<bool> = Vec::with_capacity(n);
    while r.len() < n
        invariant
            r.len() <= n,
            forall|i: int| 0 <= i < r.len() ==> r@[i] == v,
        decreases n - r.len(),
    {
        r.push(v);
    }
    r
}

/// A vector of `n` copies of `v`.
pub fn vec_filled_obj(v: OBJPixel, n: usize) -> (r: Vec<OBJPixel>)
    ensures
        r.len() == n,
        forall|i: int| 0 <= i < n ==> r@[i] == v,
{
    let mut r: Vec<OBJPixel> = Vec::with_capacity(n);
    while r.len() < n
        invariant
            r.len() <= n,
            forall|i: int| 0 <= i < r.len() ==> r@[i] == v,
        decreases n - r.len(),
    {
        r.push(v);
    }
    r
}


/// Rounding down to a multiple of a positive number does not increase a number.
pub proof fn lemma_div_mul_le(a: int, b: int)
    requires
        a >= 0,
        b > 0,
    ensures
        0 <= a / b * b <= a,
{
    vstd::arithmetic::div_mod::lemma_fundamental_div_mod(a, b);
    vstd::arithmetic::div_mod::lemma_mod_pos_bound(a, b);
    vstd::arithmetic::div_mod::lemma_div_pos_is_pos(a, b);
    vstd::arithmetic::mul::lemma_mul_nonnegative(a / b, b);
    vstd::arithmetic::mul::lemma_mul_is_commutative(a / b, b);
}


/// Channel `i` of the alpha blend of two colors.
fn blend_channel(c0: u16, c1: u16, i: u16, eva: u16, evb: u16) -> (r: u16)
    requires
        i < 3,
        eva <= 16,
        evb <= 16,
    ensures
        r == alpha_channel(c0, c1, i, eva, evb),
{
    let shift: u16 = 5 * i;
    let v1 = (c0 >> shift) & 0x1F;
    let v2 = (c1 >> shift) & 0x1F;
    proof {
        crate::bits::lemma_color_channels(c0, shift, 0);
        crate::bits::lemma_color_channels(c1, shift, 0);
    }
    assert(v1 * eva <= 496 && v2 * evb <= 496) by (nonlinear_arith)
        requires
            v1 <= 31,
            v2 <= 31,
            eva <= 16,
            evb <= 16,
    ;
    let v = (v1 * eva + v2 * evb) >> 4;
    if 0x1F < v {
        0x1F
    } else {
        v
    }
}

/// Alpha blend of `c0` over `c1`.
fn blend_colors(c0: u16, c1: u16, eva: u16, evb: u16) -> (r: u16)
    requires
        eva <= 16,
        evb <= 16,
    ensures
        r == alpha_blend(c0, c1, eva, evb),
{
    let n2: u16 = (0u16 << 5u16) | blend_channel(c0, c1, 2, eva, evb);
    let n1: u16 = (n2 << 5u16) | blend_channel(c0, c1, 1, eva, evb);
    (n1 << 5u16) | blend_channel(c0, c1, 0, eva, evb)
}

/// Channel `i` of a color brightened by `evy` sixteenths.
fn brighten_channel_of(c: u16, i: u16, evy: u16) -> (r: u16)
    requires
        i < 3,
        evy <= 16,
    ensures
        r == brighten_channel(c, i, evy),
{
    let shift: u16 = 5 * i;
    let v = (c >> shift) & 0x1F;
    proof {
        crate::bits::lemma_color_channels(c, shift, 0);
    }
    assert((0x1F - v) * evy <= 496) by (nonlinear_arith)
        requires
            v <= 31,
            evy <= 16,
    ;
    let d = (0x1F - v) * evy;
    proof {
        crate::bits::lemma_color_channels(c, shift, d);
    }
    (v + (d >> 4)) & 0x1F
}

/// A color brightened by `evy` sixteenths.
fn brighten_color(c: u16, evy: u16) -> (r: u16)
    requires
        evy <= 16,
    ensures
        r == brighten(c, evy),
{
    let n2: u16 = (0u16 << 5u16) | brighten_channel_of(c, 2, evy);
    let n1: u16 = (n2 << 5u16) | brighten_channel_of(c, 1, evy);
    (n1 << 5u16) | brighten_channel_of(c, 0, evy)
}

/// Channel `i` of a color darkened by `evy` sixteenths.
fn darken_channel_of(c: u16, i: u16, evy: u16) -> (r: u16)
    requires
        i < 3,
        evy <= 16,
    ensures
        r == darken_channel(c, i, evy),
{
    let shift: u16 = 5 * i;
    let v = (c >> shift) & 0x1F;
    proof {
        crate::bits::lemma_color_channels(c, shift, 0);
    }
    assert(v * evy <= 496 && (v * evy) / 16 <= v) by (nonlinear_arith)
        requires
            v <= 31,
            evy <= 16,
    ;
    let d = v * evy;
    proof {
        crate::bits::lemma_color_channels(c, shift, d);
    }
    (v - (d >> 4)) & 0x1F
}

/// A color darkened by `evy` sixteenths.
fn darken_color(c: u16, evy: u16) -> (r: u16)
    requires
        evy <= 16,
    ensures
        r == darken(c, evy),
{
    let n2: u16 = (0u16 << 5u16) | darken_channel_of(c, 2, evy);
    let n1: u16 = (n2 << 5u16) | darken_channel_of(c, 1, evy);
    (n1 << 5u16) | darken_channel_of(c, 0, evy)
}

/// Five-bit channel `i` (0 red, 1 green, 2 blue) of a color.
pub open spec fn channel(c: u16, i: u16) -> u16 {
    (c >> (5 * i) as u16) & 0x1F
}

/// Channel `i` of the alpha blend of `c0` and `c1` with coefficients in sixteenths.
pub open spec fn alpha_channel(c0: u16, c1: u16, i: u16, eva: u16, evb: u16) -> u16 {
    let v = ((channel(c0, i) * eva + channel(c1, i) * evb) as u16) >> 4u16;
    if 0x1F < v { 0x1F } else { v }
}

/// Alpha blend: each channel is `(c0 * eva + c1 * evb) / 16`, saturated at 31.
pub open spec fn alpha_blend(c0: u16, c1: u16, eva: u16, evb: u16) -> u16 {
    let n2 = (0u16 << 5u16) | alpha_channel(c0, c1, 2, eva, evb);
    let n1 = (n2 << 5u16) | alpha_channel(c0, c1, 1, eva, evb);
    (n1 << 5u16) | alpha_channel(c0, c1, 0, eva, evb)
}

/// Channel `i` brightened by `evy` sixteenths of the distance to white.
pub open spec fn brighten_channel(c: u16, i: u16, evy: u16) -> u16 {
    let v = channel(c, i);
    ((v + ((((0x1F - v) * evy) as u16) >> 4u16)) as u16) & 0x1F
}

/// Brightness increase of every channel.
pub open spec fn brighten(c: u16, evy: u16) -> u16 {
    let n2 = (0u16 << 5u16) | brighten_channel(c, 2, evy);
    let n1 = (n2 << 5u16) | brighten_channel(c, 1, evy);
    (n1 << 5u16) | brighten_channel(c, 0, evy)
}

/// Channel `i` darkened by `evy` sixteenths.
pub open spec fn darken_channel(c: u16, i: u16, evy: u16) -> u16 {
    let v = channel(c, i);
    ((v - (((v * evy) as u16) >> 4u16)) as u16) & 0x1F
}

/// Brightness decrease of every channel.
pub open spec fn darken(c: u16, evy: u16) -> u16 {
    let n2 = (0u16 << 5u16) | darken_channel(c, 2, evy);
    let n1 = (n2 << 5u16) | darken_channel(c, 1, evy);
    (n1 << 5u16) | darken_channel(c, 0, evy)
}


proof fn lemma_pack_channels(x0: u16, x1: u16, x2: u16)
    by (bit_vector)
    requires
        x0 <= 31,
        x1 <= 31,
        x2 <= 31,
    ensures
        ((((((0u16 << 5u16) | x2) << 5u16) | x1) << 5u16) | x0) & 0x1F == x0,
        (((((((0u16 << 5u16) | x2) << 5u16) | x1) << 5u16) | x0) >> 5u16) & 0x1F == x1,
        (((((((0u16 << 5u16) | x2) << 5u16) | x1) << 5u16) | x0) >> 10u16) & 0x1F == x2,
        ((((((0u16 << 5u16) | x2) << 5u16) | x1) << 5u16) | x0) < 0x8000,
{
}

proof fn lemma_same_channels(n: u16, c: u16)
    by (bit_vector)
    requires
        n < 0x8000,
        n & 0x1F == c & 0x1F,
        (n >> 5u16) & 0x1F == (c >> 5u16) & 0x1F,
        (n >> 10u16) & 0x1F == (c >> 10u16) & 0x1F,
    ensures
        n == c & 0x7FFF,
{
}

/// Small facts on 16-bit values: a shift by 0, the 5-bit fields, a shift by 4 as a
/// division, and the colors whose channels are all 31 or all 0.
proof fn lemma_color_bits(c: u16, x: u16)
    by (bit_vector)
    ensures
        c >> 0u16 == c,
        x & 0x1F <= 31,
        (c >> 0u16) & 0x1F <= 31 && (c >> 5u16) & 0x1F <= 31 && (c >> 10u16) & 0x1F <= 31,
        x >> 4u16 == x / 16,
        x <= 31 ==> x & 0x1F == x,
        c < 0x8000 && c & 0x1F == 31 && (c >> 5u16) & 0x1F == 31 && (c >> 10u16) & 0x1F == 31 ==> c == 0x7FFF,
        c < 0x8000 && c & 0x1F == 0 && (c >> 5u16) & 0x1F == 0 && (c >> 10u16) & 0x1F == 0 ==> c == 0,
{
}

proof fn lemma_channel_value(c0: u16, c1: u16, i: u16, eva: u16, evb: u16)
    requires
        i < 3,
        eva <= 16,
        evb <= 16,
    ensures
        ({
            let s = (5 * i) as u16;
            let v = (((c0 >> s) & 0x1F) * eva + ((c1 >> s) & 0x1F) * evb) / 16;
            alpha_channel(c0, c1, i, eva, evb) == (if v > 31 { 31 } else { v })
        }),
{
    let s = (5 * i) as u16;
    let a = (c0 >> s) & 0x1F;
    let b = (c1 >> s) & 0x1F;
    lemma_color_bits(c0, c0 >> s);
    lemma_color_bits(c1, c1 >> s);
    assert(a * eva <= 496 && b * evb <= 496) by (nonlinear_arith)
        requires
            a <= 31,
            b <= 31,
            eva <= 16,
            evb <= 16,
    ;
    let y = (a * eva + b * evb) as u16;
    lemma_color_bits(c0, y);
}

/// Alpha blending weighs the first-target color `c0` by EVA and the second-target
/// color `c1` by EVB, in sixteenths: each of the three 5-bit channels of the result is
/// `min(31, (channel of c0 * EVA + channel of c1 * EVB) / 16)`, and bit 15 is clear.
/// So full weight on one target gives that target's color: EVA = 16, EVB = 0 gives
/// `c0`, and EVA = 0, EVB = 16 gives `c1`.
pub proof fn law_alpha_blend_weights(c0: u16, c1: u16, eva: u16, evb: u16)
    requires
        eva <= 16,
        evb <= 16,
    ensures
        alpha_blend(c0, c1, eva, evb) < 0x8000,
        forall|s: u16|
            s == 0 || s == 5 || s == 10 ==> {
                let v = (((c0 >> s) & 0x1F) * eva + ((c1 >> s) & 0x1F) * evb) / 16;
                #[trigger] ((alpha_blend(c0, c1, eva, evb) >> s) & 0x1F) == (if v > 31 { 31 } else { v })
            },
        alpha_blend(c0, c1, 16, 0) == c0 & 0x7FFF,
        alpha_blend(c0, c1, 0, 16) == c1 & 0x7FFF,
{
    lemma_blend_channels(c0, c1, eva, evb);
    lemma_blend_channels(c0, c1, 16, 0);
    lemma_blend_channels(c0, c1, 0, 16);
    let n = alpha_blend(c0, c1, 16, 0);
    let m = alpha_blend(c0, c1, 0, 16);
    lemma_color_bits(c0, 0);
    lemma_color_bits(c1, 0);
    lemma_color_bits(n, 0);
    lemma_color_bits(m, 0);
    assert(((n >> 0u16) & 0x1F) == ((c0 >> 0u16) & 0x1F));
    assert(((n >> 5u16) & 0x1F) == ((c0 >> 5u16) & 0x1F));
    assert(((n >> 10u16) & 0x1F) == ((c0 >> 10u16) & 0x1F));
    assert(((m >> 0u16) & 0x1F) == ((c1 >> 0u16) & 0x1F));
    assert(((m >> 5u16) & 0x1F) == ((c1 >> 5u16) & 0x1F));
    assert(((m >> 10u16) & 0x1F) == ((c1 >> 10u16) & 0x1F));
    lemma_same_channels(n, c0);
    lemma_same_channels(m, c1);
}

proof fn lemma_blend_channels(c0: u16, c1: u16, eva: u16, evb: u16)
    requires
        eva <= 16,
        evb <= 16,
    ensures
        alpha_blend(c0, c1, eva, evb) < 0x8000,
        forall|s: u16|
            s == 0 || s == 5 || s == 10 ==> {
                let v = (((c0 >> s) & 0x1F) * eva + ((c1 >> s) & 0x1F) * evb) / 16;
                #[trigger] ((alpha_blend(c0, c1, eva, evb) >> s) & 0x1F) == (if v > 31 { 31 } else { v })
            },
{
    lemma_channel_value(c0, c1, 0, eva, evb);
    lemma_channel_value(c0, c1, 1, eva, evb);
    lemma_channel_value(c0, c1, 2, eva, evb);
    let x0 = alpha_channel(c0, c1, 0, eva, evb);
    let x1 = alpha_channel(c0, c1, 1, eva, evb);
    let x2 = alpha_channel(c0, c1, 2, eva, evb);
    lemma_pack_channels(x0, x1, x2);
    let n = alpha_blend(c0, c1, eva, evb);
    lemma_color_bits(n, 0);
}

proof fn lemma_brightness_channel(c: u16, i: u16, evy: u16)
    requires
        i < 3,
        evy <= 16,
    ensures
        ({
            let v = (c >> (5 * i) as u16) & 0x1F;
            &&& brighten_channel(c, i, evy) == v + (31 - v) * evy / 16
            &&& darken_channel(c, i, evy) == v - v * evy / 16
            &&& brighten_channel(c, i, evy) <= 31
            &&& darken_channel(c, i, evy) <= 31
        }),
{
    let s = (5 * i) as u16;
    let v = (c >> s) & 0x1F;
    lemma_color_bits(c, c >> s);
    assert((31 - v) * evy / 16 <= 31 - v && v * evy / 16 <= v && (31 - v) * evy <= 496 && v * evy <= 496)
        by (nonlinear_arith)
        requires
            v <= 31,
            evy <= 16,
    ;
    let y = ((0x1F - v) * evy) as u16;
    let z = (v * evy) as u16;
    lemma_color_bits(c, y);
    lemma_color_bits(c, z);
    let b = (v + y / 16) as u16;
    let d = (v - z / 16) as u16;
    lemma_color_bits(c, b);
    lemma_color_bits(c, d);
}

/// The brightness effects move each 5-bit channel `v` of a color by `evy` sixteenths:
/// brightening gives `v + (31 - v) * evy / 16` (towards white), darkening gives
/// `v - v * evy / 16` (towards black), and bit 15 is clear. So with `evy = 16` a
/// brightened color is white and a darkened one black, and with `evy = 0` both keep
/// the color.
pub proof fn law_brightness_effects(c: u16, evy: u16)
    requires
        evy <= 16,
    ensures
        brighten(c, evy) < 0x8000,
        darken(c, evy) < 0x8000,
        forall|s: u16|
            s == 0 || s == 5 || s == 10 ==> {
                let v = (c >> s) & 0x1F;
                &&& #[trigger] ((brighten(c, evy) >> s) & 0x1F) == v + (31 - v) * evy / 16
                &&& ((darken(c, evy) >> s) & 0x1F) == v - v * evy / 16
            },
        brighten(c, 16) == 0x7FFF,
        darken(c, 16) == 0,
        brighten(c, 0) == c & 0x7FFF,
        darken(c, 0) == c & 0x7FFF,
{
    lemma_brightness_channel(c, 0, evy);
    lemma_brightness_channel(c, 1, evy);
    lemma_brightness_channel(c, 2, evy);
    lemma_brightness_channel(c, 0, 16);
    lemma_brightness_channel(c, 1, 16);
    lemma_brightness_channel(c, 2, 16);
    lemma_brightness_channel(c, 0, 0);
    lemma_brightness_channel(c, 1, 0);
    lemma_brightness_channel(c, 2, 0);
    lemma_color_bits(c, 0);
    lemma_pack_channels(brighten_channel(c, 0, evy), brighten_channel(c, 1, evy), brighten_channel(c, 2, evy));
    lemma_pack_channels(darken_channel(c, 0, evy), darken_channel(c, 1, evy), darken_channel(c, 2, evy));
    lemma_pack_channels(brighten_channel(c, 0, 16), brighten_channel(c, 1, 16), brighten_channel(c, 2, 16));
    lemma_pack_channels(darken_channel(c, 0, 16), darken_channel(c, 1, 16), darken_channel(c, 2, 16));
    lemma_pack_channels(brighten_channel(c, 0, 0), brighten_channel(c, 1, 0), brighten_channel(c, 2, 0));
    lemma_pack_channels(darken_channel(c, 0, 0), darken_channel(c, 1, 0), darken_channel(c, 2, 0));
    lemma_color_bits(brighten(c, evy), 0);
    lemma_color_bits(darken(c, evy), 0);
    lemma_color_bits(brighten(c, 16), 0);
    lemma_color_bits(darken(c, 16), 0);
    lemma_same_channels(brighten(c, 0), c);
    lemma_same_channels(darken(c, 0), c);
}

} // verus!
