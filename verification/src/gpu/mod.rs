pub mod regs;
pub mod render;
pub mod window;

use vstd::prelude::*;
use crate::gpu::regs::{
    bit16, BgAffine, BgControl, BlendAlpha, BlendControl, BlendMode, DisplayControl, DisplayStatus, GpuMemoryMappedIO,
    ObjBufferEntry, RegMosaic, Rgb15, with_bit16, RenderLayer, RenderLayerKind, bg_kind, kind_bits, blend_mode_bits,
};
use crate::gpu::window::{Window, WindowFlags, WindowInfo, WindowType};
use crate::gpu::render::{transform_bg_point, ViewPort};
use vstd::arithmetic::div_mod::{lemma_fundamental_div_mod, lemma_fundamental_div_mod_converse};
use crate::interrupt::{interrupt_bit, signal_irq, Interrupt, IrqBitMask};
use crate::sched::{Event, EventType, GpuEvent, Scheduler};
use crate::dma::{DmaNotifier, TIMING_HBLANK, TIMING_VBLANK};

verus! {

pub const DISPLAY_WIDTH: usize = 240;
pub const DISPLAY_HEIGHT: usize = 160;
pub const VBLANK_LINES: usize = 68;
pub const CYCLES_HDRAW: usize = 960;
pub const CYCLES_HBLANK: usize = 272;
pub const VRAM_OBJ_TILES_START_TEXT: u32 = 0x10000;
pub const VRAM_OBJ_TILES_START_BITMAP: u32 = 0x14000;
pub const VIDEO_RAM_SIZE: usize = 0x20000;
pub const VRAM_ADDR: u32 = 0x0600_0000;
pub const PALETTE_RAM_SIZE: usize = 0x400;
pub const OAM_SIZE: usize = 0x400;

/// Little-endian halfword at `addr` of a byte memory.
pub open spec fn mem16(mem: Seq<u8>, addr: int) -> u16 {
    (mem[addr] as u16 | (mem[addr + 1] as u16) << 8u16) as u16
}

/// Reads a little-endian halfword.
pub fn read_16(mem: &Vec<u8>, addr: usize) -> (r: u16)
    requires
        addr + 1 < mem.len(),
    ensures
        r == mem16(mem@, addr as int),
{
    mem[addr] as u16 | (mem[addr + 1] as u16) << 8
}

/// Writes a little-endian halfword.
pub fn write_16(mem: &mut Vec<u8>, addr: usize, val: u16)
    requires
        addr + 1 < old(mem).len(),
    ensures
        final(mem)@ == old(mem)@.update(addr as int, (val & 0xff) as u8).update(addr + 1, (val >> 8u16) as u8),
{
    proof {
        crate::bits::lemma_u16_bits(val, 8, 0xff);
    }
    mem.set(addr, (val & 0xff) as u8);
    mem.set(addr + 1, (val >> 8) as u8);
}

/// The display: its registers, video memories and the lines being drawn.
pub struct Gpu {
    pub vcount: usize,
    pub dispcnt: DisplayControl,
    pub dispstat: DisplayStatus,
    pub bgcnt: [BgControl; 4],
    pub bg_vofs: [u16; 4],
    pub bg_hofs: [u16; 4],
    pub bg_aff: [BgAffine; 2],
    pub win0: Window,
    pub win1: Window,
    pub winout_flags: WindowFlags,
    pub winobj_flags: WindowFlags,
    pub mosaic: RegMosaic,
    pub bldcnt: BlendControl,
    pub bldalpha: BlendAlpha,
    pub bldy: u16,
    pub palette_ram: Vec<u8>,
    pub vram: Vec<u8>,
    pub oam: Vec<u8>,
    pub vram_obj_tiles_start: u32,
    pub obj_buffer: Vec<ObjBufferEntry>,
    pub frame_buffer: Vec<u32>,
    /// The four background lines, one after the other.
    pub bg_line: Vec<Rgb15>,
}

/// The interrupt flags with `i` requested when `cond` holds.
pub open spec fn irq_if(flags: u16, cond: bool, i: Interrupt) -> u16 {
    if cond { flags | (1u16 << interrupt_bit(i)) } else { flags }
}

impl Gpu {
    /// Memories and buffers have their sizes, the line counter is on the screen or in
    /// the vertical blank, and priorities are below 4.
    pub open spec fn wf(&self) -> bool {
        &&& self.palette_ram.len() == PALETTE_RAM_SIZE
        &&& self.vram.len() == VIDEO_RAM_SIZE
        &&& self.oam.len() == OAM_SIZE
        &&& self.obj_buffer.len() == DISPLAY_WIDTH * DISPLAY_HEIGHT
        &&& self.frame_buffer.len() == DISPLAY_WIDTH * DISPLAY_HEIGHT
        &&& self.bg_line.len() == 4 * DISPLAY_WIDTH
        &&& forall|i: int| 0 <= i < 4 ==> #[trigger] self.bgcnt[i].priority < 4
    }

    /// A display in forced blank at line 0, with cleared memories; the end of the first
    /// H-draw is scheduled.
    pub fn new(scheduler: &mut Scheduler) -> (r: Self)
        requires
            old(scheduler).timestamp + CYCLES_HDRAW <= usize::MAX,
        ensures
            r.wf(),
            r.vcount == 0,
            r.dispcnt.force_blank,
            r.dispstat.0 == 0,
            r.vram_obj_tiles_start == VRAM_OBJ_TILES_START_TEXT,
            forall|i: int| 0 <= i < PALETTE_RAM_SIZE ==> r.palette_ram@[i] == 0,
            forall|i: int| 0 <= i < VIDEO_RAM_SIZE ==> r.vram@[i] == 0,
            forall|i: int| 0 <= i < 4 * DISPLAY_WIDTH ==> r.bg_line@[i] == Rgb15(0x8000),
            final(scheduler).timestamp == old(scheduler).timestamp,
            final(scheduler).events@ == old(scheduler).events@.push(
                Event {
                    ty: EventType::Gpu(GpuEvent::HDraw),
                    time: (old(scheduler).timestamp + CYCLES_HDRAW) as usize,
                    cancel: false,
                },
            ),
    {
        scheduler.push_gpu_event(GpuEvent::HDraw, CYCLES_HDRAW);
        proof {
            crate::bits::lemma_u16_bits(0, 0, 0);
        }
        let zero_bg = BgControl {
            priority: 0,
            character_base_block: 0,
            screen_base_block: 0,
            mosaic: false,
            palette256: false,
            affine_wraparound: false,
            size: 0,
        };
        let zero_aff = BgAffine { pa: 0, pb: 0, pc: 0, pd: 0, x: 0, y: 0, internal_x: 0, internal_y: 0 };
        Self {
            vcount: 0,
            dispcnt: DisplayControl::from(0x80),
            dispstat: DisplayStatus(0),
            bgcnt: [zero_bg, zero_bg, zero_bg, zero_bg],
            bg_vofs: [0; 4],
            bg_hofs: [0; 4],
            bg_aff: [zero_aff, zero_aff],
            win0: Window { left: 0, right: 0, top: 0, bottom: 0, flags: WindowFlags(0) },
            win1: Window { left: 0, right: 0, top: 0, bottom: 0, flags: WindowFlags(0) },
            winout_flags: WindowFlags(0),
            winobj_flags: WindowFlags(0),
            mosaic: RegMosaic(0),
            bldcnt: BlendControl { target1: regs::BlendFlags(0), target2: regs::BlendFlags(0), mode: BlendMode::BldNone },
            bldalpha: BlendAlpha { eva: 0, evb: 0 },
            bldy: 0,
            palette_ram: vec![0u8; PALETTE_RAM_SIZE],
            vram: vec![0u8; VIDEO_RAM_SIZE],
            oam: vec![0u8; OAM_SIZE],
            vram_obj_tiles_start: VRAM_OBJ_TILES_START_TEXT,
            obj_buffer: vec![ObjBufferEntry::default(); DISPLAY_WIDTH * DISPLAY_HEIGHT],
            frame_buffer: vec![0u32; DISPLAY_WIDTH * DISPLAY_HEIGHT],
            bg_line: vec![Rgb15::transparent(); 4 * DISPLAY_WIDTH],
        }
    }

    /// Writes DISPCNT; a change of BG mode moves the start of the object tiles (past
    /// the bitmap in modes 3 and up).
    pub fn write_dispcnt(&mut self, val: u16)
        requires
            old(self).wf(),
        ensures
            final(self).wf(),
            *final(self) == (Gpu {
                dispcnt: regs::dispcnt_of(val),
                vram_obj_tiles_start: if regs::dispcnt_of(val).mode != old(self).dispcnt.mode {
                    if regs::dispcnt_of(val).mode >= 3 {
                        VRAM_OBJ_TILES_START_BITMAP
                    } else {
                        VRAM_OBJ_TILES_START_TEXT
                    }
                } else {
                    old(self).vram_obj_tiles_start
                },
                ..*old(self)
            }),
    {
        let old_mode = self.dispcnt.mode;
        self.dispcnt.write(val);
        let new_mode = self.dispcnt.mode;
        if old_mode != new_mode {
            self.vram_obj_tiles_start = if new_mode >= 3 { VRAM_OBJ_TILES_START_BITMAP } else { VRAM_OBJ_TILES_START_TEXT };
        }
    }

    /// Sets the line counter and the V-counter match flag, requesting its interrupt
    /// when enabled and matched.
    pub fn update_vcount(&mut self, value: usize, flags: &mut IrqBitMask)
        requires
            old(self).wf(),
        ensures
            final(self).wf(),
            *final(self) == (Gpu {
                vcount: value,
                dispstat: DisplayStatus(with_bit16(old(self).dispstat.0, 2, (old(self).dispstat.0 >> 8u16) == value)),
                ..*old(self)
            }),
            final(flags).0 == irq_if(
                old(flags).0,
                bit16(old(self).dispstat.0, 5) && (old(self).dispstat.0 >> 8u16) == value,
                Interrupt::LCD_VCounterMatch,
            ),
    {
        self.vcount = value;
        let vcount_setting = self.dispstat.vcount_setting();
        self.dispstat.set_vcount_flag(vcount_setting as usize == self.vcount);
        proof {
            let d = old(self).dispstat.0;
            let m = (d >> 8u16) == value;
            crate::bits::lemma_with_bit16(d, 2, 5, m);
        }
        if self.dispstat.vcount_irq_enable() && self.dispstat.vcount_flag() {
            signal_irq(flags, Interrupt::LCD_VCounterMatch);
        }
    }

    /// Clears the object layer.
    pub fn obj_buffer_reset(&mut self)
        requires
            old(self).wf(),
        ensures
            final(self).wf(),
            forall|i: int| 0 <= i < DISPLAY_WIDTH * DISPLAY_HEIGHT ==> #[trigger] final(self).obj_buffer@[i] == (ObjBufferEntry {
                window: false,
                alpha: false,
                color: Rgb15(0x8000),
                priority: 4,
            }),
            *final(self) == (Gpu { obj_buffer: final(self).obj_buffer, ..*old(self) }),
    {
        let mut i: usize = 0;
        while i < self.obj_buffer.len()
            invariant
                self.wf(),
                *self == (Gpu { obj_buffer: self.obj_buffer, ..*old(self) }),
                forall|j: int| 0 <= j < i ==> #[trigger] self.obj_buffer@[j] == (ObjBufferEntry {
                    window: false,
                    alpha: false,
                    color: Rgb15(0x8000),
                    priority: 4,
                }),
            decreases self.obj_buffer.len() - i,
        {
            self.obj_buffer.set(i, ObjBufferEntry::default());
            i += 1;
        }
    }

    /// The moving reference point of BG2 or BG3.
    pub fn get_ref_point(&self, bg: usize) -> (r: (i32, i32))
        requires
            bg == 2 || bg == 3,
        ensures
            r == (self.bg_aff[bg - 2].internal_x, self.bg_aff[bg - 2].internal_y),
    {
        (self.bg_aff[bg - 2].internal_x, self.bg_aff[bg - 2].internal_y)
    }

    /// Color `index` of a palette: color 0 (and color 0 of each 16-color bank other
    /// than the first) is transparent; otherwise the halfword at `offset` plus twice the
    /// index plus 32 bytes per bank, with the top bit dropped.
    pub fn get_palette_color(&self, index: u32, palette_bank: u32, offset: u32) -> (r: Rgb15)
        requires
            self.wf(),
            offset + 2 * index + 0x20 * palette_bank + 1 < PALETTE_RAM_SIZE,
        ensures
            r == palette_color(self.palette_ram@, index, palette_bank, offset),
    {
        if index == 0 || (palette_bank != 0 && index % 16 == 0) {
            return Rgb15::transparent();
        }
        let value = read_16(&self.palette_ram, (offset + 2 * index + 0x20 * palette_bank) as usize);
        Rgb15(value & 0x7FFF)
    }

    /// Sets BG2 and BG3 to the identity matrix, as the boot code leaves them.
    pub fn skip_bios(&mut self)
        ensures
            forall|i: int| 0 <= i < 2 ==> {
                &&& #[trigger] final(self).bg_aff[i].pa == 0x100
                &&& final(self).bg_aff[i].pb == 0
                &&& final(self).bg_aff[i].pc == 0
                &&& final(self).bg_aff[i].pd == 0x100
                &&& final(self).bg_aff[i].x == old(self).bg_aff[i].x
                &&& final(self).bg_aff[i].y == old(self).bg_aff[i].y
                &&& final(self).bg_aff[i].internal_x == old(self).bg_aff[i].internal_x
                &&& final(self).bg_aff[i].internal_y == old(self).bg_aff[i].internal_y
            },
            *final(self) == (Gpu { bg_aff: final(self).bg_aff, ..*old(self) }),
    {
        let mut a0 = self.bg_aff[0];
        a0.pa = 0x100;
        a0.pb = 0;
        a0.pc = 0;
        a0.pd = 0x100;
        let mut a1 = self.bg_aff[1];
        a1.pa = 0x100;
        a1.pb = 0;
        a1.pc = 0;
        a1.pd = 0x100;
        self.bg_aff = [a0, a1];
    }

    /// A halfword write to palette RAM, video RAM or object attributes; the upper 32K
    /// of the video RAM window mirror the object tiles.
    pub fn write_16(&mut self, addr: u32, val: u16)
        requires
            old(self).wf(),
            addr >> 24u32 == 5 || addr >> 24u32 == 6 || addr >> 24u32 == 7,
        ensures
            final(self).wf(),
            addr >> 24u32 == 5 ==> {
                &&& final(self).palette_ram@ == old(self).palette_ram@.update((addr & 0x3FE) as int, (val & 0xff) as u8).update(
                    (addr & 0x3FE) + 1,
                    (val >> 8u16) as u8,
                )
                &&& *final(self) == (Gpu { palette_ram: final(self).palette_ram, ..*old(self) })
            },
            addr >> 24u32 == 6 ==> {
                &&& final(self).vram@ == if vram_ofs(addr) + 1 < VIDEO_RAM_SIZE {
                    old(self).vram@.update(vram_ofs(addr) as int, (val & 0xff) as u8).update(vram_ofs(addr) + 1, (val >> 8u16) as u8)
                } else {
                    old(self).vram@
                }
                &&& *final(self) == (Gpu { vram: final(self).vram, ..*old(self) })
            },
            addr >> 24u32 == 7 ==> {
                &&& final(self).oam@ == old(self).oam@.update((addr & 0x3FE) as int, (val & 0xff) as u8).update(
                    (addr & 0x3FE) + 1,
                    (val >> 8u16) as u8,
                )
                &&& *final(self) == (Gpu { oam: final(self).oam, ..*old(self) })
            },
    {
        let page = addr >> 24;
        if page == 5 {
            proof {
                crate::bits::lemma_u32_bits(addr, 0x3FE);
            }
            write_16(&mut self.palette_ram, (addr & 0x3FE) as usize, val);
        } else if page == 6 {
            let mut ofs = addr & (VIDEO_RAM_SIZE as u32 - 1);
            proof {
                crate::bits::lemma_u32_bits(addr, 0x1FFFF);
            }
            if ofs > 0x18000 {
                ofs -= 0x8000;
            }
            if (ofs as usize) + 1 < self.vram.len() {
                write_16(&mut self.vram, ofs as usize, val);
            }
        } else {
            proof {
                crate::bits::lemma_u32_bits(addr, 0x3FE);
            }
            write_16(&mut self.oam, (addr & 0x3FE) as usize, val);
        }
    }
}

/// Offset into video RAM of an address in its window: the low 128K, with the part past
/// 96K folded down by 32K.
pub open spec fn vram_ofs(addr: u32) -> u32 {
    let ofs = addr & 0x1FFFF;
    if ofs > 0x18000 { (ofs - 0x8000) as u32 } else { ofs }
}

/// Color `index` of a palette (see `get_palette_color`).
pub open spec fn palette_color(pal: Seq<u8>, index: u32, bank: u32, offset: u32) -> Rgb15 {
    if index == 0 || (bank != 0 && index % 16 == 0) {
        Rgb15(0x8000)
    } else {
        Rgb15(mem16(pal, offset + 2 * index + 0x20 * bank) & 0x7FFF)
    }
}


/// Euclidean remainder of `a` by a positive `m`.
pub fn rem_euclid_i32(a: i32, m: i32) -> (r: i32)
    requires
        m > 0,
    ensures
        r == a % m,
        0 <= r < m,
{
    if a >= 0 {
        ((a as u32) % (m as u32)) as i32
    } else {
        let n = ((-(a as i64)) as u64 % (m as u64)) as i32;
        proof {
            let q = (-a) / (m as int);
            lemma_fundamental_div_mod(-a, m as int);
            if n == 0 {
                assert(a == (-q) * m + 0) by (nonlinear_arith)
                    requires
                        -a == m * q + 0,
                ;
                lemma_fundamental_div_mod_converse(a as int, m as int, -q, 0);
            } else {
                assert(a == (-q - 1) * m + (m - n)) by (nonlinear_arith)
                    requires
                        -a == m * q + n,
                ;
                lemma_fundamental_div_mod_converse(a as int, m as int, -q - 1, m - n);
            }
        }
        if n == 0 { 0 } else { m - n }
    }
}

/// The texture point of column `x` of BG2 or BG3: the moving reference point plus `x`
/// steps of (PA, PC), in 1/256 units.
pub open spec fn affine_point(a: BgAffine, x: int) -> (i32, i32) {
    ((a.internal_x + x * a.pa) as i32 >> 8i32, (a.internal_y + x * a.pc) as i32 >> 8i32)
}

/// The affine arithmetic of BG2 or BG3 stays in 32 bits across the line.
pub open spec fn affine_ok(a: BgAffine) -> bool {
    forall|x: int| 0 <= x < DISPLAY_WIDTH ==> #[trigger] affine_ok_at(a, x)
}

/// The affine arithmetic of column `x` stays in 32 bits.
pub open spec fn affine_ok_at(a: BgAffine, x: int) -> bool {
    &&& i32::MIN <= a.internal_x + x * a.pa <= i32::MAX
    &&& i32::MIN <= a.internal_y + x * a.pc <= i32::MAX
}

pub open spec fn on_screen(t: (i32, i32)) -> bool {
    0 <= t.0 < DISPLAY_WIDTH && 0 <= t.1 < DISPLAY_HEIGHT
}

/// The screen position that a texture point shows: itself, or wrapped around.
pub open spec fn screen_pos(t: (i32, i32)) -> (int, int) {
    if on_screen(t) { (t.0 as int, t.1 as int) } else { ((t.0 as int) % 240, (t.1 as int) % 160) }
}

/// Pixel `x` of a bitmap background in mode 3: the 15-bit color at the texture point, or
/// transparent off the screen without wraparound.
pub open spec fn mode3_pixel(g: Gpu, bg: usize, x: int) -> Rgb15 {
    let t = affine_point(g.bg_aff[bg - 2], x);
    if !on_screen(t) && !g.bgcnt[bg as int].affine_wraparound {
        Rgb15(0x8000)
    } else {
        let p = screen_pos(t);
        Rgb15(mem16(g.vram@, 2 * (p.0 + p.1 * 240)))
    }
}

/// Pixel `x` of a bitmap background in mode 4: the palette color of the byte at the
/// texture point in the selected frame.
pub open spec fn mode4_pixel(g: Gpu, bg: usize, x: int) -> Rgb15 {
    let t = affine_point(g.bg_aff[bg - 2], x);
    if !on_screen(t) && !g.bgcnt[bg as int].affine_wraparound {
        Rgb15(0x8000)
    } else {
        let p = screen_pos(t);
        let page: int = if g.dispcnt.display_frame_select == 0 { 0 } else { 0xA000 };
        palette_color(g.palette_ram@, g.vram@[page + p.0 + p.1 * 240] as u32, 0, 0)
    }
}

/// The line buffers with line `bg` drawn by `pixel`.
pub open spec fn with_line(lines: Seq<Rgb15>, bg: usize, pixel: spec_fn(int) -> Rgb15) -> Seq<Rgb15> {
    Seq::new(
        lines.len(),
        |i: int| if bg * DISPLAY_WIDTH <= i < bg * DISPLAY_WIDTH + DISPLAY_WIDTH { pixel(i - bg * DISPLAY_WIDTH) } else { lines[i] },
    )
}

impl Gpu {
    /// The point of column `x`, wrapped onto the screen; `None` when it lies off the
    /// screen and the background does not wrap.
    fn bitmap_point(&self, bg: usize, x: usize) -> (r: Option<(i32, i32)>)
        requires
            self.wf(),
            bg == 2 || bg == 3,
            x < DISPLAY_WIDTH,
            affine_ok(self.bg_aff[bg - 2]),
        ensures
            r is None <==> !on_screen(affine_point(self.bg_aff[bg - 2], x as int)) && !self.bgcnt[bg as int].affine_wraparound,
            r matches Some(p) ==> p.0 as int == screen_pos(affine_point(self.bg_aff[bg - 2], x as int)).0 && p.1 as int == screen_pos(
                affine_point(self.bg_aff[bg - 2], x as int),
            ).1 && 0 <= p.0 < 240 && 0 <= p.1 < 160,
    {
        let a = self.bg_aff[bg - 2];
        let ref_point = self.get_ref_point(bg);
        proof {
            assert(affine_ok_at(a, x as int));
            assert(i32::MIN <= a.internal_x + x * a.pa <= i32::MAX);
            assert(i32::MIN <= a.internal_y + x * a.pc <= i32::MAX);
            assert(-32768 * 240 <= x * a.pa <= 32767 * 240) by (nonlinear_arith)
                requires
                    0 <= x < 240,
                    -32768 <= a.pa <= 32767,
            ;
            assert(-32768 * 240 <= x * a.pc <= 32767 * 240) by (nonlinear_arith)
                requires
                    0 <= x < 240,
                    -32768 <= a.pc <= 32767,
            ;
        }
        let t = transform_bg_point(ref_point, x as i32, a.pa as i32, a.pc as i32);
        let viewport = ViewPort::new(DISPLAY_WIDTH as i32, DISPLAY_HEIGHT as i32);
        if viewport.contains_point(t) {
            Some(t)
        } else if self.bgcnt[bg].affine_wraparound {
            Some((rem_euclid_i32(t.0, 240), rem_euclid_i32(t.1, 160)))
        } else {
            None
        }
    }

    /// Draws a line of a mode 3 bitmap background (15-bit colors) into its buffer.
    pub fn render_mode3(&mut self, bg: usize)
        requires
            old(self).wf(),
            bg == 2 || bg == 3,
            affine_ok(old(self).bg_aff[bg - 2]),
        ensures
            final(self).wf(),
            final(self).bg_line@ == with_line(old(self).bg_line@, bg, |x: int| mode3_pixel(*old(self), bg, x)),
            *final(self) == (Gpu { bg_line: final(self).bg_line, ..*old(self) }),
    {
        let mut x: usize = 0;
        while x < DISPLAY_WIDTH
            invariant
                self.wf(),
                bg == 2 || bg == 3,
                x <= DISPLAY_WIDTH,
                affine_ok(old(self).bg_aff[bg - 2]),
                *self == (Gpu { bg_line: self.bg_line, ..*old(self) }),
                forall|i: int|
                    0 <= i < 4 * DISPLAY_WIDTH ==> #[trigger] self.bg_line@[i] == if bg * DISPLAY_WIDTH <= i < bg
                        * DISPLAY_WIDTH + x {
                        mode3_pixel(*old(self), bg, i - bg * DISPLAY_WIDTH)
                    } else {
                        old(self).bg_line@[i]
                    },
            decreases DISPLAY_WIDTH - x,
        {
            let color = match self.bitmap_point(bg, x) {
                Some(t) => {
                    let pixel_index = (t.0 + t.1 * 240) as usize;
                    Rgb15(read_16(&self.vram, 2 * pixel_index))
                },
                None => Rgb15::transparent(),
            };
            self.bg_line.set(bg * DISPLAY_WIDTH + x, color);
            x += 1;
        }
        assert(self.bg_line@ =~= with_line(old(self).bg_line@, bg, |x: int| mode3_pixel(*old(self), bg, x)));
    }

    /// Draws a line of a mode 4 bitmap background (palette indices in the selected
    /// frame) into its buffer.
    pub fn render_mode4(&mut self, bg: usize)
        requires
            old(self).wf(),
            bg == 2 || bg == 3,
            affine_ok(old(self).bg_aff[bg - 2]),
            old(self).dispcnt.display_frame_select <= 1,
        ensures
            final(self).wf(),
            final(self).bg_line@ == with_line(old(self).bg_line@, bg, |x: int| mode4_pixel(*old(self), bg, x)),
            *final(self) == (Gpu { bg_line: final(self).bg_line, ..*old(self) }),
    {
        let page_ofs: usize = if self.dispcnt.display_frame_select == 0 { 0 } else { 0xA000 };
        let mut x: usize = 0;
        while x < DISPLAY_WIDTH
            invariant
                self.wf(),
                bg == 2 || bg == 3,
                x <= DISPLAY_WIDTH,
                affine_ok(old(self).bg_aff[bg - 2]),
                page_ofs == if old(self).dispcnt.display_frame_select == 0 { 0usize } else { 0xA000usize },
                *self == (Gpu { bg_line: self.bg_line, ..*old(self) }),
                forall|i: int|
                    0 <= i < 4 * DISPLAY_WIDTH ==> #[trigger] self.bg_line@[i] == if bg * DISPLAY_WIDTH <= i < bg
                        * DISPLAY_WIDTH + x {
                        mode4_pixel(*old(self), bg, i - bg * DISPLAY_WIDTH)
                    } else {
                        old(self).bg_line@[i]
                    },
            decreases DISPLAY_WIDTH - x,
        {
            let color = match self.bitmap_point(bg, x) {
                Some(t) => {
                    let bitmap_index = (t.0 + t.1 * 240) as usize;
                    let index = self.vram[page_ofs + bitmap_index] as u32;
                    self.get_palette_color(index, 0, 0)
                },
                None => Rgb15::transparent(),
            };
            self.bg_line.set(bg * DISPLAY_WIDTH + x, color);
            x += 1;
        }
        assert(self.bg_line@ =~= with_line(old(self).bg_line@, bg, |x: int| mode4_pixel(*old(self), bg, x)));
    }
}


/// The enabled backgrounds among `lo..hi` whose priority is `p`, in ascending order.
pub open spec fn bgs_with_priority(enable: [bool; 4], bgcnt: [BgControl; 4], lo: int, hi: int, p: u16) -> Seq<usize>
    decreases hi - lo,
{
    if hi <= lo {
        Seq::empty()
    } else {
        let r = bgs_with_priority(enable, bgcnt, lo, hi - 1, p);
        if enable[hi - 1] && bgcnt[hi - 1].priority == p { r.push((hi - 1) as usize) } else { r }
    }
}

/// The enabled backgrounds among `start..=end`, ordered by priority and then by number.
pub open spec fn sorted_backgrounds(g: Gpu, start: int, end: int) -> Seq<usize> {
    bgs_with_priority(g.dispcnt.enable_bg, g.bgcnt, start, end + 1, 0) + bgs_with_priority(g.dispcnt.enable_bg, g.bgcnt, start, end + 1, 1)
        + bgs_with_priority(g.dispcnt.enable_bg, g.bgcnt, start, end + 1, 2) + bgs_with_priority(g.dispcnt.enable_bg, g.bgcnt, start, end + 1, 3)
}

/// The backgrounds of `bgs[..k]` with an opaque pixel at column `x` of their line.
pub open spec fn opaque_bgs(lines: Seq<Rgb15>, bgs: Seq<usize>, k: int, x: int) -> Seq<usize>
    decreases k,
{
    if k <= 0 {
        Seq::empty()
    } else {
        let r = opaque_bgs(lines, bgs, k - 1, x);
        if lines[bgs[k - 1] * DISPLAY_WIDTH + x] != Rgb15(0x8000) { r.push(bgs[k - 1]) } else { r }
    }
}

/// The layer of the `i`-th opaque background, or the backdrop.
pub open spec fn layer_from(g: Gpu, lines: Seq<Rgb15>, vis: Seq<usize>, i: int, x: int, backdrop: Rgb15) -> RenderLayer {
    if vis.len() > i {
        RenderLayer {
            kind: bg_kind(vis[i]),
            pixel: lines[vis[i] * DISPLAY_WIDTH + x],
            priority: g.bgcnt[vis[i] as int].priority,
        }
    } else {
        RenderLayer { kind: RenderLayerKind::Backdrop, pixel: backdrop, priority: 4 }
    }
}

/// The top and bottom layers of pixel (`x`, `y`): the first two opaque backgrounds (or
/// the backdrop), with an opaque object pixel put above the first layer whose priority
/// is not above it, when objects are on and the window shows them.
pub open spec fn pixel_layers(g: Gpu, lines: Seq<Rgb15>, bgs: Seq<usize>, x: int, y: int, win: u16, backdrop: Rgb15) -> (RenderLayer, RenderLayer) {
    let vis = opaque_bgs(lines, bgs, bgs.len() as int, x);
    let top = layer_from(g, lines, vis, 0, x, backdrop);
    let bot = layer_from(g, lines, vis, 1, x, backdrop);
    let obj = g.obj_buffer@[x + y * DISPLAY_WIDTH];
    if win & 0x10 == 0x10 && g.dispcnt.enable_obj && obj.color != Rgb15(0x8000) {
        let ol = RenderLayer { kind: RenderLayerKind::Objects, pixel: obj.color, priority: obj.priority };
        if ol.priority <= top.priority {
            (ol, top)
        } else if ol.priority <= bot.priority {
            (top, ol)
        } else {
            (top, bot)
        }
    } else {
        (top, bot)
    }
}

/// Whether pixel (`x`, `y`) would need a color special effect (not drawn here): the
/// window allows effects, an effect is selected (or the top layer is a semi-transparent
/// object), and the top layer is a first target.
pub open spec fn needs_sfx(g: Gpu, lines: Seq<Rgb15>, bgs: Seq<usize>, x: int, y: int, win: u16, backdrop: Rgb15) -> bool {
    let top = pixel_layers(g, lines, bgs, x, y, win, backdrop).0;
    let obj = g.obj_buffer@[x + y * DISPLAY_WIDTH];
    let obj_alpha_blend = top.kind == RenderLayerKind::Objects && obj.alpha;
    &&& win & 0x20 == 0x20
    &&& g.bldcnt.mode != BlendMode::BldNone || obj_alpha_blend
    &&& g.bldcnt.target1.0 & kind_bits(top.kind) == kind_bits(top.kind)
}

/// A 15-bit color as 24-bit RGB.
pub open spec fn rgb24(c: Rgb15) -> u32 {
    ((c.0 & 0x1F) as u32) << 19u32 | (((c.0 >> 5u16) & 0x1F) as u32) << 11u32 | (((c.0 >> 10u16) & 0x1F) as u32) << 3u32
}

/// The backdrop: color 0 of the palette.
pub open spec fn backdrop_of(g: Gpu) -> Rgb15 {
    Rgb15(mem16(g.palette_ram@, 0))
}

/// The frame buffer with line `y` composed from the sorted backgrounds `bgs` outside
/// any window.
pub open spec fn finalize_spec(g: Gpu, lines: Seq<Rgb15>, bgs: Seq<usize>, y: int) -> Seq<u32> {
    Seq::new(
        g.frame_buffer@.len(),
        |i: int|
            if y * DISPLAY_WIDTH <= i < y * DISPLAY_WIDTH + DISPLAY_WIDTH {
                rgb24(pixel_layers(g, lines, bgs, i - y * DISPLAY_WIDTH, y, 0x3F, backdrop_of(g)).0.pixel)
            } else {
                g.frame_buffer@[i]
            },
    )
}

impl Gpu {
    /// Composes pixel (`x`, `y`) from the backgrounds `backgrounds` (sorted) and the
    /// object layer, writing the top layer's color to the frame.
    pub fn finalize_pixel(&mut self, x: usize, y: usize, win: &WindowInfo, backgrounds: &Vec<usize>, backdrop_color: Rgb15)
        requires
            old(self).wf(),
            x < DISPLAY_WIDTH,
            y < DISPLAY_HEIGHT,
            forall|j: int| 0 <= j < backgrounds.len() ==> backgrounds@[j] < 4,
            !needs_sfx(*old(self), old(self).bg_line@, backgrounds@, x as int, y as int, win.flags.0, backdrop_color),
        ensures
            final(self).wf(),
            final(self).frame_buffer@ == old(self).frame_buffer@.update(
                y * DISPLAY_WIDTH + x,
                rgb24(pixel_layers(*old(self), old(self).bg_line@, backgrounds@, x as int, y as int, win.flags.0, backdrop_color).0.pixel),
            ),
            *final(self) == (Gpu { frame_buffer: final(self).frame_buffer, ..*old(self) }),
    {
        let backdrop_layer = RenderLayer::backdrop(backdrop_color);
        let mut top_layer = backdrop_layer;
        let mut bot_layer = backdrop_layer;
        let mut count: usize = 0;
        let mut k: usize = 0;
        while k < backgrounds.len()
            invariant
                self.wf(),
                x < DISPLAY_WIDTH,
                k <= backgrounds.len(),
                forall|j: int| 0 <= j < backgrounds.len() ==> backgrounds@[j] < 4,
                count as int == if opaque_bgs(self.bg_line@, backgrounds@, k as int, x as int).len() < 2 {
                    opaque_bgs(self.bg_line@, backgrounds@, k as int, x as int).len() as int
                } else {
                    2
                },
                top_layer == layer_from(*self, self.bg_line@, opaque_bgs(self.bg_line@, backgrounds@, k as int, x as int), 0, x as int, backdrop_color),
                bot_layer == layer_from(*self, self.bg_line@, opaque_bgs(self.bg_line@, backgrounds@, k as int, x as int), 1, x as int, backdrop_color),
            decreases backgrounds.len() - k,
        {
            let bg = backgrounds[k];
            let pixel = self.bg_line[bg * DISPLAY_WIDTH + x];
            if !pixel.is_transparent() {
                if count < 2 {
                    let layer = RenderLayer::background(bg, pixel, self.bgcnt[bg].priority);
                    if count == 0 {
                        top_layer = layer;
                    } else {
                        bot_layer = layer;
                    }
                    count += 1;
                }
            }
            k += 1;
        }
        let obj_entry = self.obj_buffer[x + y * DISPLAY_WIDTH];
        if win.flags.obj_enabled() && self.dispcnt.enable_obj && !obj_entry.color.is_transparent() {
            let obj_layer = RenderLayer::objects(obj_entry.color, obj_entry.priority);
            if obj_layer.priority <= top_layer.priority {
                bot_layer = top_layer;
                top_layer = obj_layer;
            } else if obj_layer.priority <= bot_layer.priority {
                bot_layer = obj_layer;
            }
        }
        self.frame_buffer.set(y * DISPLAY_WIDTH + x, top_layer.pixel.to_rgb24());
    }

    /// The enabled backgrounds among `bg_start..=bg_end`, ordered by priority and then
    /// by number.
    pub fn sorted_backgrounds(&self, bg_start: usize, bg_end: usize) -> (r: Vec<usize>)
        requires
            self.wf(),
            bg_end < 4,
        ensures
            r@ == sorted_backgrounds(*self, bg_start as int, bg_end as int),
            forall|j: int| 0 <= j < r.len() ==> r@[j] < 4,
    {
        let mut sorted: Vec<usize> = Vec::new();
        let mut p: u16 = 0;
        while p < 4
            invariant
                self.wf(),
                bg_end < 4,
                p <= 4,
                sorted@ == if p == 0 {
                    Seq::empty()
                } else if p == 1 {
                    bgs_with_priority(self.dispcnt.enable_bg, self.bgcnt, bg_start as int, bg_end + 1, 0)
                } else if p == 2 {
                    bgs_with_priority(self.dispcnt.enable_bg, self.bgcnt, bg_start as int, bg_end + 1, 0) + bgs_with_priority(self.dispcnt.enable_bg, self.bgcnt, bg_start as int, bg_end + 1, 1)
                } else if p == 3 {
                    bgs_with_priority(self.dispcnt.enable_bg, self.bgcnt, bg_start as int, bg_end + 1, 0) + bgs_with_priority(self.dispcnt.enable_bg, self.bgcnt, bg_start as int, bg_end + 1, 1)
                        + bgs_with_priority(self.dispcnt.enable_bg, self.bgcnt, bg_start as int, bg_end + 1, 2)
                } else {
                    sorted_backgrounds(*self, bg_start as int, bg_end as int)
                },
                forall|j: int| 0 <= j < sorted.len() ==> sorted@[j] < 4,
            decreases 4 - p,
        {
            let ghost before = sorted@;
            let mut bg: usize = bg_start;
            if bg_start <= bg_end {
                while bg <= bg_end
                    invariant
                        self.wf(),
                        bg_end < 4,
                        bg_start <= bg <= bg_end + 1,
                        p < 4,
                        sorted@ == before + bgs_with_priority(self.dispcnt.enable_bg, self.bgcnt, bg_start as int, bg as int, p),
                        forall|j: int| 0 <= j < sorted.len() ==> sorted@[j] < 4,
                    decreases bg_end + 1 - bg,
                {
                    if self.dispcnt.enable_bg[bg] && self.bgcnt[bg].priority == p {
                        sorted.push(bg);
                    }
                    proof {
                        assert(sorted@ =~= before + bgs_with_priority(self.dispcnt.enable_bg, self.bgcnt, bg_start as int, bg + 1, p));
                    }
                    bg += 1;
                }
            } else {
                assert(bgs_with_priority(self.dispcnt.enable_bg, self.bgcnt, bg_start as int, bg_end + 1, p) =~= Seq::<usize>::empty());
                assert(sorted@ =~= before + bgs_with_priority(self.dispcnt.enable_bg, self.bgcnt, bg_start as int, bg_end + 1, p));
            }
            proof {
                assert(sorted@ =~= before + bgs_with_priority(self.dispcnt.enable_bg, self.bgcnt, bg_start as int, bg_end + 1, p));
            }
            p += 1;
        }
        sorted
    }

    /// Composes line `vcount` of the frame from the backgrounds `bg_start..=bg_end`
    /// (windows off).
    pub fn finalize_scanline(&mut self, bg_start: usize, bg_end: usize)
        requires
            old(self).wf(),
            bg_end < 4,
            old(self).vcount < DISPLAY_HEIGHT,
            !(old(self).dispcnt.enable_window0 || old(self).dispcnt.enable_window1 || old(self).dispcnt.enable_obj_window),
            forall|x: int|
                0 <= x < DISPLAY_WIDTH ==> !#[trigger] needs_sfx(
                    *old(self),
                    old(self).bg_line@,
                    sorted_backgrounds(*old(self), bg_start as int, bg_end as int),
                    x,
                    old(self).vcount as int,
                    0x3F,
                    backdrop_of(*old(self)),
                ),
        ensures
            final(self).wf(),
            final(self).frame_buffer@ == finalize_spec(
                *old(self),
                old(self).bg_line@,
                sorted_backgrounds(*old(self), bg_start as int, bg_end as int),
                old(self).vcount as int,
            ),
            *final(self) == (Gpu { frame_buffer: final(self).frame_buffer, ..*old(self) }),
    {
        let backdrop_color = Rgb15(read_16(&self.palette_ram, 0));
        let sorted = self.sorted_backgrounds(bg_start, bg_end);
        let y = self.vcount;
        let mut x: usize = 0;
        while x < DISPLAY_WIDTH
            invariant
                self.wf(),
                x <= DISPLAY_WIDTH,
                y == old(self).vcount,
                y < DISPLAY_HEIGHT,
                sorted@ == sorted_backgrounds(*old(self), bg_start as int, bg_end as int),
                forall|j: int| 0 <= j < sorted.len() ==> sorted@[j] < 4,
                backdrop_color == backdrop_of(*old(self)),
                *self == (Gpu { frame_buffer: self.frame_buffer, ..*old(self) }),
                forall|x2: int|
                    0 <= x2 < DISPLAY_WIDTH ==> !#[trigger] needs_sfx(*old(self), old(self).bg_line@, sorted@, x2, y as int, 0x3F, backdrop_color),
                forall|i: int|
                    0 <= i < DISPLAY_WIDTH * DISPLAY_HEIGHT ==> #[trigger] self.frame_buffer@[i] == if y * DISPLAY_WIDTH <= i < y
                        * DISPLAY_WIDTH + x {
                        rgb24(pixel_layers(*old(self), old(self).bg_line@, sorted@, i - y * DISPLAY_WIDTH, y as int, 0x3F, backdrop_color).0.pixel)
                    } else {
                        old(self).frame_buffer@[i]
                    },
            decreases DISPLAY_WIDTH - x,
        {
            let win = WindowInfo::new(WindowType::WinNone, WindowFlags(0x3F));
            proof {
                assert(!needs_sfx(*old(self), old(self).bg_line@, sorted@, x as int, y as int, 0x3F, backdrop_color));
                assert(pixel_layers(*self, self.bg_line@, sorted@, x as int, y as int, 0x3F, backdrop_color) == pixel_layers(
                    *old(self),
                    old(self).bg_line@,
                    sorted@,
                    x as int,
                    y as int,
                    0x3F,
                    backdrop_color,
                ));
                assert(needs_sfx(*self, self.bg_line@, sorted@, x as int, y as int, 0x3F, backdrop_color) == needs_sfx(
                    *old(self),
                    old(self).bg_line@,
                    sorted@,
                    x as int,
                    y as int,
                    0x3F,
                    backdrop_color,
                ));
            }
            self.finalize_pixel(x, y, &win, &sorted, backdrop_color);
            x += 1;
        }
        assert(self.frame_buffer@ =~= finalize_spec(*old(self), old(self).bg_line@, sorted@, y as int));
    }
}


/// Line 2 drawn in the current bitmap mode (3 or 4).
pub open spec fn scanline_lines(g: Gpu) -> Seq<Rgb15> {
    if g.dispcnt.mode == 3 {
        with_line(g.bg_line@, 2, |x: int| mode3_pixel(g, 2, x))
    } else {
        with_line(g.bg_line@, 2, |x: int| mode4_pixel(g, 2, x))
    }
}

/// The frame buffer with line `y` white (0xF8F8F8), as in forced blank.
pub open spec fn blank_line(frame: Seq<u32>, y: int) -> Seq<u32> {
    Seq::new(frame.len(), |i: int| if y * DISPLAY_WIDTH <= i < y * DISPLAY_WIDTH + DISPLAY_WIDTH { 0xf8f8f8u32 } else { frame[i] })
}

/// Whether line `vcount` can be drawn: in forced blank any line on or just below the
/// screen; otherwise a visible line of bitmap mode 3 or 4, without objects or windows,
/// with affine arithmetic in range, a valid frame, and no pixel needing an effect.
pub open spec fn renderable(g: Gpu) -> bool {
    if g.dispcnt.force_blank {
        g.vcount <= DISPLAY_HEIGHT
    } else {
        &&& !g.dispcnt.enable_obj
        &&& g.dispcnt.mode == 3 || g.dispcnt.mode == 4
        &&& g.vcount < DISPLAY_HEIGHT
        &&& affine_ok(g.bg_aff[0])
        &&& !(g.dispcnt.enable_window0 || g.dispcnt.enable_window1 || g.dispcnt.enable_obj_window)
        &&& g.dispcnt.mode == 4 ==> g.dispcnt.display_frame_select <= 1
        &&& forall|x: int|
            0 <= x < DISPLAY_WIDTH ==> !#[trigger] needs_sfx(
                g,
                scanline_lines(g),
                sorted_backgrounds(g, 2, 2),
                x,
                g.vcount as int,
                0x3F,
                backdrop_of(g),
            )
    }
}

/// `g2` is `g` after drawing line `vcount`.
pub open spec fn render_rel(g: Gpu, g2: Gpu) -> bool {
    if g.dispcnt.force_blank {
        &&& g2.frame_buffer@ == blank_line(g.frame_buffer@, g.vcount as int)
        &&& g2 == (Gpu { frame_buffer: g2.frame_buffer, ..g })
    } else {
        &&& g2.bg_line@ == scanline_lines(g)
        &&& g2.frame_buffer@ == finalize_spec(g, scanline_lines(g), sorted_backgrounds(g, 2, 2), g.vcount as int)
        &&& g2 == (Gpu { frame_buffer: g2.frame_buffer, bg_line: g2.bg_line, ..g })
    }
}

impl Gpu {
    /// Draws line `vcount`: white in forced blank, otherwise BG2 of the bitmap mode
    /// composed onto the frame.
    pub fn render_scanline(&mut self)
        requires
            old(self).wf(),
            renderable(*old(self)),
        ensures
            final(self).wf(),
            render_rel(*old(self), *final(self)),
    {
        if self.dispcnt.force_blank {
            let y = self.vcount;
            let mut x: usize = 0;
            while x < DISPLAY_WIDTH
                invariant
                    self.wf(),
                    y == old(self).vcount,
                    y <= DISPLAY_HEIGHT,
                    x <= DISPLAY_WIDTH,
                    *self == (Gpu { frame_buffer: self.frame_buffer, ..*old(self) }),
                    forall|i: int|
                        0 <= i < DISPLAY_WIDTH * DISPLAY_HEIGHT ==> #[trigger] self.frame_buffer@[i] == if y * DISPLAY_WIDTH <= i
                            < y * DISPLAY_WIDTH + x {
                            0xf8f8f8u32
                        } else {
                            old(self).frame_buffer@[i]
                        },
                decreases DISPLAY_WIDTH - x,
            {
                if y * DISPLAY_WIDTH + x < self.frame_buffer.len() {
                    self.frame_buffer.set(y * DISPLAY_WIDTH + x, 0xf8f8f8);
                }
                x += 1;
            }
            assert(self.frame_buffer@ =~= blank_line(old(self).frame_buffer@, y as int));
            return;
        }
        let ghost g = *old(self);
        if self.dispcnt.mode == 3 {
            self.render_mode3(2);
        } else {
            self.render_mode4(2);
        }
        proof {
            assert(self.bg_line@ =~= scanline_lines(g));
            assert(sorted_backgrounds(*self, 2, 2) =~= sorted_backgrounds(g, 2, 2));
            assert(backdrop_of(*self) == backdrop_of(g));
            assert forall|x: int| 0 <= x < DISPLAY_WIDTH implies !#[trigger] needs_sfx(
                *self,
                self.bg_line@,
                sorted_backgrounds(*self, 2, 2),
                x,
                self.vcount as int,
                0x3F,
                backdrop_of(*self),
            ) by {
                assert(!needs_sfx(g, scanline_lines(g), sorted_backgrounds(g, 2, 2), x, g.vcount as int, 0x3F, backdrop_of(g)));
                assert(pixel_layers(*self, self.bg_line@, sorted_backgrounds(g, 2, 2), x, g.vcount as int, 0x3F, backdrop_of(g))
                    == pixel_layers(g, scanline_lines(g), sorted_backgrounds(g, 2, 2), x, g.vcount as int, 0x3F, backdrop_of(g)));
            }
        }
        let ghost mid = *self;
        self.finalize_scanline(2, 2);
        proof {
            assert(self.frame_buffer@ =~= finalize_spec(g, scanline_lines(g), sorted_backgrounds(g, 2, 2), g.vcount as int)) by {
                assert forall|i: int| 0 <= i < self.frame_buffer@.len() implies self.frame_buffer@[i] == finalize_spec(
                    g,
                    scanline_lines(g),
                    sorted_backgrounds(g, 2, 2),
                    g.vcount as int,
                )[i] by {
                    let y = g.vcount as int;
                    if y * DISPLAY_WIDTH <= i < y * DISPLAY_WIDTH + DISPLAY_WIDTH {
                        assert(pixel_layers(mid, mid.bg_line@, sorted_backgrounds(mid, 2, 2), i - y * DISPLAY_WIDTH, y, 0x3F, backdrop_of(mid))
                            == pixel_layers(g, scanline_lines(g), sorted_backgrounds(g, 2, 2), i - y * DISPLAY_WIDTH, y, 0x3F, backdrop_of(g)));
                    }
                }
            }
        }
    }
}


/// The status after setting the line counter to `v`: the V-counter match flag.
pub open spec fn status_at_line(st: u16, v: usize) -> u16 {
    with_bit16(st, 2, (st >> 8u16) == v)
}

/// The interrupt flags after setting the line counter to `v`.
pub open spec fn flags_at_line(f: u16, st: u16, v: usize) -> u16 {
    irq_if(f, bit16(st, 5) && (st >> 8u16) == v, Interrupt::LCD_VCounterMatch)
}

/// The end of an H-draw (on the screen or in the vertical blank): the H-blank flag is
/// set and, when enabled, the H-blank interrupt requested.
pub open spec fn hdraw_end_rel(g: Gpu, g2: Gpu, f: u16, f2: u16) -> bool {
    &&& g2 == (Gpu { dispstat: DisplayStatus(with_bit16(g.dispstat.0, 1, true)), ..g })
    &&& f2 == irq_if(f, bit16(g.dispstat.0, 4), Interrupt::LCD_HBlank)
}

/// An affine background after a line: the moving reference point steps by (PB, PD).
pub open spec fn step_aff(a: BgAffine) -> BgAffine {
    BgAffine { internal_x: (a.internal_x + a.pb) as i32, internal_y: (a.internal_y + a.pd) as i32, ..a }
}

/// An affine background at the start of the vertical blank: the moving reference
/// point is reloaded.
pub open spec fn latch_aff(a: BgAffine) -> BgAffine {
    BgAffine { internal_x: a.x, internal_y: a.y, ..a }
}

/// The end of an H-blank on the screen: the next line; while on the screen it is drawn
/// and the reference points step; at line 160 the vertical blank starts (flag,
/// interrupt, reference points reloaded, object layer cleared).
pub open spec fn hblank_end_rel(g: Gpu, g2: Gpu, f: u16, f2: u16) -> bool {
    let v = (g.vcount + 1) as usize;
    let st1 = status_at_line(g.dispstat.0, v);
    let f1 = flags_at_line(f, g.dispstat.0, v);
    if v < DISPLAY_HEIGHT {
        let g1 = Gpu { vcount: v, dispstat: DisplayStatus(with_bit16(st1, 1, false)), ..g };
        &&& f2 == f1
        &&& g2.bg_aff[0] == step_aff(g.bg_aff[0])
        &&& g2.bg_aff[1] == step_aff(g.bg_aff[1])
        &&& render_rel(g1, Gpu { bg_aff: g.bg_aff, ..g2 })
    } else {
        let st2 = with_bit16(with_bit16(st1, 0, true), 1, false);
        &&& f2 == irq_if(f1, bit16(st2, 3), Interrupt::LCD_VBlank)
        &&& forall|i: int| 0 <= i < DISPLAY_WIDTH * DISPLAY_HEIGHT ==> #[trigger] g2.obj_buffer@[i] == (ObjBufferEntry {
            window: false,
            alpha: false,
            color: Rgb15(0x8000),
            priority: 4,
        })
        &&& g2.bg_aff[0] == latch_aff(g.bg_aff[0])
        &&& g2.bg_aff[1] == latch_aff(g.bg_aff[1])
        &&& g2 == (Gpu { obj_buffer: g2.obj_buffer, bg_aff: g2.bg_aff, vcount: v, dispstat: DisplayStatus(st2), ..g })
    }
}

/// The end of an H-blank in the vertical blank: the next line, or, after the last,
/// line 0, which is drawn.
pub open spec fn vblank_hblank_end_rel(g: Gpu, g2: Gpu, f: u16, f2: u16) -> bool {
    if g.vcount < DISPLAY_HEIGHT + VBLANK_LINES - 1 {
        let v = (g.vcount + 1) as usize;
        &&& f2 == flags_at_line(f, g.dispstat.0, v)
        &&& g2 == (Gpu { vcount: v, dispstat: DisplayStatus(with_bit16(status_at_line(g.dispstat.0, v), 1, false)), ..g })
    } else {
        let st = with_bit16(with_bit16(status_at_line(g.dispstat.0, 0), 0, false), 1, false);
        &&& f2 == flags_at_line(f, g.dispstat.0, 0)
        &&& render_rel(Gpu { vcount: 0, dispstat: DisplayStatus(st), ..g }, g2)
    }
}

/// The line after an H-blank on the screen.
pub open spec fn next_visible(g: Gpu) -> Gpu {
    let v = (g.vcount + 1) as usize;
    Gpu { vcount: v, dispstat: DisplayStatus(with_bit16(status_at_line(g.dispstat.0, v), 1, false)), ..g }
}

/// Line 0 after the vertical blank.
pub open spec fn first_line(g: Gpu) -> Gpu {
    Gpu {
        vcount: 0,
        dispstat: DisplayStatus(with_bit16(with_bit16(status_at_line(g.dispstat.0, 0), 0, false), 1, false)),
        ..g
    }
}

/// The next display event and its delay after handling `event`.
pub open spec fn next_gpu_event(g: Gpu, event: GpuEvent) -> (GpuEvent, usize) {
    match event {
        GpuEvent::HDraw => (GpuEvent::HBlank, CYCLES_HBLANK),
        GpuEvent::HBlank => if g.vcount + 1 < DISPLAY_HEIGHT {
            (GpuEvent::HDraw, CYCLES_HDRAW)
        } else {
            (GpuEvent::VBlankHDraw, CYCLES_HDRAW)
        },
        GpuEvent::VBlankHDraw => (GpuEvent::VBlankHBlank, CYCLES_HBLANK),
        GpuEvent::VBlankHBlank => if g.vcount < DISPLAY_HEIGHT + VBLANK_LINES - 1 {
            (GpuEvent::VBlankHDraw, CYCLES_HDRAW)
        } else {
            (GpuEvent::HDraw, CYCLES_HDRAW)
        },
    }
}

/// Whether `event` can be handled: the line counter can count one line further, the
/// drawn line can be drawn, and the reference points step within 32 bits.
pub open spec fn event_ok(g: Gpu, event: GpuEvent) -> bool {
    match event {
        GpuEvent::HBlank => {
            &&& g.vcount < usize::MAX
            &&& g.vcount + 1 < DISPLAY_HEIGHT ==> {
                &&& renderable(next_visible(g))
                &&& i32::MIN <= g.bg_aff[0].internal_x + g.bg_aff[0].pb <= i32::MAX
                &&& i32::MIN <= g.bg_aff[0].internal_y + g.bg_aff[0].pd <= i32::MAX
                &&& i32::MIN <= g.bg_aff[1].internal_x + g.bg_aff[1].pb <= i32::MAX
                &&& i32::MIN <= g.bg_aff[1].internal_y + g.bg_aff[1].pd <= i32::MAX
            }
        },
        GpuEvent::VBlankHBlank => g.vcount >= DISPLAY_HEIGHT + VBLANK_LINES - 1 ==> renderable(first_line(g)),
        _ => true,
    }
}

impl Gpu {
    fn handle_hdraw_end<D: DmaNotifier>(&mut self, notifier: &mut D, flags: &mut IrqBitMask)
        requires
            old(self).wf(),
        ensures
            final(self).wf(),
            hdraw_end_rel(*old(self), *final(self), old(flags).0, final(flags).0),
    {
        self.dispstat.set_hblank_flag(true);
        proof {
            let d = old(self).dispstat.0;
            crate::bits::lemma_with_bit16(d, 1, 4, true);
        }
        if self.dispstat.hblank_irq_enable() {
            signal_irq(flags, Interrupt::LCD_HBlank);
        }
        notifier.notify(TIMING_HBLANK);
    }

    fn handle_vblank_hdraw_end(&mut self, flags: &mut IrqBitMask)
        requires
            old(self).wf(),
        ensures
            final(self).wf(),
            hdraw_end_rel(*old(self), *final(self), old(flags).0, final(flags).0),
    {
        self.dispstat.set_hblank_flag(true);
        proof {
            let d = old(self).dispstat.0;
            crate::bits::lemma_with_bit16(d, 1, 4, true);
        }
        if self.dispstat.hblank_irq_enable() {
            signal_irq(flags, Interrupt::LCD_HBlank);
        }
    }

    fn handle_hblank_end<D: DmaNotifier>(&mut self, notifier: &mut D, flags: &mut IrqBitMask) -> (frame_ready: bool)
        requires
            old(self).wf(),
            event_ok(*old(self), GpuEvent::HBlank),
        ensures
            final(self).wf(),
            hblank_end_rel(*old(self), *final(self), old(flags).0, final(flags).0),
            frame_ready == (old(self).vcount + 1 >= DISPLAY_HEIGHT),
    {
        let ghost g = *old(self);
        self.update_vcount(self.vcount + 1, flags);
        if self.vcount < DISPLAY_HEIGHT {
            self.dispstat.set_hblank_flag(false);
            assert(*self == next_visible(g));
            self.render_scanline();
            let mut a0 = self.bg_aff[0];
            a0.internal_x = a0.internal_x + a0.pb as i32;
            a0.internal_y = a0.internal_y + a0.pd as i32;
            let mut a1 = self.bg_aff[1];
            a1.internal_x = a1.internal_x + a1.pb as i32;
            a1.internal_y = a1.internal_y + a1.pd as i32;
            self.bg_aff = [a0, a1];
            false
        } else {
            let mut a0 = self.bg_aff[0];
            a0.internal_x = a0.x;
            a0.internal_y = a0.y;
            let mut a1 = self.bg_aff[1];
            a1.internal_x = a1.x;
            a1.internal_y = a1.y;
            self.bg_aff = [a0, a1];
            self.dispstat.set_vblank_flag(true);
            self.dispstat.set_hblank_flag(false);
            proof {
                let d = self.dispstat.0;
                let d0 = old(self).dispstat.0;
                let v = (g.vcount + 1) as usize;
                let m = (d0 >> 8u16) == v;
                crate::bits::lemma_with_bit16(d0, 2, 3, m);
                crate::bits::lemma_with_bit16(with_bit16(d0, 2, m), 0, 3, true);
                crate::bits::lemma_with_bit16(with_bit16(with_bit16(d0, 2, m), 0, true), 1, 3, false);
            }
            if self.dispstat.vblank_irq_enable() {
                signal_irq(flags, Interrupt::LCD_VBlank);
            }
            notifier.notify(TIMING_VBLANK);
            self.obj_buffer_reset();
            true
        }
    }

    fn handle_vblank_hblank_end(&mut self, flags: &mut IrqBitMask)
        requires
            old(self).wf(),
            event_ok(*old(self), GpuEvent::VBlankHBlank),
        ensures
            final(self).wf(),
            vblank_hblank_end_rel(*old(self), *final(self), old(flags).0, final(flags).0),
    {
        if self.vcount < DISPLAY_HEIGHT + VBLANK_LINES - 1 {
            self.update_vcount(self.vcount + 1, flags);
            self.dispstat.set_hblank_flag(false);
        } else {
            self.update_vcount(0, flags);
            self.dispstat.set_vblank_flag(false);
            self.dispstat.set_hblank_flag(false);
            self.render_scanline();
        }
    }

    /// Handles a display event `extra_cycles` late and schedules the next one. Returns
    /// whether a frame is complete (the vertical blank began), for the caller to show.
    pub fn on_event<D: DmaNotifier>(
        &mut self,
        event: GpuEvent,
        extra_cycles: usize,
        notifier: &mut D,
        scheduler: &mut Scheduler,
        flags: &mut IrqBitMask,
    ) -> (frame_ready: bool)
        requires
            old(self).wf(),
            event_ok(*old(self), event),
            extra_cycles <= next_gpu_event(*old(self), event).1,
            old(scheduler).timestamp + next_gpu_event(*old(self), event).1 - extra_cycles <= usize::MAX,
        ensures
            final(self).wf(),
            event == GpuEvent::HDraw || event == GpuEvent::VBlankHDraw ==> hdraw_end_rel(
                *old(self),
                *final(self),
                old(flags).0,
                final(flags).0,
            ),
            event == GpuEvent::HBlank ==> hblank_end_rel(*old(self), *final(self), old(flags).0, final(flags).0),
            event == GpuEvent::VBlankHBlank ==> vblank_hblank_end_rel(*old(self), *final(self), old(flags).0, final(flags).0),
            frame_ready == (event == GpuEvent::HBlank && old(self).vcount + 1 >= DISPLAY_HEIGHT),
            final(scheduler).timestamp == old(scheduler).timestamp,
            final(scheduler).events@ == old(scheduler).events@.push(
                Event {
                    ty: EventType::Gpu(next_gpu_event(*old(self), event).0),
                    time: (old(scheduler).timestamp + next_gpu_event(*old(self), event).1 - extra_cycles) as usize,
                    cancel: false,
                },
            ),
    {
        let ghost g = *old(self);
        let (next_event, cycles, frame_ready) = match event {
            GpuEvent::HDraw => {
                self.handle_hdraw_end(notifier, flags);
                (GpuEvent::HBlank, CYCLES_HBLANK, false)
            },
            GpuEvent::HBlank => {
                let visible = self.vcount + 1 < DISPLAY_HEIGHT;
                let ready = self.handle_hblank_end(notifier, flags);
                if visible {
                    (GpuEvent::HDraw, CYCLES_HDRAW, ready)
                } else {
                    (GpuEvent::VBlankHDraw, CYCLES_HDRAW, ready)
                }
            },
            GpuEvent::VBlankHDraw => {
                self.handle_vblank_hdraw_end(flags);
                (GpuEvent::VBlankHBlank, CYCLES_HBLANK, false)
            },
            GpuEvent::VBlankHBlank => {
                let more = self.vcount < DISPLAY_HEIGHT + VBLANK_LINES - 1;
                self.handle_vblank_hblank_end(flags);
                if more {
                    (GpuEvent::VBlankHDraw, CYCLES_HDRAW, false)
                } else {
                    (GpuEvent::HDraw, CYCLES_HDRAW, false)
                }
            },
        };
        scheduler.push_gpu_event(next_event, cycles - extra_cycles);
        frame_ready
    }
}

} // verus!
