use fluorite::dma::{DmaNotifier, TIMING_HBLANK, TIMING_VBLANK};
use fluorite::gpu::regs::{
    BlendFlags, BlendMode, DisplayControl, DisplayStatus, GpuMemoryMappedIO, RenderLayer, RenderLayerKind, Rgb15,
};
use fluorite::gpu::render::{transform_bg_point, ViewPort};
use fluorite::gpu::window::{Window, WindowFlags};
use fluorite::gpu::{read_16, rem_euclid_i32, write_16, Gpu, CYCLES_HBLANK, CYCLES_HDRAW, DISPLAY_HEIGHT};
use fluorite::interrupt::IrqBitMask;
use fluorite::sched::{EventType, GpuEvent, Scheduler};

struct Timings(Vec<u16>);

impl DmaNotifier for Timings {
    fn notify(&mut self, timing: u16) {
        self.0.push(timing);
    }
}

#[test]
fn memory_halfwords_are_little_endian() {
    let mut mem = vec![0u8; 8];
    write_16(&mut mem, 2, 0xBEEF);
    assert_eq!(mem[2], 0xEF);
    assert_eq!(mem[3], 0xBE);
    assert_eq!(read_16(&mem, 2), 0xBEEF);
}

#[test]
fn display_control_decodes_and_encodes() {
    let d = DisplayControl::from(0x1F83u16);
    assert_eq!(d.mode, 3);
    assert!(d.force_blank);
    assert!(d.enable_bg[0] && d.enable_bg[1] && d.enable_bg[2] && d.enable_bg[3]);
    assert!(d.enable_obj);
    assert!(!d.is_using_windows());
    assert_eq!(d.read(), 0x1F83);
    let mut d = DisplayControl::default();
    d.write(0x2004);
    assert_eq!(d.mode, 4);
    assert!(d.enable_window0 && d.is_using_windows());
}

#[test]
fn display_status_flags_and_write_mask() {
    let mut s = DisplayStatus(0);
    s.set_vblank_flag(true);
    s.set_vcount_flag(true);
    assert!(s.vblank_flag() && s.vcount_flag() && !s.hblank_flag());
    s.write(0xFFFF);
    assert_eq!(s.read(), 0xFF38 | 0b101);
    assert!(s.vblank_irq_enable() && s.hblank_irq_enable() && s.vcount_irq_enable());
    assert_eq!(s.vcount_setting(), 0xFF);
}

#[test]
fn colors_split_into_channels() {
    let c = Rgb15::from_rgb(31, 1, 2);
    assert_eq!(c.0, 31 | (1 << 5) | (2 << 10));
    assert_eq!(c.get_rgb(), (31, 1, 2));
    assert_eq!(c.r(), 31);
    assert_eq!(Rgb15::white().to_rgb24(), 0xF8F8F8);
    assert_eq!(Rgb15::black().to_rgb24(), 0);
    assert!(Rgb15::transparent().is_transparent());
    assert!(!Rgb15::black().is_transparent());
}

#[test]
fn blend_settings_and_layers() {
    assert_eq!(BlendMode::from_u16(1), Some(BlendMode::BldAlpha));
    assert_eq!(BlendMode::from_u16(4), None);
    assert_eq!(BlendMode::default(), BlendMode::BldNone);
    let f = BlendFlags::from_bits_truncate(0xFF);
    assert_eq!(f.0, 0x3F);
    assert!(f.obj_enabled());
    assert_eq!(BlendFlags::from_bg(2).0, 1 << 2);
    assert_eq!(RenderLayerKind::from_usize(0x10), Some(RenderLayerKind::Objects));
    assert_eq!(RenderLayerKind::from_usize(8), Some(RenderLayerKind::Background3));
    assert_eq!(RenderLayerKind::Backdrop.bits(), 0x20);
    assert_eq!(RenderLayerKind::from_usize(3), None);
    let layer = RenderLayer::background(1, Rgb15::white(), 2);
    assert!(!layer.is_object());
    assert!(BlendFlags::from_bg(1).contains_render_layer(&layer));
    assert!(RenderLayer::objects(Rgb15::black(), 0).is_object());
}

#[test]
fn windows_contain_their_rectangle() {
    let w = Window { left: 10, right: 20, top: 5, bottom: 15, flags: WindowFlags(0) };
    assert!(w.inside(10, 5));
    assert!(w.inside(19, 14));
    assert!(!w.inside(20, 5));
    assert!(!w.inside(9, 5));
    assert!(w.contains_y(5) && !w.contains_y(15));
    let flags = WindowFlags::from(0b10_0101u16);
    assert!(flags.bg_enabled(0) && !flags.bg_enabled(1) && flags.bg_enabled(2));
    assert!(flags.sfx_enabled() && !flags.obj_enabled());
}

#[test]
fn affine_points_and_viewport() {
    assert_eq!(rem_euclid_i32(-1, 256), 255);
    assert_eq!(rem_euclid_i32(513, 256), 1);
    assert_eq!(transform_bg_point((256, 512), 2, 256, 0), (3, 2));
    let v = ViewPort::new(240, 160);
    assert!(v.contains_point((0, 0)));
    assert!(v.contains_point((239, 159)));
    assert!(!v.contains_point((240, 0)));
    assert!(!v.contains_point((-1, 3)));
}

#[test]
fn gpu_starts_with_the_first_hdraw_scheduled() {
    let mut s = Scheduler::new();
    let g = Gpu::new(&mut s);
    assert_eq!(g.vcount, 0);
    assert!(g.dispcnt.force_blank);
    assert_eq!(s.events.len(), 1);
    assert_eq!(s.events[0].ty, EventType::Gpu(GpuEvent::HDraw));
    assert_eq!(s.events[0].time, CYCLES_HDRAW);
}

#[test]
fn gpu_palette_writes_read_back_as_colors() {
    let mut s = Scheduler::new();
    let mut g = Gpu::new(&mut s);
    g.write_16(0x0500_0002, 0xFFFF);
    assert_eq!(g.get_palette_color(1, 0, 0), Rgb15(0x7FFF));
    assert_eq!(g.get_palette_color(0, 0, 0), Rgb15::transparent());
    g.write_16(0x0600_0010, 0x1234);
    assert_eq!(read_16(&g.vram, 0x10), 0x1234);
}

#[test]
fn gpu_vcount_match_requests_interrupt() {
    let mut s = Scheduler::new();
    let mut g = Gpu::new(&mut s);
    g.dispstat.write((5 << 8) | (1 << 5));
    let mut flags = IrqBitMask(0);
    g.update_vcount(4, &mut flags);
    assert!(!g.dispstat.vcount_flag());
    assert_eq!(flags.0, 0);
    g.update_vcount(5, &mut flags);
    assert!(g.dispstat.vcount_flag());
    assert_eq!(flags.0, 1 << 2);
}

#[test]
fn gpu_runs_a_whole_frame() {
    let mut s = Scheduler::new();
    let mut g = Gpu::new(&mut s);
    g.dispstat.write((1 << 3) | (1 << 4));
    let mut flags = IrqBitMask(0);
    let mut timings = Timings(Vec::new());
    // End of the first visible line's draw period.
    s.update(CYCLES_HDRAW);
    let (ty, late) = s.pop_pending_event().unwrap();
    assert_eq!(ty, EventType::Gpu(GpuEvent::HDraw));
    assert!(!g.on_event(GpuEvent::HDraw, late, &mut timings, &mut s, &mut flags));
    assert!(g.dispstat.hblank_flag());
    assert_eq!(flags.0, 1 << 1);
    assert_eq!(timings.0, vec![TIMING_HBLANK]);
    assert_eq!(s.events.last().unwrap().ty, EventType::Gpu(GpuEvent::HBlank));
    assert_eq!(s.events.last().unwrap().time, CYCLES_HDRAW + CYCLES_HBLANK);
    let mut frames = 0;
    let mut guard = 0;
    while frames == 0 && guard < 10_000 {
        guard += 1;
        s.fast_forward_to_next();
        let (ty, late) = s.pop_pending_event().unwrap();
        let e = match ty {
            EventType::Gpu(e) => e,
            _ => unreachable!(),
        };
        if g.on_event(e, late, &mut timings, &mut s, &mut flags) {
            frames += 1;
        }
    }
    assert_eq!(frames, 1);
    assert_eq!(g.vcount, DISPLAY_HEIGHT);
    assert!(g.dispstat.vblank_flag());
    assert!(timings.0.contains(&TIMING_VBLANK));
    assert_eq!(flags.0 & 1, 1);
}

#[test]
fn vblank_line_end_wraps_a_large_vcount() {
    let mut s = Scheduler::new();
    let mut g = Gpu::new(&mut s);
    let mut flags = IrqBitMask(0);
    let mut timings = Timings(Vec::new());
    g.vcount = 300;
    g.dispstat.set_vblank_flag(true);
    assert!(!g.on_event(GpuEvent::VBlankHBlank, 0, &mut timings, &mut s, &mut flags));
    assert_eq!(g.vcount, 0);
    assert!(!g.dispstat.vblank_flag());
    assert_eq!(s.events.last().unwrap().ty, EventType::Gpu(GpuEvent::HDraw));
}
