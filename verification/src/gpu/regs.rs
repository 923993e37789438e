use vstd::prelude::*;

verus! {

/// A register of the display that the CPU reads and writes as sixteen bits.
pub trait GpuMemoryMappedIO {
    fn write(&mut self, value: u16);

    fn read(&self) -> u16;
}

/// Bit `i` of `v` as a boolean.
pub open spec fn bit16(v: u16, i: u16) -> bool {
    (v >> i) & 1 == 1
}

/// A boolean as bit `i`.
pub open spec fn flag16(b: bool, i: u16) -> u16 {
    if b { (1u16 << i) } else { 0 }
}

fn flag16_exec(b: bool, i: u16) -> (r: u16)
    requires
        i < 16,
    ensures
        r == flag16(b, i),
{
    if b { 1u16 << i } else { 0 }
}

/// DISPCNT: BG mode (bits 0 to 2), frame select (4), H-blank interval free (5), object
/// character mapping (6), forced blank (7), BG0 to BG3 (8 to 11), objects (12), windows
/// 0 and 1 (13, 14) and the object window (15).
#[derive(Debug, Clone, Copy, Default)]
pub struct DisplayControl {
    pub mode: u16,
    pub display_frame_select: u16,
    pub hblank_interval_free: bool,
    pub obj_character_vram_mapping: bool,
    pub force_blank: bool,
    pub enable_bg: [bool; 4],
    pub enable_obj: bool,
    pub enable_window0: bool,
    pub enable_window1: bool,
    pub enable_obj_window: bool,
}

/// The fields of DISPCNT decoded from a written value.
pub open spec fn dispcnt_of(value: u16) -> DisplayControl {
    DisplayControl {
        mode: value & 7,
        display_frame_select: (value >> 4u16) & 1,
        hblank_interval_free: bit16(value, 5),
        obj_character_vram_mapping: bit16(value, 6),
        force_blank: bit16(value, 7),
        enable_bg: [bit16(value, 8), bit16(value, 9), bit16(value, 10), bit16(value, 11)],
        enable_obj: bit16(value, 12),
        enable_window0: bit16(value, 13),
        enable_window1: bit16(value, 14),
        enable_obj_window: bit16(value, 15),
    }
}

/// DISPCNT as sixteen bits.
pub open spec fn dispcnt_bits(d: DisplayControl) -> u16 {
    d.mode | d.display_frame_select << 4u16 | flag16(d.hblank_interval_free, 5) | flag16(d.obj_character_vram_mapping, 6)
        | flag16(d.force_blank, 7) | flag16(d.enable_bg[0], 8) | flag16(d.enable_bg[1], 9) | flag16(d.enable_bg[2], 10)
        | flag16(d.enable_bg[3], 11) | flag16(d.enable_obj, 12) | flag16(d.enable_window0, 13) | flag16(
        d.enable_window1,
        14,
    ) | flag16(d.enable_obj_window, 15)
}

impl GpuMemoryMappedIO for DisplayControl {
    fn write(&mut self, value: u16)
        ensures
            *final(self) == dispcnt_of(value),
    {
        self.mode = value & 0b111;
        self.display_frame_select = (value >> 4) & 1;
        self.hblank_interval_free = (value >> 5) & 1 == 1;
        self.obj_character_vram_mapping = (value >> 6) & 1 == 1;
        self.force_blank = (value >> 7) & 1 == 1;
        self.enable_bg = [(value >> 8) & 1 == 1, (value >> 9) & 1 == 1, (value >> 10) & 1 == 1, (value >> 11) & 1 == 1];
        self.enable_obj = (value >> 12) & 1 == 1;
        self.enable_window0 = (value >> 13) & 1 == 1;
        self.enable_window1 = (value >> 14) & 1 == 1;
        self.enable_obj_window = (value >> 15) & 1 == 1;
        assert(self.enable_bg@ =~= dispcnt_of(value).enable_bg@);
    }

    fn read(&self) -> (r: u16)
        ensures
            r == dispcnt_bits(*self),
    {
        self.mode | self.display_frame_select << 4 | flag16_exec(self.hblank_interval_free, 5) | flag16_exec(
            self.obj_character_vram_mapping,
            6,
        ) | flag16_exec(self.force_blank, 7) | flag16_exec(self.enable_bg[0], 8) | flag16_exec(self.enable_bg[1], 9)
            | flag16_exec(self.enable_bg[2], 10) | flag16_exec(self.enable_bg[3], 11) | flag16_exec(self.enable_obj, 12)
            | flag16_exec(self.enable_window0, 13) | flag16_exec(self.enable_window1, 14) | flag16_exec(
            self.enable_obj_window,
            15,
        )
    }
}

impl From<u16> for DisplayControl {
    fn from(value: u16) -> (r: DisplayControl) {
        let mut dispcnt = DisplayControl {
            mode: 0,
            display_frame_select: 0,
            hblank_interval_free: false,
            obj_character_vram_mapping: false,
            force_blank: false,
            enable_bg: [false; 4],
            enable_obj: false,
            enable_window0: false,
            enable_window1: false,
            enable_obj_window: false,
        };
        dispcnt.write(value);
        dispcnt
    }
}

impl vstd::std_specs::convert::FromSpecImpl<u16> for DisplayControl {
    open spec fn obeys_from_spec() -> bool {
        true
    }

    open spec fn from_spec(value: u16) -> DisplayControl {
        dispcnt_of(value)
    }
}

impl DisplayControl {
    /// Whether window 0, window 1 or the object window is on.
    pub fn is_using_windows(&self) -> (r: bool)
        ensures
            r == (self.enable_window0 || self.enable_window1 || self.enable_obj_window),
    {
        self.enable_window0 || self.enable_window1 || self.enable_obj_window
    }
}

/// The BG modes and the prohibited setting.
#[derive(Copy, Clone, Debug, PartialEq, Eq, Structural)]
pub enum LcdMode {
    Mode0,
    Mode1,
    Mode2,
    Mode3,
    Mode4,
    Mode5,
    Prohibited,
}

/// DISPSTAT: V-blank (bit 0), H-blank (1) and V-counter match (2) flags, their IRQ
/// enables (3 to 5), and the V-count setting (8 to 15).
#[derive(Debug, Copy, Clone, Default)]
pub struct DisplayStatus(pub u16);

/// `v` with bit `i` set to `b`.
pub open spec fn with_bit16(v: u16, i: u16, b: bool) -> u16 {
    if b { v | (1u16 << i) } else { v & !(1u16 << i) }
}

impl DisplayStatus {
    pub fn vblank_flag(&self) -> (r: bool)
        ensures
            r == bit16(self.0, 0),
    {
        (self.0 >> 0) & 1 == 1
    }

    pub fn hblank_flag(&self) -> (r: bool)
        ensures
            r == bit16(self.0, 1),
    {
        (self.0 >> 1) & 1 == 1
    }

    pub fn vcount_flag(&self) -> (r: bool)
        ensures
            r == bit16(self.0, 2),
    {
        (self.0 >> 2) & 1 == 1
    }

    pub fn vblank_irq_enable(&self) -> (r: bool)
        ensures
            r == bit16(self.0, 3),
    {
        (self.0 >> 3) & 1 == 1
    }

    pub fn hblank_irq_enable(&self) -> (r: bool)
        ensures
            r == bit16(self.0, 4),
    {
        (self.0 >> 4) & 1 == 1
    }

    pub fn vcount_irq_enable(&self) -> (r: bool)
        ensures
            r == bit16(self.0, 5),
    {
        (self.0 >> 5) & 1 == 1
    }

    pub fn vcount_setting(&self) -> (r: u8)
        ensures
            r == self.0 >> 8u16,
    {
        proof {
            let v = self.0;
            crate::bits::lemma_u16_bits(v, 8, 0);
        }
        (self.0 >> 8) as u8
    }

    pub fn set_vblank_flag(&mut self, b: bool)
        ensures
            final(self).0 == with_bit16(old(self).0, 0, b),
    {
        self.0 = if b { self.0 | (1u16 << 0u16) } else { self.0 & !(1u16 << 0u16) };
    }

    pub fn set_hblank_flag(&mut self, b: bool)
        ensures
            final(self).0 == with_bit16(old(self).0, 1, b),
    {
        self.0 = if b { self.0 | (1u16 << 1u16) } else { self.0 & !(1u16 << 1u16) };
    }

    pub fn set_vcount_flag(&mut self, b: bool)
        ensures
            final(self).0 == with_bit16(old(self).0, 2, b),
    {
        self.0 = if b { self.0 | (1u16 << 2u16) } else { self.0 & !(1u16 << 2u16) };
    }
}

impl GpuMemoryMappedIO for DisplayStatus {
    /// Writes the IRQ enables and the V-count setting; the flags stay.
    fn write(&mut self, value: u16)
        ensures
            final(self).0 == (old(self).0 & 0x0007) | (value & 0xFF38),
    {
        self.0 = (self.0 & 0x0007) | (value & 0xFF38);
    }

    fn read(&self) -> (r: u16)
        ensures
            r == self.0,
    {
        self.0
    }
}

/// A 15-bit color: red (bits 0 to 4), green (5 to 9), blue (10 to 14); 0x8000 marks a
/// transparent pixel.
#[derive(Copy, Clone, Default, PartialEq, Eq, Structural, Debug)]
pub struct Rgb15(pub u16);

impl Rgb15 {
    pub fn black() -> (r: Rgb15)
        ensures
            r == Rgb15(0),
    {
        Rgb15(0)
    }

    pub fn white() -> (r: Rgb15)
        ensures
            r == Rgb15(0x7fff),
    {
        Rgb15(0x7fff)
    }

    /// The transparent marker.
    pub fn transparent() -> (r: Rgb15)
        ensures
            r == Rgb15(0x8000),
    {
        Rgb15(0x8000)
    }

    pub fn r(&self) -> (r: u16)
        ensures
            r == self.0 & 0x1F,
    {
        self.0 & 0x1F
    }

    pub fn g(&self) -> (r: u16)
        ensures
            r == (self.0 >> 5u16) & 0x1F,
    {
        (self.0 >> 5) & 0x1F
    }

    pub fn b(&self) -> (r: u16)
        ensures
            r == (self.0 >> 10u16) & 0x1F,
    {
        (self.0 >> 10) & 0x1F
    }

    /// The color as 24-bit RGB, each channel scaled by 8.
    pub fn to_rgb24(&self) -> (r: u32)
        ensures
            r == ((self.0 & 0x1F) as u32) << 19u32 | (((self.0 >> 5u16) & 0x1F) as u32) << 11u32 | (((self.0
                >> 10u16) & 0x1F) as u32) << 3u32,
    {
        ((self.r() as u32) << 19) | ((self.g() as u32) << 11) | ((self.b() as u32) << 3)
    }

    /// The color with the low five bits of each channel.
    pub fn from_rgb(r: u16, g: u16, b: u16) -> (c: Rgb15)
        ensures
            c.0 == (r & 0x1F) | (g & 0x1F) << 5u16 | (b & 0x1F) << 10u16,
    {
        Rgb15((r & 0x1F) | (g & 0x1F) << 5 | (b & 0x1F) << 10)
    }

    pub fn get_rgb(&self) -> (r: (u16, u16, u16))
        ensures
            r == (self.0 & 0x1F, (self.0 >> 5u16) & 0x1F, (self.0 >> 10u16) & 0x1F),
    {
        (self.r(), self.g(), self.b())
    }

    pub fn is_transparent(&self) -> (r: bool)
        ensures
            r == (self.0 == 0x8000),
    {
        self.0 == 0x8000
    }
}

/// One pixel of the object layer.
#[derive(Debug, Copy, Clone)]
pub struct ObjBufferEntry {
    pub window: bool,
    pub alpha: bool,
    pub color: Rgb15,
    pub priority: u16,
}

impl Default for ObjBufferEntry {
    /// An empty pixel: transparent, below every layer.
    fn default() -> (r: ObjBufferEntry)
        ensures
            r == (ObjBufferEntry { window: false, alpha: false, color: Rgb15(0x8000), priority: 4 }),
    {
        ObjBufferEntry { window: false, alpha: false, color: Rgb15::transparent(), priority: 4 }
    }
}

/// Rotation and scaling of BG2 or BG3: the matrix, the reference point and its copy
/// that moves while the frame is drawn.
#[derive(Debug, Default, Copy, Clone)]
pub struct BgAffine {
    pub pa: i16,
    pub pb: i16,
    pub pc: i16,
    pub pd: i16,
    pub x: i32,
    pub y: i32,
    pub internal_x: i32,
    pub internal_y: i32,
}

/// BGxCNT: priority (bits 0 and 1), character base (2, 3), mosaic (6), 256 colors (7),
/// screen base (8 to 12), wraparound (13) and size (14, 15).
#[derive(Debug, Default, Clone, Copy)]
pub struct BgControl {
    pub priority: u16,
    pub character_base_block: u16,
    pub screen_base_block: u16,
    pub mosaic: bool,
    pub palette256: bool,
    pub affine_wraparound: bool,
    pub size: u8,
}

pub open spec fn bgcnt_of(value: u16) -> BgControl {
    BgControl {
        priority: value & 3,
        character_base_block: (value >> 2u16) & 3,
        mosaic: bit16(value, 6),
        palette256: bit16(value, 7),
        screen_base_block: (value >> 8u16) & 0x1F,
        affine_wraparound: bit16(value, 13),
        size: ((value >> 14u16) & 3) as u8,
    }
}

pub open spec fn bgcnt_bits(c: BgControl) -> u16 {
    c.priority | c.character_base_block << 2u16 | flag16(c.mosaic, 6) | flag16(c.palette256, 7) | c.screen_base_block
        << 8u16 | flag16(c.affine_wraparound, 13) | (c.size as u16) << 14u16
}

impl GpuMemoryMappedIO for BgControl {
    fn write(&mut self, value: u16)
        ensures
            *final(self) == bgcnt_of(value),
    {
        proof {
            crate::bits::lemma_u16_bits(value, 14, 3);
        }
        self.priority = value & 0b11;
        self.character_base_block = (value >> 2) & 0b11;
        self.mosaic = (value >> 6) & 1 == 1;
        self.palette256 = (value >> 7) & 1 == 1;
        self.screen_base_block = (value >> 8) & 0b11111;
        self.affine_wraparound = (value >> 13) & 1 == 1;
        self.size = ((value >> 14) & 0b11) as u8;
    }

    fn read(&self) -> (r: u16)
        ensures
            r == bgcnt_bits(*self),
    {
        self.priority | self.character_base_block << 2 | flag16_exec(self.mosaic, 6) | flag16_exec(self.palette256, 7)
            | self.screen_base_block << 8 | flag16_exec(self.affine_wraparound, 13) | (self.size as u16) << 14
    }
}

/// Layers that color special effects apply to: BG0 to BG3 (bits 0 to 3), objects (4)
/// and the backdrop (5).
#[derive(Debug, Default, Clone, Copy, PartialEq, Eq, Structural)]
pub struct BlendFlags(pub u16);

pub const BLEND_BG0: u16 = 0b00000001;
pub const BLEND_BG1: u16 = 0b00000010;
pub const BLEND_BG2: u16 = 0b00000100;
pub const BLEND_BG3: u16 = 0b00001000;
pub const BLEND_OBJ: u16 = 0b00010000;
pub const BLEND_BACKDROP: u16 = 0b00100000;

impl BlendFlags {
    /// Keeps the six defined bits.
    pub fn from_bits_truncate(bits: u16) -> (r: BlendFlags)
        ensures
            r.0 == bits & 0x3F,
    {
        BlendFlags(bits & 0x3F)
    }

    /// The flag of background `bg` (below 4).
    pub fn from_bg(bg: usize) -> (r: BlendFlags)
        requires
            bg < 4,
        ensures
            r.0 == 1u16 << bg as u16,
    {
        BlendFlags(1u16 << bg as u16)
    }

    pub fn obj_enabled(&self) -> (r: bool)
        ensures
            r == (self.0 & BLEND_OBJ == BLEND_OBJ),
    {
        self.0 & BLEND_OBJ == BLEND_OBJ
    }

    /// Whether the flag of the layer's kind is set.
    pub fn contains_render_layer(&self, layer: &RenderLayer) -> (r: bool)
        ensures
            r == (self.0 & kind_bits(layer.kind) == kind_bits(layer.kind)),
    {
        let layer_flags = layer.kind.bits();
        self.0 & layer_flags == layer_flags
    }
}

/// Color special effect: none, alpha blending, brightness up or down.
#[derive(Debug, PartialEq, Eq, Structural, Clone, Copy)]
pub enum BlendMode {
    BldNone,
    BldAlpha,
    BldWhite,
    BldBlack,
}

pub open spec fn blend_mode_bits(m: BlendMode) -> u16 {
    match m {
        BlendMode::BldNone => 0,
        BlendMode::BldAlpha => 1,
        BlendMode::BldWhite => 2,
        BlendMode::BldBlack => 3,
    }
}

impl Default for BlendMode {
    fn default() -> (r: Self)
        ensures
            r == BlendMode::BldNone,
    {
        BlendMode::BldNone
    }
}

impl BlendMode {
    /// The effect numbered `value`, if any.
    pub fn from_u16(value: u16) -> (r: Option<Self>)
        ensures
            value < 4 ==> r is Some && blend_mode_bits(r->0) == value,
            value >= 4 ==> r is None,
    {
        if value == 0 {
            Some(Self::BldNone)
        } else if value == 1 {
            Some(Self::BldAlpha)
        } else if value == 2 {
            Some(Self::BldWhite)
        } else if value == 3 {
            Some(Self::BldBlack)
        } else {
            None
        }
    }

    pub fn bits(&self) -> (r: u16)
        ensures
            r == blend_mode_bits(*self),
    {
        match self {
            BlendMode::BldNone => 0,
            BlendMode::BldAlpha => 1,
            BlendMode::BldWhite => 2,
            BlendMode::BldBlack => 3,
        }
    }
}

/// BLDCNT: first targets (bits 0 to 5), effect (6, 7), second targets (8 to 13).
#[derive(Debug, Default, Copy, Clone)]
pub struct BlendControl {
    pub target1: BlendFlags,
    pub target2: BlendFlags,
    pub mode: BlendMode,
}

impl GpuMemoryMappedIO for BlendControl {
    fn write(&mut self, value: u16)
        ensures
            final(self).target1.0 == value & 0x3F,
            final(self).target2.0 == (value >> 8u16) & 0x3F,
            blend_mode_bits(final(self).mode) == (value >> 6u16) & 3,
    {
        self.target1 = BlendFlags::from_bits_truncate(value & 0x3f);
        self.target2 = BlendFlags::from_bits_truncate((value >> 8) & 0x3f);
        proof {
            crate::bits::lemma_u16_bits(value, 6, 3);
            crate::bits::lemma_u16_bits(value, 8, 0x3F);
        }
        self.mode = match BlendMode::from_u16((value >> 6) & 0b11) {
            Some(m) => m,
            None => BlendMode::BldNone,
        };
    }

    fn read(&self) -> (r: u16)
        ensures
            r == self.target1.0 | blend_mode_bits(self.mode) << 6u16 | self.target2.0 << 8u16,
    {
        self.target1.0 | self.mode.bits() << 6 | self.target2.0 << 8
    }
}

/// Kinds of layers, each with its flag bit.
#[derive(Debug, Eq, PartialEq, Structural, Clone, Copy)]
pub enum RenderLayerKind {
    Backdrop,
    Background3,
    Background2,
    Background1,
    Background0,
    Objects,
}

/// The flag bit of a layer kind.
pub open spec fn kind_bits(k: RenderLayerKind) -> u16 {
    match k {
        RenderLayerKind::Backdrop => 0b00100000,
        RenderLayerKind::Background3 => 0b00001000,
        RenderLayerKind::Background2 => 0b00000100,
        RenderLayerKind::Background1 => 0b00000010,
        RenderLayerKind::Background0 => 0b00000001,
        RenderLayerKind::Objects => 0b00010000,
    }
}

impl RenderLayerKind {
    pub fn bits(&self) -> (r: u16)
        ensures
            r == kind_bits(*self),
    {
        match self {
            RenderLayerKind::Backdrop => 0b00100000,
            RenderLayerKind::Background3 => 0b00001000,
            RenderLayerKind::Background2 => 0b00000100,
            RenderLayerKind::Background1 => 0b00000010,
            RenderLayerKind::Background0 => 0b00000001,
            RenderLayerKind::Objects => 0b00010000,
        }
    }

    /// The blend flag of the kind: the same bit.
    pub fn get_blend_flag(&self) -> (r: BlendFlags)
        ensures
            r.0 == kind_bits(*self),
    {
        BlendFlags(self.bits())
    }

    /// The kind whose flag bit is `val`, if any.
    pub fn from_usize(val: usize) -> (r: Option<Self>)
        ensures
            r matches Some(k) ==> kind_bits(k) == val,
            r is None <==> !(val == 0x20 || val == 8 || val == 4 || val == 2 || val == 1 || val == 0x10),
    {
        if val == 0b00100000 {
            Some(Self::Backdrop)
        } else if val == 0b00001000 {
            Some(Self::Background3)
        } else if val == 0b00000100 {
            Some(Self::Background2)
        } else if val == 0b00000010 {
            Some(Self::Background1)
        } else if val == 0b00000001 {
            Some(Self::Background0)
        } else if val == 0b00010000 {
            Some(Self::Objects)
        } else {
            None
        }
    }
}

/// A candidate pixel of a layer, with the layer's priority.
#[derive(Debug, PartialEq, Eq, Structural, Clone, Copy)]
pub struct RenderLayer {
    pub kind: RenderLayerKind,
    pub priority: u16,
    pub pixel: Rgb15,
}

/// The kind of background `bg`.
pub open spec fn bg_kind(bg: usize) -> RenderLayerKind {
    if bg == 0 {
        RenderLayerKind::Background0
    } else if bg == 1 {
        RenderLayerKind::Background1
    } else if bg == 2 {
        RenderLayerKind::Background2
    } else {
        RenderLayerKind::Background3
    }
}

impl RenderLayer {
    pub fn background(bg: usize, pixel: Rgb15, priority: u16) -> (r: RenderLayer)
        requires
            bg < 4,
        ensures
            r == (RenderLayer { kind: bg_kind(bg), pixel, priority }),
    {
        let kind = if bg == 0 {
            RenderLayerKind::Background0
        } else if bg == 1 {
            RenderLayerKind::Background1
        } else if bg == 2 {
            RenderLayerKind::Background2
        } else {
            RenderLayerKind::Background3
        };
        RenderLayer { kind, pixel, priority }
    }

    pub fn objects(pixel: Rgb15, priority: u16) -> (r: RenderLayer)
        ensures
            r == (RenderLayer { kind: RenderLayerKind::Objects, pixel, priority }),
    {
        RenderLayer { kind: RenderLayerKind::Objects, pixel, priority }
    }

    /// The backdrop, below every layer.
    pub fn backdrop(pixel: Rgb15) -> (r: RenderLayer)
        ensures
            r == (RenderLayer { kind: RenderLayerKind::Backdrop, pixel, priority: 4 }),
    {
        RenderLayer { kind: RenderLayerKind::Backdrop, pixel, priority: 4 }
    }

    pub fn is_object(&self) -> (r: bool)
        ensures
            r == (self.kind == RenderLayerKind::Objects),
    {
        self.kind == RenderLayerKind::Objects
    }
}

/// MOSAIC: BG and object mosaic sizes, four bits each.
#[derive(Debug, Default, Clone, Copy)]
pub struct RegMosaic(pub u16);

/// BLDALPHA: the coefficients of the first (bits 0 to 4) and second (8 to 12) targets.
#[derive(Debug, Default, Copy, Clone)]
pub struct BlendAlpha {
    pub eva: u16,
    pub evb: u16,
}

impl GpuMemoryMappedIO for BlendAlpha {
    fn write(&mut self, value: u16)
        ensures
            final(self).eva == value & 0x1F,
            final(self).evb == (value >> 8u16) & 0x1F,
    {
        self.eva = value & 0x1f;
        self.evb = (value >> 8) & 0x1f;
    }

    fn read(&self) -> (r: u16)
        ensures
            r == self.eva | self.evb << 8u16,
    {
        self.eva | self.evb << 8
    }
}

} // verus!
