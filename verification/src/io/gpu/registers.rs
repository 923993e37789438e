use vstd::prelude::*;

verus! {

/// 1 for `true`, 0 for `false`.
pub open spec fn b8(b: bool) -> u8 {
    crate::bits::bool_u8(b)
}

/// Background mode of the display controller.
#[derive(Clone, Copy, PartialEq, Eq, Structural)]
pub enum BGMode {
    Mode0,
    Mode1,
    Mode2,
    Mode3,
    Mode4,
    Mode5,
}

/// Number of a background mode.
pub open spec fn bg_mode_num(m: BGMode) -> u8 {
    match m {
        BGMode::Mode0 => 0,
        BGMode::Mode1 => 1,
        BGMode::Mode2 => 2,
        BGMode::Mode3 => 3,
        BGMode::Mode4 => 4,
        BGMode::Mode5 => 5,
    }
}

impl BGMode {
    /// The background mode with number `mode` (below 6).
    pub fn get(mode: u8) -> (r: BGMode)
        requires
            mode < 6,
        ensures
            bg_mode_num(r) == mode,
    {
        match mode {
            0 => BGMode::Mode0,
            1 => BGMode::Mode1,
            2 => BGMode::Mode2,
            3 => BGMode::Mode3,
            4 => BGMode::Mode4,
            _ => BGMode::Mode5,
        }
    }

    /// Number of this mode.
    pub fn num(self) -> (r: u8)
        ensures
            r == bg_mode_num(self),
    {
        match self {
            BGMode::Mode0 => 0,
            BGMode::Mode1 => 1,
            BGMode::Mode2 => 2,
            BGMode::Mode3 => 3,
            BGMode::Mode4 => 4,
            BGMode::Mode5 => 5,
        }
    }
}

/// Flag bits of the display control register (DISPCNT without the mode).
#[derive(Clone, Copy)]
pub struct DISPCNTFlags(pub u16);

impl DISPCNTFlags {
    /// Bit `i` of the flags.
    pub open spec fn flag(self, i: u16) -> bool {
        (self.0 >> i) & 1 == 1
    }

    /// Bit `i` of the flags (3 to 15).
    pub fn get(&self, i: u16) -> (r: bool)
        requires
            i < 16,
        ensures
            r == self.flag(i),
    {
        (self.0 >> i) & 1 == 1
    }
}

/// Bit numbers of the DISPCNT flags.
pub const DISPLAY_FRAME_SELECT: u16 = 4;
pub const DISPLAY_BG0: u16 = 8;
pub const DISPLAY_BG1: u16 = 9;
pub const DISPLAY_BG2: u16 = 10;
pub const DISPLAY_BG3: u16 = 11;
pub const DISPLAY_OBJ: u16 = 12;
pub const DISPLAY_WINDOW0: u16 = 13;
pub const DISPLAY_WINDOW1: u16 = 14;
pub const DISPLAY_OBJ_WINDOW: u16 = 15;

/// Display control register.
pub struct Dispcnt {
    pub flags: DISPCNTFlags,
    pub mode: BGMode,
}

impl Dispcnt {
    pub fn new() -> (r: Self)
        ensures
            r.flags.0 == 0,
            r.mode == BGMode::Mode0,
    {
        Self { flags: DISPCNTFlags(0), mode: BGMode::Mode0 }
    }

    pub fn raw(&self) -> (r: u16)
        ensures
            r == self.flags.0,
    {
        self.flags.0
    }

    /// Whether any of the three window enable bits (13 to 15) is set.
    pub fn windows_enabled(&self) -> (r: bool)
        ensures
            r == (self.flags.0 >> 13u16 != 0),
    {
        (self.flags.0 >> 13) != 0
    }

    pub open spec fn read_spec(&self, byte: u8) -> u8 {
        if byte == 0 {
            (self.flags.0 as u8) | bg_mode_num(self.mode)
        } else {
            (self.flags.0 >> 8) as u8
        }
    }

    pub fn read<const BYTE: u8>(&self) -> (r: u8)
        requires
            BYTE < 2,
        ensures
            r == self.read_spec(BYTE),
    {
        match BYTE {
            0 => (self.flags.0 as u8) | self.mode.num(),
            _ => (self.flags.0 >> 8) as u8,
        }
    }

    /// The register after writing `value` to byte `byte`.
    pub open spec fn written(self, byte: u8, value: u8) -> Dispcnt {
        if byte == 0 {
            Dispcnt {
                mode: BGMode::get_spec(value & 7),
                flags: DISPCNTFlags((self.flags.0 & !0x00FFu16) | ((value as u16) & 0xFFF8u16)),
            }
        } else {
            Dispcnt {
                mode: self.mode,
                flags: DISPCNTFlags((self.flags.0 & !0xFF00u16) | (((value as u16) << 8u16) & 0xFFF8u16)),
            }
        }
    }

    /// Writes one byte; the low three bits of byte 0 select the mode (0 to 5), the
    /// other bits are flags.
    pub fn write<const BYTE: u8>(&mut self, value: u8)
        requires
            BYTE < 2,
            BYTE == 0 ==> value & 7 < 6,
        ensures
            *final(self) == old(self).written(BYTE, value),
            BYTE == 0 ==> final(self).mode == BGMode::get_spec(value & 7)
                && final(self).flags.0 == (old(self).flags.0 & !0x00FFu16) | ((value as u16) & 0xFFF8u16),
            BYTE == 1 ==> final(self).mode == old(self).mode
                && final(self).flags.0 == (old(self).flags.0 & !0xFF00u16) | (((value as u16) << 8u16) & 0xFFF8u16),
    {
        match BYTE {
            0 => {
                self.mode = BGMode::get(value & 0x7);
                self.flags.0 = (self.flags.0 & !0x00FF) | ((value as u16) & 0xFFF8);
            },
            _ => self.flags.0 = (self.flags.0 & !0xFF00) | (((value as u16) << 8) & 0xFFF8),
        }
    }
}

impl BGMode {
    /// The background mode with number `mode`.
    pub open spec fn get_spec(mode: u8) -> BGMode {
        if mode == 0 { BGMode::Mode0 }
        else if mode == 1 { BGMode::Mode1 }
        else if mode == 2 { BGMode::Mode2 }
        else if mode == 3 { BGMode::Mode3 }
        else if mode == 4 { BGMode::Mode4 }
        else { BGMode::Mode5 }
    }
}

/// Status bits of the display status register.
#[derive(Clone, Copy)]
pub struct DISPSTATFlags(pub u16);

impl DISPSTATFlags {
    pub open spec fn flag(self, i: u16) -> bool {
        (self.0 >> i) & 1 == 1
    }
}

/// `x` with bit `i` set to `b`.
pub open spec fn with_flag16(x: u16, i: u16, b: bool) -> u16 {
    if b { x | (1u16 << i) } else { x & !(1u16 << i) }
}

/// Bit numbers of the DISPSTAT flags.
pub const DISPSTAT_VBLANK: u16 = 0;
pub const DISPSTAT_HBLANK: u16 = 1;
pub const DISPSTAT_VCOUNTER: u16 = 2;
pub const DISPSTAT_VBLANK_IRQ_ENABLE: u16 = 3;
pub const DISPSTAT_HBLANK_IRQ_ENABLE: u16 = 4;
pub const DISPSTAT_VCOUNTER_IRQ_ENABLE: u16 = 5;

/// Display status register.
pub struct Dispstat {
    pub flags: DISPSTATFlags,
    pub vcount_setting: u8,
}

impl Dispstat {
    pub fn new() -> (r: Self)
        ensures
            r.flags.0 == 0,
            r.vcount_setting == 0,
    {
        Self { flags: DISPSTATFlags(0), vcount_setting: 0 }
    }

    pub fn read<const BYTE: u8>(&self) -> (r: u8)
        requires
            BYTE < 2,
        ensures
            r == (if BYTE == 0 { self.flags.0 as u8 } else { self.vcount_setting }),
    {
        match BYTE {
            0 => self.flags.0 as u8,
            _ => self.vcount_setting,
        }
    }

    /// Sets status bit `i` to `b`.
    pub fn set_flag(&mut self, i: u16, b: bool)
        requires
            i < 16,
        ensures
            final(self).flags.0 == with_flag16(old(self).flags.0, i, b),
            final(self).vcount_setting == old(self).vcount_setting,
    {
        if b {
            self.flags.0 = self.flags.0 | (1u16 << i);
        } else {
            self.flags.0 = self.flags.0 & !(1u16 << i);
        }
    }

    /// Whether status bit `i` is set.
    pub fn contains(&self, i: u16) -> (r: bool)
        requires
            i < 16,
        ensures
            r == self.flags.flag(i),
    {
        (self.flags.0 >> i) & 1 == 1
    }

    /// The register after writing `value` to byte `byte`.
    pub open spec fn written(self, byte: u8, value: u8) -> Dispstat {
        if byte == 0 {
            Dispstat {
                flags: DISPSTATFlags((self.flags.0 & 0x7u16) | ((value as u16) & !0x7u16 & 0x1Fu16)),
                ..self
            }
        } else {
            Dispstat { vcount_setting: value, ..self }
        }
    }

    /// Writes one byte: byte 0 sets the writable interrupt-enable bits 3 and 4 and keeps
    /// the three read-only status bits; byte 1 is the V-count setting.
    pub fn write<const BYTE: u8>(&mut self, value: u8)
        requires
            BYTE < 2,
        ensures
            *final(self) == old(self).written(BYTE, value),
            BYTE == 0 ==> final(self).flags.0 == (old(self).flags.0 & 0x7u16) | ((value as u16) & !0x7u16 & 0x1Fu16)
                && final(self).vcount_setting == old(self).vcount_setting,
            BYTE == 1 ==> final(self).flags.0 == old(self).flags.0 && final(self).vcount_setting == value,
    {
        match BYTE {
            0 => {
                self.flags.0 = (self.flags.0 & 0x7) | ((value as u16) & !0x7 & 0x1F);
            },
            _ => self.vcount_setting = value,
        }
    }
}

/// Background control register.
#[derive(Clone, Copy)]
pub struct BgCnt {
    pub priority: u8,
    pub tile_block: u8,
    pub mosaic: bool,
    pub bpp8: bool,
    pub map_block: u8,
    pub wrap: bool,
    pub screen_size: u8,
}

impl BgCnt {
    /// Field widths hold: priority, tile block and screen size take two bits, the map
    /// block five.
    pub open spec fn wf(&self) -> bool {
        self.priority < 4 && self.tile_block < 4 && self.map_block < 32 && self.screen_size < 4
    }

    pub fn new() -> (r: Self)
        ensures
            r.wf(),
            r.priority == 0 && r.tile_block == 0 && !r.mosaic && !r.bpp8 && r.map_block == 0 && !r.wrap
                && r.screen_size == 0,
    {
        Self {
            priority: 0,
            tile_block: 0,
            mosaic: false,
            bpp8: false,
            map_block: 0,
            wrap: false,
            screen_size: 0,
        }
    }

    pub fn read<const BYTE: u8>(&self) -> (r: u8)
        requires
            BYTE < 2,
        ensures
            r == self.read_spec(BYTE),
    {
        match BYTE {
            0 => ((self.bpp8 as u8) << 7) | ((self.mosaic as u8) << 6) | (self.tile_block << 2) | self.priority,
            _ => (self.screen_size << 6) | ((self.wrap as u8) << 5) | self.map_block,
        }
    }

    /// The register after writing `value` to byte `byte`.
    pub open spec fn written(self, byte: u8, value: u8) -> BgCnt {
        if byte == 0 {
            BgCnt {
                priority: value & 0x3,
                tile_block: (value >> 2u8) & 0x3,
                mosaic: (value >> 6u8) & 0x1 != 0,
                bpp8: (value >> 7u8) & 0x1 != 0,
                ..self
            }
        } else {
            BgCnt {
                map_block: value & 0x1F,
                wrap: (value >> 5u8) & 0x1 != 0,
                screen_size: (value >> 6u8) & 0x3,
                ..self
            }
        }
    }

    pub fn write<const BYTE: u8>(&mut self, value: u8)
        requires
            BYTE < 2,
        ensures
            old(self).wf() ==> final(self).wf(),
            *final(self) == old(self).written(BYTE, value),
            BYTE == 0 ==> *final(self) == (BgCnt {
                priority: value & 0x3,
                tile_block: (value >> 2u8) & 0x3,
                mosaic: (value >> 6u8) & 0x1 != 0,
                bpp8: (value >> 7u8) & 0x1 != 0,
                ..*old(self)
            }),
            BYTE == 1 ==> *final(self) == (BgCnt {
                map_block: value & 0x1F,
                wrap: (value >> 5u8) & 0x1 != 0,
                screen_size: (value >> 6u8) & 0x3,
                ..*old(self)
            }),
    {
        proof {
            crate::bits::lemma_u8_fields(value);
        }
        match BYTE {
            0 => {
                self.priority = value & 0x3;
                self.tile_block = (value >> 2) & 0x3;
                self.mosaic = (value >> 6) & 0x1 != 0;
                self.bpp8 = (value >> 7) & 0x1 != 0;
            },
            _ => {
                self.map_block = value & 0x1F;
                self.wrap = (value >> 5) & 0x1 != 0;
                self.screen_size = (value >> 6) & 0x3;
            },
        }
    }
}


/// Mosaic block size; both sizes are between 1 and 16.
pub struct MosaicSize {
    pub h_size: u8,
    pub v_size: u8,
}

impl MosaicSize {
    pub open spec fn wf(&self) -> bool {
        1 <= self.h_size <= 16 && 1 <= self.v_size <= 16
    }

    pub fn new() -> (r: MosaicSize)
        ensures
            r.h_size == 1 && r.v_size == 1,
            r.wf(),
    {
        MosaicSize { h_size: 1, v_size: 1 }
    }

    pub fn read(&self) -> (r: u8)
        requires
            self.wf(),
        ensures
            r == ((self.v_size - 1) as u8) << 4u8 | ((self.h_size - 1) as u8),
    {
        ((self.v_size - 1) << 4) | (self.h_size - 1)
    }

    pub fn write(&mut self, value: u8)
        ensures
            final(self).h_size == (value & 0xF) + 1,
            final(self).v_size == (value >> 4u8) + 1,
            final(self).wf(),
    {
        proof {
            crate::bits::lemma_u8_fields(value);
        }
        self.h_size = (value & 0xF) + 1;
        self.v_size = (value >> 4) + 1;
    }
}

/// Mosaic register: block sizes for backgrounds (byte 0) and objects (byte 1).
pub struct Mosaic {
    pub bg_size: MosaicSize,
    pub obj_size: MosaicSize,
}

impl Mosaic {
    pub open spec fn wf(&self) -> bool {
        self.bg_size.wf() && self.obj_size.wf()
    }

    pub fn new() -> (r: Self)
        ensures
            r.wf(),
            r.bg_size.h_size == 1 && r.bg_size.v_size == 1 && r.obj_size.h_size == 1 && r.obj_size.v_size == 1,
    {
        Self { bg_size: MosaicSize::new(), obj_size: MosaicSize::new() }
    }

    pub fn read<const BYTE: u8>(&self) -> (r: u8)
        requires
            BYTE < 2,
            self.wf(),
        ensures
            r == (if BYTE == 0 {
                ((self.bg_size.v_size - 1) as u8) << 4u8 | ((self.bg_size.h_size - 1) as u8)
            } else {
                ((self.obj_size.v_size - 1) as u8) << 4u8 | ((self.obj_size.h_size - 1) as u8)
            }),
    {
        match BYTE {
            0 => self.bg_size.read(),
            _ => self.obj_size.read(),
        }
    }

    pub fn write<const BYTE: u8>(&mut self, value: u8)
        requires
            BYTE < 2,
        ensures
            final(self).wf() == (old(self).wf() || (BYTE == 0 && old(self).obj_size.wf())
                || (BYTE == 1 && old(self).bg_size.wf())),
            BYTE == 0 ==> final(self).bg_size.h_size == (value & 0xF) + 1
                && final(self).bg_size.v_size == (value >> 4u8) + 1
                && final(self).obj_size == old(self).obj_size,
            BYTE == 1 ==> final(self).obj_size.h_size == (value & 0xF) + 1
                && final(self).obj_size.v_size == (value >> 4u8) + 1
                && final(self).bg_size == old(self).bg_size,
    {
        match BYTE {
            0 => self.bg_size.write(value),
            _ => self.obj_size.write(value),
        }
    }
}

/// Layers selected as a blending target: BG0 to BG3, OBJ and backdrop.
pub struct BldCntTargetPixelSelection {
    pub enabled: [bool; 6],
}

impl BldCntTargetPixelSelection {
    pub fn new() -> (r: BldCntTargetPixelSelection)
        ensures
            forall|i: int| 0 <= i < 6 ==> !r.enabled[i],
    {
        BldCntTargetPixelSelection { enabled: [false; 6] }
    }

    pub fn read(&self) -> (r: u8)
        ensures
            r == b8(self.enabled[0]) | (b8(self.enabled[1]) << 1u8) | (b8(self.enabled[2]) << 2u8)
                | (b8(self.enabled[3]) << 3u8) | (b8(self.enabled[4]) << 4u8) | (b8(self.enabled[5]) << 5u8),
    {
        (self.enabled[0] as u8) | ((self.enabled[1] as u8) << 1) | ((self.enabled[2] as u8) << 2)
            | ((self.enabled[3] as u8) << 3) | ((self.enabled[4] as u8) << 4) | ((self.enabled[5] as u8) << 5)
    }

    pub fn _write(&mut self, value: u8)
        ensures
            forall|i: int| 0 <= i < 6 ==> final(self).enabled[i] == ((value >> (i as u8)) & 0x1 != 0),
    {
        self.enabled[0] = value & 0x1 != 0;
        self.enabled[1] = (value >> 1) & 0x1 != 0;
        self.enabled[2] = (value >> 2) & 0x1 != 0;
        self.enabled[3] = (value >> 3) & 0x1 != 0;
        self.enabled[4] = (value >> 4) & 0x1 != 0;
        self.enabled[5] = (value >> 5) & 0x1 != 0;
        proof {
            crate::bits::lemma_shift_zero_u8(value);
        }
        assert forall|i: int| 0 <= i < 6 implies self.enabled[i] == ((value >> (i as u8)) & 0x1 != 0) by {
            if i == 0 {
            } else if i == 1 {
            } else if i == 2 {
            } else if i == 3 {
            } else if i == 4 {
            } else {
            }
        }
    }
}

/// Color special effect selected in BLDCNT.
#[derive(Clone, Copy, PartialEq, Eq, Structural)]
pub enum ColorSFX {
    NoEffect,
    AlphaBlend,
    _BrightnessInc,
    _BrightnessDec,
}

/// Number of a color special effect.
pub open spec fn sfx_num(e: ColorSFX) -> u8 {
    match e {
        ColorSFX::NoEffect => 0,
        ColorSFX::AlphaBlend => 1,
        ColorSFX::_BrightnessInc => 2,
        ColorSFX::_BrightnessDec => 3,
    }
}

impl ColorSFX {
    /// The effect with number `value` (below 4).
    pub fn _from(value: u8) -> (r: ColorSFX)
        requires
            value < 4,
        ensures
            sfx_num(r) == value,
    {
        match value {
            0 => ColorSFX::NoEffect,
            1 => ColorSFX::AlphaBlend,
            2 => ColorSFX::_BrightnessInc,
            _ => ColorSFX::_BrightnessDec,
        }
    }

    pub fn num(self) -> (r: u8)
        ensures
            r == sfx_num(self),
    {
        match self {
            ColorSFX::NoEffect => 0,
            ColorSFX::AlphaBlend => 1,
            ColorSFX::_BrightnessInc => 2,
            ColorSFX::_BrightnessDec => 3,
        }
    }
}

/// Blend control register.
pub struct BldCnt {
    pub target_pixel1: BldCntTargetPixelSelection,
    pub effect: ColorSFX,
    pub target_pixel2: BldCntTargetPixelSelection,
}

impl BldCnt {
    pub fn new() -> (r: Self)
        ensures
            r.effect == ColorSFX::NoEffect,
            forall|i: int| 0 <= i < 6 ==> !r.target_pixel1.enabled[i] && !r.target_pixel2.enabled[i],
    {
        Self {
            target_pixel1: BldCntTargetPixelSelection::new(),
            effect: ColorSFX::NoEffect,
            target_pixel2: BldCntTargetPixelSelection::new(),
        }
    }

    pub fn read<const BYTE: u8>(&self) -> (r: u8)
        requires
            BYTE < 2,
        ensures
            BYTE == 0 ==> r == (sfx_num(self.effect) << 6u8) | self.target_pixel1.read_spec(),
            BYTE == 1 ==> r == self.target_pixel2.read_spec(),
    {
        match BYTE {
            0 => (self.effect.num() << 6) | self.target_pixel1.read(),
            _ => self.target_pixel2.read(),
        }
    }

    pub fn write<const BYTE: u8>(&mut self, value: u8)
        requires
            BYTE < 2,
        ensures
            BYTE == 0 ==> final(self).target_pixel2.enabled == old(self).target_pixel2.enabled
                && sfx_num(final(self).effect) == value >> 6u8
                && forall|i: int| 0 <= i < 6 ==> final(self).target_pixel1.enabled[i] == ((value >> (i as u8)) & 0x1 != 0),
            BYTE == 1 ==> final(self).target_pixel1.enabled == old(self).target_pixel1.enabled
                && final(self).effect == old(self).effect
                && forall|i: int| 0 <= i < 6 ==> final(self).target_pixel2.enabled[i] == ((value >> (i as u8)) & 0x1 != 0),
    {
        proof {
            crate::bits::lemma_u8_fields(value);
        }
        match BYTE {
            0 => {
                self.target_pixel1._write(value);
                self.effect = ColorSFX::_from(value >> 6);
            },
            _ => self.target_pixel2._write(value),
        }
    }
}

impl BldCntTargetPixelSelection {
    pub open spec fn read_spec(&self) -> u8 {
        b8(self.enabled[0]) | (b8(self.enabled[1]) << 1u8) | (b8(self.enabled[2]) << 2u8)
            | (b8(self.enabled[3]) << 3u8) | (b8(self.enabled[4]) << 4u8) | (b8(self.enabled[5]) << 5u8)
    }
}

/// Window content control: which layers show inside a window.
#[derive(Clone, Copy, PartialEq, Eq, Structural)]
pub struct WindowControl {
    pub bg0_enable: bool,
    pub bg1_enable: bool,
    pub bg2_enable: bool,
    pub bg3_enable: bool,
    pub obj_enable: bool,
    pub color_special_enable: bool,
}

impl WindowControl {
    pub fn new() -> (r: Self)
        ensures
            r == (WindowControl {
                bg0_enable: false,
                bg1_enable: false,
                bg2_enable: false,
                bg3_enable: false,
                obj_enable: false,
                color_special_enable: false,
            }),
    {
        Self {
            bg0_enable: false,
            bg1_enable: false,
            bg2_enable: false,
            bg3_enable: false,
            obj_enable: false,
            color_special_enable: false,
        }
    }

    pub fn all() -> (r: Self)
        ensures
            r == (WindowControl {
                bg0_enable: true,
                bg1_enable: true,
                bg2_enable: true,
                bg3_enable: true,
                obj_enable: true,
                color_special_enable: true,
            }),
    {
        Self {
            bg0_enable: true,
            bg1_enable: true,
            bg2_enable: true,
            bg3_enable: true,
            obj_enable: true,
            color_special_enable: true,
        }
    }

    pub open spec fn all_spec() -> WindowControl {
        WindowControl {
            bg0_enable: true,
            bg1_enable: true,
            bg2_enable: true,
            bg3_enable: true,
            obj_enable: true,
            color_special_enable: true,
        }
    }

    pub open spec fn read_spec(&self) -> u8 {
        (b8(self.color_special_enable) << 5u8) | (b8(self.obj_enable) << 4u8) | (b8(self.bg3_enable) << 3u8)
            | (b8(self.bg2_enable) << 2u8) | (b8(self.bg1_enable) << 1u8) | b8(self.bg0_enable)
    }

    pub fn read<const BYTE: u8>(&self) -> (r: u8)
        requires
            BYTE == 0,
        ensures
            r == self.read_spec(),
    {
        ((self.color_special_enable as u8) << 5) | ((self.obj_enable as u8) << 4) | ((self.bg3_enable as u8) << 3)
            | ((self.bg2_enable as u8) << 2) | ((self.bg1_enable as u8) << 1) | (self.bg0_enable as u8)
    }

    pub fn write<const BYTE: u8>(&mut self, value: u8)
        requires
            BYTE == 0,
        ensures
            *final(self) == (WindowControl {
                color_special_enable: (value >> 5u8) & 0x1 != 0,
                obj_enable: (value >> 4u8) & 0x1 != 0,
                bg3_enable: (value >> 3u8) & 0x1 != 0,
                bg2_enable: (value >> 2u8) & 0x1 != 0,
                bg1_enable: (value >> 1u8) & 0x1 != 0,
                bg0_enable: value & 0x1 != 0,
            }),
    {
        self.color_special_enable = (value >> 5) & 0x1 != 0;
        self.obj_enable = (value >> 4) & 0x1 != 0;
        self.bg3_enable = (value >> 3) & 0x1 != 0;
        self.bg2_enable = (value >> 2) & 0x1 != 0;
        self.bg1_enable = (value >> 1) & 0x1 != 0;
        self.bg0_enable = value & 0x1 != 0;
    }
}

/// Alpha blending coefficients: the raw five-bit values and their effective values,
/// capped at 16.
pub struct BldAlpha {
    pub _raw_eva: u8,
    pub _raw_evb: u8,
    pub eva: u16,
    pub evb: u16,
}

impl BldAlpha {
    pub fn new() -> (r: Self)
        ensures
            r._raw_eva == 0 && r._raw_evb == 0 && r.eva == 0 && r.evb == 0,
    {
        Self { _raw_eva: 0, _raw_evb: 0, eva: 0, evb: 0 }
    }

    pub fn read<const BYTE: u8>(&self) -> (r: u8)
        requires
            BYTE < 2,
        ensures
            r == (if BYTE == 0 { self._raw_eva } else { self._raw_evb }),
    {
        match BYTE {
            0 => self._raw_eva,
            _ => self._raw_evb,
        }
    }

    pub fn write<const BYTE: u8>(&mut self, value: u8)
        requires
            BYTE < 2,
        ensures
            BYTE == 0 ==> final(self)._raw_eva == value & 0x1F
                && final(self).eva == (if value & 0x1F > 0x10 { 0x10 } else { value & 0x1F })
                && final(self)._raw_evb == old(self)._raw_evb && final(self).evb == old(self).evb,
            BYTE == 1 ==> final(self)._raw_evb == value & 0x1F
                && final(self).evb == (if value & 0x1F > 0x10 { 0x10 } else { value & 0x1F })
                && final(self)._raw_eva == old(self)._raw_eva && final(self).eva == old(self).eva,
            final(self).eva <= 0x10 || final(self).eva == old(self).eva,
    {
        match BYTE {
            0 => {
                self._raw_eva = value & 0x1F;
                self.eva = if 0x10 < (self._raw_eva as u16) { 0x10 } else { self._raw_eva as u16 };
            },
            _ => {
                self._raw_evb = value & 0x1F;
                self.evb = if 0x10 < (self._raw_evb as u16) { 0x10 } else { self._raw_evb as u16 };
            },
        }
    }
}

/// Brightness coefficient, capped at 16.
pub struct Bldy {
    pub evy: u8,
}

impl Bldy {
    pub fn new() -> (r: Bldy)
        ensures
            r.evy == 0,
    {
        Bldy { evy: 0 }
    }

    /// The register is write-only and reads as zero.
    pub fn read(&self, _byte: u8) -> (r: u8)
        ensures
            r == 0,
    {
        0
    }

    pub fn write<const BYTE: u8>(&mut self, value: u8)
        requires
            BYTE < 2,
        ensures
            BYTE == 0 ==> final(self).evy == (if value & 0x1F > 0x10 { 0x10 } else { value & 0x1F }),
            BYTE == 1 ==> final(self).evy == old(self).evy,
    {
        match BYTE {
            0 => self.evy = if 0x10 < (value & 0x1F) { 0x10 } else { value & 0x1F },
            _ => (),
        }
    }
}

/// Background scroll offset (nine bits).
#[derive(Clone, Copy)]
pub struct Ofs(pub u16);

impl Ofs {
    pub fn new() -> (r: Self)
        ensures
            r.0 == 0,
    {
        Self(0)
    }

    pub fn read<const BYTE: u8>(&self) -> (r: u8)
        requires
            BYTE < 2,
        ensures
            r == (if BYTE == 0 { self.0 as u8 } else { (self.0 >> 8u16) as u8 }),
    {
        match BYTE {
            0 => self.0 as u8,
            _ => (self.0 >> 8) as u8,
        }
    }

    pub fn write<const BYTE: u8>(&mut self, value: u8)
        requires
            BYTE < 2,
        ensures
            BYTE == 0 ==> final(self).0 == (old(self).0 & !0xFFu16) | (value as u16),
            BYTE == 1 ==> final(self).0 == (old(self).0 & !0x100u16) | (((value as u16) << 8u16) & 0x100u16),
    {
        match BYTE {
            0 => self.0 = (self.0 & !0xFF) | (value as u16),
            _ => self.0 = (self.0 & !0x100) | (((value as u16) << 8) & 0x100),
        }
    }
}

/// Reference point of an affine background: a signed 28-bit fixed-point number with
/// eight fraction bits.
#[derive(Clone, Copy)]
pub struct ReferencePointCoord(i32);

impl ReferencePointCoord {
    pub closed spec fn value(&self) -> i32 {
        self.0
    }

    pub fn new() -> (r: Self)
        ensures
            r.value() == 0,
    {
        Self(0)
    }

    /// The integer part.
    pub fn integer(&self) -> (r: i32)
        ensures
            r == self.value() >> 8,
    {
        self.0 >> 8
    }

    /// The register is write-only and reads as zero.
    pub fn read(&self, _byte: u8) -> (r: u8)
        ensures
            r == 0,
    {
        0
    }

    /// Writes byte `BYTE`; byte 3 holds four bits, and bit 27 is copied to bits 28-31.
    pub fn write<const BYTE: u8>(&mut self, value: u8)
        requires
            BYTE < 4,
        ensures
            BYTE < 3 ==> final(self).value() == (((old(self).value() as u32) & !(0xFFu32 << (BYTE * 8) as u32))
                | ((value as u32) << (BYTE * 8) as u32)) as i32,
            BYTE == 3 ==> final(self).value() == ({
                let v = ((old(self).value() as u32) & !(0xFFu32 << 24u32)) | (((value as u32) & 0xF) << 24u32);
                if v & 0x0800_0000 != 0 { (v | 0xF000_0000) as i32 } else { v as i32 }
            }),
    {
        let offset = BYTE as u32 * 8;
        if BYTE < 3 {
            self.0 = (((self.0 as u32) & !(0xFFu32 << offset)) | ((value as u32) << offset)) as i32;
        } else {
            let v = ((self.0 as u32) & !(0xFFu32 << offset)) | (((value as u32) & 0xF) << offset);
            self.0 = if v & 0x0800_0000 != 0 { (v | 0xF000_0000) as i32 } else { v as i32 };
        }
    }

    /// Adds a rotation/scaling parameter, wrapping on overflow.
    pub fn add_assign(&mut self, rhs: RotationScalingParameter)
        ensures
            final(self).value() as int == crate::bits::wrap_i32(old(self).value() + rhs.value()),
    {
        self.0 = self.0.wrapping_add(rhs.0 as i32);
    }
}

/// Rotation/scaling parameter of an affine background: signed 8.8 fixed point.
#[derive(Clone, Copy)]
pub struct RotationScalingParameter(i16);

impl RotationScalingParameter {
    pub closed spec fn value(&self) -> i16 {
        self.0
    }

    pub fn new() -> (r: Self)
        ensures
            r.value() == 0,
    {
        Self(0)
    }

    /// The register is write-only and reads as zero.
    pub fn read(&self, _byte: u8) -> (r: u8)
        ensures
            r == 0,
    {
        0
    }

    pub fn write<const BYTE: u8>(&mut self, value: u8)
        requires
            BYTE < 2,
        ensures
            final(self).value() == (((old(self).value() as u32) & !(0xFFu32 << (BYTE * 8) as u32))
                | ((value as u32) << (BYTE * 8) as u32)) as i16,
    {
        let offset = BYTE as u32 * 8;
        self.0 = (((self.0 as u32) & !(0xFFu32 << offset)) | ((value as u32) << offset)) as i16;
    }
}

/// Window dimension register: the second coordinate (exclusive end) in byte 0, the
/// first in byte 1.
#[derive(Clone, Copy)]
pub struct WindowDimensions {
    pub coord2: u8,
    pub coord1: u8,
}

impl WindowDimensions {
    pub fn new() -> (r: Self)
        ensures
            r.coord2 == 0 && r.coord1 == 0,
    {
        Self { coord2: 0, coord1: 0 }
    }

    pub fn read<const BYTE: u8>(&self) -> (r: u8)
        requires
            BYTE < 2,
        ensures
            r == (if BYTE == 0 { self.coord2 } else { self.coord1 }),
    {
        match BYTE {
            0 => self.coord2,
            _ => self.coord1,
        }
    }

    pub fn write<const BYTE: u8>(&mut self, value: u8)
        requires
            BYTE < 2,
        ensures
            BYTE == 0 ==> final(self).coord2 == value && final(self).coord1 == old(self).coord1,
            BYTE == 1 ==> final(self).coord1 == value && final(self).coord2 == old(self).coord2,
    {
        match BYTE {
            0 => self.coord2 = value,
            _ => self.coord1 = value,
        }
    }
}


/// Reading a display control byte gives back the byte last written to it.
pub proof fn law_dispcnt_read_after_write(old_flags: u16, old_mode: BGMode, v: u8, byte: u8)
    requires
        byte < 2,
        byte == 0 ==> v & 7 < 6,
    ensures
        byte == 0 ==> (((old_flags & !0x00FFu16) | ((v as u16) & 0xFFF8u16)) as u8) | bg_mode_num(BGMode::get_spec(v & 7)) == v,
        byte == 1 ==> ((((old_flags & !0xFF00u16) | (((v as u16) << 8u16) & 0xFFF8u16)) >> 8u16) as u8) == v,
{
    crate::bits::lemma_register_lanes(old_flags, v);
}

/// Reading a background control byte gives back the byte last written, without the
/// two unused bits 4 and 5 of byte 0.
pub proof fn law_bgcnt_read_after_write(b: BgCnt, v: u8)
    ensures
        (BgCnt {
            priority: v & 0x3,
            tile_block: (v >> 2u8) & 0x3,
            mosaic: (v >> 6u8) & 0x1 != 0,
            bpp8: (v >> 7u8) & 0x1 != 0,
            ..b
        }).read_spec(0) == v & 0xCF,
        (BgCnt {
            map_block: v & 0x1F,
            wrap: (v >> 5u8) & 0x1 != 0,
            screen_size: (v >> 6u8) & 0x3,
            ..b
        }).read_spec(1) == v,
{
    crate::bits::lemma_register_lanes(0, v);
}

/// Reading a window control byte gives back its six meaningful bits as last written.
pub proof fn law_window_control_read_after_write(v: u8)
    ensures
        (WindowControl {
            color_special_enable: (v >> 5u8) & 0x1 != 0,
            obj_enable: (v >> 4u8) & 0x1 != 0,
            bg3_enable: (v >> 3u8) & 0x1 != 0,
            bg2_enable: (v >> 2u8) & 0x1 != 0,
            bg1_enable: (v >> 1u8) & 0x1 != 0,
            bg0_enable: v & 0x1 != 0,
        }).read_spec() == v & 0x3F,
{
    crate::bits::lemma_register_lanes(0, v);
}

/// A nine-bit scroll offset reads back the low byte written and bit 8 of the high byte.
pub proof fn law_ofs_read_after_write(x: u16, v: u8)
    requires
        x < 0x200,
    ensures
        (((x & !0xFFu16) | (v as u16)) as u8) == v,
        ((((x & !0x100u16) | (((v as u16) << 8u16) & 0x100u16)) >> 8u16) as u8) == v & 1,
{
    crate::bits::lemma_register_lanes(x, v);
}

impl BgCnt {
    pub open spec fn read_spec(&self, byte: u8) -> u8 {
        if byte == 0 {
            (b8(self.bpp8) << 7u8) | (b8(self.mosaic) << 6u8) | (self.tile_block << 2u8) | self.priority
        } else {
            (self.screen_size << 6u8) | (b8(self.wrap) << 5u8) | self.map_block
        }
    }
}

} // verus!
