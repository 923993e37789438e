use vstd::prelude::*;
use crate::gpu::regs::{bgcnt_bits, bgcnt_of, blend_mode_bits, dispcnt_bits, dispcnt_of, BgAffine, BgControl, GpuMemoryMappedIO, RegMosaic};
use crate::gpu::window::WindowFlags;
use crate::gpu::{Gpu, VRAM_OBJ_TILES_START_BITMAP, VRAM_OBJ_TILES_START_TEXT};
use crate::interrupt::{InterruptController, IrqBitMask};
use crate::sched::Scheduler;
use crate::timer::{can_sync, overflow_cycles, starts_timer, synced, timer_reg_index, timer_write_rel, with_ctl, Timer, Timers};
use crate::sound::{sound_read, sound_write_rel, SoundController, REG_SOUNDCNT_H};

verus! {

/// Whether the processor runs, waits for an interrupt, or is stopped.
#[derive(Debug, Clone, Copy, PartialEq, Eq, Structural)]
pub enum HaltState {
    Running,
    Halt,
    Stop,
}

/// The wait state control register: static RAM wait (bits 0, 1), wait states 0 to 2
/// first access (2 bits) and second access (1 bit), PHI output (bits 11, 12) and
/// prefetch (bit 13).
#[derive(Debug, Clone, Copy, PartialEq, Eq, Structural)]
pub struct WaitControl(pub u16);

impl WaitControl {
    pub fn new() -> (r: Self)
        ensures
            r.0 == 0,
    {
        WaitControl(0)
    }

    pub fn sram_wait_control(&self) -> (r: u16)
        ensures
            r == self.0 & 3,
            r < 4,
    {
        proof {
            lemma_fields(self.0);
        }
        self.0 & 3
    }

    pub fn ws0_first_access(&self) -> (r: u16)
        ensures
            r == (self.0 >> 2u16) & 3,
            r < 4,
    {
        proof {
            lemma_fields(self.0);
        }
        (self.0 >> 2) & 3
    }

    pub fn ws0_second_access(&self) -> (r: bool)
        ensures
            r == ((self.0 >> 4u16) & 1 != 0),
    {
        (self.0 >> 4) & 1 != 0
    }

    pub fn ws1_first_access(&self) -> (r: u16)
        ensures
            r == (self.0 >> 5u16) & 3,
            r < 4,
    {
        proof {
            lemma_fields(self.0);
        }
        (self.0 >> 5) & 3
    }

    pub fn ws1_second_access(&self) -> (r: bool)
        ensures
            r == ((self.0 >> 7u16) & 1 != 0),
    {
        (self.0 >> 7) & 1 != 0
    }

    pub fn ws2_first_access(&self) -> (r: u16)
        ensures
            r == (self.0 >> 8u16) & 3,
            r < 4,
    {
        proof {
            lemma_fields(self.0);
        }
        (self.0 >> 8) & 3
    }

    pub fn ws2_second_access(&self) -> (r: bool)
        ensures
            r == ((self.0 >> 10u16) & 1 != 0),
    {
        (self.0 >> 10) & 1 != 0
    }

    pub fn prefetch(&self) -> (r: bool)
        ensures
            r == ((self.0 >> 13u16) & 1 != 0),
    {
        (self.0 >> 13) & 1 != 0
    }
}

impl Default for WaitControl {
    fn default() -> (r: Self)
        ensures
            r.0 == 0,
    {
        WaitControl::new()
    }
}

proof fn lemma_fields(x: u16)
    ensures
        x & 3u16 < 4,
        (x >> 2u16) & 3u16 < 4,
        (x >> 5u16) & 3u16 < 4,
        (x >> 8u16) & 3u16 < 4,
{
    crate::bits::lemma_u16_bits(x, 2, 3);
    crate::bits::lemma_u16_bits(x, 5, 3);
    crate::bits::lemma_u16_bits(x, 8, 3);
}


pub const IO_BASE: u32 = 0x0400_0000;
pub const REG_DISPCNT: u32 = 0x0400_0000;
pub const REG_DISPSTAT: u32 = 0x0400_0004;
pub const REG_VCOUNT: u32 = 0x0400_0006;
pub const REG_BG0CNT: u32 = 0x0400_0008;
pub const REG_BG1CNT: u32 = 0x0400_000A;
pub const REG_BG2CNT: u32 = 0x0400_000C;
pub const REG_BG3CNT: u32 = 0x0400_000E;
pub const REG_BG0HOFS: u32 = 0x0400_0010;
pub const REG_BG0VOFS: u32 = 0x0400_0012;
pub const REG_BG3VOFS: u32 = 0x0400_001E;
pub const REG_BG2PA: u32 = 0x0400_0020;
pub const REG_BG2PB: u32 = 0x0400_0022;
pub const REG_BG2PC: u32 = 0x0400_0024;
pub const REG_BG2PD: u32 = 0x0400_0026;
pub const REG_BG2X_L: u32 = 0x0400_0028;
pub const REG_BG2X_H: u32 = 0x0400_002A;
pub const REG_BG2Y_L: u32 = 0x0400_002C;
pub const REG_BG2Y_H: u32 = 0x0400_002E;
pub const REG_BG3PA: u32 = 0x0400_0030;
pub const REG_BG3PB: u32 = 0x0400_0032;
pub const REG_BG3PC: u32 = 0x0400_0034;
pub const REG_BG3PD: u32 = 0x0400_0036;
pub const REG_BG3X_L: u32 = 0x0400_0038;
pub const REG_BG3X_H: u32 = 0x0400_003A;
pub const REG_BG3Y_L: u32 = 0x0400_003C;
pub const REG_BG3Y_H: u32 = 0x0400_003E;
pub const REG_WIN0H: u32 = 0x0400_0040;
pub const REG_WIN1H: u32 = 0x0400_0042;
pub const REG_WIN0V: u32 = 0x0400_0044;
pub const REG_WIN1V: u32 = 0x0400_0046;
pub const REG_WININ: u32 = 0x0400_0048;
pub const REG_WINOUT: u32 = 0x0400_004A;
pub const REG_MOSAIC: u32 = 0x0400_004C;
pub const REG_BLDCNT: u32 = 0x0400_0050;
pub const REG_BLDALPHA: u32 = 0x0400_0052;
pub const REG_BLDY: u32 = 0x0400_0054;
pub const SOUND_BASE: u32 = 0x0400_0060;
pub const SOUND_END: u32 = 0x0400_00A6;
pub const DMA_BASE: u32 = 0x0400_00B0;
pub const REG_DMA0CNT_L: u32 = 0x0400_00B8;
pub const REG_DMA0CNT_H: u32 = 0x0400_00BA;
pub const REG_DMA1CNT_L: u32 = 0x0400_00C4;
pub const REG_DMA1CNT_H: u32 = 0x0400_00C6;
pub const REG_DMA2CNT_L: u32 = 0x0400_00D0;
pub const REG_DMA2CNT_H: u32 = 0x0400_00D2;
pub const REG_DMA3CNT_L: u32 = 0x0400_00DC;
pub const REG_DMA3CNT_H: u32 = 0x0400_00DE;
pub const REG_TM0CNT_L: u32 = 0x0400_0100;
pub const REG_TM3CNT_H: u32 = 0x0400_010E;
pub const REG_KEYINPUT: u32 = 0x0400_0130;
pub const REG_KEYCNT: u32 = 0x0400_0132;
pub const REG_RCNT: u32 = 0x0400_0134;
pub const REG_JOYCNT: u32 = 0x0400_0140;
pub const REG_JOY_RECV: u32 = 0x0400_0150;
pub const REG_JOY_TRANS: u32 = 0x0400_0154;
pub const REG_JOYSTAT: u32 = 0x0400_0158;
pub const REG_IE: u32 = 0x0400_0200;
pub const REG_IF: u32 = 0x0400_0202;
pub const REG_WAITCNT: u32 = 0x0400_0204;
pub const REG_IME: u32 = 0x0400_0208;
pub const REG_POSTFLG: u32 = 0x0400_0300;
pub const REG_HALTCNT: u32 = 0x0400_0301;

/// All keys released (KEYINPUT reads 1 for a released key).
pub const KEYINPUT_ALL_RELEASED: u16 = 0x3FF;

/// The name of I/O register `addr`, or "UNKNOWN" for an address that names none.
pub open spec fn io_reg_name(addr: u32) -> Seq<char> {
    if addr == 0x0400_0000u32 {
        "REG_DISPCNT"@
    } else if addr == 0x0400_0004u32 {
        "REG_DISPSTAT"@
    } else if addr == 0x0400_0006u32 {
        "REG_VCOUNT"@
    } else if addr == 0x0400_0008u32 {
        "REG_BG0CNT"@
    } else if addr == 0x0400_000Au32 {
        "REG_BG1CNT"@
    } else if addr == 0x0400_000Cu32 {
        "REG_BG2CNT"@
    } else if addr == 0x0400_000Eu32 {
        "REG_BG3CNT"@
    } else if addr == 0x0400_0010u32 {
        "REG_BG0HOFS"@
    } else if addr == 0x0400_0012u32 {
        "REG_BG0VOFS"@
    } else if addr == 0x0400_0014u32 {
        "REG_BG1HOFS"@
    } else if addr == 0x0400_0016u32 {
        "REG_BG1VOFS"@
    } else if addr == 0x0400_0018u32 {
        "REG_BG2HOFS"@
    } else if addr == 0x0400_001Au32 {
        "REG_BG2VOFS"@
    } else if addr == 0x0400_001Cu32 {
        "REG_BG3HOFS"@
    } else if addr == 0x0400_001Eu32 {
        "REG_BG3VOFS"@
    } else if addr == 0x0400_0020u32 {
        "REG_BG2PA"@
    } else if addr == 0x0400_0022u32 {
        "REG_BG2PB"@
    } else if addr == 0x0400_0024u32 {
        "REG_BG2PC"@
    } else if addr == 0x0400_0026u32 {
        "REG_BG2PD"@
    } else if addr == 0x0400_0028u32 {
        "REG_BG2X_L"@
    } else if addr == 0x0400_002Au32 {
        "REG_BG2X_H"@
    } else if addr == 0x0400_002Cu32 {
        "REG_BG2Y_L"@
    } else if addr == 0x0400_002Eu32 {
        "REG_BG2Y_H"@
    } else if addr == 0x0400_0030u32 {
        "REG_BG3PA"@
    } else if addr == 0x0400_0032u32 {
        "REG_BG3PB"@
    } else if addr == 0x0400_0034u32 {
        "REG_BG3PC"@
    } else if addr == 0x0400_0036u32 {
        "REG_BG3PD"@
    } else if addr == 0x0400_0038u32 {
        "REG_BG3X_L"@
    } else if addr == 0x0400_003Au32 {
        "REG_BG3X_H"@
    } else if addr == 0x0400_003Cu32 {
        "REG_BG3Y_L"@
    } else if addr == 0x0400_003Eu32 {
        "REG_BG3Y_H"@
    } else if addr == 0x0400_0040u32 {
        "REG_WIN0H"@
    } else if addr == 0x0400_0042u32 {
        "REG_WIN1H"@
    } else if addr == 0x0400_0044u32 {
        "REG_WIN0V"@
    } else if addr == 0x0400_0046u32 {
        "REG_WIN1V"@
    } else if addr == 0x0400_0048u32 {
        "REG_WININ"@
    } else if addr == 0x0400_004Au32 {
        "REG_WINOUT"@
    } else if addr == 0x0400_004Cu32 {
        "REG_MOSAIC"@
    } else if addr == 0x0400_0050u32 {
        "REG_BLDCNT"@
    } else if addr == 0x0400_0052u32 {
        "REG_BLDALPHA"@
    } else if addr == 0x0400_0054u32 {
        "REG_BLDY"@
    } else if addr == 0x0400_0060u32 {
        "REG_SOUND1CNT_L"@
    } else if addr == 0x0400_0062u32 {
        "REG_SOUND1CNT_H"@
    } else if addr == 0x0400_0064u32 {
        "REG_SOUND1CNT_X"@
    } else if addr == 0x0400_0068u32 {
        "REG_SOUND2CNT_L"@
    } else if addr == 0x0400_006Cu32 {
        "REG_SOUND2CNT_H"@
    } else if addr == 0x0400_0070u32 {
        "REG_SOUND3CNT_L"@
    } else if addr == 0x0400_0072u32 {
        "REG_SOUND3CNT_H"@
    } else if addr == 0x0400_0074u32 {
        "REG_SOUND3CNT_X"@
    } else if addr == 0x0400_0078u32 {
        "REG_SOUND4CNT_L"@
    } else if addr == 0x0400_007Cu32 {
        "REG_SOUND4CNT_H"@
    } else if addr == 0x0400_0080u32 {
        "REG_SOUNDCNT_L"@
    } else if addr == 0x0400_0082u32 {
        "REG_SOUNDCNT_H"@
    } else if addr == 0x0400_0084u32 {
        "REG_SOUNDCNT_X"@
    } else if addr == 0x0400_0088u32 {
        "REG_SOUNDBIAS"@
    } else if addr == 0x0400_0090u32 {
        "REG_WAVE_RAM"@
    } else if addr == 0x0400_00A0u32 {
        "REG_FIFO_A"@
    } else if addr == 0x0400_00A4u32 {
        "REG_FIFO_B"@
    } else if addr == 0x0400_00B0u32 {
        "REG_DMA0SAD"@
    } else if addr == 0x0400_00B4u32 {
        "REG_DMA0DAD"@
    } else if addr == 0x0400_00B8u32 {
        "REG_DMA0CNT_L"@
    } else if addr == 0x0400_00BAu32 {
        "REG_DMA0CNT_H"@
    } else if addr == 0x0400_00BCu32 {
        "REG_DMA1SAD"@
    } else if addr == 0x0400_00C0u32 {
        "REG_DMA1DAD"@
    } else if addr == 0x0400_00C4u32 {
        "REG_DMA1CNT_L"@
    } else if addr == 0x0400_00C6u32 {
        "REG_DMA1CNT_H"@
    } else if addr == 0x0400_00C8u32 {
        "REG_DMA2SAD"@
    } else if addr == 0x0400_00CCu32 {
        "REG_DMA2DAD"@
    } else if addr == 0x0400_00D0u32 {
        "REG_DMA2CNT_L"@
    } else if addr == 0x0400_00D2u32 {
        "REG_DMA2CNT_H"@
    } else if addr == 0x0400_00D4u32 {
        "REG_DMA3SAD"@
    } else if addr == 0x0400_00D8u32 {
        "REG_DMA3DAD"@
    } else if addr == 0x0400_00DCu32 {
        "REG_DMA3CNT_L"@
    } else if addr == 0x0400_00DEu32 {
        "REG_DMA3CNT_H"@
    } else if addr == 0x0400_0100u32 {
        "REG_TM0CNT_L"@
    } else if addr == 0x0400_0102u32 {
        "REG_TM0CNT_H"@
    } else if addr == 0x0400_0104u32 {
        "REG_TM1CNT_L"@
    } else if addr == 0x0400_0106u32 {
        "REG_TM1CNT_H"@
    } else if addr == 0x0400_0108u32 {
        "REG_TM2CNT_L"@
    } else if addr == 0x0400_010Au32 {
        "REG_TM2CNT_H"@
    } else if addr == 0x0400_010Cu32 {
        "REG_TM3CNT_L"@
    } else if addr == 0x0400_010Eu32 {
        "REG_TM3CNT_H"@
    } else if addr == 0x0400_0130u32 {
        "REG_KEYINPUT"@
    } else if addr == 0x0400_0132u32 {
        "REG_KEYCNT"@
    } else if addr == 0x0400_0134u32 {
        "REG_RCNT"@
    } else if addr == 0x0400_0136u32 {
        "REG_IR"@
    } else if addr == 0x0400_0140u32 {
        "REG_JOYCNT"@
    } else if addr == 0x0400_0150u32 {
        "REG_JOY_RECV"@
    } else if addr == 0x0400_0154u32 {
        "REG_JOY_TRANS"@
    } else if addr == 0x0400_0158u32 {
        "REG_JOYSTAT"@
    } else if addr == 0x0400_0200u32 {
        "REG_IE"@
    } else if addr == 0x0400_0202u32 {
        "REG_IF"@
    } else if addr == 0x0400_0204u32 {
        "REG_WAITCNT"@
    } else if addr == 0x0400_0208u32 {
        "REG_IME"@
    } else if addr == 0x0400_0300u32 {
        "REG_POSTFLG"@
    } else if addr == 0x0400_0301u32 {
        "REG_HALTCNT"@
    } else if addr == 0x04FF_F600u32 {
        "REG_DEBUG_STRING"@
    } else if addr == 0x04FF_F700u32 {
        "REG_DEBUG_FLAGS"@
    } else if addr == 0x04FF_F780u32 {
        "REG_DEBUG_ENABLE"@
    } else {
        "UNKNOWN"@
    }
}

/// The name of I/O register `addr`, or "UNKNOWN" for an address that names none.
pub fn io_reg_string(addr: u32) -> (r: &'static str)
    ensures
        r@ == io_reg_name(addr),
{
    if addr == 0x0400_0000u32 {
        "REG_DISPCNT"
    } else if addr == 0x0400_0004u32 {
        "REG_DISPSTAT"
    } else if addr == 0x0400_0006u32 {
        "REG_VCOUNT"
    } else if addr == 0x0400_0008u32 {
        "REG_BG0CNT"
    } else if addr == 0x0400_000Au32 {
        "REG_BG1CNT"
    } else if addr == 0x0400_000Cu32 {
        "REG_BG2CNT"
    } else if addr == 0x0400_000Eu32 {
        "REG_BG3CNT"
    } else if addr == 0x0400_0010u32 {
        "REG_BG0HOFS"
    } else if addr == 0x0400_0012u32 {
        "REG_BG0VOFS"
    } else if addr == 0x0400_0014u32 {
        "REG_BG1HOFS"
    } else if addr == 0x0400_0016u32 {
        "REG_BG1VOFS"
    } else if addr == 0x0400_0018u32 {
        "REG_BG2HOFS"
    } else if addr == 0x0400_001Au32 {
        "REG_BG2VOFS"
    } else if addr == 0x0400_001Cu32 {
        "REG_BG3HOFS"
    } else if addr == 0x0400_001Eu32 {
        "REG_BG3VOFS"
    } else if addr == 0x0400_0020u32 {
        "REG_BG2PA"
    } else if addr == 0x0400_0022u32 {
        "REG_BG2PB"
    } else if addr == 0x0400_0024u32 {
        "REG_BG2PC"
    } else if addr == 0x0400_0026u32 {
        "REG_BG2PD"
    } else if addr == 0x0400_0028u32 {
        "REG_BG2X_L"
    } else if addr == 0x0400_002Au32 {
        "REG_BG2X_H"
    } else if addr == 0x0400_002Cu32 {
        "REG_BG2Y_L"
    } else if addr == 0x0400_002Eu32 {
        "REG_BG2Y_H"
    } else if addr == 0x0400_0030u32 {
        "REG_BG3PA"
    } else if addr == 0x0400_0032u32 {
        "REG_BG3PB"
    } else if addr == 0x0400_0034u32 {
        "REG_BG3PC"
    } else if addr == 0x0400_0036u32 {
        "REG_BG3PD"
    } else if addr == 0x0400_0038u32 {
        "REG_BG3X_L"
    } else if addr == 0x0400_003Au32 {
        "REG_BG3X_H"
    } else if addr == 0x0400_003Cu32 {
        "REG_BG3Y_L"
    } else if addr == 0x0400_003Eu32 {
        "REG_BG3Y_H"
    } else if addr == 0x0400_0040u32 {
        "REG_WIN0H"
    } else if addr == 0x0400_0042u32 {
        "REG_WIN1H"
    } else if addr == 0x0400_0044u32 {
        "REG_WIN0V"
    } else if addr == 0x0400_0046u32 {
        "REG_WIN1V"
    } else if addr == 0x0400_0048u32 {
        "REG_WININ"
    } else if addr == 0x0400_004Au32 {
        "REG_WINOUT"
    } else if addr == 0x0400_004Cu32 {
        "REG_MOSAIC"
    } else if addr == 0x0400_0050u32 {
        "REG_BLDCNT"
    } else if addr == 0x0400_0052u32 {
        "REG_BLDALPHA"
    } else if addr == 0x0400_0054u32 {
        "REG_BLDY"
    } else if addr == 0x0400_0060u32 {
        "REG_SOUND1CNT_L"
    } else if addr == 0x0400_0062u32 {
        "REG_SOUND1CNT_H"
    } else if addr == 0x0400_0064u32 {
        "REG_SOUND1CNT_X"
    } else if addr == 0x0400_0068u32 {
        "REG_SOUND2CNT_L"
    } else if addr == 0x0400_006Cu32 {
        "REG_SOUND2CNT_H"
    } else if addr == 0x0400_0070u32 {
        "REG_SOUND3CNT_L"
    } else if addr == 0x0400_0072u32 {
        "REG_SOUND3CNT_H"
    } else if addr == 0x0400_0074u32 {
        "REG_SOUND3CNT_X"
    } else if addr == 0x0400_0078u32 {
        "REG_SOUND4CNT_L"
    } else if addr == 0x0400_007Cu32 {
        "REG_SOUND4CNT_H"
    } else if addr == 0x0400_0080u32 {
        "REG_SOUNDCNT_L"
    } else if addr == 0x0400_0082u32 {
        "REG_SOUNDCNT_H"
    } else if addr == 0x0400_0084u32 {
        "REG_SOUNDCNT_X"
    } else if addr == 0x0400_0088u32 {
        "REG_SOUNDBIAS"
    } else if addr == 0x0400_0090u32 {
        "REG_WAVE_RAM"
    } else if addr == 0x0400_00A0u32 {
        "REG_FIFO_A"
    } else if addr == 0x0400_00A4u32 {
        "REG_FIFO_B"
    } else if addr == 0x0400_00B0u32 {
        "REG_DMA0SAD"
    } else if addr == 0x0400_00B4u32 {
        "REG_DMA0DAD"
    } else if addr == 0x0400_00B8u32 {
        "REG_DMA0CNT_L"
    } else if addr == 0x0400_00BAu32 {
        "REG_DMA0CNT_H"
    } else if addr == 0x0400_00BCu32 {
        "REG_DMA1SAD"
    } else if addr == 0x0400_00C0u32 {
        "REG_DMA1DAD"
    } else if addr == 0x0400_00C4u32 {
        "REG_DMA1CNT_L"
    } else if addr == 0x0400_00C6u32 {
        "REG_DMA1CNT_H"
    } else if addr == 0x0400_00C8u32 {
        "REG_DMA2SAD"
    } else if addr == 0x0400_00CCu32 {
        "REG_DMA2DAD"
    } else if addr == 0x0400_00D0u32 {
        "REG_DMA2CNT_L"
    } else if addr == 0x0400_00D2u32 {
        "REG_DMA2CNT_H"
    } else if addr == 0x0400_00D4u32 {
        "REG_DMA3SAD"
    } else if addr == 0x0400_00D8u32 {
        "REG_DMA3DAD"
    } else if addr == 0x0400_00DCu32 {
        "REG_DMA3CNT_L"
    } else if addr == 0x0400_00DEu32 {
        "REG_DMA3CNT_H"
    } else if addr == 0x0400_0100u32 {
        "REG_TM0CNT_L"
    } else if addr == 0x0400_0102u32 {
        "REG_TM0CNT_H"
    } else if addr == 0x0400_0104u32 {
        "REG_TM1CNT_L"
    } else if addr == 0x0400_0106u32 {
        "REG_TM1CNT_H"
    } else if addr == 0x0400_0108u32 {
        "REG_TM2CNT_L"
    } else if addr == 0x0400_010Au32 {
        "REG_TM2CNT_H"
    } else if addr == 0x0400_010Cu32 {
        "REG_TM3CNT_L"
    } else if addr == 0x0400_010Eu32 {
        "REG_TM3CNT_H"
    } else if addr == 0x0400_0130u32 {
        "REG_KEYINPUT"
    } else if addr == 0x0400_0132u32 {
        "REG_KEYCNT"
    } else if addr == 0x0400_0134u32 {
        "REG_RCNT"
    } else if addr == 0x0400_0136u32 {
        "REG_IR"
    } else if addr == 0x0400_0140u32 {
        "REG_JOYCNT"
    } else if addr == 0x0400_0150u32 {
        "REG_JOY_RECV"
    } else if addr == 0x0400_0154u32 {
        "REG_JOY_TRANS"
    } else if addr == 0x0400_0158u32 {
        "REG_JOYSTAT"
    } else if addr == 0x0400_0200u32 {
        "REG_IE"
    } else if addr == 0x0400_0202u32 {
        "REG_IF"
    } else if addr == 0x0400_0204u32 {
        "REG_WAITCNT"
    } else if addr == 0x0400_0208u32 {
        "REG_IME"
    } else if addr == 0x0400_0300u32 {
        "REG_POSTFLG"
    } else if addr == 0x0400_0301u32 {
        "REG_HALTCNT"
    } else if addr == 0x04FF_F600u32 {
        "REG_DEBUG_STRING"
    } else if addr == 0x04FF_F700u32 {
        "REG_DEBUG_FLAGS"
    } else if addr == 0x04FF_F780u32 {
        "REG_DEBUG_ENABLE"
    } else {
        "UNKNOWN"
    }
}

/// Whether a halfword read of `a` is served; a read of any other register that has
/// a name is not implemented.
pub open spec fn read_handled(a: u32) -> bool {
    ||| a == REG_DISPCNT || a == REG_DISPSTAT || a == REG_VCOUNT
    ||| REG_BG0CNT <= a <= REG_BG3CNT && a % 2 == 0
    ||| a == REG_WIN0H || a == REG_WIN1H || a == REG_WIN0V || a == REG_WIN1V || a == REG_WININ || a == REG_WINOUT
    ||| a == REG_BLDCNT || a == REG_BLDALPHA
    ||| a == REG_IME || a == REG_IE || a == REG_IF
    ||| REG_TM0CNT_L <= a <= REG_TM3CNT_H
    ||| SOUND_BASE <= a <= SOUND_END
    ||| a == REG_DMA0CNT_H || a == REG_DMA1CNT_H || a == REG_DMA2CNT_H || a == REG_DMA3CNT_H
    ||| a == REG_DMA0CNT_L || a == REG_DMA1CNT_L || a == REG_DMA2CNT_L || a == REG_DMA3CNT_L
    ||| a == REG_WAITCNT || a == REG_POSTFLG || a == REG_HALTCNT || a == REG_KEYINPUT || a == REG_KEYCNT
    ||| a == REG_JOYCNT
    ||| 0x0400_0400 <= a <= 0x04FF_FFFF
}

/// Whether a halfword write to `a` is served; a write to any other register that
/// has a name is not implemented.
pub open spec fn write_handled(a: u32) -> bool {
    ||| is_gpu_reg(a)
    ||| a == REG_IME || a == REG_IE || a == REG_IF
    ||| REG_TM0CNT_L <= a <= REG_TM3CNT_H
    ||| SOUND_BASE <= a <= SOUND_END
    ||| DMA_BASE <= a <= REG_DMA3CNT_H
    ||| a == REG_WAITCNT || a == REG_POSTFLG || a == REG_HALTCNT
    ||| a == REG_KEYCNT || a == REG_KEYINPUT || a == REG_RCNT
    ||| a == REG_JOYCNT || a == REG_JOY_RECV || a == REG_JOY_TRANS || a == REG_JOYSTAT
}

/// The DMA channels' registers, as the DMA controller serves them.
pub trait DmaIo {
    /// The control register of channel `channel_id`.
    spec fn ctrl(&self, channel_id: usize) -> u16;

    /// `after` is the controller after `val` was written at offset `ofs` of the
    /// registers of channel `channel_id`.
    spec fn written(&self, channel_id: usize, ofs: u32, val: u16, after: &Self) -> bool;

    fn channel_ctrl(&self, channel_id: usize) -> (r: u16)
        ensures
            r == self.ctrl(channel_id),
    ;

    fn write_16(&mut self, channel_id: usize, ofs: u32, val: u16)
        ensures
            old(self).written(channel_id, ofs, val, final(self)),
    ;
}

/// The memory-mapped I/O devices: interrupts, display, timers, keys, wait states, the
/// sound unit, and the DMA controller that serves its own registers.
pub struct IoDevices<D> {
    pub intc: InterruptController,
    pub dmac: D,
    pub gpu: Gpu,
    pub haltcnt: HaltState,
    pub waitcnt: WaitControl,
    pub post_boot_flag: bool,
    pub timers: Timers,
    pub keyinput: u16,
    pub sound: SoundController,
    pub rcnt: u16,
}

/// The low half of a reference point written: the high half kept.
pub open spec fn ref_low(old: i32, val: u16) -> i32 {
    (((old as u32) & 0xffff0000u32) + (val as u32)) as i32
}

/// Bits 0 to 11 sign-extended from bit 11.
pub open spec fn sext12(v: u32) -> u32 {
    if v & 0x800 != 0 { v | 0xFFFF_F000 } else { v }
}

/// The high half of a reference point written: the low half kept, the 12-bit value
/// sign-extended above it.
pub open spec fn ref_high(old: i32, val: u16) -> i32 {
    (((old as u32) & 0xffff) | (sext12((val & 0xfff) as u32) << 16u32)) as i32
}

/// A reference point register of BG2 or BG3: `(i, high, y)`.
pub open spec fn ref_reg(a: u32) -> Option<(int, bool, bool)> {
    if a == REG_BG2X_L { Some((0, false, false)) }
    else if a == REG_BG2X_H { Some((0, true, false)) }
    else if a == REG_BG2Y_L { Some((0, false, true)) }
    else if a == REG_BG2Y_H { Some((0, true, true)) }
    else if a == REG_BG3X_L { Some((1, false, false)) }
    else if a == REG_BG3X_H { Some((1, true, false)) }
    else if a == REG_BG3Y_L { Some((1, false, true)) }
    else if a == REG_BG3Y_H { Some((1, true, true)) }
    else { None }
}

/// The affine parameters after a write of `val` to reference point register `r`.
pub open spec fn ref_write(a: BgAffine, r: (int, bool, bool), val: u16) -> BgAffine {
    if !r.2 {
        let v = if r.1 { ref_high(a.x, val) } else { ref_low(a.x, val) };
        BgAffine { x: v, internal_x: v, ..a }
    } else {
        let v = if r.1 { ref_high(a.y, val) } else { ref_low(a.y, val) };
        BgAffine { y: v, internal_y: v, ..a }
    }
}

/// A matrix register of BG2 or BG3: `(i, which)` with PA to PD as 0 to 3.
pub open spec fn matrix_reg(a: u32) -> Option<(int, int)> {
    if REG_BG2PA <= a <= REG_BG2PD && a % 2 == 0 { Some((0, (a - REG_BG2PA) / 2)) }
    else if REG_BG3PA <= a <= REG_BG3PD && a % 2 == 0 { Some((1, (a - REG_BG3PA) / 2)) }
    else { None }
}

pub open spec fn matrix_write(a: BgAffine, which: int, val: u16) -> BgAffine {
    if which == 0 { BgAffine { pa: val as i16, ..a } }
    else if which == 1 { BgAffine { pb: val as i16, ..a } }
    else if which == 2 { BgAffine { pc: val as i16, ..a } }
    else { BgAffine { pd: val as i16, ..a } }
}

/// Whether `a` is one of the display registers that `write_16` handles.
pub open spec fn is_gpu_reg(a: u32) -> bool {
    ||| a == REG_DISPCNT || a == REG_DISPSTAT || a == REG_VCOUNT
    ||| REG_BG0CNT <= a <= REG_BG3VOFS && a % 2 == 0
    ||| ref_reg(a) is Some || matrix_reg(a) is Some
    ||| REG_WIN0H <= a <= REG_BLDY && a % 2 == 0 && a != 0x0400_004E
}

/// `g2` is display `g` after a halfword write of `val` to register `a`.
pub open spec fn gpu_reg_write(g: Gpu, g2: Gpu, a: u32, val: u16) -> bool {
    if a == REG_DISPCNT {
        g2 == (Gpu {
            dispcnt: dispcnt_of(val),
            vram_obj_tiles_start: if dispcnt_of(val).mode != g.dispcnt.mode {
                if dispcnt_of(val).mode >= 3 { VRAM_OBJ_TILES_START_BITMAP } else { VRAM_OBJ_TILES_START_TEXT }
            } else {
                g.vram_obj_tiles_start
            },
            ..g
        })
    } else if a == REG_DISPSTAT {
        g2 == (Gpu { dispstat: crate::gpu::regs::DisplayStatus((g.dispstat.0 & 0x0007) | (val & 0xFF38)), ..g })
    } else if a == REG_VCOUNT {
        g2 == (Gpu { vcount: val as usize, ..g })
    } else if REG_BG0CNT <= a <= REG_BG3CNT {
        &&& g2.bgcnt@ == g.bgcnt@.update((a - REG_BG0CNT) / 2, bgcnt_of(val))
        &&& g2 == (Gpu { bgcnt: g2.bgcnt, ..g })
    } else if REG_BG0HOFS <= a <= REG_BG3VOFS {
        let k = (a - REG_BG0HOFS) / 4;
        if (a - REG_BG0HOFS) % 4 == 0 {
            &&& g2.bg_hofs@ == g.bg_hofs@.update(k, val & 0x1ff)
            &&& g2 == (Gpu { bg_hofs: g2.bg_hofs, ..g })
        } else {
            &&& g2.bg_vofs@ == g.bg_vofs@.update(k, val & 0x1ff)
            &&& g2 == (Gpu { bg_vofs: g2.bg_vofs, ..g })
        }
    } else if ref_reg(a) is Some {
        let r = ref_reg(a)->0;
        &&& g2.bg_aff@ == g.bg_aff@.update(r.0, ref_write(g.bg_aff[r.0], r, val))
        &&& g2 == (Gpu { bg_aff: g2.bg_aff, ..g })
    } else if matrix_reg(a) is Some {
        let m = matrix_reg(a)->0;
        &&& g2.bg_aff@ == g.bg_aff@.update(m.0, matrix_write(g.bg_aff[m.0], m.1, val))
        &&& g2 == (Gpu { bg_aff: g2.bg_aff, ..g })
    } else if a == REG_WIN0H || a == REG_WIN1H || a == REG_WIN0V || a == REG_WIN1V {
        let w = if a == REG_WIN0H || a == REG_WIN0V { g.win0 } else { g.win1 };
        let w2 = if a == REG_WIN0H || a == REG_WIN1H {
            crate::gpu::window::Window { right: (val & 0xff) as u8, left: (val >> 8u16) as u8, ..w }
        } else {
            crate::gpu::window::Window { bottom: (val & 0xff) as u8, top: (val >> 8u16) as u8, ..w }
        };
        if a == REG_WIN0H || a == REG_WIN0V { g2 == (Gpu { win0: w2, ..g }) } else { g2 == (Gpu { win1: w2, ..g }) }
    } else if a == REG_WININ {
        let v = val & !0xc0c0u16;
        g2 == (Gpu {
            win0: crate::gpu::window::Window { flags: WindowFlags((v & 0xff) & 0x3F), ..g.win0 },
            win1: crate::gpu::window::Window { flags: WindowFlags((v >> 8u16) & 0x3F), ..g.win1 },
            ..g
        })
    } else if a == REG_WINOUT {
        let v = val & !0xc0c0u16;
        g2 == (Gpu { winout_flags: WindowFlags((v & 0xff) & 0x3F), winobj_flags: WindowFlags((v >> 8u16) & 0x3F), ..g })
    } else if a == REG_MOSAIC {
        g2 == (Gpu { mosaic: RegMosaic(val), ..g })
    } else if a == REG_BLDCNT {
        &&& g2.bldcnt.target1.0 == val & 0x3F
        &&& g2.bldcnt.target2.0 == (val >> 8u16) & 0x3F
        &&& blend_mode_bits(g2.bldcnt.mode) == (val >> 6u16) & 3
        &&& g2 == (Gpu { bldcnt: g2.bldcnt, ..g })
    } else if a == REG_BLDALPHA {
        &&& g2.bldalpha.eva == val & 0x1F
        &&& g2.bldalpha.evb == (val >> 8u16) & 0x1F
        &&& g2 == (Gpu { bldalpha: g2.bldalpha, ..g })
    } else {
        g2 == (Gpu { bldy: if val & 0x1F < 16 { val & 0x1F } else { 16 }, ..g })
    }
}

fn sign_extend_12(v: u32) -> (r: u32)
    ensures
        r == sext12(v),
{
    if v & 0x800 != 0 { v | 0xFFFF_F000 } else { v }
}

impl Gpu {
    /// A halfword write to a display register.
    pub fn write_register(&mut self, a: u32, val: u16)
        requires
            old(self).wf(),
            is_gpu_reg(a),
        ensures
            final(self).wf(),
            gpu_reg_write(*old(self), *final(self), a, val),
    {
        if a == REG_DISPCNT {
            self.write_dispcnt(val);
        } else if a == REG_DISPSTAT {
            self.dispstat.write(val);
        } else if a == REG_VCOUNT {
            self.vcount = val as usize;
        } else if REG_BG0CNT <= a && a <= REG_BG3CNT {
            let i = ((a - REG_BG0CNT) / 2) as usize;
            let mut c = self.bgcnt[i];
            c.write(val);
            proof {
                crate::bits::lemma_u16_bits(val, 0, 3);
            }
            self.bgcnt[i] = c;
            assert(self.bgcnt@ =~= old(self).bgcnt@.update(i as int, bgcnt_of(val)));
        } else if REG_BG0HOFS <= a && a <= REG_BG3VOFS {
            let k = ((a - REG_BG0HOFS) / 4) as usize;
            if (a - REG_BG0HOFS) % 4 == 0 {
                self.bg_hofs[k] = val & 0x1ff;
            } else {
                self.bg_vofs[k] = val & 0x1ff;
            }
        } else if a == REG_BG2X_L || a == REG_BG2X_H || a == REG_BG2Y_L || a == REG_BG2Y_H || a == REG_BG3X_L || a
            == REG_BG3X_H || a == REG_BG3Y_L || a == REG_BG3Y_H {
            let i: usize = if a < REG_BG3PA { 0 } else { 1 };
            let high = a == REG_BG2X_H || a == REG_BG2Y_H || a == REG_BG3X_H || a == REG_BG3Y_H;
            let is_y = a == REG_BG2Y_L || a == REG_BG2Y_H || a == REG_BG3Y_L || a == REG_BG3Y_H;
            let mut aff = self.bg_aff[i];
            let t = if is_y { aff.y } else { aff.x };
            proof {
                let tu = t as u32;
                crate::bits::lemma_u32_bits(tu, 0xffff0000u32);
            }
            let new_value = if high {
                (((t as u32) & 0xffff) | (sign_extend_12((val & 0xfff) as u32) << 16)) as i32
            } else {
                (((t as u32) & 0xffff0000) + (val as u32)) as i32
            };
            if is_y {
                aff.y = new_value;
                aff.internal_y = new_value;
            } else {
                aff.x = new_value;
                aff.internal_x = new_value;
            }
            self.bg_aff[i] = aff;
            assert(self.bg_aff@ =~= old(self).bg_aff@.update(i as int, ref_write(old(self).bg_aff[i as int], ref_reg(a)->0, val)));
        } else if (REG_BG2PA <= a && a <= REG_BG2PD) || (REG_BG3PA <= a && a <= REG_BG3PD) {
            let i: usize = if a <= REG_BG2PD { 0 } else { 1 };
            let base = if i == 0 { REG_BG2PA } else { REG_BG3PA };
            let which = (a - base) / 2;
            let mut aff = self.bg_aff[i];
            if which == 0 {
                aff.pa = val as i16;
            } else if which == 1 {
                aff.pb = val as i16;
            } else if which == 2 {
                aff.pc = val as i16;
            } else {
                aff.pd = val as i16;
            }
            self.bg_aff[i] = aff;
            assert(self.bg_aff@ =~= old(self).bg_aff@.update(i as int, matrix_write(old(self).bg_aff[i as int], which as int, val)));
        } else if a == REG_WIN0H {
            self.win0.right = (val & 0xff) as u8;
            self.win0.left = (val >> 8) as u8;
        } else if a == REG_WIN1H {
            self.win1.right = (val & 0xff) as u8;
            self.win1.left = (val >> 8) as u8;
        } else if a == REG_WIN0V {
            self.win0.bottom = (val & 0xff) as u8;
            self.win0.top = (val >> 8) as u8;
        } else if a == REG_WIN1V {
            self.win1.bottom = (val & 0xff) as u8;
            self.win1.top = (val >> 8) as u8;
        } else if a == REG_WININ {
            let value = val & !0xc0c0u16;
            self.win0.flags = WindowFlags::from(value & 0xff);
            self.win1.flags = WindowFlags::from(value >> 8);
        } else if a == REG_WINOUT {
            let value = val & !0xc0c0u16;
            self.winout_flags = WindowFlags::from(value & 0xff);
            self.winobj_flags = WindowFlags::from(value >> 8);
        } else if a == REG_MOSAIC {
            self.mosaic = RegMosaic(val);
        } else if a == REG_BLDCNT {
            self.bldcnt.write(val);
        } else if a == REG_BLDALPHA {
            self.bldalpha.write(val);
        } else {
            let v = val & 0b11111;
            self.bldy = if v < 16 { v } else { 16 };
        }
    }
}


/// Whether a halfword write of `val` to `a` can be carried out: a timer register
/// exists and its start fits the time, stop mode is not asked for, and a register
/// with a name is one that the devices serve.
pub open spec fn io_write_ok<D>(io: IoDevices<D>, sched: Scheduler, a: u32, val: u16) -> bool {
    &&& REG_TM0CNT_L <= a <= REG_TM3CNT_H ==> {
        &&& timer_reg_index(a) is Some
        &&& timer_reg_index(a) matches Some((id, true)) ==> (starts_timer(val) ==> sched.timestamp + overflow_cycles(
            with_ctl(io.timers.timers[id as int], val),
        ) <= usize::MAX)
    }
    &&& a == REG_HALTCNT ==> val & 0x80 == 0
    &&& io_reg_name(a) != "UNKNOWN"@ ==> write_handled(a)
}

/// The value a halfword read of `a` gives when a register of these devices holds it;
/// `None` for the timers, the sound unit, the DMA control registers and KEYCNT.
pub open spec fn io_read_value<D>(io: IoDevices<D>, a: u32) -> Option<u16> {
    let g = io.gpu;
    if a == REG_DISPCNT {
        Some(dispcnt_bits(g.dispcnt))
    } else if a == REG_DISPSTAT {
        Some(g.dispstat.0)
    } else if a == REG_VCOUNT {
        Some(g.vcount as u16)
    } else if REG_BG0CNT <= a <= REG_BG3CNT && a % 2 == 0 {
        Some(bgcnt_bits(g.bgcnt[(a - REG_BG0CNT) / 2]))
    } else if a == REG_WIN0H {
        Some((g.win0.left as u16) << 8u16 | (g.win0.right as u16))
    } else if a == REG_WIN1H {
        Some((g.win1.left as u16) << 8u16 | (g.win1.right as u16))
    } else if a == REG_WIN0V {
        Some((g.win0.top as u16) << 8u16 | (g.win0.bottom as u16))
    } else if a == REG_WIN1V {
        Some((g.win1.top as u16) << 8u16 | (g.win1.bottom as u16))
    } else if a == REG_WININ {
        Some(g.win1.flags.0 << 8u16 | g.win0.flags.0)
    } else if a == REG_WINOUT {
        Some(g.winobj_flags.0 << 8u16 | g.winout_flags.0)
    } else if a == REG_BLDCNT {
        Some(g.bldcnt.target1.0 | blend_mode_bits(g.bldcnt.mode) << 6u16 | g.bldcnt.target2.0 << 8u16)
    } else if a == REG_BLDALPHA {
        Some(g.bldalpha.eva | g.bldalpha.evb << 8u16)
    } else if a == REG_IME {
        Some(if io.intc.master_enable { 1u16 } else { 0 })
    } else if a == REG_IE {
        Some(io.intc.enable.0)
    } else if a == REG_IF {
        Some(io.intc.flags.0)
    } else if SOUND_BASE <= a <= SOUND_END && a != REG_SOUNDCNT_H {
        Some(sound_read(io.sound, a))
    } else if REG_TM0CNT_L <= a <= REG_TM3CNT_H || SOUND_BASE <= a <= SOUND_END || a == REG_DMA0CNT_H || a
        == REG_DMA1CNT_H || a == REG_DMA2CNT_H || a == REG_DMA3CNT_H || a == REG_KEYCNT {
        None
    } else if a == REG_WAITCNT {
        Some(io.waitcnt.0)
    } else if a == REG_POSTFLG {
        Some(if io.post_boot_flag { 1u16 } else { 0 })
    } else if a == REG_KEYINPUT {
        Some(io.keyinput)
    } else {
        Some(0)
    }
}

/// `io2` is `io` after a halfword write of `val` to `a`, for the registers that these
/// devices hold (the timers, sound and DMA registers are described apart).
pub open spec fn io_write_rel<D>(io: IoDevices<D>, io2: IoDevices<D>, a: u32, val: u16) -> bool {
    if is_gpu_reg(a) {
        &&& gpu_reg_write(io.gpu, io2.gpu, a, val)
        &&& io2 == (IoDevices { gpu: io2.gpu, ..io })
    } else if a == REG_IME {
        io2 == (IoDevices { intc: InterruptController { master_enable: val != 0, ..io.intc }, ..io })
    } else if a == REG_IE {
        io2 == (IoDevices { intc: InterruptController { enable: IrqBitMask(val), ..io.intc }, ..io })
    } else if a == REG_IF {
        io2 == (IoDevices { intc: InterruptController { flags: IrqBitMask(io.intc.flags.0 & !val), ..io.intc }, ..io })
    } else if a == REG_WAITCNT {
        io2 == (IoDevices { waitcnt: WaitControl(val), ..io })
    } else if a == REG_POSTFLG {
        io2 == (IoDevices { post_boot_flag: val != 0, ..io })
    } else if a == REG_HALTCNT {
        io2 == (IoDevices { haltcnt: HaltState::Halt, ..io })
    } else if a == REG_KEYINPUT {
        io2 == (IoDevices { keyinput: val, ..io })
    } else if a == REG_RCNT {
        io2 == (IoDevices { rcnt: val, ..io })
    } else {
        io2 == io
    }
}

/// The interrupt registers: what is written to IE or WAITCNT reads back, a write to IF
/// acknowledges exactly the requests whose bits it sets, IME reads 1 after a write of
/// anything but zero, and none of these writes changes the other registers.
pub proof fn law_interrupt_registers<D>(io: IoDevices<D>, io2: IoDevices<D>, a: u32, val: u16)
    requires
        a == REG_IE || a == REG_IF || a == REG_IME || a == REG_WAITCNT,
        io_write_rel(io, io2, a, val),
    ensures
        a == REG_IE ==> io_read_value(io2, REG_IE) == Some(val),
        a == REG_WAITCNT ==> io_read_value(io2, REG_WAITCNT) == Some(val),
        a == REG_IF ==> io_read_value(io2, REG_IF) == Some(io.intc.flags.0 & !val),
        a == REG_IME ==> io_read_value(io2, REG_IME) == Some(if val != 0 { 1u16 } else { 0u16 }),
        forall|b: u32|
            b != a && (b == REG_IE || b == REG_IF || b == REG_IME || b == REG_WAITCNT || b == REG_KEYINPUT
                || b == REG_DISPCNT || b == REG_DISPSTAT) ==> #[trigger] io_read_value(io2, b) == io_read_value(io, b),
{
}

impl InterruptController {
    /// Acknowledges the interrupts whose bits are set in `val` (a write to IF).
    pub fn clear(&mut self, val: u16)
        ensures
            *final(self) == (InterruptController { flags: IrqBitMask(old(self).flags.0 & !val), ..*old(self) }),
    {
        self.flags = IrqBitMask(self.flags.0 & !val);
    }
}

impl<D: DmaIo> IoDevices<D> {
    pub fn new(intc: InterruptController, gpu: Gpu, dmac: D, timers: Timers, sound: SoundController) -> (r: Self)
        ensures
            r == (IoDevices {
                intc,
                dmac,
                gpu,
                haltcnt: HaltState::Running,
                waitcnt: WaitControl(0),
                post_boot_flag: false,
                timers,
                keyinput: KEYINPUT_ALL_RELEASED,
                sound,
                rcnt: 0,
            }),
    {
        Self {
            gpu,
            intc,
            dmac,
            haltcnt: HaltState::Running,
            waitcnt: WaitControl::new(),
            post_boot_flag: false,
            timers,
            keyinput: KEYINPUT_ALL_RELEASED,
            sound,
            rcnt: 0,
        }
    }

    /// A halfword write to I/O register `IO_BASE + addr`. Returns whether WAITCNT was
    /// written, for the bus to update its access timings.
    pub fn write_16(&mut self, scheduler: &mut Scheduler, addr: u32, val: u16) -> (waitcnt_written: bool)
        requires
            old(self).gpu.wf(),
            old(self).timers.wf(),
            addr + IO_BASE <= u32::MAX,
            io_write_ok(*old(self), *old(scheduler), (addr + IO_BASE) as u32, val),
            SOUND_BASE <= addr + IO_BASE <= SOUND_END ==> old(self).sound.wf(),
        ensures
            final(self).gpu.wf(),
            final(self).timers.wf(),
            old(self).sound.wf() ==> final(self).sound.wf(),
            waitcnt_written == (addr + IO_BASE == REG_WAITCNT),
            REG_TM0CNT_L <= addr + IO_BASE <= REG_TM3CNT_H ==> {
                &&& timer_write_rel(old(self).timers, final(self).timers, *old(scheduler), *final(scheduler), (addr + IO_BASE) as u32, val)
                &&& *final(self) == (IoDevices { timers: final(self).timers, ..*old(self) })
            },
            !(REG_TM0CNT_L <= addr + IO_BASE <= REG_TM3CNT_H) ==> *final(scheduler) == *old(scheduler),
            SOUND_BASE <= addr + IO_BASE <= SOUND_END ==> *final(self) == (IoDevices { sound: final(self).sound, ..*old(self) })
                && sound_write_rel(old(self).sound, final(self).sound, (addr + IO_BASE) as u32, val),
            DMA_BASE <= addr + IO_BASE <= REG_DMA3CNT_H ==> *final(self) == (IoDevices { dmac: final(self).dmac, ..*old(self) })
                && old(self).dmac.written(
                ((addr + IO_BASE - DMA_BASE) / 12) as usize,
                ((addr + IO_BASE - DMA_BASE) % 12) as u32,
                val,
                &final(self).dmac,
            ),
            !(REG_TM0CNT_L <= addr + IO_BASE <= REG_TM3CNT_H) && !(SOUND_BASE <= addr + IO_BASE <= SOUND_END) && !(DMA_BASE
                <= addr + IO_BASE <= REG_DMA3CNT_H) ==> io_write_rel(*old(self), *final(self), (addr + IO_BASE) as u32, val),
    {
        let io_addr = addr + IO_BASE;
        if (io_addr == REG_DISPCNT || io_addr == REG_DISPSTAT || io_addr == REG_VCOUNT) || (REG_BG0CNT <= io_addr
            && io_addr <= REG_BG3VOFS && io_addr % 2 == 0) || (REG_BG2PA <= io_addr && io_addr <= REG_BG3Y_H && io_addr % 2
            == 0) || (REG_WIN0H <= io_addr && io_addr <= REG_BLDY && io_addr % 2 == 0 && io_addr != 0x0400_004E) {
            self.gpu.write_register(io_addr, val);
        } else if io_addr == REG_IME {
            self.intc.master_enable = val != 0;
        } else if io_addr == REG_IE {
            self.intc.enable = IrqBitMask(val);
        } else if io_addr == REG_IF {
            self.intc.clear(val);
        } else if REG_TM0CNT_L <= io_addr && io_addr <= REG_TM3CNT_H {
            self.timers.handle_write(scheduler, io_addr, val);
        } else if SOUND_BASE <= io_addr && io_addr <= SOUND_END {
            self.sound.handle_write(io_addr, val);
        } else if DMA_BASE <= io_addr && io_addr <= REG_DMA3CNT_H {
            let ofs = io_addr - DMA_BASE;
            let channel_id = (ofs / 12) as usize;
            self.dmac.write_16(channel_id, ofs % 12, val);
        } else if io_addr == REG_WAITCNT {
            self.waitcnt = WaitControl(val);
            return true;
        } else if io_addr == REG_POSTFLG {
            self.post_boot_flag = val != 0;
        } else if io_addr == REG_HALTCNT {
            self.haltcnt = HaltState::Halt;
        } else if io_addr == REG_KEYINPUT {
            self.keyinput = val;
        } else if io_addr == REG_RCNT {
            self.rcnt = val;
        }
        false
    }

    /// A halfword read of I/O register `addr | IO_BASE`.
    pub fn read_16(&mut self, scheduler: &Scheduler, addr: u32) -> (r: u16)
        requires
            old(self).gpu.wf(),
            old(self).timers.wf(),
            (addr | IO_BASE) != REG_KEYCNT,
            (addr | IO_BASE) != REG_SOUNDCNT_H,
            io_reg_name(addr | IO_BASE) != "UNKNOWN"@ ==> read_handled(addr | IO_BASE),
            SOUND_BASE <= (addr | IO_BASE) <= SOUND_END ==> old(self).sound.wf(),
            REG_TM0CNT_L <= (addr | IO_BASE) <= REG_TM3CNT_H ==> {
                &&& timer_reg_index(addr | IO_BASE) is Some
                &&& timer_reg_index(addr | IO_BASE) matches Some((id, false)) ==> can_sync(old(self).timers.timers[id as int], scheduler.timestamp)
            },
        ensures
            final(self).gpu.wf(),
            final(self).timers.wf(),
            io_read_value(*old(self), addr | IO_BASE) matches Some(v) ==> r == v && *final(self) == *old(self),
            REG_TM0CNT_L <= (addr | IO_BASE) <= REG_TM3CNT_H ==> {
                &&& *final(self) == (IoDevices { timers: final(self).timers, ..*old(self) })
                &&& final(self).timers.running_timers == old(self).timers.running_timers
                &&& timer_reg_index(addr | IO_BASE) matches Some((id, true)) ==> r == old(self).timers.timers[id as int].ctl.0
                    && final(self).timers.timers@ == old(self).timers.timers@
                &&& timer_reg_index(addr | IO_BASE) matches Some((id, false)) ==> r == synced(
                    old(self).timers.timers[id as int],
                    scheduler.timestamp,
                ).data && final(self).timers.timers@ == old(self).timers.timers@.update(
                    id as int,
                    synced(old(self).timers.timers[id as int], scheduler.timestamp),
                )
            },
            (addr | IO_BASE) == REG_DMA0CNT_H ==> r == old(self).dmac.ctrl(0) && *final(self) == *old(self),
            (addr | IO_BASE) == REG_DMA1CNT_H ==> r == old(self).dmac.ctrl(1) && *final(self) == *old(self),
            (addr | IO_BASE) == REG_DMA2CNT_H ==> r == old(self).dmac.ctrl(2) && *final(self) == *old(self),
            (addr | IO_BASE) == REG_DMA3CNT_H ==> r == old(self).dmac.ctrl(3) && *final(self) == *old(self),
    {
        let io_addr = addr | IO_BASE;
        let g = &self.gpu;
        if io_addr == REG_DISPCNT {
            g.dispcnt.read()
        } else if io_addr == REG_DISPSTAT {
            g.dispstat.read()
        } else if io_addr == REG_VCOUNT {
            g.vcount as u16
        } else if REG_BG0CNT <= io_addr && io_addr <= REG_BG3CNT && io_addr % 2 == 0 {
            g.bgcnt[((io_addr - REG_BG0CNT) / 2) as usize].read()
        } else if io_addr == REG_WIN0H {
            (g.win0.left as u16) << 8 | (g.win0.right as u16)
        } else if io_addr == REG_WIN1H {
            (g.win1.left as u16) << 8 | (g.win1.right as u16)
        } else if io_addr == REG_WIN0V {
            (g.win0.top as u16) << 8 | (g.win0.bottom as u16)
        } else if io_addr == REG_WIN1V {
            (g.win1.top as u16) << 8 | (g.win1.bottom as u16)
        } else if io_addr == REG_WININ {
            g.win1.flags.0 << 8 | g.win0.flags.0
        } else if io_addr == REG_WINOUT {
            g.winobj_flags.0 << 8 | g.winout_flags.0
        } else if io_addr == REG_BLDCNT {
            g.bldcnt.read()
        } else if io_addr == REG_BLDALPHA {
            g.bldalpha.read()
        } else if io_addr == REG_IME {
            if self.intc.master_enable { 1 } else { 0 }
        } else if io_addr == REG_IE {
            self.intc.enable.0
        } else if io_addr == REG_IF {
            self.intc.flags.0
        } else if REG_TM0CNT_L <= io_addr && io_addr <= REG_TM3CNT_H {
            self.timers.handle_read(scheduler, io_addr)
        } else if SOUND_BASE <= io_addr && io_addr <= SOUND_END {
            self.sound.handle_read(io_addr)
        } else if io_addr == REG_DMA0CNT_H {
            self.dmac.channel_ctrl(0)
        } else if io_addr == REG_DMA1CNT_H {
            self.dmac.channel_ctrl(1)
        } else if io_addr == REG_DMA2CNT_H {
            self.dmac.channel_ctrl(2)
        } else if io_addr == REG_DMA3CNT_H {
            self.dmac.channel_ctrl(3)
        } else if io_addr == REG_WAITCNT {
            self.waitcnt.0
        } else if io_addr == REG_POSTFLG {
            if self.post_boot_flag { 1 } else { 0 }
        } else if io_addr == REG_KEYINPUT {
            self.keyinput
        } else {
            0
        }
    }
}


/// The value a halfword read of DMA register `a` gives: a channel's control register
/// for DMAxCNT_H, 0 for the write-only address and count registers.
pub open spec fn dma_reg_value<D: DmaIo>(io: IoDevices<D>, a: u32) -> u16 {
    if a == REG_DMA0CNT_H {
        io.dmac.ctrl(0)
    } else if a == REG_DMA1CNT_H {
        io.dmac.ctrl(1)
    } else if a == REG_DMA2CNT_H {
        io.dmac.ctrl(2)
    } else if a == REG_DMA3CNT_H {
        io.dmac.ctrl(3)
    } else {
        0
    }
}

/// Byte `addr & 1` of a halfword.
pub open spec fn byte_of(t: u16, addr: u32) -> u8 {
    if addr & 1 != 0 { (t >> 8u16) as u8 } else { t as u8 }
}

/// A halfword with byte `addr & 1` replaced by `val`.
pub open spec fn merge_byte(t: u16, addr: u32, val: u8) -> u16 {
    if addr & 1 != 0 { (t & 0xff) | (val as u16) << 8u16 } else { (t & 0xff00) | (val as u16) }
}

/// A byte write changes only its own byte of the halfword: that byte reads back as
/// written and the other byte keeps its value.
pub proof fn law_byte_lanes(t: u16, addr: u32, val: u8)
    ensures
        byte_of(merge_byte(t, addr, val), addr) == val,
        byte_of(merge_byte(t, addr, val), addr ^ 1) == byte_of(t, addr ^ 1),
{
    assert(byte_of(merge_byte(t, addr, val), addr) == val && byte_of(merge_byte(t, addr, val), addr ^ 1) == byte_of(
        t,
        addr ^ 1,
    )) by (bit_vector);
}

impl<D: DmaIo> IoDevices<D> {
    /// A byte read of I/O register `addr | IO_BASE`: the matching byte of its halfword.
    pub fn read_8(&mut self, scheduler: &Scheduler, addr: u32) -> (r: u8)
        requires
            old(self).gpu.wf(),
            old(self).timers.wf(),
            ((addr & !1u32) | IO_BASE) != REG_KEYCNT,
            ((addr & !1u32) | IO_BASE) != REG_SOUNDCNT_H,
            io_reg_name((addr & !1u32) | IO_BASE) != "UNKNOWN"@ ==> read_handled((addr & !1u32) | IO_BASE),
            SOUND_BASE <= ((addr & !1u32) | IO_BASE) <= SOUND_END ==> old(self).sound.wf(),
            REG_TM0CNT_L <= ((addr & !1u32) | IO_BASE) <= REG_TM3CNT_H ==> {
                &&& timer_reg_index((addr & !1u32) | IO_BASE) is Some
                &&& timer_reg_index((addr & !1u32) | IO_BASE) matches Some((id, false)) ==> can_sync(
                    old(self).timers.timers[id as int],
                    scheduler.timestamp,
                )
            },
        ensures
            final(self).gpu.wf(),
            final(self).timers.wf(),
            io_read_value(*old(self), (addr & !1u32) | IO_BASE) matches Some(v) ==> r == byte_of(v, addr) && *final(self)
                == *old(self),
            DMA_BASE <= ((addr & !1u32) | IO_BASE) <= REG_DMA3CNT_H ==> r == byte_of(
                dma_reg_value(*old(self), (addr & !1u32) | IO_BASE),
                addr,
            ) && *final(self) == *old(self),
    {
        let t = self.read_16(scheduler, addr & !1);
        if addr & 1 != 0 {
            (t >> 8) as u8
        } else {
            t as u8
        }
    }

    /// A byte write to I/O register `IO_BASE + addr`: the halfword is read, the byte
    /// replaced, and the halfword written back. Returns whether WAITCNT was written.
    pub fn write_8(&mut self, scheduler: &mut Scheduler, addr: u32, val: u8) -> (waitcnt_written: bool)
        requires
            old(self).gpu.wf(),
            old(self).timers.wf(),
            addr < IO_BASE,
            !(0x0400_00A0 <= addr + IO_BASE <= 0x0400_00A7),
            ((addr & !1u32) | IO_BASE) != REG_KEYCNT,
            ((addr & !1u32) | IO_BASE) != REG_SOUNDCNT_H,
            io_reg_name((addr & !1u32) | IO_BASE) != "UNKNOWN"@ ==> read_handled((addr & !1u32) | IO_BASE),
            io_reg_name((addr & !1u32) | IO_BASE) != "UNKNOWN"@ ==> write_handled((addr & !1u32) | IO_BASE),
            SOUND_BASE <= ((addr & !1u32) | IO_BASE) <= SOUND_END ==> old(self).sound.wf(),
            io_read_value(*old(self), (addr & !1u32) | IO_BASE) matches Some(t) ==> io_write_ok(
                *old(self),
                *old(scheduler),
                (addr & !1u32) | IO_BASE,
                merge_byte(t, addr, val),
            ),
            REG_TM0CNT_L <= ((addr & !1u32) | IO_BASE) <= REG_TM3CNT_H ==> {
                &&& timer_reg_index((addr & !1u32) | IO_BASE) is Some
                &&& timer_reg_index((addr & !1u32) | IO_BASE) matches Some((id, false)) ==> can_sync(
                    old(self).timers.timers[id as int],
                    old(scheduler).timestamp,
                )
                &&& timer_reg_index((addr & !1u32) | IO_BASE) matches Some((id, true)) ==> (starts_timer(
                    merge_byte(old(self).timers.timers[id as int].ctl.0, addr, val),
                ) ==> old(scheduler).timestamp + overflow_cycles(
                    with_ctl(old(self).timers.timers[id as int], merge_byte(old(self).timers.timers[id as int].ctl.0, addr, val)),
                ) <= usize::MAX)
            },
        ensures
            final(self).gpu.wf(),
            final(self).timers.wf(),
            waitcnt_written == ((addr & !1u32) | IO_BASE == REG_WAITCNT),
            old(self).sound.wf() ==> final(self).sound.wf(),
            DMA_BASE <= ((addr & !1u32) | IO_BASE) <= REG_DMA3CNT_H ==> *final(self) == (IoDevices {
                dmac: final(self).dmac,
                ..*old(self)
            }) && old(self).dmac.written(
                ((((addr & !1u32) | IO_BASE) - DMA_BASE) / 12) as usize,
                ((((addr & !1u32) | IO_BASE) - DMA_BASE) % 12) as u32,
                merge_byte(dma_reg_value(*old(self), (addr & !1u32) | IO_BASE), addr, val),
                &final(self).dmac,
            ),
            SOUND_BASE <= ((addr & !1u32) | IO_BASE) <= SOUND_END ==> *final(scheduler) == *old(scheduler)
                && sound_write_rel(
                old(self).sound,
                final(self).sound,
                (addr & !1u32) | IO_BASE,
                merge_byte(sound_read(old(self).sound, (addr & !1u32) | IO_BASE), addr, val),
            ),
            io_read_value(*old(self), (addr & !1u32) | IO_BASE) matches Some(t) ==> (!(DMA_BASE <= ((addr & !1u32)
                | IO_BASE) <= REG_DMA3CNT_H) && !(SOUND_BASE <= ((addr & !1u32) | IO_BASE) <= SOUND_END) ==> io_write_rel(
                *old(self),
                *final(self),
                (addr & !1u32) | IO_BASE,
                merge_byte(t, addr, val),
            ) && *final(scheduler) == *old(scheduler)),
    {
        proof {
            crate::bits::lemma_u32_bits(addr, 0);
        }
        let t = self.read_16(scheduler, addr & !1);
        let t = if addr & 1 != 0 { (t & 0xff) | (val as u16) << 8 } else { (t & 0xff00) | (val as u16) };
        self.write_16(scheduler, addr & !1, t)
    }
}

} // verus!
