use vstd::prelude::*;
use crate::io::gpu::{HEIGHT, WIDTH};

verus! {

/// Layers that a window shows: BG0 to BG3 (bits 0 to 3), objects (bit 4) and color
/// special effects (bit 5).
#[derive(Clone, Copy, Debug, Default)]
pub struct WindowFlags(pub u16);

/// Flag bits of a window.
pub const WINDOW_BG0: u16 = 0b00000001;
pub const WINDOW_BG1: u16 = 0b00000010;
pub const WINDOW_BG2: u16 = 0b00000100;
pub const WINDOW_BG3: u16 = 0b00001000;
pub const WINDOW_OBJ: u16 = 0b00010000;
pub const WINDOW_SFX: u16 = 0b00100000;

impl From<u16> for WindowFlags {
    /// Keeps the six defined bits.
    fn from(v: u16) -> (r: WindowFlags) {
        WindowFlags(v & 0x3F)
    }
}

impl vstd::std_specs::convert::FromSpecImpl<u16> for WindowFlags {
    open spec fn obeys_from_spec() -> bool {
        true
    }

    open spec fn from_spec(v: u16) -> WindowFlags {
        WindowFlags(v & 0x3F)
    }
}

impl WindowFlags {
    pub fn sfx_enabled(&self) -> (r: bool)
        ensures
            r == (self.0 & WINDOW_SFX == WINDOW_SFX),
    {
        self.0 & WINDOW_SFX == WINDOW_SFX
    }

    /// Whether background `bg` (0 to 3) is shown.
    pub fn bg_enabled(&self, bg: usize) -> (r: bool)
        requires
            bg < 4,
        ensures
            r == (self.0 & (1u16 << bg as u16) == (1u16 << bg as u16)),
    {
        let flag: u16 = 1u16 << bg as u16;
        self.0 & flag == flag
    }

    pub fn obj_enabled(&self) -> (r: bool)
        ensures
            r == (self.0 & WINDOW_OBJ == WINDOW_OBJ),
    {
        self.0 & WINDOW_OBJ == WINDOW_OBJ
    }
}

/// A rectangular window on the screen.
#[derive(Clone, Debug, Default)]
pub struct Window {
    pub left: u8,
    pub right: u8,
    pub top: u8,
    pub bottom: u8,
    pub flags: WindowFlags,
}

impl Window {
    /// Right edge (exclusive): the register value, or the screen width when it lies
    /// beyond the screen or before the left edge.
    pub open spec fn right_spec(&self) -> int {
        if self.right > WIDTH || self.right < self.left { WIDTH as int } else { self.right as int }
    }

    /// Bottom edge (exclusive), bounded in the same way by the screen height.
    pub open spec fn bottom_spec(&self) -> int {
        if self.bottom > HEIGHT || self.bottom < self.top { HEIGHT as int } else { self.bottom as int }
    }

    /// Whether pixel (`x`, `y`) lies in the window.
    pub fn inside(&self, x: usize, y: usize) -> (r: bool)
        ensures
            r == (self.top <= y < self.bottom_spec() && self.left <= x < self.right_spec()),
    {
        let left = self.left();
        let right = self.right();
        self.contains_y(y) && (x >= left && x < right)
    }

    pub fn left(&self) -> (r: usize)
        ensures
            r == self.left,
    {
        self.left as usize
    }

    pub fn right(&self) -> (r: usize)
        ensures
            r == self.right_spec(),
    {
        let left = self.left as usize;
        let mut right = self.right as usize;
        if right > WIDTH || right < left {
            right = WIDTH;
        }
        right
    }

    pub fn top(&self) -> (r: usize)
        ensures
            r == self.top,
    {
        self.top as usize
    }

    pub fn bottom(&self) -> (r: usize)
        ensures
            r == self.bottom_spec(),
    {
        let top = self.top as usize;
        let mut bottom = self.bottom as usize;
        if bottom > HEIGHT || bottom < top {
            bottom = HEIGHT;
        }
        bottom
    }

    /// Whether line `y` crosses the window.
    pub fn contains_y(&self, y: usize) -> (r: bool)
        ensures
            r == (self.top <= y < self.bottom_spec()),
    {
        let top = self.top();
        let bottom = self.bottom();
        y >= top && y < bottom
    }
}

/// A window never reaches past the screen.
pub proof fn law_window_on_screen(w: Window, x: usize, y: usize)
    requires
        w.top <= y < w.bottom_spec() && w.left <= x < w.right_spec(),
    ensures
        x < WIDTH && y < HEIGHT,
{
}

/// Which window a pixel belongs to.
#[derive(Debug, PartialEq, Eq, Structural, Copy, Clone)]
pub enum WindowType {
    _Win0,
    _Win1,
    _WinObj,
    _WinOut,
    WinNone,
}

/// The window of a pixel and the layers it shows.
#[derive(Debug)]
pub struct WindowInfo {
    pub typ: WindowType,
    pub flags: WindowFlags,
}

impl WindowInfo {
    pub fn new(typ: WindowType, flags: WindowFlags) -> (r: WindowInfo)
        ensures
            r.typ == typ && r.flags == flags,
    {
        WindowInfo { typ, flags }
    }

    pub fn _is_none(&self) -> (r: bool)
        ensures
            r == (self.typ == WindowType::WinNone),
    {
        self.typ == WindowType::WinNone
    }
}

} // verus!
