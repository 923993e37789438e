use vstd::prelude::*;

verus! {

/// Which debugger views are open and what they show.
#[derive(Debug)]
pub struct DebugSpecification {
    pub reg_enable: bool,
    pub map_enable: bool,
    pub tiles_enable: bool,
    pub palettes_enable: bool,
    pub map_spec: MapSpecification,
    pub tiles_spec: TilesSpecification,
}

impl DebugSpecification {
    /// Only the register view open.
    pub fn new() -> (r: Self)
        ensures
            r.reg_enable && !r.map_enable && !r.tiles_enable && !r.palettes_enable,
            r.map_spec.bg_i == 0,
            r.tiles_spec.palette == 0 && r.tiles_spec.block == 0 && !r.tiles_spec.bpp8,
    {
        Self {
            reg_enable: true,
            map_enable: false,
            tiles_enable: false,
            palettes_enable: false,
            map_spec: MapSpecification::new(),
            tiles_spec: TilesSpecification::new(),
        }
    }
}

/// The background shown by the tile map view.
#[derive(Debug)]
pub struct MapSpecification {
    pub bg_i: usize,
}

impl MapSpecification {
    pub fn new() -> (r: Self)
        ensures
            r.bg_i == 0,
    {
        Self { bg_i: 0 }
    }
}

/// Palette, character block and color depth of the tile view.
#[derive(Debug)]
pub struct TilesSpecification {
    pub palette: i32,
    pub block: usize,
    pub bpp8: bool,
}

impl TilesSpecification {
    pub fn new() -> (r: Self)
        ensures
            r.palette == 0 && r.block == 0 && !r.bpp8,
    {
        Self { palette: 0, block: 0, bpp8: false }
    }
}

} // verus!
