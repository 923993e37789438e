use vstd::prelude::*;

verus! {

/// A rectangle of the screen: origin, width and height.
#[derive(Debug)]
pub struct ViewPort {
    pub origin: (i32, i32),
    pub w: i32,
    pub h: i32,
}

impl ViewPort {
    pub fn new(w: i32, h: i32) -> (r: Self)
        ensures
            r.origin == (0i32, 0i32) && r.w == w && r.h == h,
    {
        Self { origin: (0, 0), w, h }
    }

    /// Whether point `p` lies in the view port.
    pub fn contains_point(&self, p: (i32, i32)) -> (r: bool)
        requires
            i32::MIN <= p.0 - self.origin.0 <= i32::MAX,
            i32::MIN <= p.1 - self.origin.1 <= i32::MAX,
        ensures
            r == (0 <= p.0 - self.origin.0 < self.w && 0 <= p.1 - self.origin.1 < self.h),
    {
        let (mut x, mut y) = p;
        x = x - self.origin.0;
        y = y - self.origin.1;
        x >= 0 && x < self.w && y >= 0 && y < self.h
    }
}

/// The texture point of screen column `screen_x` of an affine background: the
/// reference point moved by `screen_x` steps of (`pa`, `pc`), in 1/256 units,
/// rounded down.
pub fn transform_bg_point(ref_point: (i32, i32), screen_x: i32, pa: i32, pc: i32) -> (r: (i32, i32))
    requires
        i32::MIN <= screen_x * pa <= i32::MAX,
        i32::MIN <= screen_x * pc <= i32::MAX,
        i32::MIN <= ref_point.0 + screen_x * pa <= i32::MAX,
        i32::MIN <= ref_point.1 + screen_x * pc <= i32::MAX,
    ensures
        r.0 == (ref_point.0 + screen_x * pa) as i32 >> 8i32,
        r.1 == (ref_point.1 + screen_x * pc) as i32 >> 8i32,
{
    let (ref_x, ref_y) = ref_point;
    ((ref_x + screen_x * pa) >> 8, (ref_y + screen_x * pc) >> 8)
}

} // verus!
