use vstd::prelude::*;

verus! {

/// The vertical extent of a world and the size of its noise cells, in quarter
/// blocks.
#[derive(Clone, Copy, Debug, PartialEq, Eq, Structural)]
pub struct NoiseSettings {
    pub min_y: i32,
    pub height: u32,
    pub xz_size: i32,
    pub y_size: i32,
}

impl NoiseSettings {
    /// Height of a noise cell in blocks.
    pub fn cell_height(&self) -> (r: i32)
        requires
            i32::MIN <= self.y_size * 4 <= i32::MAX,
        ensures
            r == self.y_size * 4,
    {
        self.y_size * 4
    }

    /// Width of a noise cell in blocks.
    pub fn cell_width(&self) -> (r: i32)
        requires
            i32::MIN <= self.xz_size * 4 <= i32::MAX,
        ensures
            r == self.xz_size * 4,
    {
        self.xz_size * 4
    }
}

} // verus!
