use vstd::prelude::*;

verus! {

/// A pair of unsigned components: a size in pixels.
#[derive(Clone, Copy, Debug, PartialEq, Eq, Structural)]
pub struct UVec2 {
    pub x: u32,
    pub y: u32,
}

/// A pair of signed components.
#[derive(Clone, Copy, Debug, PartialEq, Eq, Structural)]
pub struct IVec2 {
    pub x: i32,
    pub y: i32,
}

/// The value that the 32 bits of `x` stand for when they are read without a sign.
pub open spec fn unsigned_reading(x: i32) -> u32 {
    if x >= 0 {
        x as u32
    } else {
        (x + 0x1_0000_0000) as u32
    }
}

impl IVec2 {
    /// Each component with its 32 bits read as an unsigned number: a component that is not
    /// negative stays as it is, a negative one grows by two to the power of 32.
    pub fn as_uvec2(self) -> (r: UVec2)
        ensures
            r.x == unsigned_reading(self.x),
            r.y == unsigned_reading(self.y),
    {
        let x = self.x;
        let y = self.y;
        assert(x < 0i32 ==> (x as u32) == x + 0x1_0000_0000) by (bit_vector);
        assert(y < 0i32 ==> (y as u32) == y + 0x1_0000_0000) by (bit_vector);
        UVec2 { x: x as u32, y: y as u32 }
    }
}

} // verus!
