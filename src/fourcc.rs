use vstd::prelude::*;

verus! {

/// A four character code naming a pixel format.
#[derive(Debug)]
pub struct FourCC {
    code: u32,
}

/// The code of the characters `a`, `b`, `c`, `d`: `a` in the lowest byte.
pub open spec fn fourcc_code(a: char, b: char, c: char, d: char) -> u32 {
    a as u32 | (b as u32) << 8u32 | (c as u32) << 16u32 | (d as u32) << 24u32
}

impl FourCC {
    pub closed spec fn code(&self) -> u32 {
        self.code
    }

    pub fn new(a: char, b: char, c: char, d: char) -> (r: FourCC)
        ensures
            r.code() == fourcc_code(a, b, c, d),
    {
        FourCC { code: a as u32 | (b as u32) << 8u32 | (c as u32) << 16u32 | (d as u32) << 24u32 }
    }

    pub fn as_u32(&self) -> (r: u32)
        ensures
            r == self.code(),
    {
        self.code
    }
}

} // verus!
