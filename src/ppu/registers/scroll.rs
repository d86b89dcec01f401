use vstd::prelude::*;

verus! {

/// The PPUSCROLL register ($2005): X scroll, then Y scroll, under a
/// write-order latch.
#[derive(Clone, Copy, Debug, PartialEq, Eq, Structural)]
pub struct ScrollRegister {
    pub scroll_x: u8,
    pub scroll_y: u8,
    /// The next write sets the Y scroll.
    pub latch: bool,
}

impl ScrollRegister {
    pub open spec fn write_spec(self, data: u8) -> ScrollRegister {
        if self.latch {
            ScrollRegister { scroll_y: data, latch: false, ..self }
        } else {
            ScrollRegister { scroll_x: data, latch: true, ..self }
        }
    }

    pub fn new() -> (r: Self)
        ensures
            r.scroll_x == 0,
            r.scroll_y == 0,
            !r.latch,
    {
        ScrollRegister { scroll_x: 0, scroll_y: 0, latch: false }
    }

    pub fn write(&mut self, data: u8)
        ensures
            *final(self) == old(self).write_spec(data),
    {
        if self.latch {
            self.scroll_y = data;
        } else {
            self.scroll_x = data;
        }
        self.latch = !self.latch;
    }

    pub fn reset_latch(&mut self)
        ensures
            *final(self) == (ScrollRegister { latch: false, ..*old(self) }),
    {
        self.latch = false;
    }
}

} // verus!
