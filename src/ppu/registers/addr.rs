use vstd::prelude::*;

verus! {

/// The PPUADDR register ($2006): a 14-bit VRAM pointer written as a high
/// byte, then a low byte, under a write-order latch.
#[derive(Clone, Copy, Debug, PartialEq, Eq, Structural)]
pub struct AddrRegister {
    pub value: u16,
    /// The next write sets the high byte.
    pub hi_ptr: bool,
}

impl AddrRegister {
    pub open spec fn wf(self) -> bool {
        self.value < 0x4000
    }

    pub open spec fn update_spec(self, data: u8) -> AddrRegister {
        if self.hi_ptr {
            AddrRegister {
                value: ((data & 0x3F) as u16 * 256 + self.value % 256) as u16,
                hi_ptr: false,
            }
        } else {
            AddrRegister { value: ((self.value / 256) * 256 + data as u16) as u16, hi_ptr: true }
        }
    }

    pub open spec fn increment_spec(self, inc: u8) -> AddrRegister {
        AddrRegister { value: ((self.value + inc) % 0x4000) as u16, ..self }
    }

    pub fn new() -> (r: Self)
        ensures
            r.value == 0,
            r.hi_ptr,
    {
        AddrRegister { value: 0, hi_ptr: true }
    }

    pub fn update(&mut self, data: u8)
        requires
            old(self).wf(),
        ensures
            *final(self) == old(self).update_spec(data),
            final(self).wf(),
    {
        if self.hi_ptr {
            let hi = data & 0x3F;
            assert(hi < 64) by (bit_vector)
                requires
                    hi == data & 0x3F,
            ;
            self.value = hi as u16 * 256 + self.value % 256;
        } else {
            self.value = (self.value / 256) * 256 + data as u16;
        }
        self.hi_ptr = !self.hi_ptr;
    }

    /// Advances the pointer, wrapping within the 14-bit address space.
    pub fn increment(&mut self, inc: u8)
        requires
            old(self).wf(),
        ensures
            *final(self) == old(self).increment_spec(inc),
            final(self).wf(),
    {
        self.value = (self.value + inc as u16) % 0x4000;
    }

    pub fn reset_latch(&mut self)
        ensures
            *final(self) == (AddrRegister { hi_ptr: true, ..*old(self) }),
    {
        self.hi_ptr = true;
    }

    pub fn get(&self) -> (r: u16)
        ensures
            r == self.value,
    {
        self.value
    }
}

} // verus!
