use vstd::prelude::*;

verus! {

// 7 6 5 4 3 2 1 0
// B G R s b M m G
// emphasise blue, green, red; show sprites; show background;
// sprites in leftmost 8 pixels; background in leftmost 8 pixels; greyscale
/// The PPUMASK register ($2001).
#[derive(Clone, Copy, Debug, PartialEq, Eq, Structural)]
pub struct MaskRegister {
    pub bits: u8,
}

#[derive(Clone, Copy, Debug, PartialEq, Eq, Structural)]
pub enum Color {
    Red,
    Green,
    Blue,
}

pub const MASK_GREYSCALE: u8 = 0b0000_0001;
pub const MASK_LEFTMOST_BACKGROUND: u8 = 0b0000_0010;
pub const MASK_LEFTMOST_SPRITE: u8 = 0b0000_0100;
pub const MASK_SHOW_BACKGROUND: u8 = 0b0000_1000;
pub const MASK_SHOW_SPRITES: u8 = 0b0001_0000;
pub const MASK_EMPHASISE_RED: u8 = 0b0010_0000;
pub const MASK_EMPHASISE_GREEN: u8 = 0b0100_0000;
pub const MASK_EMPHASISE_BLUE: u8 = 0b1000_0000;

/// The colours whose emphasis bits are set, in the order red, green, blue.
pub open spec fn emphasised(bits: u8) -> Seq<Color> {
    let r = if bits & MASK_EMPHASISE_RED != 0 { seq![Color::Red] } else { Seq::empty() };
    let g = if bits & MASK_EMPHASISE_GREEN != 0 { seq![Color::Green] } else { Seq::empty() };
    let b = if bits & MASK_EMPHASISE_BLUE != 0 { seq![Color::Blue] } else { Seq::empty() };
    r + g + b
}

impl MaskRegister {
    pub open spec fn has(self, flag: u8) -> bool {
        self.bits & flag != 0
    }

    pub fn new() -> (r: Self)
        ensures
            r.bits == 0,
    {
        MaskRegister { bits: 0 }
    }

    pub fn is_grayscale(&self) -> (r: bool)
        ensures
            r == self.has(MASK_GREYSCALE),
    {
        self.bits & MASK_GREYSCALE != 0
    }

    pub fn leftmost_8pxl_background(&self) -> (r: bool)
        ensures
            r == self.has(MASK_LEFTMOST_BACKGROUND),
    {
        self.bits & MASK_LEFTMOST_BACKGROUND != 0
    }

    pub fn leftmost_8pxl_sprite(&self) -> (r: bool)
        ensures
            r == self.has(MASK_LEFTMOST_SPRITE),
    {
        self.bits & MASK_LEFTMOST_SPRITE != 0
    }

    pub fn show_background(&self) -> (r: bool)
        ensures
            r == self.has(MASK_SHOW_BACKGROUND),
    {
        self.bits & MASK_SHOW_BACKGROUND != 0
    }

    pub fn show_sprites(&self) -> (r: bool)
        ensures
            r == self.has(MASK_SHOW_SPRITES),
    {
        self.bits & MASK_SHOW_SPRITES != 0
    }

    pub fn emphasise(&self) -> (r: Vec<Color>)
        ensures
            r@ == emphasised(self.bits),
    {
        let mut result: Vec<Color> = Vec::new();
        if self.bits & MASK_EMPHASISE_RED != 0 {
            result.push(Color::Red);
        }
        if self.bits & MASK_EMPHASISE_GREEN != 0 {
            result.push(Color::Green);
        }
        if self.bits & MASK_EMPHASISE_BLUE != 0 {
            result.push(Color::Blue);
        }
        assert(result@ =~= emphasised(self.bits));
        result
    }

    /// Every bit of the register takes the written value.
    pub fn update(&mut self, data: u8)
        ensures
            final(self).bits == data,
    {
        self.bits = data;
    }
}

} // verus!
