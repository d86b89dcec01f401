use vstd::prelude::*;

verus! {

/// The eight buttons of a standard controller, in the order they are
/// shifted out: A first, Right last.
#[derive(Clone, Copy, Debug, PartialEq, Eq, Structural)]
pub enum JoypadButtons {
    ButtonA,
    ButtonB,
    Select,
    Start,
    Up,
    Down,
    Left,
    Right,
}

impl JoypadButtons {
    /// The button's bit in the status byte.
    pub open spec fn mask(self) -> u8 {
        match self {
            JoypadButtons::ButtonA => 0b0000_0001,
            JoypadButtons::ButtonB => 0b0000_0010,
            JoypadButtons::Select => 0b0000_0100,
            JoypadButtons::Start => 0b0000_1000,
            JoypadButtons::Up => 0b0001_0000,
            JoypadButtons::Down => 0b0010_0000,
            JoypadButtons::Left => 0b0100_0000,
            JoypadButtons::Right => 0b1000_0000,
        }
    }

    pub fn bits(&self) -> (r: u8)
        ensures
            r == self.mask(),
    {
        match self {
            JoypadButtons::ButtonA => 0b0000_0001,
            JoypadButtons::ButtonB => 0b0000_0010,
            JoypadButtons::Select => 0b0000_0100,
            JoypadButtons::Start => 0b0000_1000,
            JoypadButtons::Up => 0b0001_0000,
            JoypadButtons::Down => 0b0010_0000,
            JoypadButtons::Left => 0b0100_0000,
            JoypadButtons::Right => 0b1000_0000,
        }
    }
}

/// Controller 1 behind $4016: a strobe latch and a serial read cursor over
/// the button byte.
#[derive(Clone, Copy, Debug, PartialEq, Eq, Structural)]
pub struct Joypad {
    pub strobe: bool,
    /// How many buttons have been shifted out since the last strobe.
    pub button_index: u8,
    pub button_status: u8,
}

impl Joypad {
    pub open spec fn wf(self) -> bool {
        self.button_index <= 8
    }

    pub open spec fn write_spec(self, data: u8) -> Joypad {
        let strobe = data & 1 == 1;
        Joypad { strobe, button_index: if strobe { 0 } else { self.button_index }, ..self }
    }

    /// The state after one read of $4016, and the bit it yields.
    pub open spec fn read_spec(self) -> (Joypad, u8) {
        if self.button_index > 7 {
            (self, 1)
        } else {
            let bit = (self.button_status >> self.button_index) & 1;
            if self.strobe {
                (self, bit)
            } else {
                (Joypad { button_index: (self.button_index + 1) as u8, ..self }, bit)
            }
        }
    }

    /// The bits yielded by `n` successive reads.
    pub open spec fn reads(self, n: nat) -> Seq<u8>
        decreases n,
    {
        if n == 0 {
            Seq::empty()
        } else {
            let (next, bit) = self.read_spec();
            seq![bit] + next.reads((n - 1) as nat)
        }
    }

    pub fn new() -> (r: Self)
        ensures
            r.wf(),
            !r.strobe,
            r.button_index == 0,
            r.button_status == 0,
    {
        Joypad { strobe: false, button_index: 0, button_status: 0 }
    }

    /// Sets the strobe from the low bit; a high strobe rewinds the cursor to A.
    pub fn write(&mut self, data: u8)
        ensures
            *final(self) == old(self).write_spec(data),
    {
        self.strobe = data & 1 == 1;
        if self.strobe {
            self.button_index = 0;
        }
    }

    /// Yields the button under the cursor (1 once all eight are out) and
    /// advances the cursor unless the strobe is high.
    pub fn read(&mut self) -> (r: u8)
        requires
            old(self).wf(),
        ensures
            (*final(self), r) == old(self).read_spec(),
            final(self).wf(),
    {
        if self.button_index > 7 {
            return 1;
        }
        let response = (self.button_status >> self.button_index) & 1;
        if !self.strobe {
            self.button_index += 1;
        }
        response
    }

    pub fn set_button_pressed_status(&mut self, button: JoypadButtons, pressed: bool)
        ensures
            final(self).button_status == (if pressed {
                old(self).button_status | button.mask()
            } else {
                old(self).button_status & !button.mask()
            }),
            final(self).strobe == old(self).strobe,
            final(self).button_index == old(self).button_index,
    {
        let m = button.bits();
        if pressed {
            self.button_status = self.button_status | m;
        } else {
            self.button_status = self.button_status & !m;
        }
    }
}

/// The bits that reads yield from a controller whose strobe is low, with
/// `i` buttons already out: each button in turn, then 1 for good.
proof fn lemma_serial_reads(j: Joypad, n: nat)
    requires
        j.wf(),
        !j.strobe,
    ensures
        j.reads(n).len() == n,
        forall|k: int|
            0 <= k < n ==> #[trigger] j.reads(n)[k] == (if j.button_index + k < 8 {
                (j.button_status >> ((j.button_index + k) as u8)) & 1
            } else {
                1
            }),
    decreases n,
{
    if n > 0 {
        let next = j.read_spec().0;
        lemma_serial_reads(next, (n - 1) as nat);
        assert forall|k: int| 0 <= k < n implies #[trigger] j.reads(n)[k] == (if j.button_index + k < 8 {
            (j.button_status >> ((j.button_index + k) as u8)) & 1
        } else {
            1
        }) by {
            if k > 0 {
                assert(j.reads(n)[k] == next.reads((n - 1) as nat)[k - 1]);
            }
        }
    }
}

/// While the strobe is high every read yields button A, and the cursor
/// never moves.
pub proof fn lemma_strobe_high_repeats_a(j: Joypad, n: nat)
    ensures
        j.write_spec(1).reads(n).len() == n,
        forall|k: int| 0 <= k < n ==> #[trigger] j.write_spec(1).reads(n)[k] == j.button_status & 1,
    decreases n,
{
    let s = j.button_status;
    assert((s >> 0u8) & 1 == s & 1) by (bit_vector);
    assert(1u8 & 1 == 1) by (bit_vector);
    let h = j.write_spec(1);
    assert(h.read_spec() == (h, s & 1));
    if n > 0 {
        lemma_strobe_high_repeats_a(j, (n - 1) as nat);
        assert forall|k: int| 0 <= k < n implies #[trigger] h.reads(n)[k] == s & 1 by {
            if k > 0 {
                assert(h.reads(n)[k] == h.reads((n - 1) as nat)[k - 1]);
            }
        }
    }
}

/// Strobing high then low rewinds the controller: reads then yield A, B,
/// Select, Start, Up, Down, Left, Right, and 1 ever after.
pub proof fn lemma_strobe_low_serialises(j: Joypad, n: nat)
    ensures
        j.write_spec(1).write_spec(0).reads(n).len() == n,
        forall|k: int|
            0 <= k < n ==> #[trigger] j.write_spec(1).write_spec(0).reads(n)[k] == (if k < 8 {
                (j.button_status >> (k as u8)) & 1
            } else {
                1
            }),
{
    assert(1u8 & 1 == 1) by (bit_vector);
    assert(0u8 & 1 == 0) by (bit_vector);
    let r = j.write_spec(1).write_spec(0);
    assert(r.button_index == 0 && !r.strobe);
    lemma_serial_reads(r, n);
}

} // verus!
