use vstd::prelude::*;

verus! {

pub const A_INDEX: u8 = 0;
pub const B_INDEX: u8 = 1;
pub const SELECT_INDEX: u8 = 2;
pub const START_INDEX: u8 = 3;
pub const UP_INDEX: u8 = 4;
pub const DOWN_INDEX: u8 = 5;
pub const LEFT_INDEX: u8 = 6;
pub const RIGHT_INDEX: u8 = 7;

/// A standard pad: an 8-bit button latch (A, B, Select, Start, Up, Down,
/// Left, Right from bit 0 up), the index of the next bit to shift out, and
/// the strobe written through $4016.
#[derive(Copy, Clone)]
pub struct Controller {
    pub buttons: u8,
    pub index: u8,
    pub strobe: u8,
}

/// The bit that a read reports: button `index` while the index is in range;
/// after the eighth bit the line reads as a constant 1 (open bus).
pub open spec fn button_bit(buttons: u8, index: u8) -> u8 {
    if index >= 8 || (buttons >> index) & 1 == 1 {
        1
    } else {
        0
    }
}

impl Controller {
    /// Value returned by the next read.
    pub open spec fn read_value(&self) -> u8 {
        button_bit(self.buttons, self.index)
    }

    /// State after a read: the index moves on (it stops counting at 255), and
    /// is pulled back to 0 while the strobe is high.
    pub open spec fn after_read(&self) -> Controller {
        Controller {
            index: if self.strobe & 1 != 0 {
                0
            } else if self.index < 255 {
                (self.index + 1) as u8
            } else {
                255
            },
            ..*self
        }
    }

    /// State after a strobe write.
    pub open spec fn after_write(&self, value: u8) -> Controller {
        Controller { strobe: value, index: if value & 1 == 1 { 0 } else { self.index }, ..*self }
    }

    /// State after `n` reads.
    pub open spec fn after_reads(&self, n: nat) -> Controller
        decreases n,
    {
        if n == 0 {
            *self
        } else {
            self.after_reads((n - 1) as nat).after_read()
        }
    }

    pub fn new() -> (r: Controller)
        ensures
            r.buttons == 0,
            r.index == 0,
            r.strobe == 0,
    {
        Controller { buttons: 0, index: 0, strobe: 0 }
    }

    pub fn read(&mut self) -> (r: u8)
        ensures
            r == old(self).read_value(),
            *final(self) == old(self).after_read(),
    {
        let value: u8 = if self.index >= 8 || (self.buttons >> self.index) & 1 == 1 {
            1
        } else {
            0
        };
        self.index = self.index.saturating_add(1);
        if self.strobe & 1 != 0 {
            self.index = 0;
        }
        value
    }

    pub fn write(&mut self, value: u8)
        ensures
            *final(self) == old(self).after_write(value),
    {
        self.strobe = value;
        if self.strobe & 1 == 1 {
            self.index = 0;
        }
    }

    /// Latches the pad's current buttons.
    pub fn set_buttons(&mut self, buttons: u8)
        ensures
            *final(self) == (Controller { buttons, ..*old(self) }),
    {
        self.buttons = buttons;
    }
}

/// After the strobe goes high and then low once, the first eight reads shift
/// out the buttons from bit 0 (A) to bit 7 (Right); every later read gives 1.
pub proof fn lemma_strobe_then_reads(c: Controller, k: nat)
    ensures
        c.after_write(1).after_write(0).after_reads(k).read_value() == if k < 8 {
            (c.buttons >> (k as u8)) & 1
        } else {
            1
        },
{
    let c2 = c.after_write(1).after_write(0);
    assert(0u8 & 1 == 0 && 1u8 & 1 == 1) by (bit_vector);
    let b = c.buttons;
    if k <= 255 {
        lemma_reads_advance(c2, k);
        if k < 8 {
            let kk = k as u8;
            assert(((b >> kk) & 1 == 1) || ((b >> kk) & 1 == 0)) by (bit_vector);
        }
    } else {
        lemma_reads_advance(c2, 255);
        lemma_reads_saturate(c2.after_reads(255), (k - 255) as nat);
        lemma_reads_compose(c2, 255, (k - 255) as nat);
    }
}

/// Reading `m` times and then `n` times is reading `m + n` times.
pub proof fn lemma_reads_compose(c: Controller, m: nat, n: nat)
    ensures
        c.after_reads(m).after_reads(n) == c.after_reads(m + n),
    decreases n,
{
    if n > 0 {
        lemma_reads_compose(c, m, (n - 1) as nat);
    }
}

/// With the strobe low and the index at its top, reads leave the state alone.
pub proof fn lemma_reads_saturate(c: Controller, n: nat)
    requires
        c.strobe & 1 == 0,
        c.index == 255,
    ensures
        c.after_reads(n) == c,
    decreases n,
{
    if n > 0 {
        lemma_reads_saturate(c, (n - 1) as nat);
    }
}

/// With the strobe low, reads only move the index.
pub proof fn lemma_reads_advance(c: Controller, k: nat)
    requires
        c.strobe & 1 == 0,
        c.index as nat + k <= 255,
    ensures
        c.after_reads(k) == (Controller { index: (c.index + k) as u8, ..c }),
    decreases k,
{
    if k > 0 {
        lemma_reads_advance(c, (k - 1) as nat);
    }
}

} // verus!
