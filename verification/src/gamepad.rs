//! The input latch: a selector register choosing the button or direction
//! group, an internal active-low key bitmap, and an interrupt request raised
//! on every key press.

use vstd::prelude::*;

verus! {

/// The eight keys of the pad.
#[derive(Clone, Copy, PartialEq, Eq, Hash, Debug)]
pub enum Key {
    A,
    B,
    Up,
    Down,
    Left,
    Right,
    Start,
    Select,
}

/// The active-low bit of a key in the internal key bitmap: directions in the
/// high nibble, buttons in the low nibble.
pub open spec fn key_bit(key: Key) -> u8 {
    match key {
        Key::Down => 0x80,
        Key::Up => 0x40,
        Key::Left => 0x20,
        Key::Right => 0x10,
        Key::Start => 0x08,
        Key::Select => 0x04,
        Key::B => 0x02,
        Key::A => 0x01,
    }
}

pub struct GamePad {
    /// The selector register: bit 4 low selects the direction group, bit 5
    /// low the button group.
    pub key: u8,
    /// Active-low key bitmap: a zero bit means the key is held.
    pub key_state: u8,
    /// One-shot interrupt request, collected by the bus.
    pub irq: bool,
}

/// Writing the selector register touches only the two group-select bits, so
/// the low nibble of the register keeps reading all ones.
proof fn lemma_selector_low_nibble(k: u8, v: u8)
    ensures
        0xFFu8 & 0x0F == 0x0F,
        ((k & 0xCF) | (v & 0x30)) & 0x0F == k & 0x0F,
{
    assert(0xFFu8 & 0x0F == 0x0F && ((k & 0xCF) | (v & 0x30)) & 0x0F == k & 0x0F) by (bit_vector);
}

impl GamePad {
    /// Well-formedness: the low nibble of the selector register is all ones,
    /// as only its two group-select bits are ever written.
    pub open spec fn inv(self) -> bool {
        self.key & 0x0F == 0x0F
    }

    /// A pad at power-on: no key held, neither group selected.
    pub fn new() -> (g: GamePad)
        ensures
            g.inv(),
            g.key == 0xFF,
            g.key_state == 0xFF,
            !g.irq,
    {
        proof {
            lemma_selector_low_nibble(0xFF, 0);
        }
        GamePad { key: 0xFF, key_state: 0xFF, irq: false }
    }

    /// A key press: clears the key's active-low bit and requests the input
    /// interrupt, whatever group is selected.
    pub fn keydown(&mut self, key: Key)
        ensures
            final(self).key_state == old(self).key_state & !key_bit(key),
            final(self).irq,
            final(self).key == old(self).key,
    {
        match key {
            Key::Down => self.key_state = self.key_state & !0x80,
            Key::Up => self.key_state = self.key_state & !0x40,
            Key::Left => self.key_state = self.key_state & !0x20,
            Key::Right => self.key_state = self.key_state & !0x10,
            Key::Start => self.key_state = self.key_state & !0x08,
            Key::Select => self.key_state = self.key_state & !0x04,
            Key::B => self.key_state = self.key_state & !0x02,
            Key::A => self.key_state = self.key_state & !0x01,
        }

        self.irq = true;
    }

    /// A key release: sets the key's active-low bit back.
    pub fn keyup(&mut self, key: Key)
        ensures
            final(self).key_state == old(self).key_state | key_bit(key),
            final(self).irq == old(self).irq,
            final(self).key == old(self).key,
    {
        match key {
            Key::Down => self.key_state = self.key_state | 0x80,
            Key::Up => self.key_state = self.key_state | 0x40,
            Key::Left => self.key_state = self.key_state | 0x20,
            Key::Right => self.key_state = self.key_state | 0x10,
            Key::Start => self.key_state = self.key_state | 0x08,
            Key::Select => self.key_state = self.key_state | 0x04,
            Key::B => self.key_state = self.key_state | 0x02,
            Key::A => self.key_state = self.key_state | 0x01,
        }
    }

    /// A write to the selector register at 0xFF00: only the two group-select
    /// bits are taken.  A write outside the pad's window is dropped.
    pub fn write(&mut self, addr: u16, val: u8)
        requires
            old(self).inv(),
        ensures
            final(self).inv(),
            final(self).key == if addr == 0xFF00 {
                (old(self).key & 0xCF) | (val & 0x30)
            } else {
                old(self).key
            },
            final(self).key_state == old(self).key_state,
            final(self).irq == old(self).irq,
    {
        proof {
            lemma_selector_low_nibble(old(self).key, val);
        }
        match addr {
            0xFF00 => self.key = (self.key & 0xCF) | (val & 0x30),
            _ => (),
        }
    }

    /// A read of the selector register at 0xFF00: the selected half of the
    /// key bitmap in the low nibble, all ones in the low nibble when neither
    /// group is selected.  Any other address reads as 0xFF.
    pub fn read(&self, addr: u16) -> (r: u8)
        requires
            self.inv(),
        ensures
            r == self.read_spec(addr),
            addr == 0xFF00 && self.key & 0x10 != 0 && self.key & 0x20 != 0 ==> r & 0x0F == 0x0F,
    {
        match addr {
            0xFF00 => {
                if self.key & 0x10 == 0 {
                    (self.key & 0xF0) | (self.key_state >> 4) & 0x0F
                } else if self.key & 0x20 == 0 {
                    (self.key & 0xF0) | self.key_state & 0x0F
                } else {
                    self.key
                }
            },
            _ => 0xFF,
        }
    }

    /// What a read returns, as a function of the pad state.
    pub open spec fn read_spec(self, addr: u16) -> u8 {
        if addr == 0xFF00 {
            if self.key & 0x10 == 0 {
                (self.key & 0xF0) | (self.key_state >> 4) & 0x0F
            } else if self.key & 0x20 == 0 {
                (self.key & 0xF0) | self.key_state & 0x0F
            } else {
                self.key
            }
        } else {
            0xFF
        }
    }

    /// The pad is not clocked: advancing it changes nothing.
    pub fn update(&mut self, tick: u8)
        ensures
            (*final(self)) == (*old(self)),
    {
    }
}

} // verus!
