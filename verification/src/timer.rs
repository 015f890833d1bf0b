//! The programmable timer: a free-running 16-bit counter whose high byte is
//! the externally visible divider, an 8-bit counter with a reload register,
//! and a 3-bit control register.

use vstd::prelude::*;

verus! {

pub struct Timer {
    /// TIMA, the 8-bit timer counter.
    pub tima: u8,
    /// TMA, the modulo register TIMA is reloaded from on overflow.
    pub tma: u8,
    /// TAC, the control register: bit 2 enables the timer, bits 1-0 select
    /// the clock divisor tap.
    pub tac: u8,
    /// The free-running 16-bit counter; its high byte is the divider.
    pub cnt: u16,
    /// One-shot interrupt request, collected by the bus.
    pub irq: bool,
}

/// The tap bit position selected by the low two bits of the control
/// register: the timer counts an edge each time the free-running counter
/// crosses a multiple of `1 << tap_shift`.
pub open spec fn tap_shift(tac: u8) -> u16 {
    if tac & 3 == 0 {
        10
    } else if tac & 3 == 1 {
        4
    } else if tac & 3 == 2 {
        6
    } else {
        8
    }
}

/// All-ones mask over the bits of the free-running counter above the
/// selected tap: `(1 << (16 - tap_shift)) - 1` for each divisor choice.
pub open spec fn tap_mask(tac: u8) -> u16 {
    if tac & 3 == 0 {
        0x3F
    } else if tac & 3 == 1 {
        0xFFF
    } else if tac & 3 == 2 {
        0x3FF
    } else {
        0xFF
    }
}

/// How many tap edges occur when the free-running counter moves from `prev`
/// to `next` (with wrap-around).
pub open spec fn tap_edges(prev: u16, next: u16, tac: u8) -> u16 {
    ((next >> tap_shift(tac)).wrapping_sub(prev >> tap_shift(tac))) & tap_mask(tac)
}

/// The timer counter and interrupt request after `edges` tap edges are added
/// to counter value `tima`: on 8-bit overflow the counter reloads from the
/// modulo register plus the remaining edges and the interrupt is requested.
pub open spec fn tima_step(tima: u8, tma: u8, edges: u8) -> (u8, bool) {
    if tima + edges > 0xFF {
        (tma.wrapping_add(edges.wrapping_sub(1)), true)
    } else {
        ((tima + edges) as u8, false)
    }
}

/// The timer counter after the timer advances by `tick` cycles.
pub open spec fn tima_after(t: Timer, tick: u8) -> u8 {
    let c2 = t.cnt.wrapping_add(tick as u16);
    let edges = tap_edges(t.cnt, c2, t.tac);
    if t.tac & 4 != 0 && edges != 0 {
        tima_step(t.tima, t.tma, edges as u8).0
    } else {
        t.tima
    }
}

/// The timer interrupt request after the timer advances by `tick` cycles:
/// the pending request, or a fresh one when the counter overflows.
pub open spec fn timer_irq_after(t: Timer, tick: u8) -> bool {
    let c2 = t.cnt.wrapping_add(tick as u16);
    let edges = tap_edges(t.cnt, c2, t.tac);
    t.irq || (t.tac & 4 != 0 && edges != 0 && tima_step(t.tima, t.tma, edges as u8).1)
}

impl Timer {
    /// A timer at power-on: all registers clear, no pending interrupt.
    pub fn new() -> (t: Timer)
        ensures
            t.tima == 0,
            t.tma == 0,
            t.tac == 0,
            t.cnt == 0,
            !t.irq,
    {
        Timer { tima: 0, tma: 0, tac: 0, cnt: 0, irq: false }
    }

    /// A register write at bus addresses 0xFF04-0xFF07.  Writing the divider
    /// clears the whole free-running counter; the control register keeps only
    /// its three defined bits.  A write outside the timer's window is dropped
    /// (lenient bus policy).
    pub fn write(&mut self, addr: u16, val: u8)
        ensures
            final(self).irq == old(self).irq,
            final(self).cnt == if addr == 0xFF04 {
                0u16
            } else {
                old(self).cnt
            },
            final(self).tima == if addr == 0xFF05 {
                val
            } else {
                old(self).tima
            },
            final(self).tma == if addr == 0xFF06 {
                val
            } else {
                old(self).tma
            },
            final(self).tac == if addr == 0xFF07 {
                val & 0x7
            } else {
                old(self).tac
            },
    {
        match addr {
            0xFF04 => self.cnt = 0,
            0xFF05 => self.tima = val,
            0xFF06 => self.tma = val,
            0xFF07 => self.tac = val & 0x7,
            _ => (),
        }
    }

    /// A register read at bus addresses 0xFF04-0xFF07; the divider read
    /// returns the high byte of the free-running counter.  Any other address
    /// reads as 0xFF (lenient bus policy).
    pub fn read(&self, addr: u16) -> (r: u8)
        ensures
            r == self.read_spec(addr),
    {
        match addr {
            0xFF04 => {
                proof {
                    crate::bits::lemma_u16_bytes(self.cnt);
                }
                (self.cnt >> 8) as u8
            },
            0xFF05 => self.tima,
            0xFF06 => self.tma,
            0xFF07 => self.tac,
            _ => 0xFF,
        }
    }

    /// What a read returns, as a function of the timer state.
    pub open spec fn read_spec(self, addr: u16) -> u8 {
        if addr == 0xFF04 {
            (self.cnt >> 8) as u8
        } else if addr == 0xFF05 {
            self.tima
        } else if addr == 0xFF06 {
            self.tma
        } else if addr == 0xFF07 {
            self.tac
        } else {
            0xFF
        }
    }

    /// Advances the timer by `tick` cycles: the free-running counter always
    /// advances (wrapping); when the enable bit is set, the counter register
    /// takes one step per tap edge, reloading from the modulo register and
    /// requesting an interrupt on overflow.
    pub fn update(&mut self, tick: u8)
        ensures
            final(self).tma == old(self).tma,
            final(self).tac == old(self).tac,
            final(self).cnt == old(self).cnt.wrapping_add(tick as u16),
            final(self).tima == tima_after(*old(self), tick),
            final(self).irq == timer_irq_after(*old(self), tick),
    {
        let counter_prev = self.cnt;

        self.cnt = self.cnt.wrapping_add(tick as u16);

        if self.tac & 4 > 0 {
            let (divider, mask): (u16, u16) = match self.tac & 3 {
                0 => (10, 0x3F),
                1 => (4, 0xFFF),
                2 => (6, 0x3FF),
                _ => (8, 0xFF),
            };

            let x = self.cnt >> divider;
            let y = counter_prev >> divider;
            let diff = x.wrapping_sub(y) & mask;

            if diff > 0 {
                let d8 = #[verifier::truncate] (diff as u8);
                let sum = self.tima as u16 + d8 as u16;

                if sum > 0xFF {
                    self.tima = self.tma.wrapping_add(d8.wrapping_sub(1));
                    self.irq = true;
                } else {
                    self.tima = sum as u8;
                }
            }
        }
    }
}

} // verus!
