//! The serial port: a data register, a control register, and the interrupt
//! request raised while a transfer is pending.  No link-cable peer is
//! modelled, so a transmitted byte is discarded and a received byte reads as
//! all ones.

use vstd::prelude::*;

verus! {

pub struct Serial {
    /// SB, the transfer data register.
    pub sb: u8,
    /// SC, the transfer control register.
    pub sc: u8,
    /// SPI clock bookkeeping.
    pub tick: u8,
    /// One-shot interrupt request, collected by the bus.
    pub irq: bool,
    /// SC bit 7: a transfer has been requested.
    pub is_start_req: bool,
    /// SC bit 1: transfer speed (color mode only).
    pub clock_speed: u8,
    /// SC bit 0: shift clock source.
    pub shift_clock: u8,
}

impl Serial {
    /// A serial port at power-on: registers clear, no pending transfer.
    pub fn new() -> (s: Serial)
        ensures
            s.sb == 0,
            s.sc == 0,
            s.tick == 0,
            !s.irq,
            !s.is_start_req,
            s.clock_speed == 0,
            s.shift_clock == 0,
    {
        Serial {
            sb: 0,
            sc: 0,
            tick: 0,
            irq: false,
            is_start_req: false,
            clock_speed: 0,
            shift_clock: 0,
        }
    }

    /// A clock speed change requests the serial interrupt.
    pub fn clock_speed_change(&mut self)
        ensures
            (*final(self)) == (Serial { irq: true, ..(*old(self)) }),
    {
        self.irq = true;
    }

    /// Transmits a byte: with no link-cable peer the byte is discarded and
    /// the port state is unchanged.
    pub fn spi_tx(&mut self, val: u8)
        ensures
            (*final(self)) == (*old(self)),
    {
    }

    /// Receives a byte: with no link-cable peer the line reads as all ones.
    pub fn spi_rx(&self) -> (r: u8)
        ensures
            r == 0xFF,
    {
        0xFF
    }

    /// Requests the serial interrupt.
    pub fn spi_irq(&mut self)
        ensures
            (*final(self)) == (Serial { irq: true, ..(*old(self)) }),
    {
        self.irq = true;
    }

    /// The interrupt handler: transmits the data register (discarded with no
    /// peer) and acknowledges the request.
    pub fn spi_irq_handler(&mut self)
        ensures
            (*final(self)) == (Serial { irq: false, ..(*old(self)) }),
    {
        let sb = self.sb;
        self.spi_tx(sb);
        self.irq = false;
    }

    /// A write to the serial registers at 0xFF01-0xFF02; a write outside the
    /// window is dropped.
    pub fn write(&mut self, addr: u16, val: u8)
        ensures
            final(self).sb == if addr == 0xFF01 {
                val
            } else {
                old(self).sb
            },
            final(self).sc == if addr == 0xFF02 {
                val
            } else {
                old(self).sc
            },
            final(self).irq == old(self).irq,
            final(self).is_start_req == old(self).is_start_req,
            final(self).clock_speed == old(self).clock_speed,
            final(self).shift_clock == old(self).shift_clock,
            final(self).tick == old(self).tick,
    {
        match addr {
            0xFF01 => self.sb = val,
            0xFF02 => self.sc = val,
            _ => (),
        }
    }

    /// A read of the serial registers at 0xFF01-0xFF02; any other address
    /// reads as 0xFF.
    pub fn read(&self, addr: u16) -> (r: u8)
        ensures
            r == self.read_spec(addr),
    {
        match addr {
            0xFF01 => self.sb,
            0xFF02 => self.sc,
            _ => 0xFF,
        }
    }

    /// What a read returns, as a function of the port state.
    pub open spec fn read_spec(self, addr: u16) -> u8 {
        if addr == 0xFF01 {
            self.sb
        } else if addr == 0xFF02 {
            self.sc
        } else {
            0xFF
        }
    }

    /// Advances the port: decodes the control register into its tracked
    /// bits and requests the interrupt while a transfer is pending.
    pub fn update(&mut self, tick: u8)
        ensures
            final(self).sb == old(self).sb,
            final(self).sc == old(self).sc,
            final(self).tick == old(self).tick,
            final(self).is_start_req == (old(self).sc & 0x80 != 0),
            final(self).clock_speed == (old(self).sc & 0x02) >> 1,
            final(self).shift_clock == old(self).sc & 0x01,
            final(self).irq == (old(self).irq || old(self).sc & 0x80 != 0),
    {
        self.is_start_req = (self.sc & 0x80) != 0;
        self.clock_speed = (self.sc & 0x02) >> 1;
        self.shift_clock = self.sc & 0x01;

        if self.is_start_req {
            self.spi_irq();
        }
    }
}

} // verus!
