//! Serial debug port: the programming sequence that configures COM1.
//!
//! Writing a byte to an I/O port is outside work; what is verified here is
//! the exact sequence of writes that sets the port to 38400 baud, 8 data
//! bits, no parity, one stop bit, with its queues enabled.

use vstd::prelude::*;

use crate::timer::PortWrite;

verus! {

/// Base I/O port of COM1.
pub const SERIAL_COM1: u16 = 0x3F8;

/// The port writes that initialize the serial port, in order: interrupts
/// off, divisor latch opened, divisor 3 (38400 baud), 8-N-1 line control,
/// queues enabled and cleared, and the modem control lines raised.
pub fn serial_init_writes() -> (r: Vec<PortWrite>)
    ensures
        r@.len() == 7,
        r@[0] == (PortWrite { port: (SERIAL_COM1 + 1) as u16, value: 0x00 }),
        r@[1] == (PortWrite { port: (SERIAL_COM1 + 3) as u16, value: 0x80 }),
        r@[2] == (PortWrite { port: SERIAL_COM1, value: 0x03 }),
        r@[3] == (PortWrite { port: (SERIAL_COM1 + 1) as u16, value: 0x00 }),
        r@[4] == (PortWrite { port: (SERIAL_COM1 + 3) as u16, value: 0x03 }),
        r@[5] == (PortWrite { port: (SERIAL_COM1 + 2) as u16, value: 0xC7 }),
        r@[6] == (PortWrite { port: (SERIAL_COM1 + 4) as u16, value: 0x0B }),
{
    let mut r: Vec<PortWrite> = Vec::new();
    r.push(PortWrite { port: SERIAL_COM1 + 1, value: 0x00 });
    r.push(PortWrite { port: SERIAL_COM1 + 3, value: 0x80 });
    r.push(PortWrite { port: SERIAL_COM1, value: 0x03 });
    r.push(PortWrite { port: SERIAL_COM1 + 1, value: 0x00 });
    r.push(PortWrite { port: SERIAL_COM1 + 3, value: 0x03 });
    r.push(PortWrite { port: SERIAL_COM1 + 2, value: 0xC7 });
    r.push(PortWrite { port: SERIAL_COM1 + 4, value: 0x0B });
    r
}

} // verus!
