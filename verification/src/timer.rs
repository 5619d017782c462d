//! Periodic interval timer: tick counting, the display cadence, and the
//! values shown on the status line.
//!
//! Programming the timer chip and writing to the screen are outside work;
//! what is computed — the port programming words, the tick arithmetic, and
//! the formatted clock digits — is verified here. Execution is single
//! threaded end to end, so the tick counter is a plain owned value.

use vstd::prelude::*;

verus! {

/// Base frequency of the interval timer chip, in Hz.
pub const PIT_FREQUENCY: u32 = 1193180;

/// Programmed tick rate, in Hz.
pub const PIT_CHANNEL0_HZ: u32 = 100;

/// Command port of the timer chip.
pub const PIT_COMMAND_PORT: u16 = 0x43;

/// Data port of the timer chip's channel zero.
pub const PIT_CHANNEL0_PORT: u16 = 0x40;

/// Command byte: channel zero, low-then-high access, square-wave mode.
pub const PIT_COMMAND_BYTE: u8 = 0x36;

/// The status line is refreshed once per this many ticks.
pub const DISPLAY_INTERVAL: u32 = 10;

/// One byte written to one I/O port.
#[derive(Clone, Copy, Debug, PartialEq, Eq, Structural)]
pub struct PortWrite {
    pub port: u16,
    pub value: u8,
}

/// What the status line shows after a tick: the new tick total and the
/// elapsed time it represents, already reduced to display ranges.
#[derive(Clone, Copy, Debug, PartialEq, Eq, Structural)]
pub struct TickReport {
    /// The tick count after this tick.
    pub ticks: u32,
    /// Elapsed hours, reduced modulo 24.
    pub hours: u32,
    /// Elapsed minutes, reduced modulo 60.
    pub minutes: u32,
    /// Elapsed seconds, reduced modulo 60.
    pub seconds: u32,
}

/// The interrupt-driven tick counter.
#[derive(Clone, Copy, Debug, PartialEq, Eq, Structural)]
pub struct Timer {
    pub tick_count: u32,
}

/// The decimal digit characters of `n`, most significant first.
pub open spec fn spec_decimal(n: nat) -> Seq<u8>
    decreases n,
{
    if n < 10 {
        seq![(48 + n) as u8]
    } else {
        spec_decimal(n / 10).push((48 + n % 10) as u8)
    }
}

/// Appends the decimal digits of `n` to `out`.
fn push_decimal(n: u32, out: &mut Vec<u8>)
    ensures
        final(out)@ == old(out)@ + spec_decimal(n as nat),
    decreases n,
{
    if n < 10 {
        out.push(48 + (n as u8));
        proof {
            assert(out@ =~= old(out)@ + spec_decimal(n as nat));
        }
    } else {
        push_decimal(n / 10, out);
        out.push(48 + ((n % 10) as u8));
        proof {
            assert(out@ =~= old(out)@ + spec_decimal(n as nat));
        }
    }
}

/// The decimal digit characters of `n`, most significant first.
pub fn decimal_digits(n: u32) -> (v: Vec<u8>)
    ensures
        v@ == spec_decimal(n as nat),
{
    let mut v: Vec<u8> = Vec::new();
    push_decimal(n, &mut v);
    proof {
        assert(v@ =~= spec_decimal(n as nat));
    }
    v
}

/// The eight status-line clock characters `HH:MM:SS` for a display time.
pub fn clock_digits(hours: u32, minutes: u32, seconds: u32) -> (v: Vec<u8>)
    requires
        hours < 24,
        minutes < 60,
        seconds < 60,
    ensures
        v@.len() == 8,
        v@[0] == 48 + hours / 10,
        v@[1] == 48 + hours % 10,
        v@[2] == 58,
        v@[3] == 48 + minutes / 10,
        v@[4] == 48 + minutes % 10,
        v@[5] == 58,
        v@[6] == 48 + seconds / 10,
        v@[7] == 48 + seconds % 10,
{
    let mut v: Vec<u8> = Vec::new();
    v.push(48 + (hours / 10) as u8);
    v.push(48 + (hours % 10) as u8);
    v.push(58);
    v.push(48 + (minutes / 10) as u8);
    v.push(48 + (minutes % 10) as u8);
    v.push(58);
    v.push(48 + (seconds / 10) as u8);
    v.push(48 + (seconds % 10) as u8);
    v
}

impl Timer {
    /// A timer that has not ticked yet.
    pub fn new() -> (t: Timer)
        ensures
            t.tick_count == 0,
    {
        Timer { tick_count: 0 }
    }

    /// The port writes that program the timer chip to `PIT_CHANNEL0_HZ`:
    /// the command byte, then the divisor's low and high bytes on channel
    /// zero. Performing the writes is the caller's outside work.
    pub fn timer_init(&self) -> (r: Vec<PortWrite>)
        ensures
            r@.len() == 3,
            r@[0] == (PortWrite { port: PIT_COMMAND_PORT, value: PIT_COMMAND_BYTE }),
            r@[1] == (PortWrite {
                port: PIT_CHANNEL0_PORT,
                value: ((PIT_FREQUENCY / PIT_CHANNEL0_HZ) % 256) as u8,
            }),
            r@[2] == (PortWrite {
                port: PIT_CHANNEL0_PORT,
                value: ((PIT_FREQUENCY / PIT_CHANNEL0_HZ) / 256 % 256) as u8,
            }),
    {
        let divisor = PIT_FREQUENCY / PIT_CHANNEL0_HZ;
        let mut r: Vec<PortWrite> = Vec::new();
        r.push(PortWrite { port: PIT_COMMAND_PORT, value: PIT_COMMAND_BYTE });
        r.push(PortWrite { port: PIT_CHANNEL0_PORT, value: (divisor % 256) as u8 });
        r.push(PortWrite { port: PIT_CHANNEL0_PORT, value: (divisor / 256 % 256) as u8 });
        r
    }

    /// The current tick count.
    pub fn timer_get_ticks(&self) -> (r: u32)
        ensures
            r == self.tick_count,
    {
        self.tick_count
    }

    /// One timer tick: increments the counter (wrapping at the 32-bit
    /// limit) and decides whether the status line is refreshed. A report is
    /// produced exactly when the pre-increment count is a multiple of the
    /// display interval, and carries the new total with its elapsed time
    /// reduced to display ranges.
    pub fn timer_callback(&mut self) -> (r: Option<TickReport>)
        ensures
            final(self).tick_count == (old(self).tick_count + 1) % 0x1_0000_0000,
            r is Some <==> old(self).tick_count % DISPLAY_INTERVAL == 0,
            r matches Some(report) ==> {
                let ticks = old(self).tick_count + 1;
                let total_seconds = ticks / (PIT_CHANNEL0_HZ as int);
                &&& report.ticks == ticks
                &&& report.hours == total_seconds / 3600 % 24
                &&& report.minutes == total_seconds / 60 % 60
                &&& report.seconds == total_seconds % 60
            },
    {
        let count = self.tick_count;
        self.tick_count = if count == u32::MAX {
            0
        } else {
            count + 1
        };
        if count % DISPLAY_INTERVAL != 0 {
            return None;
        }
        let ticks = count + 1;
        let total_seconds = ticks / PIT_CHANNEL0_HZ;
        let hours = total_seconds / 3600 % 24;
        let minutes = total_seconds / 60 % 60;
        let seconds = total_seconds % 60;
        Some(TickReport { ticks, hours, minutes, seconds })
    }
}

} // verus!
