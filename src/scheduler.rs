//! Decisions of the tick loop: which telemetry is due on a tick, and the
//! liveness and battery watchdog. The loop itself, with its waiting and its
//! I/O, runs outside the library and calls these once per tick.

use vstd::prelude::*;
use crate::codec::{Command, Mode};
use crate::drone::{Drone, Outbox};
use crate::parser::{StreamParser, run, decoded_payloads};

verus! {

/// Ticks before the watchdog starts, for the hardware to settle.
pub const BOOT_TICKS: u64 = 200;

/// The watchdog runs on every tick that is a multiple of this.
pub const WATCHDOG_PERIOD: u64 = 5;

/// Missed checks in a row that force Panic.
pub const WATCHDOG_LIMIT: u32 = 20;

/// Battery readings strictly between these bounds are unsafe.
pub const BATTERY_LOW: u16 = 500;
pub const BATTERY_HIGH: u16 = 1050;

/// Telemetry due on a tick: motor values, the joystick echo, the height.
pub open spec fn telemetry_due(tick: int) -> (bool, bool, bool) {
    (tick % 2 == 0, tick % 9 == 0, tick % 6 == 0)
}

pub fn telemetry_schedule(tick: u64) -> (r: (bool, bool, bool))
    ensures
        r == telemetry_due(tick as int),
{
    (tick % 2 == 0, tick % 9 == 0, tick % 6 == 0)
}

pub open spec fn watchdog_due(tick: int) -> bool {
    tick % WATCHDOG_PERIOD as int == 0 && tick > BOOT_TICKS
}

pub open spec fn battery_unsafe(battery: int) -> bool {
    BATTERY_LOW < battery < BATTERY_HIGH
}

/// Counts watchdog checks that saw no inbound bytes.
pub struct Watchdog {
    pub keepalive_count: u32,
}

impl Watchdog {
    pub fn new() -> (r: Watchdog)
        ensures
            r.keepalive_count == 0,
    {
        Watchdog { keepalive_count: 0 }
    }

    /// Feeds inbound bytes to the parser and returns the payloads of the
    /// valid frames among them; a valid frame shows the link is alive and
    /// clears the miss count.
    pub fn receive(&mut self, parser: &mut StreamParser, bytes: &[u8]) -> (r: Vec<Vec<u8>>)
        requires
            old(parser).wf(),
        ensures
            final(parser).wf(),
            final(parser).view() == run(old(parser).view(), bytes@).0,
            r@.map_values(|p: Vec<u8>| p@) == decoded_payloads(run(old(parser).view(), bytes@).1),
            r@.len() > 0 ==> final(self).keepalive_count == 0,
            r@.len() == 0 ==> final(self).keepalive_count == old(self).keepalive_count,
    {
        let payloads = parser.feed_payloads(bytes);
        if payloads.len() > 0 {
            self.keepalive_count = 0;
        }
        payloads
    }

    /// The watchdog step of tick `tick`. On a watchdog tick the miss count
    /// goes up; at the limit, or on an unsafe battery reading, the
    /// controller is sent to Panic; the battery reading is reported either
    /// way. Other ticks change nothing.
    pub fn check(&mut self, tick: u64, battery: u16, drone: &mut Drone, out: &mut Outbox)
        ensures
            watchdog_due(tick as int) ==> final(self).keepalive_count == (if old(self).keepalive_count
                == u32::MAX {
                u32::MAX as int
            } else {
                old(self).keepalive_count + 1
            }),
            watchdog_due(tick as int) && (final(self).keepalive_count >= WATCHDOG_LIMIT
                || battery_unsafe(battery as int)) ==> final(drone).mode == Mode::Panic,
            watchdog_due(tick as int) && !(final(self).keepalive_count >= WATCHDOG_LIMIT
                || battery_unsafe(battery as int)) ==> final(drone).mode == old(drone).mode,
            watchdog_due(tick as int) ==> final(out).sent@.len() > 0 && final(out).sent@.last()
                == (Command::BatteryCheck { num: battery }),
            !watchdog_due(tick as int) ==> final(self).keepalive_count == old(self).keepalive_count
                && final(drone).mode == old(drone).mode && final(out).sent@ == old(out).sent@,
            *final(drone) == (Drone { mode: final(drone).mode, ..*old(drone) }),
            final(out).motors@ == old(out).motors@,
            final(out).relay@ == old(out).relay@,
    {
        if tick % WATCHDOG_PERIOD == 0 && tick > BOOT_TICKS {
            if self.keepalive_count < u32::MAX {
                self.keepalive_count = self.keepalive_count + 1;
            }
            if self.keepalive_count >= WATCHDOG_LIMIT {
                drone.process_command(Command::ModeChange { mode: Mode::Panic }, out);
            }
            if battery < BATTERY_HIGH && battery > BATTERY_LOW {
                drone.process_command(Command::ModeChange { mode: Mode::Panic }, out);
            }
            out.sent.push(Command::BatteryCheck { num: battery });
        }
    }
}

} // verus!
