//! Input events as plain values.
use vstd::prelude::*;

verus! {

/// Event type of synchronization markers.
pub const EV_SYN: u16 = 0;

/// Event type of key and button transitions.
pub const EV_KEY: u16 = 1;

/// Event type of relative axis motion.
pub const EV_REL: u16 = 2;

/// Event type of absolute axis values.
pub const EV_ABS: u16 = 3;

/// Event type of miscellaneous input data, such as scan codes.
pub const EV_MSC: u16 = 4;

/// Event type of binary switches.
pub const EV_SW: u16 = 5;

/// Event type of LEDs.
pub const EV_LED: u16 = 17;

/// Event type of sounds.
pub const EV_SND: u16 = 18;

/// Event type of key autorepeat settings.
pub const EV_REP: u16 = 20;

/// Event type of force-feedback effects.
pub const EV_FF: u16 = 21;

/// Code of the synchronization marker that closes a report.
pub const SYN_REPORT: u16 = 0;

/// One input change: its type, its code within that type, and its value.
/// Timestamps play no part in routing and are not kept.
#[derive(Clone, Copy, Debug, PartialEq, Eq, Structural)]
pub struct Event {
    pub kind: u16,
    pub code: u16,
    pub value: i32,
}

/// The marker that ends a batch of state changes.
pub open spec fn sync_spec() -> Event {
    Event { kind: EV_SYN, code: SYN_REPORT, value: 0 }
}

pub open spec fn is_sync_spec(e: Event) -> bool {
    e.kind == EV_SYN && e.code == SYN_REPORT
}

/// Whether `e` is a transition of the key with code `trigger`.
pub open spec fn is_trigger_spec(e: Event, trigger: u16) -> bool {
    e.kind == EV_KEY && e.code == trigger
}

impl Event {
    pub fn new(kind: u16, code: u16, value: i32) -> (r: Event)
        ensures
            r == (Event { kind, code, value }),
    {
        Event { kind, code, value }
    }

    /// A `SYN_REPORT` marker with value zero.
    pub fn sync() -> (r: Event)
        ensures
            r == sync_spec(),
    {
        Event { kind: EV_SYN, code: SYN_REPORT, value: 0 }
    }

    pub fn is_sync(&self) -> (r: bool)
        ensures
            r == is_sync_spec(*self),
    {
        self.kind == EV_SYN && self.code == SYN_REPORT
    }

    pub fn is_trigger(&self, trigger: u16) -> (r: bool)
        ensures
            r == is_trigger_spec(*self, trigger),
    {
        self.kind == EV_KEY && self.code == trigger
    }
}

} // verus!
