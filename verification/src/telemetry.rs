//! Per-tick telemetry model.
//!
//! Every loop iteration the stream delivers one update in which each
//! subscribed value resolves independently: either a fresh reading or a
//! stale/missing slot.  A failed slot is "no information this tick"; it is
//! never replaced by a default or a previous value.  Downstream decision
//! logic is gated on each reading separately, so one bad slot never blocks
//! the decisions that depend only on the good ones.
//!
//! All readings are carried as scaled integers:
//! times in milliseconds, lengths in millimeters, fuel in thousandths of a
//! resource unit.

use vstd::prelude::*;

verus! {

/// One telemetry value as it resolved this tick.
#[derive(Clone, Copy, PartialEq, Eq, Structural, Debug)]
pub enum Reading {
    /// The stream delivered a fresh value this tick.
    Resolved(i64),
    /// The stream had no fresh value for this slot this tick.
    StaleOrMissing,
}

impl Reading {
    /// True when the slot resolved to a value this tick.
    pub open spec fn is_resolved(self) -> bool {
        matches!(self, Reading::Resolved(_))
    }

    /// The resolved value; meaningful only when `is_resolved` holds.
    pub open spec fn value(self) -> i64
        recommends
            self.is_resolved(),
    {
        match self {
            Reading::Resolved(v) => v,
            Reading::StaleOrMissing => 0,
        }
    }

    /// True when the slot resolved to a value this tick.
    pub fn resolved(&self) -> (r: bool)
        ensures
            r == self.is_resolved(),
    {
        match self {
            Reading::Resolved(_) => true,
            Reading::StaleOrMissing => false,
        }
    }
}

/// The bundle of independently fallible readings delivered in one stream
/// update.  Ephemeral: produced for one tick of the guidance loop and then
/// discarded.
#[derive(Clone, Copy, PartialEq, Eq, Structural, Debug)]
pub struct TelemetrySnapshot {
    /// Universal time, milliseconds.
    pub ut_ms: Reading,
    /// Apoapsis altitude above sea level, millimeters.
    pub apoapsis_mm: Reading,
    /// Mean altitude above sea level, millimeters.
    pub altitude_mm: Reading,
    /// Solid-rocket-booster fuel remaining, thousandths of a resource unit.
    pub srb_fuel_milli: Reading,
}

} // verus!
