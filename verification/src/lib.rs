//! Verified guidance core for an automated ascent and
//! orbit-circularization sequence of a remotely controlled vehicle.
//!
//! The library holds the decision logic of the guidance loop: the
//! gravity-turn pitch program, the booster-staging debounce, the apoapsis
//! fine-tuning and coast gates, the circularization-burn planner (vis-viva
//! and rocket equation over fixed-point integers) and the burn-window
//! arithmetic of the executor.  Every function is specified and verified.
//!
//! The remote link itself (request/response calls, the streaming telemetry
//! subscription, time warp, real-time sleeps) is I/O and lives outside the
//! library; the driver hands plain scaled-integer readings in and carries
//! the returned commands out.

pub mod ascent;
pub mod executor;
pub mod mission;
pub mod planner;
pub mod telemetry;
