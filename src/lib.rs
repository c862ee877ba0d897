//! Watches the damage reports of a racing game's telemetry for one car and
//! decides, report by report, when a change must be announced.

pub mod damage;
pub mod packet;
pub mod watcher;
pub mod alert;
