//! A decoded telemetry packet, as far as damage watching reads it.

use vstd::prelude::*;

use crate::damage::CarDamage;

verus! {

/// The body of a packet: a damage report for every car, or anything else.
#[derive(Clone, Debug, PartialEq, Eq)]
pub enum PacketBody {
    /// One damage record per car of the session, in car index order.
    CarDamageReport(Vec<CarDamage>),
    /// Any other packet kind, identified by its packet id; never inspected.
    Other(u8),
}

/// One decoded datagram.
#[derive(Clone, Debug, PartialEq, Eq)]
pub struct TelemetryPacket {
    /// Which per-car slot of the body belongs to the observing player.
    pub player_car_index: u8,
    pub body: PacketBody,
}

/// A datagram that could not be decoded.
#[derive(Clone, Copy, Debug, PartialEq, Eq)]
pub struct DecodeError;

/// The player's own damage record in a packet: `None` for a packet of another
/// kind, `Some(None)` when the player's index lies outside the report.
pub open spec fn player_damage(p: TelemetryPacket) -> Option<Option<CarDamage>> {
    match p.body {
        PacketBody::CarDamageReport(ds) => if (p.player_car_index as int) < ds@.len() {
            Some(Some(ds@[p.player_car_index as int]))
        } else {
            Some(None)
        },
        PacketBody::Other(_) => None,
    }
}

} // verus!
