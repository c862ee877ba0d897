//! One car's damage snapshot, and the comparison over the fields that matter.

use vstd::prelude::*;

verus! {

/// One car's damage, in percent (wear values for the engine parts).
///
/// Only ten of the fields are tracked: the tyres, the brakes, the two front
/// wing halves, the rear wing, the floor, the diffuser, the sidepods, the
/// gearbox and the engine. The others are carried along and never compared.
#[derive(Clone, Copy, Debug, PartialEq, Eq)]
pub struct CarDamage {
    pub tyre_damage: [u8; 4],
    pub brake_damage: [u8; 4],
    pub front_left_wing_damage: u8,
    pub front_right_wing_damage: u8,
    pub rear_wing_damage: u8,
    pub floor_wing_damage: u8,
    pub diffuser_damage: u8,
    pub sidepod_damage: u8,
    pub gearbox_damage: u8,
    pub engine_damage: u8,
    pub drs_fault: u8,
    pub engine_mguh_wear: u8,
    pub engine_es_wear: u8,
    pub engine_ce_wear: u8,
    pub engine_ice_wear: u8,
    pub engine_mguk_wear: u8,
    pub engine_tc_wear: u8,
}

/// The two snapshots agree on all ten tracked fields.
pub open spec fn same_tracked(a: CarDamage, b: CarDamage) -> bool {
    &&& a.tyre_damage@ == b.tyre_damage@
    &&& a.brake_damage@ == b.brake_damage@
    &&& a.front_left_wing_damage == b.front_left_wing_damage
    &&& a.front_right_wing_damage == b.front_right_wing_damage
    &&& a.rear_wing_damage == b.rear_wing_damage
    &&& a.floor_wing_damage == b.floor_wing_damage
    &&& a.diffuser_damage == b.diffuser_damage
    &&& a.sidepod_damage == b.sidepod_damage
    &&& a.gearbox_damage == b.gearbox_damage
    &&& a.engine_damage == b.engine_damage
}

/// Some tracked value of `after` is lower than in `before`: a repair.
pub open spec fn repaired_somewhere(before: CarDamage, after: CarDamage) -> bool {
    ||| exists|i: int| 0 <= i < 4 && after.tyre_damage@[i] < before.tyre_damage@[i]
    ||| exists|i: int| 0 <= i < 4 && after.brake_damage@[i] < before.brake_damage@[i]
    ||| after.front_left_wing_damage < before.front_left_wing_damage
    ||| after.front_right_wing_damage < before.front_right_wing_damage
    ||| after.rear_wing_damage < before.rear_wing_damage
    ||| after.floor_wing_damage < before.floor_wing_damage
    ||| after.diffuser_damage < before.diffuser_damage
    ||| after.sidepod_damage < before.sidepod_damage
    ||| after.gearbox_damage < before.gearbox_damage
    ||| after.engine_damage < before.engine_damage
}

fn same_wheels(a: &[u8; 4], b: &[u8; 4]) -> (r: bool)
    ensures
        r == (a@ == b@),
{
    let r = a[0] == b[0] && a[1] == b[1] && a[2] == b[2] && a[3] == b[3];
    if r {
        assert(a@ =~= b@);
    } else {
        assert(exists|i: int| 0 <= i < 4 && a@[i] != b@[i]);
    }
    r
}

/// Whether the two snapshots agree on the ten tracked fields; the untracked
/// fields play no part.
pub fn compare_fields_we_care_about(lhs: &CarDamage, rhs: &CarDamage) -> (r: bool)
    ensures
        r == same_tracked(*lhs, *rhs),
{
    same_wheels(&lhs.tyre_damage, &rhs.tyre_damage)
        && same_wheels(&lhs.brake_damage, &rhs.brake_damage)
        && lhs.front_left_wing_damage == rhs.front_left_wing_damage
        && lhs.front_right_wing_damage == rhs.front_right_wing_damage
        && lhs.rear_wing_damage == rhs.rear_wing_damage
        && lhs.floor_wing_damage == rhs.floor_wing_damage
        && lhs.diffuser_damage == rhs.diffuser_damage
        && lhs.sidepod_damage == rhs.sidepod_damage
        && lhs.gearbox_damage == rhs.gearbox_damage
        && lhs.engine_damage == rhs.engine_damage
}

/// A snapshot in which some tracked value went down differs in the tracked
/// fields: a repair counts as a change.
pub proof fn lemma_repair_is_a_change(before: CarDamage, after: CarDamage)
    requires
        repaired_somewhere(before, after),
    ensures
        !same_tracked(before, after),
{
    if exists|i: int| 0 <= i < 4 && after.tyre_damage@[i] < before.tyre_damage@[i] {
        let i = choose|i: int| 0 <= i < 4 && after.tyre_damage@[i] < before.tyre_damage@[i];
        assert(after.tyre_damage@[i] != before.tyre_damage@[i]);
    }
    if exists|i: int| 0 <= i < 4 && after.brake_damage@[i] < before.brake_damage@[i] {
        let i = choose|i: int| 0 <= i < 4 && after.brake_damage@[i] < before.brake_damage@[i];
        assert(after.brake_damage@[i] != before.brake_damage@[i]);
    }
}

} // verus!
