use damage_watch::damage::{compare_fields_we_care_about, CarDamage};
use damage_watch::packet::{DecodeError, PacketBody, TelemetryPacket};
use damage_watch::watcher::{WatchError, WatcherState};

fn undamaged() -> CarDamage {
    CarDamage {
        tyre_damage: [0; 4],
        brake_damage: [0; 4],
        front_left_wing_damage: 0,
        front_right_wing_damage: 0,
        rear_wing_damage: 0,
        floor_wing_damage: 0,
        diffuser_damage: 0,
        sidepod_damage: 0,
        gearbox_damage: 0,
        engine_damage: 0,
        drs_fault: 0,
        engine_mguh_wear: 0,
        engine_es_wear: 0,
        engine_ce_wear: 0,
        engine_ice_wear: 0,
        engine_mguk_wear: 0,
        engine_tc_wear: 0,
    }
}

fn report(index: u8, damages: Vec<CarDamage>) -> TelemetryPacket {
    TelemetryPacket { player_car_index: index, body: PacketBody::CarDamageReport(damages) }
}

fn tracked_variants() -> Vec<CarDamage> {
    let base = undamaged();
    let mut out = Vec::new();
    let mut d = base;
    d.tyre_damage[2] = 5;
    out.push(d);
    let mut d = base;
    d.brake_damage[3] = 5;
    out.push(d);
    out.push(CarDamage { front_left_wing_damage: 5, ..base });
    out.push(CarDamage { front_right_wing_damage: 5, ..base });
    out.push(CarDamage { rear_wing_damage: 5, ..base });
    out.push(CarDamage { floor_wing_damage: 5, ..base });
    out.push(CarDamage { diffuser_damage: 5, ..base });
    out.push(CarDamage { sidepod_damage: 5, ..base });
    out.push(CarDamage { gearbox_damage: 5, ..base });
    out.push(CarDamage { engine_damage: 5, ..base });
    out
}

#[test]
fn first_report_is_silent_and_stored() {
    let mut w = WatcherState::new();
    let d = CarDamage { rear_wing_damage: 40, ..undamaged() };
    assert_eq!(w.observe(&report(0, vec![d])), Ok(None));
    assert_eq!(w.last_known, Some(d));
}

#[test]
fn same_report_twice_is_silent() {
    let mut w = WatcherState::new();
    let d = CarDamage { engine_damage: 12, ..undamaged() };
    assert_eq!(w.observe_all(&vec![d, d]), vec![None, None]);
}

#[test]
fn each_tracked_field_alerts() {
    for d2 in tracked_variants() {
        let mut w = WatcherState::new();
        assert!(!compare_fields_we_care_about(&undamaged(), &d2));
        assert_eq!(w.observe_all(&vec![undamaged(), d2]), vec![None, Some(d2)]);
    }
}

#[test]
fn engine_damage_change_alerts() {
    let d1 = undamaged();
    let d2 = CarDamage { engine_damage: 5, ..d1 };
    let mut w = WatcherState::new();
    assert_eq!(w.observe_all(&vec![d1, d2]), vec![None, Some(d2)]);
}

#[test]
fn untracked_fields_do_not_alert() {
    let d1 = undamaged();
    let others = vec![
        CarDamage { drs_fault: 1, ..d1 },
        CarDamage { engine_mguh_wear: 3, ..d1 },
        CarDamage { engine_es_wear: 3, ..d1 },
        CarDamage { engine_ce_wear: 3, ..d1 },
        CarDamage { engine_ice_wear: 3, ..d1 },
        CarDamage { engine_mguk_wear: 3, ..d1 },
        CarDamage { engine_tc_wear: 3, ..d1 },
    ];
    for d2 in others {
        let mut w = WatcherState::new();
        assert!(compare_fields_we_care_about(&d1, &d2));
        assert_eq!(w.observe_all(&vec![d1, d2]), vec![None, None]);
        assert_eq!(w.last_known, Some(d2));
    }
}

#[test]
fn persisting_change_alerts_once() {
    let d1 = undamaged();
    let d2 = CarDamage { floor_wing_damage: 30, ..d1 };
    let mut w = WatcherState::new();
    assert_eq!(w.observe_all(&vec![d1, d2, d2, d2]), vec![None, Some(d2), None, None]);
}

#[test]
fn repair_still_alerts() {
    let d1 = CarDamage { front_left_wing_damage: 60, tyre_damage: [10, 10, 10, 10], ..undamaged() };
    let d2 = CarDamage { front_left_wing_damage: 0, ..d1 };
    let mut w = WatcherState::new();
    assert_eq!(w.observe_all(&vec![d1, d2]), vec![None, Some(d2)]);
}

#[test]
fn compares_with_last_observed_not_last_alerted() {
    let a = undamaged();
    let b = CarDamage { sidepod_damage: 8, ..a };
    let mut w = WatcherState::new();
    assert_eq!(w.observe_all(&vec![a, a, b, a]), vec![None, None, Some(b), Some(a)]);
}

#[test]
fn empty_run_leaves_state() {
    let d = CarDamage { gearbox_damage: 2, ..undamaged() };
    let mut w = WatcherState { last_known: Some(d) };
    assert_eq!(w.observe_all(&Vec::new()), Vec::<Option<CarDamage>>::new());
    assert_eq!(w.last_known, Some(d));
}

#[test]
fn undecodable_packet_is_inert() {
    let d = CarDamage { diffuser_damage: 4, ..undamaged() };
    let mut w = WatcherState { last_known: Some(d) };
    assert_eq!(w.process(Err(DecodeError)), Err(WatchError::Decode));
    assert_eq!(w.last_known, Some(d));
    let mut fresh = WatcherState::new();
    assert_eq!(fresh.process(Err(DecodeError)), Err(WatchError::Decode));
    assert_eq!(fresh.last_known, None);
}

#[test]
fn other_packet_is_inert() {
    let d = CarDamage { diffuser_damage: 4, ..undamaged() };
    let mut w = WatcherState { last_known: Some(d) };
    let p = TelemetryPacket { player_car_index: 0, body: PacketBody::Other(2) };
    assert_eq!(w.process(Ok(p)), Ok(None));
    assert_eq!(w.last_known, Some(d));
}

#[test]
fn player_index_out_of_range_is_refused() {
    let d = CarDamage { diffuser_damage: 4, ..undamaged() };
    let mut w = WatcherState { last_known: Some(d) };
    let p = report(2, vec![undamaged(), undamaged()]);
    assert_eq!(w.process(Ok(p)), Err(WatchError::IndexOutOfRange));
    assert_eq!(w.last_known, Some(d));
    assert_eq!(w.observe(&report(0, Vec::new())), Err(WatchError::IndexOutOfRange));
    assert_eq!(w.last_known, Some(d));
}

#[test]
fn player_record_is_picked_by_index() {
    let mine = CarDamage { rear_wing_damage: 9, ..undamaged() };
    let other = CarDamage { rear_wing_damage: 50, ..undamaged() };
    let mut cars = vec![other; 22];
    cars[21] = mine;
    let mut w = WatcherState::new();
    assert_eq!(w.process(Ok(report(21, cars.clone()))), Ok(None));
    assert_eq!(w.last_known, Some(mine));
    cars[21] = other;
    assert_eq!(w.process(Ok(report(21, cars))), Ok(Some(other)));
}

#[test]
fn end_to_end_one_notification() {
    let zero = undamaged();
    let hit = CarDamage { rear_wing_damage: 20, ..zero };
    let packets = vec![report(0, vec![zero]), report(0, vec![zero]), report(0, vec![hit])];
    let mut w = WatcherState::new();
    let mut notified: Vec<(usize, CarDamage)> = Vec::new();
    for (i, p) in packets.into_iter().enumerate() {
        if let Ok(Some(d)) = w.process(Ok(p)) {
            notified.push((i, d));
        }
    }
    assert_eq!(notified, vec![(2, hit)]);
}
