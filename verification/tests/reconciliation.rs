//! Liveness reconciliation through the UI snapshot.

use terrasat::engine::{pulse, sleep, ui_data, PulseOutcome, SleepOutcome};
use terrasat::fleet::{from_entries, Config};
use terrasat::satellite::{Satellite, SatelliteStatus, SatelliteToml};

fn sat(has_pulse: bool) -> Satellite {
    Satellite {
        name: "Sat".to_string(),
        status: SatelliteStatus::ACTIVE,
        version: "v2.0.0".to_string(),
        os: "linux".to_string(),
        debug_mode: false,
        password: "open".to_string(),
        shutdown_code: None,
        has_pulse,
    }
}

#[test]
fn stale_heartbeat_flips_a_participant_to_inactive() {
    let mut config = Config {
        satellites: vec![sat(true)],
        pulse: vec![100],
        dos_active: false,
    };
    // 6 seconds of staleness: the snapshot read flips the device.
    ui_data(&mut config, 106);
    assert_eq!(config.satellites[0].status, SatelliteStatus::INACTIVE);
    // A fresh heartbeat flips it back on the next snapshot read.
    assert_eq!(pulse(&mut config, 0, 106), PulseOutcome::Recorded);
    ui_data(&mut config, 107);
    assert_eq!(config.satellites[0].status, SatelliteStatus::ACTIVE);
}

#[test]
fn five_seconds_is_not_yet_stale() {
    let mut config = Config {
        satellites: vec![sat(true)],
        pulse: vec![100],
        dos_active: false,
    };
    ui_data(&mut config, 105);
    assert_eq!(config.satellites[0].status, SatelliteStatus::ACTIVE);
}

#[test]
fn non_participants_never_move() {
    let mut config = Config {
        satellites: vec![sat(false)],
        pulse: vec![0],
        dos_active: false,
    };
    // Arbitrarily stale, yet untouched.
    ui_data(&mut config, 1_000_000);
    assert_eq!(config.satellites[0].status, SatelliteStatus::ACTIVE);
    config.satellites[0].status = SatelliteStatus::INACTIVE;
    ui_data(&mut config, 2_000_000);
    assert_eq!(config.satellites[0].status, SatelliteStatus::INACTIVE);
}

#[test]
fn reconciliation_overrides_sleep_for_participants() {
    let mut config = Config {
        satellites: vec![sat(true)],
        pulse: vec![100],
        dos_active: false,
    };
    assert_eq!(sleep(&mut config, 0), SleepOutcome::Success);
    // A fresh pulse makes the reconciler set the participant ACTIVE.
    ui_data(&mut config, 101);
    assert_eq!(config.satellites[0].status, SatelliteStatus::ACTIVE);
}

#[test]
fn snapshot_document_lists_every_device() {
    let mut config = Config {
        satellites: vec![sat(false), sat(true), sat(false)],
        pulse: vec![100, 100, 100],
        dos_active: false,
    };
    config.satellites[2].status = SatelliteStatus::INACTIVE;
    assert_eq!(sleep(&mut config, 0), SleepOutcome::Success);
    let text = ui_data(&mut config, 110);
    assert_eq!(
        text,
        "{\n  \"status0\": \"sleep\",\n  \"status1\": \"offline\",\n  \"status2\": \"offline\"\n}"
    );
}

#[test]
fn a_loaded_fleet_reconciles_end_to_end() {
    let entries = vec![(
        "sat0".to_string(),
        SatelliteToml {
            os: "linux".to_string(),
            version: "v2.0.0".to_string(),
            debug_mode: false,
            password: "open".to_string(),
            shutdown_code: 0,
            has_pulse: true,
        },
    )];
    let mut config = from_entries(entries, 50).unwrap();
    assert_eq!(config.satellites[0].status, SatelliteStatus::ACTIVE);
    assert_eq!(ui_data(&mut config, 60), "{\n  \"status0\": \"offline\"\n}");
    assert_eq!(config.satellites[0].status, SatelliteStatus::INACTIVE);
    assert_eq!(pulse(&mut config, 0, 60), PulseOutcome::Recorded);
    assert_eq!(ui_data(&mut config, 61), "{\n  \"status0\": \"ok\"\n}");
    assert_eq!(config.satellites[0].status, SatelliteStatus::ACTIVE);
}

#[test]
fn snapshot_document_of_an_empty_fleet() {
    let mut config = Config { satellites: vec![], pulse: vec![], dos_active: false };
    assert_eq!(ui_data(&mut config, 0), "{\n\n}");
}
