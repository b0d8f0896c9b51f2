//! Transition-engine behaviour on concrete fleets.

use terrasat::engine::{
    count, data_guard, disable, dummy_data, get_pulse, get_pulses, guard, login, pulse, set_dos,
    shutdown, sleep, status, status_all, wake, DisableOutcome, KillSwitchOutcome, LoginOutcome,
    PulseOutcome, QueryError, ShutdownOutcome, SleepOutcome, WakeOutcome,
};
use terrasat::fleet::Config;
use terrasat::satellite::{Satellite, SatelliteStatus};

fn sat(password: &str, version: &str, shutdown_code: Option<usize>, has_pulse: bool) -> Satellite {
    Satellite {
        name: "Sat".to_string(),
        status: SatelliteStatus::ACTIVE,
        version: version.to_string(),
        os: "linux".to_string(),
        debug_mode: false,
        password: password.to_string(),
        shutdown_code,
        has_pulse,
    }
}

fn fleet(n: usize) -> Config {
    let mut satellites = Vec::new();
    let mut pulses = Vec::new();
    for _ in 0..n {
        satellites.push(sat("open", "v2.0.0", None, false));
        pulses.push(100u64);
    }
    Config { satellites, pulse: pulses, dos_active: false }
}

#[test]
fn end_to_end_three_sleepers() {
    // Fleet of 3, all ACTIVE, no heartbeats configured.
    let mut config = fleet(3);
    assert_eq!(sleep(&mut config, 0), SleepOutcome::Success);
    assert_eq!(sleep(&mut config, 1), SleepOutcome::Success);
    assert_eq!(sleep(&mut config, 2), SleepOutcome::Success);
    // The repeat on device 0 is a no-op failure: the quota guard runs
    // before the status check and 3 devices already sleep.
    assert_eq!(sleep(&mut config, 0), SleepOutcome::QuotaExceeded);
    for i in 0..3 {
        assert_eq!(config.satellites[i].status, SatelliteStatus::SLEEP);
    }
}

#[test]
fn sleep_quota_holds_at_three() {
    let mut config = fleet(4);
    assert_eq!(sleep(&mut config, 0), SleepOutcome::Success);
    assert_eq!(sleep(&mut config, 1), SleepOutcome::Success);
    assert_eq!(sleep(&mut config, 2), SleepOutcome::Success);
    assert_eq!(sleep(&mut config, 3), SleepOutcome::QuotaExceeded);
    assert_eq!(config.satellites[3].status, SatelliteStatus::ACTIVE);
    let sleeping = config
        .satellites
        .iter()
        .filter(|s| s.status == SatelliteStatus::SLEEP)
        .count();
    assert_eq!(sleeping, 3);
}

#[test]
fn sleep_needs_active_device() {
    let mut config = fleet(2);
    config.satellites[1].status = SatelliteStatus::INACTIVE;
    assert_eq!(sleep(&mut config, 1), SleepOutcome::NotActive(1));
    assert_eq!(config.satellites[1].status, SatelliteStatus::INACTIVE);
    assert_eq!(sleep(&mut config, 0), SleepOutcome::Success);
    assert_eq!(sleep(&mut config, 0), SleepOutcome::NotActive(0));
    assert_eq!(config.satellites[0].status, SatelliteStatus::SLEEP);
}

#[test]
fn sleep_out_of_range_mutates_nothing() {
    let mut config = fleet(2);
    assert_eq!(sleep(&mut config, 2), SleepOutcome::IndexOutOfRange);
    assert_eq!(sleep(&mut config, 17), SleepOutcome::IndexOutOfRange);
    for i in 0..2 {
        assert_eq!(config.satellites[i].status, SatelliteStatus::ACTIVE);
    }
}

#[test]
fn wake_needs_sleeping_device() {
    let mut config = fleet(2);
    assert_eq!(wake(&mut config, 0), WakeOutcome::NotSleeping(0));
    assert_eq!(config.satellites[0].status, SatelliteStatus::ACTIVE);
    assert_eq!(sleep(&mut config, 0), SleepOutcome::Success);
    assert_eq!(wake(&mut config, 0), WakeOutcome::Success);
    assert_eq!(config.satellites[0].status, SatelliteStatus::ACTIVE);
    config.satellites[1].status = SatelliteStatus::INACTIVE;
    assert_eq!(wake(&mut config, 1), WakeOutcome::NotSleeping(1));
    assert_eq!(config.satellites[1].status, SatelliteStatus::INACTIVE);
    assert_eq!(wake(&mut config, 9), WakeOutcome::IndexOutOfRange);
}

#[test]
fn shutdown_follows_configured_code() {
    let mut config = fleet(3);
    config.satellites[1].shutdown_code = Some(1882);
    assert_eq!(shutdown(&mut config, 0, 1882), ShutdownOutcome::UnknownOperation);
    assert_eq!(config.satellites[0].status, SatelliteStatus::ACTIVE);
    assert_eq!(shutdown(&mut config, 1, 1881), ShutdownOutcome::InvalidCode);
    assert_eq!(config.satellites[1].status, SatelliteStatus::ACTIVE);
    assert_eq!(shutdown(&mut config, 1, 1882), ShutdownOutcome::Success);
    assert_eq!(config.satellites[1].status, SatelliteStatus::INACTIVE);
    assert_eq!(shutdown(&mut config, 3, 1882), ShutdownOutcome::IndexOutOfRange);
}

#[test]
fn disable_follows_password() {
    let mut config = fleet(2);
    assert_eq!(
        disable(&mut config, 0, &"wrong".to_string()),
        DisableOutcome::IncorrectPassword
    );
    assert_eq!(config.satellites[0].status, SatelliteStatus::ACTIVE);
    assert_eq!(disable(&mut config, 0, &"open".to_string()), DisableOutcome::Disabled(0));
    assert_eq!(config.satellites[0].status, SatelliteStatus::INACTIVE);
    assert_eq!(
        disable(&mut config, 5, &"open".to_string()),
        DisableOutcome::IndexOutOfRange
    );
}

#[test]
fn login_accepts_only_the_stored_password() {
    let config = fleet(2);
    assert_eq!(login(&config, 0, &"open".to_string()), LoginOutcome::Accepted);
    assert_eq!(login(&config, 0, &"nope".to_string()), LoginOutcome::Rejected);
    assert_eq!(login(&config, 4, &"open".to_string()), LoginOutcome::IndexOutOfRange);
}

#[test]
fn login_leaks_password_only_for_the_quirky_version() {
    let mut config = fleet(2);
    config.satellites[1].version = "v1.1.2".to_string();
    match login(&config, 1, &"nope".to_string()) {
        LoginOutcome::RejectedLeak(p) => assert_eq!(p, "open"),
        other => panic!("expected a leaking rejection, got {:?}", other),
    }
    // A correct password never leaks, even on that version.
    assert_eq!(login(&config, 1, &"open".to_string()), LoginOutcome::Accepted);
    // Any other version rejects without data.
    assert_eq!(login(&config, 0, &"nope".to_string()), LoginOutcome::Rejected);
}

#[test]
fn kill_switch_ignores_wrong_keys() {
    let mut config = fleet(1);
    assert_eq!(set_dos(&mut config, 1520), KillSwitchOutcome::IncorrectKey);
    assert!(!config.dos_active);
    assert_eq!(set_dos(&mut config, 1521), KillSwitchOutcome::Activated);
    assert!(config.dos_active);
    // Wrong key leaves the active state untouched too.
    assert_eq!(set_dos(&mut config, 0), KillSwitchOutcome::IncorrectKey);
    assert!(config.dos_active);
    assert_eq!(set_dos(&mut config, 1521), KillSwitchOutcome::Deactivated);
    assert!(!config.dos_active);
}

#[test]
fn heartbeat_submission_records_now() {
    let mut config = fleet(2);
    assert_eq!(pulse(&mut config, 1, 12345), PulseOutcome::Recorded);
    assert_eq!(config.pulse[1], 12345);
    assert_eq!(config.pulse[0], 100);
    assert_eq!(pulse(&mut config, 2, 1), PulseOutcome::IndexOutOfRange);
}

#[test]
fn heartbeat_submission_ignores_kill_switch() {
    let mut config = fleet(1);
    config.dos_active = true;
    assert_eq!(pulse(&mut config, 0, 777), PulseOutcome::Recorded);
    assert_eq!(config.pulse[0], 777);
}

#[test]
fn guarded_reads_refuse_under_kill_switch() {
    let mut config = fleet(2);
    assert_eq!(count(&config), Ok(2));
    assert_eq!(get_pulse(&config, 0), Ok(100));
    assert_eq!(get_pulses(&config).unwrap(), vec![100, 100]);
    assert_eq!(status_all(&config).unwrap().len(), 2);
    config.dos_active = true;
    assert_eq!(count(&config), Err(QueryError::GuardActive));
    assert_eq!(get_pulse(&config, 0), Err(QueryError::GuardActive));
    assert_eq!(get_pulses(&config), Err(QueryError::GuardActive));
    assert_eq!(status_all(&config), Err(QueryError::GuardActive));
}

#[test]
fn status_is_served_even_under_kill_switch() {
    let mut config = fleet(2);
    config.dos_active = true;
    // The combined guard never rejects an in-range index.
    let record = status(&config, 1).unwrap();
    assert_eq!(record.password, "open");
    // An out-of-range index is caught by the guard while the
    // kill-switch is active, and by the roster itself otherwise.
    assert_eq!(status(&config, 2).unwrap_err(), QueryError::IndexOutOfRange);
    config.dos_active = false;
    assert_eq!(status(&config, 2).unwrap_err(), QueryError::RosterBounds);
}

#[test]
fn guards_show_the_documented_asymmetry() {
    let mut config = fleet(2);
    assert!(!guard(&config));
    assert!(!data_guard(&config, 0));
    assert!(!data_guard(&config, 2));
    config.dos_active = true;
    assert!(guard(&config));
    assert!(!data_guard(&config, 1));
    assert!(data_guard(&config, 2));
}

#[test]
fn dummy_data_is_the_fixed_sample() {
    let text = dummy_data();
    assert!(text.starts_with("{\n"));
    assert!(text.contains("\"status15\": \"offline\""));
    assert!(text.ends_with("\"status12\": \"ok\"\n}"));
}
