//! Building the fleet store from configuration entries.

use terrasat::fleet::{from_entries, Config};
use terrasat::satellite::{Satellite, SatelliteStatus, SatelliteToml};

fn toml_sat(password: &str, shutdown_code: usize) -> SatelliteToml {
    SatelliteToml {
        os: "linux".to_string(),
        version: "v2.0.0".to_string(),
        debug_mode: true,
        password: password.to_string(),
        shutdown_code,
        has_pulse: true,
    }
}

#[test]
fn loads_a_contiguous_roster() {
    let entries = vec![
        ("sat0".to_string(), toml_sat("alpha", 0)),
        ("sat1".to_string(), toml_sat("beta", 1882)),
        ("sat2".to_string(), toml_sat("gamma", 0)),
    ];
    let config = from_entries(entries, 42).unwrap();
    assert_eq!(config.satellites.len(), 3);
    assert_eq!(config.pulse, vec![42, 42, 42]);
    assert!(!config.dos_active);
    assert_eq!(config.satellites[0].name, "Sat0");
    assert_eq!(config.satellites[1].name, "Sat1");
    assert_eq!(config.satellites[0].status, SatelliteStatus::ACTIVE);
    assert_eq!(config.satellites[0].password, "alpha");
    // 0 encodes "shutdown unsupported".
    assert_eq!(config.satellites[0].shutdown_code, None);
    assert_eq!(config.satellites[1].shutdown_code, Some(1882));
}

#[test]
fn entry_order_does_not_matter() {
    let entries = vec![
        ("sat1".to_string(), toml_sat("beta", 0)),
        ("sat0".to_string(), toml_sat("alpha", 0)),
    ];
    let config = from_entries(entries, 0).unwrap();
    assert_eq!(config.satellites[0].password, "alpha");
    assert_eq!(config.satellites[1].password, "beta");
}

#[test]
fn only_the_numeric_suffix_is_read() {
    // The first three characters are skipped, never inspected.
    let entries = vec![("xyz0".to_string(), toml_sat("alpha", 0))];
    let config = from_entries(entries, 0).unwrap();
    assert_eq!(config.satellites[0].name, "Sat0");
    assert_eq!(config.satellites[0].password, "alpha");
}

#[test]
fn a_skipped_slot_stays_a_placeholder() {
    // Two entries naming slot 1 leave slot 0 unloaded.
    let entries = vec![
        ("sat1".to_string(), toml_sat("beta", 0)),
        ("sat1".to_string(), toml_sat("gamma", 0)),
    ];
    let config = from_entries(entries, 0).unwrap();
    assert_eq!(config.satellites[0].name, "Unknown");
    assert_eq!(config.satellites[0].status, SatelliteStatus::INACTIVE);
    // The later entry wins the slot.
    assert_eq!(config.satellites[1].password, "gamma");
}

#[test]
fn a_signed_suffix_parses_like_the_prompt_reads_numbers() {
    let entries = vec![
        ("sat0".to_string(), toml_sat("alpha", 0)),
        ("sat+1".to_string(), toml_sat("beta", 0)),
    ];
    let config = from_entries(entries, 0).unwrap();
    assert_eq!(config.satellites[1].password, "beta");
    let entries = vec![("sat-1".to_string(), toml_sat("alpha", 0))];
    assert!(from_entries(entries, 0).is_err());
}

#[test]
fn a_name_without_numeric_suffix_is_refused() {
    let entries = vec![("satx".to_string(), toml_sat("alpha", 0))];
    let err = from_entries(entries, 0).unwrap_err();
    assert_eq!(
        err.message(),
        "Incorrect satellite input for satx. They need to named sat0...satn without skipping any #."
    );
}

#[test]
fn a_too_short_name_is_refused() {
    let entries = vec![("s0".to_string(), toml_sat("alpha", 0))];
    let err = from_entries(entries, 0).unwrap_err();
    assert_eq!(
        err.message(),
        "Incorrect satellite input for s0. They need to named sat0...satn without skipping any #."
    );
}

#[test]
fn an_index_past_the_fleet_is_refused() {
    let entries = vec![("sat5".to_string(), toml_sat("alpha", 0))];
    let err = from_entries(entries, 0).unwrap_err();
    assert_eq!(
        err.message(),
        "Satellite index out of bounds for sat5 at index 5. They need to named sat0...satn without skipping any #."
    );
}

#[test]
fn an_empty_configuration_is_an_empty_fleet() {
    let config = from_entries(vec![], 7).unwrap();
    assert_eq!(config.satellites.len(), 0);
    assert_eq!(config.pulse.len(), 0);
}

#[test]
fn get_sat_checks_the_roster_bounds() {
    let entries = vec![("sat0".to_string(), toml_sat("alpha", 0))];
    let config = from_entries(entries, 0).unwrap();
    assert_eq!(config.get_sat(0).unwrap().password, "alpha");
    let err = config.get_sat(1).unwrap_err();
    assert_eq!(err.message(), "Error: 'Index out of bounds'");
}

#[test]
fn parse_errors_always_compare_equal() {
    let e1 = from_entries(vec![("s0".to_string(), toml_sat("a", 0))], 0).unwrap_err();
    let e2 = from_entries(vec![("sat9".to_string(), toml_sat("a", 0))], 0).unwrap_err();
    assert_eq!(e1, e2);
}

#[test]
fn empty_and_to_sat_build_the_documented_records() {
    let empty = Satellite::empty();
    assert_eq!(empty.name, "Unknown");
    assert_eq!(empty.status, SatelliteStatus::INACTIVE);
    assert_eq!(empty.shutdown_code, None);
    assert!(!empty.has_pulse);
    let loaded = toml_sat("alpha", 9).to_sat("7");
    assert_eq!(loaded.name, "Sat7");
    assert_eq!(loaded.status, SatelliteStatus::ACTIVE);
    assert_eq!(loaded.shutdown_code, Some(9));
    assert_eq!(loaded.password, "alpha");
    assert!(loaded.has_pulse);
}

#[test]
fn duplicate_copies_every_field() {
    let config = Config {
        satellites: vec![Satellite::empty()],
        pulse: vec![1],
        dos_active: false,
    };
    let copy = config.satellites[0].duplicate();
    assert_eq!(copy, config.satellites[0]);
}
