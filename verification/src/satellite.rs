//! Device records: one per fleet member, index-addressed, fixed at
//! startup.

use crate::text::dec_str;
use vstd::prelude::*;

verus! {

/// `s` is the placeholder record that `Satellite::empty` builds: a slot
/// the configuration never filled.
pub open spec fn is_unloaded(s: Satellite) -> bool {
    &&& s.name@ == "Unknown"@
    &&& s.status is INACTIVE
    &&& s.version@ == "Unknown"@
    &&& s.os@ == "Unknown"@
    &&& !s.debug_mode
    &&& s.password@ == "Unknown"@
    &&& s.shutdown_code is None
    &&& !s.has_pulse
}

/// `s` is the record that loading `t` into roster slot `i` produces.
pub open spec fn loaded_from(s: Satellite, t: SatelliteToml, i: int) -> bool {
    &&& s.name@ == "Sat"@ + dec_str(i)
    &&& s.status is ACTIVE
    &&& s.version == t.version
    &&& s.os == t.os
    &&& s.debug_mode == t.debug_mode
    &&& s.password == t.password
    &&& s.shutdown_code == (if t.shutdown_code == 0 {
        Option::<usize>::None
    } else {
        Option::<usize>::Some(t.shutdown_code)
    })
    &&& s.has_pulse == t.has_pulse
}

/// Operational status of one device.
#[derive(Clone, Copy, Debug, PartialEq, Eq, Structural)]
#[allow(non_camel_case_types)]
pub enum SatelliteStatus {
    ACTIVE,
    INACTIVE,
    SLEEP,
}

/// One fleet member. Everything but `status` is immutable after load.
#[derive(Debug, Clone, PartialEq, Eq)]
pub struct Satellite {
    pub name: String,
    pub status: SatelliteStatus,
    pub version: String,
    pub os: String,
    pub debug_mode: bool,
    pub password: String,
    pub shutdown_code: Option<usize>,
    pub has_pulse: bool,
}

impl Satellite {
    /// Placeholder record used for roster slots that the configuration
    /// has not filled yet.
    pub fn empty() -> (s: Satellite)
        ensures
            is_unloaded(s),
    {
        Satellite {
            name: String::from_str("Unknown"),
            version: String::from_str("Unknown"),
            status: SatelliteStatus::INACTIVE,
            os: String::from_str("Unknown"),
            debug_mode: false,
            password: String::from_str("Unknown"),
            shutdown_code: None,
            has_pulse: false,
        }
    }

    /// A field-for-field copy of the record.
    pub fn duplicate(&self) -> (s: Satellite)
        ensures
            s == *self,
    {
        Satellite {
            name: self.name.clone(),
            status: self.status,
            version: self.version.clone(),
            os: self.os.clone(),
            debug_mode: self.debug_mode,
            password: self.password.clone(),
            shutdown_code: self.shutdown_code,
            has_pulse: self.has_pulse,
        }
    }
}

/// The shape of one `[satellites.satN]` table of the configuration file;
/// a `shutdown_code` of 0 encodes "shutdown unsupported".
#[derive(Debug, Clone, PartialEq, Eq)]
pub struct SatelliteToml {
    pub os: String,
    pub version: String,
    pub debug_mode: bool,
    pub password: String,
    pub shutdown_code: usize,
    pub has_pulse: bool,
}

impl SatelliteToml {
    /// Builds the live record for roster slot `index`: the device starts
    /// ACTIVE, is named `Sat<index>`, and a zero shutdown code becomes
    /// `None`.
    pub fn to_sat(&self, index: &str) -> (s: Satellite)
        ensures
            s.name@ == "Sat"@ + index@,
            s.status is ACTIVE,
            s.version == self.version,
            s.os == self.os,
            s.debug_mode == self.debug_mode,
            s.password == self.password,
            s.shutdown_code == (if self.shutdown_code == 0 {
                Option::<usize>::None
            } else {
                Option::<usize>::Some(self.shutdown_code)
            }),
            s.has_pulse == self.has_pulse,
    {
        let shutdown_code = if self.shutdown_code == 0 {
            None
        } else {
            Some(self.shutdown_code)
        };
        Satellite {
            name: String::from_str("Sat").concat(index),
            version: self.version.clone(),
            status: SatelliteStatus::ACTIVE,
            os: self.os.clone(),
            debug_mode: self.debug_mode,
            password: self.password.clone(),
            shutdown_code,
            has_pulse: self.has_pulse,
        }
    }
}

} // verus!
