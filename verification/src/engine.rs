//! The transition engine: guarded state-machine operations against the
//! fleet store, and the read-only query surface.
//!
//! Every operation takes the device index first through the bounds
//! guard; an index past the fleet size never mutates anything. An
//! in-range index is never rejected by the kill-switch: the combined
//! guard consults the kill-switch only for out-of-range indices, and
//! that asymmetry is deliberate.

use crate::fleet::{
    count_sleeping, lemma_count_sleeping_nonneg, lemma_count_sleeping_take_step,
    lemma_count_sleeping_update, Config,
};
use crate::satellite::{Satellite, SatelliteStatus};
use crate::text::{dec_str, usize_to_string};
use vstd::prelude::*;

verus! {

/// Result of a sleep request.
#[derive(Debug, Clone, Copy, PartialEq, Eq, Structural)]
pub enum SleepOutcome {
    Success,
    IndexOutOfRange,
    /// A fourth device may not sleep: 3 are sleeping already.
    QuotaExceeded,
    /// The named device was not ACTIVE.
    NotActive(usize),
}

/// Result of a wake request.
#[derive(Debug, Clone, Copy, PartialEq, Eq, Structural)]
pub enum WakeOutcome {
    Success,
    IndexOutOfRange,
    /// The named device was not SLEEP.
    NotSleeping(usize),
}

/// Result of a shutdown request.
#[derive(Debug, Clone, Copy, PartialEq, Eq, Structural)]
pub enum ShutdownOutcome {
    Success,
    IndexOutOfRange,
    /// The device has no shutdown code configured.
    UnknownOperation,
    /// The submitted code does not match the configured one.
    InvalidCode,
}

/// Result of a password-gated disable request.
#[derive(Debug, Clone, Copy, PartialEq, Eq, Structural)]
pub enum DisableOutcome {
    /// The named device was set INACTIVE.
    Disabled(usize),
    IndexOutOfRange,
    IncorrectPassword,
}

/// Result of a login attempt.
#[derive(Debug, Clone, PartialEq, Eq)]
pub enum LoginOutcome {
    Accepted,
    IndexOutOfRange,
    Rejected,
    /// The deliberate disclosure quirk: a rejection that echoes the
    /// device's true plaintext password.
    RejectedLeak(String),
}

/// Result of a kill-switch toggle request.
#[derive(Debug, Clone, Copy, PartialEq, Eq, Structural)]
pub enum KillSwitchOutcome {
    IncorrectKey,
    Activated,
    Deactivated,
}

/// Result of a heartbeat submission.
#[derive(Debug, Clone, Copy, PartialEq, Eq, Structural)]
pub enum PulseOutcome {
    Recorded,
    IndexOutOfRange,
}

/// Rejection of a read-only query.
#[derive(Debug, Clone, Copy, PartialEq, Eq, Structural)]
pub enum QueryError {
    /// The kill-switch refused to serve data.
    GuardActive,
    /// Out-of-range index caught while the kill-switch was active.
    IndexOutOfRange,
    /// Out-of-range index caught at the roster itself.
    RosterBounds,
}

/// The kill-switch guard.
pub fn guard(config: &Config) -> (r: bool)
    ensures
        r == config.dos_active,
{
    if config.dos_active {
        return true;
    }
    false
}

/// The combined guard: rejects only an out-of-range index, and then
/// answers with the kill-switch state.
pub fn data_guard(config: &Config, sat: usize) -> (r: bool)
    ensures
        r == (sat >= config.satellites@.len() && config.dos_active),
{
    if config.satellites.len() > sat {
        return false;
    }
    guard(config)
}

/// Counts the devices currently in SLEEP.
fn sleeping_now(config: &Config) -> (n: usize)
    ensures
        n == count_sleeping(config.satellites@),
{
    let len = config.satellites.len();
    let mut sleeping: usize = 0;
    let mut i: usize = 0;
    while i < len
        invariant
            0 <= i <= len,
            len == config.satellites@.len(),
            sleeping <= i,
            sleeping == count_sleeping(config.satellites@.take(i as int)),
        decreases len - i,
    {
        proof {
            lemma_count_sleeping_take_step(config.satellites@, i as int);
        }
        if config.satellites[i].status == SatelliteStatus::SLEEP {
            sleeping = sleeping + 1;
        }
        i = i + 1;
    }
    proof {
        assert(config.satellites@.take(len as int) =~= config.satellites@);
    }
    sleeping
}

/// Forces device `sat` to SLEEP. Refuses when the index is out of
/// range, when 3 devices are already sleeping (the fleet-wide quota),
/// or when the device is not ACTIVE; a refusal changes nothing.
pub fn sleep(config: &mut Config, sat: usize) -> (r: SleepOutcome)
    requires
        old(config).wf(),
    ensures
        final(config).wf(),
        final(config).pulse@ == old(config).pulse@,
        final(config).dos_active == old(config).dos_active,
        sat >= old(config).satellites@.len() ==> r == SleepOutcome::IndexOutOfRange
            && *final(config) == *old(config),
        sat < old(config).satellites@.len() && count_sleeping(old(config).satellites@) >= 3 ==> r
            == SleepOutcome::QuotaExceeded && *final(config) == *old(config),
        sat < old(config).satellites@.len() && count_sleeping(old(config).satellites@) < 3 && !(old(config).satellites@[sat as int].status is ACTIVE) ==> r == SleepOutcome::NotActive(sat) && *final(config) == *old(config),
        sat < old(config).satellites@.len() && count_sleeping(old(config).satellites@) < 3 && old(config).satellites@[sat as int].status is ACTIVE ==> r == SleepOutcome::Success && final(config).satellites@ == old(config).satellites@.update(
            sat as int,
            (Satellite { status: SatelliteStatus::SLEEP, ..old(config).satellites@[sat as int] }),
        ),
{
    if sat >= config.satellites.len() {
        return SleepOutcome::IndexOutOfRange;
    }
    let sleeping = sleeping_now(config);
    if sleeping >= 3 {
        return SleepOutcome::QuotaExceeded;
    }
    if config.satellites[sat].status != SatelliteStatus::ACTIVE {
        return SleepOutcome::NotActive(sat);
    }
    let mut rec = config.satellites[sat].duplicate();
    rec.status = SatelliteStatus::SLEEP;
    proof {
        lemma_count_sleeping_update(config.satellites@, sat as int, rec);
    }
    config.satellites.set(sat, rec);
    SleepOutcome::Success
}

/// Wakes device `sat`: SLEEP becomes ACTIVE; any other status is a
/// no-op refusal.
pub fn wake(config: &mut Config, sat: usize) -> (r: WakeOutcome)
    requires
        old(config).wf(),
    ensures
        final(config).wf(),
        final(config).pulse@ == old(config).pulse@,
        final(config).dos_active == old(config).dos_active,
        sat >= old(config).satellites@.len() ==> r == WakeOutcome::IndexOutOfRange && *final(config)
            == *old(config),
        sat < old(config).satellites@.len() && old(config).satellites@[sat as int].status is SLEEP
            ==> r == WakeOutcome::Success && final(config).satellites@ == old(config).satellites@.update(
            sat as int,
            (Satellite { status: SatelliteStatus::ACTIVE, ..old(config).satellites@[sat as int] }),
        ),
        sat < old(config).satellites@.len() && !(old(config).satellites@[sat as int].status
            is SLEEP) ==> r == WakeOutcome::NotSleeping(sat) && *final(config) == *old(config),
{
    if sat >= config.satellites.len() {
        return WakeOutcome::IndexOutOfRange;
    }
    if config.satellites[sat].status == SatelliteStatus::SLEEP {
        let mut rec = config.satellites[sat].duplicate();
        rec.status = SatelliteStatus::ACTIVE;
        proof {
            lemma_count_sleeping_update(config.satellites@, sat as int, rec);
            lemma_count_sleeping_nonneg(config.satellites@.update(sat as int, rec));
        }
        config.satellites.set(sat, rec);
        return WakeOutcome::Success;
    }
    WakeOutcome::NotSleeping(sat)
}

/// Shuts device `sat` down when `code` matches its configured shutdown
/// code. A device without a code does not support the operation; a
/// mismatch changes nothing and the reply never carries the real code.
pub fn shutdown(config: &mut Config, sat: usize, code: usize) -> (r: ShutdownOutcome)
    requires
        old(config).wf(),
    ensures
        final(config).wf(),
        final(config).pulse@ == old(config).pulse@,
        final(config).dos_active == old(config).dos_active,
        sat >= old(config).satellites@.len() ==> r == ShutdownOutcome::IndexOutOfRange && *final(config) == *old(config),
        sat < old(config).satellites@.len() && old(config).satellites@[sat as int].shutdown_code
            is None ==> r == ShutdownOutcome::UnknownOperation && *final(config) == *old(config),
        sat < old(config).satellites@.len() && (old(config).satellites@[sat as int].shutdown_code
            matches Some(v) && v == code) ==> r == ShutdownOutcome::Success && final(config).satellites@ == old(config).satellites@.update(
            sat as int,
            (Satellite {
                status: SatelliteStatus::INACTIVE,
                ..old(config).satellites@[sat as int]
            }),
        ),
        sat < old(config).satellites@.len() && (old(config).satellites@[sat as int].shutdown_code
            matches Some(v) && v != code) ==> r == ShutdownOutcome::InvalidCode && *final(config)
            == *old(config),
{
    if sat >= config.satellites.len() {
        return ShutdownOutcome::IndexOutOfRange;
    }
    match config.satellites[sat].shutdown_code {
        None => ShutdownOutcome::UnknownOperation,
        Some(val) => {
            if val == code {
                let mut rec = config.satellites[sat].duplicate();
                rec.status = SatelliteStatus::INACTIVE;
                proof {
                    lemma_count_sleeping_update(config.satellites@, sat as int, rec);
                    lemma_count_sleeping_nonneg(config.satellites@.update(sat as int, rec));
                }
                config.satellites.set(sat, rec);
                ShutdownOutcome::Success
            } else {
                ShutdownOutcome::InvalidCode
            }
        },
    }
}

/// Sets device `sat` INACTIVE when `code` equals its stored plaintext
/// password; otherwise a no-op refusal.
pub fn disable(config: &mut Config, sat: usize, code: &String) -> (r: DisableOutcome)
    requires
        old(config).wf(),
    ensures
        final(config).wf(),
        final(config).pulse@ == old(config).pulse@,
        final(config).dos_active == old(config).dos_active,
        sat >= old(config).satellites@.len() ==> r == DisableOutcome::IndexOutOfRange && *final(config) == *old(config),
        sat < old(config).satellites@.len() && code@ == old(config).satellites@[sat as int].password@
            ==> r == DisableOutcome::Disabled(sat) && final(config).satellites@ == old(config).satellites@.update(
            sat as int,
            (Satellite {
                status: SatelliteStatus::INACTIVE,
                ..old(config).satellites@[sat as int]
            }),
        ),
        sat < old(config).satellites@.len() && code@ != old(config).satellites@[sat as int].password@
            ==> r == DisableOutcome::IncorrectPassword && *final(config) == *old(config),
{
    if sat >= config.satellites.len() {
        return DisableOutcome::IndexOutOfRange;
    }
    if config.satellites[sat].password == *code {
        let mut rec = config.satellites[sat].duplicate();
        rec.status = SatelliteStatus::INACTIVE;
        proof {
            lemma_count_sleeping_update(config.satellites@, sat as int, rec);
            lemma_count_sleeping_nonneg(config.satellites@.update(sat as int, rec));
        }
        config.satellites.set(sat, rec);
        return DisableOutcome::Disabled(sat);
    }
    DisableOutcome::IncorrectPassword
}

/// Checks `password` against device `sat`'s stored one. A mismatch on a
/// device whose version is exactly "v1.1.2" echoes the true password
/// back — the documented disclosure quirk; every other mismatch is a
/// bare rejection.
pub fn login(config: &Config, sat: usize, password: &String) -> (r: LoginOutcome)
    ensures
        sat >= config.satellites@.len() ==> r == LoginOutcome::IndexOutOfRange,
        sat < config.satellites@.len() && password@ == config.satellites@[sat as int].password@ ==> r
            == LoginOutcome::Accepted,
        sat < config.satellites@.len() && password@ != config.satellites@[sat as int].password@
            && config.satellites@[sat as int].version@ == "v1.1.2"@ ==> (r matches
            LoginOutcome::RejectedLeak(p) && p@ == config.satellites@[sat as int].password@),
        sat < config.satellites@.len() && password@ != config.satellites@[sat as int].password@
            && config.satellites@[sat as int].version@ != "v1.1.2"@ ==> r == LoginOutcome::Rejected,
{
    if sat >= config.satellites.len() {
        return LoginOutcome::IndexOutOfRange;
    }
    if config.satellites[sat].password == *password {
        return LoginOutcome::Accepted;
    }
    let leaky_version = String::from_str("v1.1.2");
    if config.satellites[sat].version == leaky_version {
        return LoginOutcome::RejectedLeak(config.satellites[sat].password.clone());
    }
    LoginOutcome::Rejected
}

/// Toggles the kill-switch when `key` equals the fixed constant 1521;
/// any other key changes nothing.
pub fn set_dos(config: &mut Config, key: usize) -> (r: KillSwitchOutcome)
    requires
        old(config).wf(),
    ensures
        final(config).wf(),
        final(config).satellites@ == old(config).satellites@,
        final(config).pulse@ == old(config).pulse@,
        key != 1521 ==> r == KillSwitchOutcome::IncorrectKey && *final(config) == *old(config),
        key == 1521 ==> final(config).dos_active == !old(config).dos_active && r == (if old(config).dos_active {
            KillSwitchOutcome::Deactivated
        } else {
            KillSwitchOutcome::Activated
        }),
{
    if key != 1521 {
        return KillSwitchOutcome::IncorrectKey;
    }
    let current = config.dos_active;
    config.dos_active = !current;
    if current {
        KillSwitchOutcome::Deactivated
    } else {
        KillSwitchOutcome::Activated
    }
}

/// Records `now` as device `sat`'s latest heartbeat. Not gated by the
/// kill-switch.
pub fn pulse(config: &mut Config, sat: usize, now: u64) -> (r: PulseOutcome)
    requires
        old(config).wf(),
    ensures
        final(config).wf(),
        final(config).satellites@ == old(config).satellites@,
        final(config).dos_active == old(config).dos_active,
        sat >= old(config).satellites@.len() ==> r == PulseOutcome::IndexOutOfRange && *final(config) == *old(config),
        sat < old(config).satellites@.len() ==> r == PulseOutcome::Recorded && final(config).pulse@
            == old(config).pulse@.update(sat as int, now),
{
    if sat >= config.satellites.len() {
        return PulseOutcome::IndexOutOfRange;
    }
    config.pulse.set(sat, now);
    PulseOutcome::Recorded
}

/// The fleet size; refused while the kill-switch is active.
pub fn count(config: &Config) -> (r: Result<usize, QueryError>)
    ensures
        config.dos_active ==> r == Result::<usize, QueryError>::Err(QueryError::GuardActive),
        !config.dos_active ==> r == Result::<usize, QueryError>::Ok(
            config.satellites@.len() as usize,
        ),
{
    if guard(config) {
        return Err(QueryError::GuardActive);
    }
    Ok(config.satellites.len())
}

/// One device's latest heartbeat; refused while the kill-switch is
/// active.
pub fn get_pulse(config: &Config, sat: usize) -> (r: Result<u64, QueryError>)
    requires
        config.wf(),
    ensures
        config.dos_active ==> r == Result::<u64, QueryError>::Err(QueryError::GuardActive),
        !config.dos_active && sat >= config.satellites@.len() ==> r == Result::<
            u64,
            QueryError,
        >::Err(QueryError::RosterBounds),
        !config.dos_active && sat < config.satellites@.len() ==> r == Result::<u64, QueryError>::Ok(
            config.pulse@[sat as int],
        ),
{
    if guard(config) {
        return Err(QueryError::GuardActive);
    }
    if sat >= config.pulse.len() {
        return Err(QueryError::RosterBounds);
    }
    Ok(config.pulse[sat])
}

/// All heartbeats; refused while the kill-switch is active.
pub fn get_pulses(config: &Config) -> (r: Result<Vec<u64>, QueryError>)
    ensures
        config.dos_active ==> (r matches Err(e) && e == QueryError::GuardActive),
        !config.dos_active ==> (r matches Ok(v) && v@ == config.pulse@),
{
    if guard(config) {
        return Err(QueryError::GuardActive);
    }
    let len = config.pulse.len();
    let mut out: Vec<u64> = Vec::new();
    let mut i: usize = 0;
    while i < len
        invariant
            0 <= i <= len,
            len == config.pulse@.len(),
            out@ == config.pulse@.take(i as int),
        decreases len - i,
    {
        out.push(config.pulse[i]);
        proof {
            assert(out@ =~= config.pulse@.take(i as int + 1));
        }
        i = i + 1;
    }
    proof {
        assert(config.pulse@.take(len as int) =~= config.pulse@);
    }
    Ok(out)
}

/// One device record; an out-of-range index is caught by the combined
/// guard while the kill-switch is active, and by the roster itself
/// otherwise.
pub fn status(config: &Config, sat: usize) -> (r: Result<&Satellite, QueryError>)
    ensures
        sat < config.satellites@.len() ==> (r matches Ok(s) && *s == config.satellites@[sat as int]),
        sat >= config.satellites@.len() && config.dos_active ==> r == Result::<
            &Satellite,
            QueryError,
        >::Err(QueryError::IndexOutOfRange),
        sat >= config.satellites@.len() && !config.dos_active ==> r == Result::<
            &Satellite,
            QueryError,
        >::Err(QueryError::RosterBounds),
{
    if data_guard(config, sat) {
        return Err(QueryError::IndexOutOfRange);
    }
    if sat >= config.satellites.len() {
        return Err(QueryError::RosterBounds);
    }
    Ok(&config.satellites[sat])
}

/// The whole roster, copied; refused while the kill-switch is active.
pub fn status_all(config: &Config) -> (r: Result<Vec<Satellite>, QueryError>)
    ensures
        config.dos_active ==> (r matches Err(e) && e == QueryError::GuardActive),
        !config.dos_active ==> (r matches Ok(v) && v@ == config.satellites@),
{
    if guard(config) {
        return Err(QueryError::GuardActive);
    }
    let len = config.satellites.len();
    let mut out: Vec<Satellite> = Vec::new();
    let mut i: usize = 0;
    while i < len
        invariant
            0 <= i <= len,
            len == config.satellites@.len(),
            out@ == config.satellites@.take(i as int),
        decreases len - i,
    {
        out.push(config.satellites[i].duplicate());
        proof {
            assert(out@ =~= config.satellites@.take(i as int + 1));
        }
        i = i + 1;
    }
    proof {
        assert(config.satellites@.take(len as int) =~= config.satellites@);
    }
    Ok(out)
}


/// A heartbeat more than 5 seconds old counts as stale.
pub open spec fn is_stale(now: u64, p: u64) -> bool {
    p + 5 < now
}

/// What liveness reconciliation makes of one device: a heartbeat
/// participant follows its pulse's freshness, everything else is left
/// untouched.
pub open spec fn reconciled(s: Satellite, p: u64, now: u64) -> Satellite {
    if s.has_pulse {
        Satellite {
            status: if is_stale(now, p) {
                SatelliteStatus::INACTIVE
            } else {
                SatelliteStatus::ACTIVE
            },
            ..s
        }
    } else {
        s
    }
}

/// The status word used in the snapshot document.
pub open spec fn status_word(st: SatelliteStatus) -> Seq<char> {
    match st {
        SatelliteStatus::ACTIVE => "ok"@,
        SatelliteStatus::SLEEP => "sleep"@,
        SatelliteStatus::INACTIVE => "offline"@,
    }
}

/// One line of the snapshot document.
pub open spec fn ui_entry(i: int, st: SatelliteStatus) -> Seq<char> {
    "  \"status"@ + dec_str(i) + "\": \""@ + status_word(st) + "\""@
}

/// The first `k` lines of the snapshot document, comma-separated.
pub open spec fn ui_entries(sats: Seq<Satellite>, k: int) -> Seq<char>
    decreases k,
{
    if k <= 0 {
        Seq::empty()
    } else if k == 1 {
        ui_entry(0, sats[0].status)
    } else {
        ui_entries(sats, k - 1) + ",\n"@ + ui_entry(k - 1, sats[k - 1].status)
    }
}

/// The whole snapshot document for a reconciled roster.
pub open spec fn ui_json(sats: Seq<Satellite>) -> Seq<char> {
    "{\n"@ + ui_entries(sats, sats.len() as int) + "\n}"@
}

fn status_json_word(st: SatelliteStatus) -> (t: &'static str)
    ensures
        t@ == status_word(st),
{
    match st {
        SatelliteStatus::ACTIVE => "ok",
        SatelliteStatus::SLEEP => "sleep",
        SatelliteStatus::INACTIVE => "offline",
    }
}

/// The roster snapshot for the UI, with liveness reconciliation as its
/// side effect: every heartbeat participant's status is recomputed from
/// its pulse's staleness, then the whole roster's statuses are rendered
/// as one document. Not gated by the kill-switch.
pub fn ui_data(config: &mut Config, now: u64) -> (r: String)
    requires
        old(config).wf(),
    ensures
        final(config).wf(),
        final(config).pulse@ == old(config).pulse@,
        final(config).dos_active == old(config).dos_active,
        final(config).satellites@.len() == old(config).satellites@.len(),
        forall|i: int|
            0 <= i < old(config).satellites@.len() ==> final(config).satellites@[i] == reconciled(
                old(config).satellites@[i],
                old(config).pulse@[i],
                now,
            ),
        r@ == ui_json(final(config).satellites@),
{
    let len = config.satellites.len();
    let mut i: usize = 0;
    while i < len
        invariant
            0 <= i <= len,
            len == config.satellites@.len(),
            old(config).wf(),
            config.satellites@.len() == old(config).satellites@.len(),
            config.pulse@ == old(config).pulse@,
            config.dos_active == old(config).dos_active,
            count_sleeping(config.satellites@) <= 3,
            forall|j: int|
                0 <= j < i ==> config.satellites@[j] == reconciled(
                    old(config).satellites@[j],
                    old(config).pulse@[j],
                    now,
                ),
            forall|j: int| i <= j < len ==> config.satellites@[j] == old(config).satellites@[j],
        decreases len - i,
    {
        if config.satellites[i].has_pulse {
            let p = config.pulse[i];
            let stale = p < now && now - p > 5;
            let mut rec = config.satellites[i].duplicate();
            rec.status = if stale {
                SatelliteStatus::INACTIVE
            } else {
                SatelliteStatus::ACTIVE
            };
            proof {
                lemma_count_sleeping_update(config.satellites@, i as int, rec);
                lemma_count_sleeping_nonneg(config.satellites@.update(i as int, rec));
            }
            config.satellites.set(i, rec);
            assert(config.satellites@[i as int] == reconciled(
                old(config).satellites@[i as int],
                old(config).pulse@[i as int],
                now,
            ));
        }
        i = i + 1;
    }
    proof {
        assert(config.pulse@.len() == config.satellites@.len());
    }
    let ghost snap = *config;
    let mut res = String::from_str("{\n");
    let mut k: usize = 0;
    while k < len
        invariant
            0 <= k <= len,
            *config == snap,
            len == config.satellites@.len(),
            res@ == "{\n"@ + ui_entries(config.satellites@, k as int),
        decreases len - k,
    {
        if k > 0 {
            res.append(",\n");
        }
        res.append("  \"status");
        let num = usize_to_string(k);
        res.append(num.as_str());
        res.append("\": \"");
        res.append(status_json_word(config.satellites[k].status));
        res.append("\"");
        proof {
            if k == 0 {
                assert(res@ =~= "{\n"@ + ui_entries(config.satellites@, 1));
            } else {
                assert(res@ =~= "{\n"@ + ui_entries(config.satellites@, k as int + 1));
            }
        }
        k = k + 1;
    }
    res.append("\n}");
    proof {
        assert(res@ =~= ui_json(config.satellites@));
    }
    res
}


/// The fixed sample document of the demonstration endpoint.
pub fn dummy_data() -> (r: String)
    ensures
        r@ == "{\n  \"status0\": \"offline\",\n  \"status1\": \"ok\",\n  \"status2\": \"offline\",\n  \"status15\": \"offline\",\n  \"status12\": \"ok\"\n}"@,
{
    String::from_str(
        "{\n  \"status0\": \"offline\",\n  \"status1\": \"ok\",\n  \"status2\": \"offline\",\n  \"status15\": \"offline\",\n  \"status12\": \"ok\"\n}",
    )
}

} // verus!
