//! The fleet store: the authoritative roster of device records, the
//! per-device heartbeat timestamps and the global kill-switch flag,
//! together with its construction from configuration entries.

use crate::satellite::{is_unloaded, loaded_from, Satellite, SatelliteStatus, SatelliteToml};
use crate::text::{dec_str, is_numeral, numeral_val, parse_usize, usize_to_string};
use vstd::prelude::*;

verus! {

/// A structural fault in the configuration. Two such errors always
/// compare equal; the carried message is display-only.
#[derive(Debug, Clone)]
pub struct ConfigParseError {
    msg: String,
}

impl ConfigParseError {
    /// The characters of the carried message.
    pub closed spec fn text(&self) -> Seq<char> {
        self.msg@
    }

    pub fn new(msg: String) -> (e: ConfigParseError)
        ensures
            e.text() == msg@,
    {
        ConfigParseError { msg }
    }

    pub fn message(&self) -> (m: &String)
        ensures
            m@ == self.text(),
    {
        &self.msg
    }
}

impl PartialEq for ConfigParseError {
    fn eq(&self, _other: &ConfigParseError) -> bool {
        true
    }
}

impl Eq for ConfigParseError {

}

impl vstd::std_specs::cmp::PartialEqSpecImpl for ConfigParseError {
    open spec fn obeys_eq_spec() -> bool {
        true
    }

    open spec fn eq_spec(&self, _other: &ConfigParseError) -> bool {
        true
    }
}

/// How many devices of the roster are currently in SLEEP.
pub open spec fn count_sleeping(sats: Seq<Satellite>) -> int
    decreases sats.len(),
{
    if sats.len() == 0 {
        0
    } else {
        count_sleeping(sats.drop_last()) + if sats.last().status is SLEEP {
            1int
        } else {
            0int
        }
    }
}

pub proof fn lemma_count_sleeping_nonneg(sats: Seq<Satellite>)
    ensures
        count_sleeping(sats) >= 0,
    decreases sats.len(),
{
    if sats.len() > 0 {
        lemma_count_sleeping_nonneg(sats.drop_last());
    }
}

/// Replacing one record changes the sleeping count exactly by the two
/// records' own contributions.
pub proof fn lemma_count_sleeping_update(sats: Seq<Satellite>, i: int, v: Satellite)
    requires
        0 <= i < sats.len(),
    ensures
        count_sleeping(sats.update(i, v)) == count_sleeping(sats) + (if v.status is SLEEP {
            1int
        } else {
            0int
        }) - (if sats[i].status is SLEEP {
            1int
        } else {
            0int
        }),
    decreases sats.len(),
{
    if i == sats.len() - 1 {
        assert(sats.update(i, v).drop_last() =~= sats.drop_last());
    } else {
        assert(sats.update(i, v).drop_last() =~= sats.drop_last().update(i, v));
        lemma_count_sleeping_update(sats.drop_last(), i, v);
    }
}

pub proof fn lemma_count_sleeping_take_step(sats: Seq<Satellite>, i: int)
    requires
        0 <= i < sats.len(),
    ensures
        count_sleeping(sats.take(i + 1)) == count_sleeping(sats.take(i))
            + if sats[i].status is SLEEP {
            1int
        } else {
            0int
        },
{
    assert(sats.take(i + 1).drop_last() =~= sats.take(i));
}

/// A roster with no sleeping device has sleeping count zero.
pub proof fn lemma_count_sleeping_none(sats: Seq<Satellite>)
    requires
        forall|i: int| 0 <= i < sats.len() ==> !(#[trigger] sats[i].status is SLEEP),
    ensures
        count_sleeping(sats) == 0,
    decreases sats.len(),
{
    if sats.len() > 0 {
        lemma_count_sleeping_none(sats.drop_last());
    }
}

/// The shared store: devices, heartbeat timestamps (seconds since the
/// engine's epoch) and the kill-switch flag.
#[derive(Debug)]
pub struct Config {
    pub satellites: Vec<Satellite>,
    pub pulse: Vec<u64>,
    pub dos_active: bool,
}

impl Config {
    /// Well-formedness: one heartbeat per device, and never more than 3
    /// devices sleeping at once.
    pub open spec fn wf(&self) -> bool {
        &&& self.pulse@.len() == self.satellites@.len()
        &&& count_sleeping(self.satellites@) <= 3
    }

    /// The sleep quota as a fleet invariant: a well-formed store never
    /// holds more than 3 sleeping devices, and every engine operation
    /// requires and preserves well-formedness, so no sequence of calls
    /// can exceed the quota.
    pub proof fn lemma_sleep_quota(&self)
        requires
            self.wf(),
        ensures
            count_sleeping(self.satellites@) <= 3,
    {
    }

    /// The device at `sat`, or an index error for anything past the end
    /// of the roster.
    pub fn get_sat(&self, sat: usize) -> (r: Result<&Satellite, ConfigParseError>)
        ensures
            r is Ok <==> sat < self.satellites@.len(),
            r matches Ok(s) ==> *s == self.satellites@[sat as int],
            r matches Err(e) ==> e.text() == "Error: 'Index out of bounds'"@,
    {
        if sat >= self.satellites.len() {
            return Err(ConfigParseError::new(String::from_str("Error: 'Index out of bounds'")));
        }
        Ok(&self.satellites[sat])
    }
}

/// The roster-slot index that the entry name denotes: its characters
/// past the fixed three-letter prefix, read as a decimal numeral.
pub open spec fn name_index(name: Seq<char>) -> int {
    numeral_val(name.skip(3))
}

/// The entry name carries a usable numeric suffix.
pub open spec fn name_parses(name: Seq<char>) -> bool {
    &&& name.len() >= 3
    &&& is_numeral(name.skip(3))
    &&& name_index(name) <= usize::MAX
}

/// The entry name is acceptable for a fleet of `n` devices.
pub open spec fn entry_ok(name: Seq<char>, n: int) -> bool {
    name_parses(name) && name_index(name) < n
}

/// Every entry before position `k` is acceptable.
pub open spec fn entries_ok_upto(entries: Seq<(String, SatelliteToml)>, n: int, k: int) -> bool {
    forall|j: int| 0 <= j < k ==> #[trigger] entry_ok(entries[j].0@, n)
}

/// The position of the last entry before `k` that names slot `i`, if
/// any. Later entries overwrite earlier ones.
pub open spec fn writer_upto(entries: Seq<(String, SatelliteToml)>, k: int, i: int) -> Option<int>
    decreases k,
{
    if k <= 0 {
        None
    } else if name_parses(entries[k - 1].0@) && name_index(entries[k - 1].0@) == i {
        Some(k - 1)
    } else {
        writer_upto(entries, k - 1, i)
    }
}

/// Roster slot `i` holds what the entries before `k` put there: the
/// record loaded from the last entry naming it, or the placeholder.
pub open spec fn slot_matches(
    s: Satellite,
    entries: Seq<(String, SatelliteToml)>,
    k: int,
    i: int,
) -> bool {
    match writer_upto(entries, k, i) {
        Some(j) => loaded_from(s, entries[j].1, i),
        None => is_unloaded(s),
    }
}

/// The message reported for the first unacceptable entry.
pub open spec fn entry_error_text(name: Seq<char>) -> Seq<char> {
    if !name_parses(name) {
        "Incorrect satellite input for "@ + name
            + ". They need to named sat0...satn without skipping any #."@
    } else {
        "Satellite index out of bounds for "@ + name + " at index "@ + dec_str(name_index(name))
            + ". They need to named sat0...satn without skipping any #."@
    }
}

fn entry_parse_error(name: &String) -> (e: ConfigParseError)
    requires
        !name_parses(name@),
    ensures
        e.text() == entry_error_text(name@),
{
    let msg = String::from_str("Incorrect satellite input for ").concat(name.as_str()).concat(
        ". They need to named sat0...satn without skipping any #.",
    );
    ConfigParseError::new(msg)
}

fn entry_bounds_error(name: &String, index: usize) -> (e: ConfigParseError)
    requires
        name_parses(name@),
        name_index(name@) == index,
    ensures
        e.text() == entry_error_text(name@),
{
    let msg = String::from_str("Satellite index out of bounds for ").concat(name.as_str()).concat(
        " at index ",
    ).concat(usize_to_string(index).as_str()).concat(
        ". They need to named sat0...satn without skipping any #.",
    );
    ConfigParseError::new(msg)
}

/// Reads the numeric suffix of one entry name.
fn parse_entry_name(name: &String) -> (r: Option<usize>)
    ensures
        r is Some <==> name_parses(name@),
        r matches Some(i) ==> i == name_index(name@),
{
    let len = name.as_str().unicode_len();
    if len < 3 {
        return None;
    }
    let suffix = name.as_str().substring_char(3, len);
    assert(suffix@ =~= name@.skip(3));
    parse_usize(suffix)
}

/// Builds the store from the configuration's satellite entries, in the
/// order given: every device starts ACTIVE (placeholder slots INACTIVE),
/// every heartbeat starts at `now`, and the kill-switch starts clear.
/// Fails on the first entry whose name does not carry a numeric suffix
/// denoting a slot inside the fleet.
pub fn from_entries(entries: Vec<(String, SatelliteToml)>, now: u64) -> (r: Result<
    Config,
    ConfigParseError,
>)
    ensures
        r is Ok <==> entries_ok_upto(entries@, entries@.len() as int, entries@.len() as int),
        r matches Ok(c) ==> {
            &&& c.wf()
            &&& c.satellites@.len() == entries@.len()
            &&& c.pulse@ == Seq::new(entries@.len(), |i: int| now)
            &&& c.dos_active == false
            &&& count_sleeping(c.satellites@) == 0
            &&& forall|i: int|
                0 <= i < entries@.len() ==> #[trigger] slot_matches(
                    c.satellites@[i],
                    entries@,
                    entries@.len() as int,
                    i,
                )
        },
        r matches Err(e) ==> exists|k: int|
            {
                &&& 0 <= k < entries@.len()
                &&& entries_ok_upto(entries@, entries@.len() as int, k)
                &&& !#[trigger] entry_ok(entries@[k].0@, entries@.len() as int)
                &&& e.text() == entry_error_text(entries@[k].0@)
            },
{
    let n = entries.len();
    let ghost gn = n as int;
    let mut sats: Vec<Satellite> = Vec::new();
    let mut f: usize = 0;
    while f < n
        invariant
            0 <= f <= n,
            sats@.len() == f,
            forall|i: int| 0 <= i < f ==> is_unloaded(#[trigger] sats@[i]),
        decreases n - f,
    {
        sats.push(Satellite::empty());
        f = f + 1;
    }
    let mut pulse: Vec<u64> = Vec::new();
    let mut p: usize = 0;
    while p < n
        invariant
            0 <= p <= n,
            pulse@.len() == p,
            forall|i: int| 0 <= i < p ==> pulse@[i] == now,
        decreases n - p,
    {
        pulse.push(now);
        p = p + 1;
    }
    let mut k: usize = 0;
    while k < n
        invariant
            0 <= k <= n,
            n == entries@.len(),
            gn == n as int,
            sats@.len() == n,
            entries_ok_upto(entries@, gn, k as int),
            forall|i: int| 0 <= i < gn ==> slot_matches(#[trigger] sats@[i], entries@, k as int, i),
        decreases n - k,
    {
        let name = &entries[k].0;
        match parse_entry_name(name) {
            None => {
                let e = entry_parse_error(name);
                proof {
                    let bad = k as int;
                    assert(!entry_ok(entries@[bad].0@, gn));
                    assert(!entries_ok_upto(entries@, gn, gn)) by {
                        if entries_ok_upto(entries@, gn, gn) {
                            assert(entry_ok(entries@[bad].0@, gn));
                        }
                    }
                }
                return Err(e);
            },
            Some(index) => {
                if index >= n {
                    let e = entry_bounds_error(name, index);
                    proof {
                        let bad = k as int;
                        assert(!entry_ok(entries@[bad].0@, gn));
                        assert(!entries_ok_upto(entries@, gn, gn)) by {
                            if entries_ok_upto(entries@, gn, gn) {
                                assert(entry_ok(entries@[bad].0@, gn));
                            }
                        }
                    }
                    return Err(e);
                }
                let index_text = usize_to_string(index);
                let loaded = entries[k].1.to_sat(index_text.as_str());
                sats.set(index, loaded);
                proof {
                    assert(loaded_from(loaded, entries@[k as int].1, index as int));
                    assert forall|i: int| 0 <= i < gn implies slot_matches(
                        #[trigger] sats@[i],
                        entries@,
                        k as int + 1,
                        i,
                    ) by {
                        if i == index as int {
                            assert(writer_upto(entries@, k as int + 1, i) == Some(k as int));
                        } else {
                            assert(writer_upto(entries@, k as int + 1, i) == writer_upto(
                                entries@,
                                k as int,
                                i,
                            ));
                        }
                    }
                }
            },
        }
        k = k + 1;
    }
    proof {
        assert forall|i: int| 0 <= i < gn implies !(#[trigger] sats@[i].status is SLEEP) by {
            assert(slot_matches(sats@[i], entries@, gn, i));
        }
        lemma_count_sleeping_none(sats@);
        assert(pulse@ =~= Seq::new(entries@.len(), |i: int| now));
    }
    Ok(Config { satellites: sats, pulse, dos_active: false })
}

} // verus!
