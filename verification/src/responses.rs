//! The result strings of the operation interface: every reply is drawn
//! from a small fixed vocabulary, and what each reply may disclose is
//! stated here.

use crate::engine::{
    DisableOutcome, KillSwitchOutcome, LoginOutcome, PulseOutcome, QueryError, ShutdownOutcome,
    SleepOutcome, WakeOutcome,
};
use crate::text::{contains_seq, dec_str, is_digit_char, lemma_dec_str_digits, usize_to_string};
use vstd::prelude::*;

verus! {

pub open spec fn sleep_response_text(r: SleepOutcome) -> Seq<char> {
    match r {
        SleepOutcome::Success => "Success"@,
        SleepOutcome::IndexOutOfRange => "Failed: index out of bounds"@,
        SleepOutcome::QuotaExceeded => "Failed: max 3 sats sleeping at once"@,
        SleepOutcome::NotActive(i) => "Failed: cannot sleep "@ + dec_str(i as int)
            + " because it is not active"@,
    }
}

pub fn sleep_response(r: &SleepOutcome) -> (t: String)
    ensures
        t@ == sleep_response_text(*r),
{
    match r {
        SleepOutcome::Success => String::from_str("Success"),
        SleepOutcome::IndexOutOfRange => String::from_str("Failed: index out of bounds"),
        SleepOutcome::QuotaExceeded => String::from_str("Failed: max 3 sats sleeping at once"),
        SleepOutcome::NotActive(i) => {
            let t = String::from_str("Failed: cannot sleep ").concat(
                usize_to_string(*i).as_str(),
            ).concat(" because it is not active");
            proof {
                assert(t@ =~= sleep_response_text(*r));
            }
            t
        },
    }
}

pub open spec fn wake_response_text(r: WakeOutcome) -> Seq<char> {
    match r {
        WakeOutcome::Success => "Success"@,
        WakeOutcome::IndexOutOfRange => "Failed: index out of bounds"@,
        WakeOutcome::NotSleeping(i) => "Failed: cannot wake sat"@ + dec_str(i as int)
            + " as it is not sleeping"@,
    }
}

pub fn wake_response(r: &WakeOutcome) -> (t: String)
    ensures
        t@ == wake_response_text(*r),
{
    match r {
        WakeOutcome::Success => String::from_str("Success"),
        WakeOutcome::IndexOutOfRange => String::from_str("Failed: index out of bounds"),
        WakeOutcome::NotSleeping(i) => {
            let t = String::from_str("Failed: cannot wake sat").concat(
                usize_to_string(*i).as_str(),
            ).concat(" as it is not sleeping");
            proof {
                assert(t@ =~= wake_response_text(*r));
            }
            t
        },
    }
}

pub open spec fn shutdown_response_text(r: ShutdownOutcome) -> Seq<char> {
    match r {
        ShutdownOutcome::Success => "Success"@,
        ShutdownOutcome::IndexOutOfRange => "Failed: index out of bounds"@,
        ShutdownOutcome::UnknownOperation => "Failed: Unknown Operation"@,
        ShutdownOutcome::InvalidCode => "Failed: Invalid Code"@,
    }
}

pub fn shutdown_response(r: &ShutdownOutcome) -> (t: String)
    ensures
        t@ == shutdown_response_text(*r),
{
    match r {
        ShutdownOutcome::Success => String::from_str("Success"),
        ShutdownOutcome::IndexOutOfRange => String::from_str("Failed: index out of bounds"),
        ShutdownOutcome::UnknownOperation => String::from_str("Failed: Unknown Operation"),
        ShutdownOutcome::InvalidCode => String::from_str("Failed: Invalid Code"),
    }
}

pub open spec fn disable_response_text(r: DisableOutcome) -> Seq<char> {
    match r {
        DisableOutcome::Disabled(i) => "Ok: sat "@ + dec_str(i as int) + " set to inactive"@,
        DisableOutcome::IndexOutOfRange => "Failed: index out of bounds"@,
        DisableOutcome::IncorrectPassword => "Failed: incorrect password"@,
    }
}

pub fn disable_response(r: &DisableOutcome) -> (t: String)
    ensures
        t@ == disable_response_text(*r),
{
    match r {
        DisableOutcome::Disabled(i) => {
            let t = String::from_str("Ok: sat ").concat(usize_to_string(*i).as_str()).concat(
                " set to inactive",
            );
            proof {
                assert(t@ =~= disable_response_text(*r));
            }
            t
        },
        DisableOutcome::IndexOutOfRange => String::from_str("Failed: index out of bounds"),
        DisableOutcome::IncorrectPassword => String::from_str("Failed: incorrect password"),
    }
}

pub open spec fn login_response_text(r: LoginOutcome) -> Seq<char> {
    match r {
        LoginOutcome::Accepted => "True"@,
        LoginOutcome::IndexOutOfRange => "Failed: index out of bounds"@,
        LoginOutcome::Rejected => "False"@,
        LoginOutcome::RejectedLeak(p) => "False, password is: "@ + p@,
    }
}

pub fn login_response(r: &LoginOutcome) -> (t: String)
    ensures
        t@ == login_response_text(*r),
{
    match r {
        LoginOutcome::Accepted => String::from_str("True"),
        LoginOutcome::IndexOutOfRange => String::from_str("Failed: index out of bounds"),
        LoginOutcome::Rejected => String::from_str("False"),
        LoginOutcome::RejectedLeak(p) => String::from_str("False, password is: ").concat(
            p.as_str(),
        ),
    }
}

pub open spec fn kill_switch_response_text(r: KillSwitchOutcome) -> Seq<char> {
    match r {
        KillSwitchOutcome::IncorrectKey => "Incorrect Key"@,
        KillSwitchOutcome::Activated => "DOS active, no other commands will work"@,
        KillSwitchOutcome::Deactivated => "DOS inactive, all other commands will work"@,
    }
}

pub fn kill_switch_response(r: &KillSwitchOutcome) -> (t: String)
    ensures
        t@ == kill_switch_response_text(*r),
{
    match r {
        KillSwitchOutcome::IncorrectKey => String::from_str("Incorrect Key"),
        KillSwitchOutcome::Activated => String::from_str(
            "DOS active, no other commands will work",
        ),
        KillSwitchOutcome::Deactivated => String::from_str(
            "DOS inactive, all other commands will work",
        ),
    }
}

pub open spec fn pulse_response_text(r: PulseOutcome) -> Seq<char> {
    match r {
        PulseOutcome::Recorded => "Ok"@,
        PulseOutcome::IndexOutOfRange => "Failed: index out of bounds"@,
    }
}

pub fn pulse_response(r: &PulseOutcome) -> (t: String)
    ensures
        t@ == pulse_response_text(*r),
{
    match r {
        PulseOutcome::Recorded => String::from_str("Ok"),
        PulseOutcome::IndexOutOfRange => String::from_str("Failed: index out of bounds"),
    }
}

pub open spec fn query_error_text(r: QueryError) -> Seq<char> {
    match r {
        QueryError::GuardActive => "Failed: guard active"@,
        QueryError::IndexOutOfRange => "Failed: index out of bounds"@,
        QueryError::RosterBounds => "Error: 'Index out of bounds'"@,
    }
}

pub fn query_error_response(r: &QueryError) -> (t: String)
    ensures
        t@ == query_error_text(*r),
{
    match r {
        QueryError::GuardActive => String::from_str("Failed: guard active"),
        QueryError::IndexOutOfRange => String::from_str("Failed: index out of bounds"),
        QueryError::RosterBounds => String::from_str("Error: 'Index out of bounds'"),
    }
}

/// The disclosure quirk, made explicit: the reply to a rejected login
/// against a device of the leaking version carries the device's true
/// password as a substring.
pub proof fn lemma_leak_response_contains_password(p: String)
    ensures
        contains_seq(login_response_text(LoginOutcome::RejectedLeak(p)), p@),
{
    reveal_strlit("False, password is: ");
    let hay = login_response_text(LoginOutcome::RejectedLeak(p));
    assert(hay.subrange(20, 20 + p@.len() as int) =~= p@);
}

/// The other side of the quirk: a bare rejection is the five-letter
/// word "False", so no password longer than it can be read out of the
/// reply. (A short password that happens to occur inside "False", such
/// as "als", is the one kind of input this cannot promise anything
/// about.)
pub proof fn lemma_reject_response_hides_password(p: String)
    requires
        p@.len() > 5,
    ensures
        !contains_seq(login_response_text(LoginOutcome::Rejected), p@),
{
    reveal_strlit("False");
}

/// Shutdown-code secrecy: the reply to a mismatched code is one fixed
/// sentence with no digit in it, so it cannot carry the configured code
/// (nor any other number).
pub proof fn lemma_invalid_code_response_hides_code(code: usize)
    ensures
        !contains_seq(shutdown_response_text(ShutdownOutcome::InvalidCode), dec_str(code as int)),
{
    reveal_strlit("Failed: Invalid Code");
    lemma_dec_str_digits(code as int);
    let hay = shutdown_response_text(ShutdownOutcome::InvalidCode);
    let needle = dec_str(code as int);
    if contains_seq(hay, needle) {
        let i = choose|i: int|
            0 <= i && i + needle.len() <= hay.len() && #[trigger] hay.subrange(
                i,
                i + needle.len(),
            ) == needle;
        assert(hay.subrange(i, i + needle.len())[0] == hay[i]);
        assert(is_digit_char(hay[i]));
        assert(!is_digit_char(hay[i])) by {
            assert(hay[i] == "Failed: Invalid Code"@[i]);
        }
    }
}

} // verus!
