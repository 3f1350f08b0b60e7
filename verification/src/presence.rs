//! Whether the user is away: the session lock state.

use vstd::prelude::*;
use vstd::utf8::{decode_utf8, valid_utf8};

use crate::text::{chars_contain, chars_of, contains_text, same_text};

verus! {

/// `std::str::from_utf8`: the text of the bytes when they are valid UTF-8.
#[verifier::external_body]
fn utf8_text(bytes: &[u8]) -> (res: Option<&str>)
    ensures
        match res {
            Some(t) => valid_utf8(bytes@) && t@ == decode_utf8(bytes@),
            None => !valid_utf8(bytes@),
        },
{
    std::str::from_utf8(bytes).ok()
}

/// The registry output reports a locked session.
pub open spec fn reports_locked(text: Seq<char>) -> bool {
    ||| contains_text(text, "\"IOConsoleLocked\" = Yes"@)
    ||| contains_text(text, "\"CGSSessionScreenIsLocked\"=Yes"@)
    ||| contains_text(text, "\"CGSSessionScreenIsLocked\" = Yes"@)
}

/// The registry output reports an unlocked session.
pub open spec fn reports_unlocked(text: Seq<char>) -> bool {
    ||| contains_text(text, "\"IOConsoleLocked\" = No"@)
    ||| contains_text(text, "\"CGSSessionScreenIsLocked\"=No"@)
    ||| contains_text(text, "\"CGSSessionScreenIsLocked\" = No"@)
}

/// The lock state that registry text shows: a locked marker wins over an
/// unlocked one; with neither the state is unknown.
pub open spec fn lock_state_of_text(text: Seq<char>) -> Option<bool> {
    if reports_locked(text) {
        Some(true)
    } else if reports_unlocked(text) {
        Some(false)
    } else {
        None
    }
}

/// The lock state that `ioreg` output shows; unknown when it is not UTF-8.
pub open spec fn lock_state_of_output(output: Seq<u8>) -> Option<bool> {
    if valid_utf8(output) {
        lock_state_of_text(decode_utf8(output))
    } else {
        None
    }
}

pub fn lock_state_from_ioreg_text(text: &str) -> (res: Option<bool>)
    ensures
        res == lock_state_of_text(text@),
{
    let v = chars_of(text);
    if chars_contain(&v, "\"IOConsoleLocked\" = Yes") || chars_contain(
        &v,
        "\"CGSSessionScreenIsLocked\"=Yes",
    ) || chars_contain(&v, "\"CGSSessionScreenIsLocked\" = Yes") {
        return Some(true);
    }
    if chars_contain(&v, "\"IOConsoleLocked\" = No") || chars_contain(
        &v,
        "\"CGSSessionScreenIsLocked\"=No",
    ) || chars_contain(&v, "\"CGSSessionScreenIsLocked\" = No") {
        return Some(false);
    }
    None
}

pub fn is_session_locked_from_ioreg_output(output: &[u8]) -> (res: Option<bool>)
    ensures
        res == lock_state_of_output(output@),
{
    match utf8_text(output) {
        Some(text) => lock_state_from_ioreg_text(text),
        None => None,
    }
}

/// The lock state forced by the test override variable: `1`, `true`, `yes`,
/// `on` mean locked; `0`, `false`, `no`, `off` mean unlocked; anything else is
/// unknown.
pub open spec fn lock_override_state(value: Seq<char>) -> Option<bool> {
    if value == "1"@ || value == "true"@ || value == "yes"@ || value == "on"@ {
        Some(true)
    } else if value == "0"@ || value == "false"@ || value == "no"@ || value == "off"@ {
        Some(false)
    } else {
        None
    }
}

pub fn session_lock_override(value: &str) -> (res: Option<bool>)
    ensures
        res == lock_override_state(value@),
{
    if same_text(value, "1") || same_text(value, "true") || same_text(value, "yes") || same_text(
        value,
        "on",
    ) {
        Some(true)
    } else if same_text(value, "0") || same_text(value, "false") || same_text(value, "no")
        || same_text(value, "off") {
        Some(false)
    } else {
        None
    }
}

/// Away delivery is used only when the away condition is `locked` and the
/// session is known to be locked; an unknown lock state means not away.
pub open spec fn uses_away_delivery(away_when: Seq<char>, session_locked: Option<bool>) -> bool {
    away_when == "locked"@ && session_locked == Some(true)
}

/// Whether the away condition depends on the session lock state, so that the
/// lock state is worth reading at all.
pub fn away_when_checks_lock(away_when: &str) -> (res: bool)
    ensures
        res == (away_when@ == "locked"@),
{
    same_text(away_when, "locked")
}

pub fn should_use_away_delivery(away_when: &str, session_locked: Option<bool>) -> (res: bool)
    ensures
        res == uses_away_delivery(away_when@, session_locked),
{
    if away_when_checks_lock(away_when) {
        match session_locked {
            Some(locked) => locked,
            None => false,
        }
    } else {
        false
    }
}

} // verus!
verus! {

/// When the lock state cannot be told, the user does not count as away, so
/// the desktop notification is used.
pub proof fn law_unknown_lock_is_not_away(away_when: Seq<char>, output: Seq<u8>)
    ensures
        !uses_away_delivery(away_when, None),
        !valid_utf8(output) ==> lock_state_of_output(output) is None,
{
}

} // verus!
