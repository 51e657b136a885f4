//! Rules of the system controls: reading the battery charge out of the
//! power report.

use vstd::prelude::*;
use crate::decimal::{decimal_value, parse_decimal};

verus! {

/// What the regular expression `pattern` captures in `text`: the bytes of
/// capture group `group` in the leftmost match, or nothing where the pattern
/// is no regular expression, matches nowhere in the text, or matches without
/// that group.
pub uninterp spec fn captured_group(pattern: Seq<char>, text: Seq<char>, group: nat) -> Option<
    Seq<u8>,
>;

/// The bytes of an optional capture.
pub open spec fn capture_view(capture: Option<Vec<u8>>) -> Option<Seq<u8>> {
    match capture {
        Some(bytes) => Some(bytes@),
        None => None,
    }
}

/// Calls `regex::Regex::new` on the pattern, `Regex::captures` on the text
/// and `Captures::get` on the group, and copies the bytes of the match. The
/// contract only gives the outcome its name: the same pattern, text and
/// group always capture the same bytes. What those bytes are is not proved.
#[verifier::external_body]
fn capture_group(pattern: &str, text: &str, group: usize) -> (capture: Option<Vec<u8>>)
    ensures
        capture_view(capture) == captured_group(pattern@, text@, group as nat),
{
    let re = regex::Regex::new(pattern).ok()?;
    let found = re.captures(text)?;
    Some(found.get(group)?.as_str().as_bytes().to_vec())
}

/// The pattern of a charge in the power report: a run of digits before a
/// percent sign.
pub open spec fn charge_pattern() -> Seq<char> {
    "(\\d+)%"@
}

/// The charge that a captured run of digits states. Digits that do not read
/// as a number of at most 255 count as zero.
pub open spec fn percentage_of(capture: Option<Seq<u8>>) -> Option<u8> {
    match capture {
        Some(digits) => Some(
            match decimal_value(digits, 255) {
                Some(v) => v as u8,
                None => 0u8,
            },
        ),
        None => None,
    }
}

/// The charge stated by the digits captured from a power report, if any
/// were captured.
pub fn percentage_from_capture(capture: Option<&[u8]>) -> (charge: Option<u8>)
    ensures
        charge == percentage_of(
            match capture {
                Some(digits) => Some(digits@),
                None => None,
            },
        ),
{
    match capture {
        Some(digits) => match parse_decimal(digits, 255) {
            Some(v) => Some(v as u8),
            None => Some(0),
        },
        None => None,
    }
}

/// The battery charge that a power report states: the first run of digits
/// that a percent sign follows. Nothing where the report has none.
pub fn battery_percentage(report: &str) -> (charge: Option<u8>)
    ensures
        charge == percentage_of(captured_group(charge_pattern(), report@, 1)),
{
    match capture_group("(\\d+)%", report, 1) {
        Some(digits) => percentage_from_capture(Some(digits.as_slice())),
        None => percentage_from_capture(None),
    }
}

} // verus!
