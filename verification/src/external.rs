//! The calls into std and outside crates that the verified code rests on.
use vstd::prelude::*;
use std::time::SystemTime;
use std::fmt::Write;

use crate::jobs::stamp::LocalTime;
use crate::text::lower_hex;

verus! {

/// `String::push`: appends one character.
#[verifier::external_body]
fn string_push(s: &mut String, c: char)
    ensures
        final(s)@ == old(s)@.push(c),
{
    s.push(c);
}

/// Builds a `String` from its characters.
pub fn string_from_chars(chars: &Vec<char>) -> (res: String)
    ensures
        res@ =~= chars@,
{
    let mut res = String::new();
    let mut i: usize = 0;
    while i < chars.len()
        invariant
            i <= chars.len(),
            res@ =~= chars@.take(i as int),
        decreases chars.len() - i,
    {
        string_push(&mut res, chars[i]);
        i = i + 1;
    }
    res
}


/// `hex::encode`: the bytes as lower case hexadecimal digits, two per byte,
/// the high half first (the crate's `HEX_CHARS_LOWER` table).
#[verifier::external_body]
pub(crate) fn hex_encode(data: &[u8]) -> (res: String)
    ensures
        res@ == lower_hex(data@),
{
    hex::encode(data)
}

/// What chrono writes for the date and time given by the fields with the
/// format `format` (`NaiveDateTime::format`); `None` when the fields are no
/// valid date and time or the format cannot be written. chrono writes
/// without a locale and without a time zone, so the text depends on these
/// arguments alone.
pub uninterp spec fn chrono_format(
    year: i32,
    month: u32,
    day: u32,
    hour: u32,
    minute: u32,
    second: u32,
    nanosecond: u32,
    format: Seq<char>,
) -> Option<Seq<char>>;

/// `NaiveDate::from_ymd_opt` with `NaiveTime::from_hms_nano_opt`, written
/// with `NaiveDateTime::format(format)`: the result is named by
/// `chrono_format`; an invalid date or time, or a format chrono cannot write,
/// gives `None`.
#[verifier::external_body]
pub(crate) fn format_local_time(t: &LocalTime, format: &str) -> (res: Option<String>)
    ensures
        match res {
            Some(s) => chrono_format(t.year, t.month, t.day, t.hour, t.minute, t.second, t.nanosecond, format@) == Some(s@),
            None => chrono_format(t.year, t.month, t.day, t.hour, t.minute, t.second, t.nanosecond, format@) is None,
        },
{
    let date = chrono::NaiveDate::from_ymd_opt(t.year, t.month, t.day)?;
    let time = chrono::NaiveTime::from_hms_nano_opt(t.hour, t.minute, t.second, t.nanosecond)?;
    let mut out = String::new();
    write!(out, "{}", date.and_time(time).format(format)).ok()?;
    Some(out)
}

/// A moment of the system clock; opaque here.
#[verifier::external_type_specification]
#[verifier::external_body]
pub struct ExSystemTime(SystemTime);

/// `SystemTime::elapsed`: the nanoseconds from `begin` to now, or `None` when
/// the clock now shows an earlier moment than `begin`. The value depends on
/// the clock, so nothing more is stated.
#[verifier::external_body]
pub(crate) fn nanos_since(begin: &SystemTime) -> Option<u128> {
    match begin.elapsed() {
        Ok(elapsed) => Some(elapsed.as_nanos()),
        Err(_) => None,
    }
}


/// Whether `char::is_alphanumeric` holds of `c` (Unicode `Alphabetic` or
/// `Numeric`).
pub uninterp spec fn alphanumeric(c: char) -> bool;

/// `char::is_alphanumeric`. Its result is named by `alphanumeric`; for ASCII
/// characters std documents it as the letters and the digits.
#[verifier::external_body]
pub(crate) fn is_alphanumeric(c: char) -> (res: bool)
    ensures
        res == alphanumeric(c),
        c <= '\u{7f}' ==> res == (('a' <= c <= 'z') || ('A' <= c <= 'Z') || ('0' <= c <= '9')),
{
    c.is_alphanumeric()
}

} // verus!
