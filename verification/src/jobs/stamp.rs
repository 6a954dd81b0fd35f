//! The date and time written into a job's header.
use vstd::prelude::*;
use vstd::utf8::{decode_utf8, encode_utf8, is_char_boundary};

use crate::external::chrono_format;

verus! {

/// A reading of the local clock: the date and the time of day, with the
/// nanoseconds since the whole second (from 1,000,000,000 on, a leap second).
#[derive(Debug, Clone, Copy)]
pub struct LocalTime {
    pub year: i32,
    pub month: u32,
    pub day: u32,
    pub hour: u32,
    pub minute: u32,
    pub second: u32,
    pub nanosecond: u32,
}

/// The layout the header's date and time are written in: the date as
/// `year/month/day`, directly followed by the time as `hour:minute:second`.
pub open spec fn pjl_time_format() -> Seq<char> {
    "%Y/%m/%d%H:%M:%S"@
}

/// What chrono writes for a reading in the header's layout; `None` when the
/// reading is no date and time chrono knows.
pub open spec fn formatted_stamp(t: LocalTime) -> Option<Seq<char>> {
    chrono_format(t.year, t.month, t.day, t.hour, t.minute, t.second, t.nanosecond, pjl_time_format())
}

/// A stamp split after its tenth byte into the date and the time; `None` when
/// no character ends there.
pub open spec fn stamp_split(stamp: Seq<char>) -> Option<(Seq<char>, Seq<char>)> {
    let bytes = encode_utf8(stamp);
    if is_char_boundary(bytes, 10) {
        Some((decode_utf8(bytes.take(10)), decode_utf8(bytes.skip(10))))
    } else {
        None
    }
}

/// The date and the time a reading puts into the header.
pub open spec fn header_date_time(t: LocalTime) -> Option<(Seq<char>, Seq<char>)> {
    match formatted_stamp(t) {
        Some(stamp) => stamp_split(stamp),
        None => None,
    }
}

} // verus!
