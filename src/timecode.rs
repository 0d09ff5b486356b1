use vstd::prelude::*;

use std::time::{Duration, SystemTime};

use crate::text::{
    all_digits, digits, lemma_number_bound, number_at, pow10, push_digits, read_number,
};

verus! {

#[verifier::external_type_specification]
#[verifier::external_body]
pub struct ExSystemTime(SystemTime);

/// Relies on `Duration::new`: a span of whole seconds plus nanoseconds. It
/// panics only when the nanoseconds carry past the largest second count, which
/// less than one second of them cannot do.
#[verifier::external_body]
fn duration_new(secs: u64, nanos: u32) -> Duration
    requires
        nanos < 1_000_000_000,
{
    Duration::new(secs, nanos)
}

/// Relies on `SystemTime::checked_add`: the Unix epoch moved forward by `d`, or
/// `None` where the platform cannot hold that time.
#[verifier::external_body]
fn epoch_plus(d: Duration) -> Option<SystemTime> {
    SystemTime::UNIX_EPOCH.checked_add(d)
}

/// Relies on `SystemTime::duration_since`: the span from the Unix epoch to `t`,
/// or `None` for a time before the epoch.
#[verifier::external_body]
fn since_epoch(t: &SystemTime) -> Option<Duration> {
    t.duration_since(SystemTime::UNIX_EPOCH).ok()
}

/// Relies on `Duration::as_secs`: the whole seconds of `d`.
#[verifier::external_body]
fn whole_seconds(d: &Duration) -> u64 {
    d.as_secs()
}

/// Relies on `Duration::subsec_nanos`: the part of `d` below one second, in
/// nanoseconds, which is always less than one billion.
#[verifier::external_body]
fn subsecond_nanos(d: &Duration) -> (r: u32)
    ensures
        r < 1_000_000_000,
{
    d.subsec_nanos()
}

/// Seconds counted for one year.
pub const SECONDS_PER_YEAR: u64 = 31556926;

/// Seconds counted for one month.
pub const SECONDS_PER_MONTH: u64 = 2629743;

/// Seconds in one day.
pub const SECONDS_PER_DAY: u64 = 86400;

pub open spec fn year_of(s: Seq<char>) -> int {
    number_at(s, 0, 4)
}

pub open spec fn month_of(s: Seq<char>) -> int {
    number_at(s, 4, 6)
}

pub open spec fn day_of(s: Seq<char>) -> int {
    number_at(s, 6, 8)
}

/// Twenty decimal digits whose year is not before 1970 and whose month and day
/// are not zero.
pub open spec fn is_epoch_timecode(s: Seq<char>) -> bool {
    &&& s.len() == 20
    &&& all_digits(s, 0, 20)
    &&& year_of(s) >= 1970
    &&& month_of(s) >= 1
    &&& day_of(s) >= 1
}

/// Seconds from the Unix epoch to the timecode `s`, counting a year as
/// `SECONDS_PER_YEAR` and a month as `SECONDS_PER_MONTH` seconds.
pub open spec fn epoch_seconds(s: Seq<char>) -> int {
    (year_of(s) - 1970) * SECONDS_PER_YEAR + (month_of(s) - 1) * SECONDS_PER_MONTH + (day_of(s) - 1)
        * SECONDS_PER_DAY + number_at(s, 8, 10) * 3600 + number_at(s, 10, 12) * 60 + number_at(s, 12, 14)
}

/// The sub-second field of the timecode `s`.
pub open spec fn subsecond(s: Seq<char>) -> int {
    number_at(s, 14, 20)
}

/// The calendar fields that `secs` seconds after the epoch fall on, with the
/// sub-second part, written as a timecode.
pub open spec fn timecode_of(secs: nat, nanos: nat) -> Seq<char> {
    let year = 1970 + secs / (SECONDS_PER_YEAR as nat);
    let in_year = secs % (SECONDS_PER_YEAR as nat);
    let month = in_year / (SECONDS_PER_MONTH as nat) + 1;
    let in_month = in_year % (SECONDS_PER_MONTH as nat);
    let day = in_month / (SECONDS_PER_DAY as nat) + 1;
    let in_day = in_month % (SECONDS_PER_DAY as nat);
    digits(year, 4) + digits(month, 2) + digits(day, 2) + digits(in_day / 3600, 2) + digits(
        (in_day % 3600) / 60,
        2,
    ) + digits(in_day % 60, 2) + digits(nanos, 6)
}

/// A marker timecode: twenty digits giving year (4), month, day, hour, minute,
/// second (2 each) and a six-digit sub-second part. `19990311140312003012` is
/// 11 March 1999, 14:03:12.003012.
#[derive(Default, Clone, Debug, PartialEq, Eq)]
pub struct BVTime {
    pub timecode: String,
}

impl BVTime {
    /// Takes the timecode if it is exactly twenty bytes long in UTF-8.
    pub fn new(timecode: String) -> (r: Option<Self>)
        ensures
            r is Some <==> vstd::utf8::encode_utf8(timecode@).len() == 20,
            r matches Some(t) ==> t.timecode == timecode,
    {
        if timecode.as_str().as_bytes().len() != 20 {
            return None;
        }
        Some(BVTime { timecode })
    }

    /// As [`BVTime::new`], on a borrowed string.
    pub fn from_str(timecode: &str) -> (r: Option<Self>)
        ensures
            r is Some <==> vstd::utf8::encode_utf8(timecode@).len() == 20,
            r matches Some(t) ==> t.timecode@ == timecode@,
    {
        BVTime::new(timecode.to_string())
    }

    /// Whole seconds from the Unix epoch to this time, and the sub-second field;
    /// `None` unless the timecode is all digits, not before 1970, and has a month
    /// and a day.
    pub fn timecode_seconds(&self) -> (r: Option<(u64, u32)>)
        ensures
            r == if is_epoch_timecode(self.timecode@) {
                Some((epoch_seconds(self.timecode@) as u64, subsecond(self.timecode@) as u32))
            } else {
                None::<(u64, u32)>
            },
    {
        let s = self.timecode.as_str();
        if s.unicode_len() != 20 {
            return None;
        }
        let year = match read_number(s, 0, 4) { Some(v) => v, None => return None };
        let month = match read_number(s, 4, 6) { Some(v) => v, None => return None };
        let day = match read_number(s, 6, 8) { Some(v) => v, None => return None };
        let hour = match read_number(s, 8, 10) { Some(v) => v, None => return None };
        let min = match read_number(s, 10, 12) { Some(v) => v, None => return None };
        let sec = match read_number(s, 12, 14) { Some(v) => v, None => return None };
        let subsec = match read_number(s, 14, 20) { Some(v) => v, None => return None };
        proof {
            let t = s@;
            assert(all_digits(t, 0, 20));
            lemma_number_bound(t, 0, 4);
            lemma_number_bound(t, 4, 6);
            lemma_number_bound(t, 6, 8);
            lemma_number_bound(t, 8, 10);
            lemma_number_bound(t, 10, 12);
            lemma_number_bound(t, 12, 14);
            lemma_number_bound(t, 14, 20);
            reveal_with_fuel(pow10, 7);
        }
        if year < 1970 || month == 0 || day == 0 {
            return None;
        }
        let total = (year - 1970) * SECONDS_PER_YEAR + (month - 1) * SECONDS_PER_MONTH + (day - 1) * SECONDS_PER_DAY
            + hour * 3600 + min * 60 + sec;
        Some((total, subsec as u32))
    }

    /// The time as a `SystemTime`; `None` where [`BVTime::timecode_seconds`]
    /// gives none or the platform cannot hold the time. The sub-second field is
    /// counted in nanoseconds.
    pub fn to_system_time(&self) -> (r: Option<SystemTime>)
        ensures
            !is_epoch_timecode(self.timecode@) ==> r is None,
    {
        match self.timecode_seconds() {
            Some((secs, subsec)) => {
                proof {
                    lemma_number_bound(self.timecode@, 14, 20);
                    reveal_with_fuel(pow10, 7);
                }
                epoch_plus(duration_new(secs, subsec))
            },
            None => None,
        }
    }

    /// The timecode of a time given as whole seconds and nanoseconds after the
    /// Unix epoch; `None` where the year has more than four digits or the
    /// nanoseconds more than six.
    pub fn from_epoch_parts(total_seconds: u64, subsec_nanos: u32) -> (r: Option<Self>)
        ensures
            r is Some <==> (total_seconds / SECONDS_PER_YEAR + 1970 <= 9999 && subsec_nanos < 1_000_000),
            r matches Some(t) ==> t.timecode@ == timecode_of(total_seconds as nat, subsec_nanos as nat),
    {
        let years = total_seconds / SECONDS_PER_YEAR;
        if years > 9999 - 1970 || subsec_nanos >= 1_000_000 {
            return None;
        }
        let in_year = total_seconds % SECONDS_PER_YEAR;
        let in_month = in_year % SECONDS_PER_MONTH;
        let in_day = in_month % SECONDS_PER_DAY;
        let mut s = String::new();
        push_digits(&mut s, 1970 + years, 4);
        push_digits(&mut s, in_year / SECONDS_PER_MONTH + 1, 2);
        push_digits(&mut s, in_month / SECONDS_PER_DAY + 1, 2);
        push_digits(&mut s, in_day / 3600, 2);
        push_digits(&mut s, (in_day % 3600) / 60, 2);
        push_digits(&mut s, in_day % 60, 2);
        push_digits(&mut s, subsec_nanos as u64, 6);
        Some(BVTime { timecode: s })
    }

    /// The timecode of a `SystemTime`; `None` for a time before the Unix epoch
    /// and where [`BVTime::from_epoch_parts`] gives none.
    pub fn from_system_time(system_time: SystemTime) -> (r: Option<Self>)
        ensures
            r matches Some(t) ==> exists|secs: nat, nanos: nat|
                secs / (SECONDS_PER_YEAR as nat) + 1970 <= 9999 && nanos < 1_000_000 && t.timecode@ == #[trigger] timecode_of(
                    secs,
                    nanos,
                ),
    {
        match since_epoch(&system_time) {
            Some(d) => BVTime::from_epoch_parts(whole_seconds(&d), subsecond_nanos(&d)),
            None => None,
        }
    }
}

} // verus!
