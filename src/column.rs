use vstd::prelude::*;
use crate::slot::{read_from, SlotRes};
use crate::text::{
    chars_of, decimal_value, parse_unsigned, slice_of, split_on, split_pat, trim, trimmed,
};

verus! {

/// A time of day in hours and minutes.
#[derive(Clone, Copy, Debug, PartialEq, Eq, Structural)]
pub struct TimeStamp {
    pub hr: u8,
    pub min: u8,
}

/// The time stamp for a count of minutes since midnight; hours beyond what a
/// byte holds wrap around.
pub open spec fn stamp_of(total: u16) -> TimeStamp {
    TimeStamp { hr: ((total / 60) % 256) as u8, min: (total % 60) as u8 }
}

impl From<u16> for TimeStamp {
    fn from(total_minutes: u16) -> (r: TimeStamp) {
        TimeStamp { hr: ((total_minutes / 60) % 256) as u8, min: (total_minutes % 60) as u8 }
    }
}

impl vstd::std_specs::convert::FromSpecImpl<u16> for TimeStamp {
    open spec fn obeys_from_spec() -> bool {
        true
    }

    open spec fn from_spec(v: u16) -> TimeStamp {
        stamp_of(v)
    }
}

/// One column of a day: when it starts, how long it lasts, and its cells.
#[derive(Clone, Debug)]
pub struct ColumnRes {
    pub start_time: TimeStamp,
    pub duration: u16,
    pub schedules: Vec<SlotRes>,
}

/// One day of a timetable: its number from Monday as 0, and its columns.
#[derive(Clone, Debug)]
pub struct DayRes {
    pub day: u8,
    pub cols: Vec<ColumnRes>,
}

/// `t` ends with the two letters of `p`.
pub open spec fn ends_with2(t: Seq<char>, a: char, b: char) -> bool {
    t.len() >= 2 && t[t.len() - 2] == a && t[t.len() - 1] == b
}

/// 1 for a time marked AM, 2 for PM, 0 for neither.
pub open spec fn period_of(t: Seq<char>) -> int {
    if ends_with2(t, 'A', 'M') {
        1
    } else if ends_with2(t, 'P', 'M') {
        2
    } else {
        0
    }
}

/// A time without its AM or PM mark.
pub open spec fn clock_body(t: Seq<char>) -> Seq<char> {
    if period_of(t) == 0 {
        t
    } else {
        t.subrange(0, t.len() - 2)
    }
}

/// The hour on a 24-hour clock: PM adds twelve hours but to 12, and 12 AM is 0.
pub open spec fn hour24(h: int, period: int) -> int {
    if period == 2 && h != 12 {
        h + 12
    } else if period == 1 && h == 12 {
        0
    } else {
        h
    }
}

/// Minutes since midnight that a time such as "9:30 AM" or "14:00" gives:
/// `hours:minutes`, each a number that fits in 16 bits, optionally followed
/// directly by AM or PM; a total that does not fit in 16 bits is refused.
pub open spec fn clock_minutes(s: Seq<char>) -> Option<int> {
    let t = trimmed(s);
    let comps = split_pat(clock_body(t), seq![':']);
    if comps.len() != 2 {
        None
    } else {
        match (decimal_value(comps[0]), decimal_value(comps[1])) {
            (Some(h), Some(m)) => {
                let total = hour24(h, period_of(t)) * 60 + m;
                if h <= 0xffff && m <= 0xffff && hour24(h, period_of(t)) <= 0xffff && total
                    <= 0xffff {
                    Some(total)
                } else {
                    None
                }
            },
            _ => None,
        }
    }
}

/// The separator between the start and the end of a time range.
pub open spec fn range_sep() -> Seq<char> {
    seq![' ', '-', ' ']
}

/// The start of a column headed `time`: the time before the first " - ",
/// or midnight where it cannot be read.
pub open spec fn start_stamp_of(time: Seq<char>) -> TimeStamp {
    match clock_minutes(split_pat(trimmed(time), range_sep())[0]) {
        Some(m) => stamp_of(m as u16),
        None => TimeStamp { hr: 0, min: 0 },
    }
}

/// The length of a column headed `time` ("start - end"): end minus start,
/// an unreadable time counting as midnight; 0 where the end comes first or
/// the heading is not one range.
pub open spec fn duration_of(time: Seq<char>) -> int {
    let parts = split_pat(time, range_sep());
    if parts.len() != 2 {
        0
    } else {
        let a = match clock_minutes(parts[0]) {
            Some(m) => m,
            None => 0,
        };
        let b = match clock_minutes(parts[1]) {
            Some(m) => m,
            None => 0,
        };
        if b >= a {
            b - a
        } else {
            0
        }
    }
}

/// `c` is the column headed `time` whose cells read `slots`.
pub open spec fn column_from(c: ColumnRes, time: Seq<char>, slots: Seq<String>) -> bool {
    &&& c.start_time == start_stamp_of(time)
    &&& c.duration == duration_of(time)
    &&& c.schedules@.len() == slots.len()
    &&& forall|k: int| 0 <= k < slots.len() ==> read_from(#[trigger] c.schedules@[k], slots[k]@)
}

/// The range separator, as characters.
fn range_separator() -> (r: [char; 3])
    ensures
        r@ == range_sep(),
{
    let r = [' ', '-', ' '];
    assert(r@ =~= range_sep());
    r
}

impl ColumnRes {
    /// Minutes since midnight of a time such as "9:30 AM".
    fn parse_time_to_minutes(time_part: &[char]) -> (r: Option<u16>)
        ensures
            r matches Some(v) ==> clock_minutes(time_part@) == Some(v as int),
            r is None ==> clock_minutes(time_part@) is None,
    {
        let t = trim(time_part);
        let n = t.len();
        let period: u8 = if n >= 2 && t[n - 2] == 'A' && t[n - 1] == 'M' {
            1
        } else if n >= 2 && t[n - 2] == 'P' && t[n - 1] == 'M' {
            2
        } else {
            0
        };
        let body = if period == 0 {
            slice_of(t.as_slice(), 0, n)
        } else {
            slice_of(t.as_slice(), 0, n - 2)
        };
        assert(body@ =~= clock_body(t@));
        let colon = [':'];
        assert(colon@ =~= seq![':']);
        let comps = split_on(body.as_slice(), &colon);
        if comps.len() != 2 {
            return None;
        }
        let hours = match parse_unsigned(comps[0].as_slice(), 0xffff) {
            Some(h) => h,
            None => return None,
        };
        let minutes = match parse_unsigned(comps[1].as_slice(), 0xffff) {
            Some(m) => m,
            None => return None,
        };
        let h24: u64 = if period == 2 && hours != 12 {
            hours + 12
        } else if period == 1 && hours == 12 {
            0
        } else {
            hours
        };
        if h24 > 0xffff {
            return None;
        }
        let total: u64 = h24 * 60 + minutes;
        if total > 0xffff {
            return None;
        }
        Some(total as u16)
    }

    /// The start of a column headed `time`.
    fn get_start_time_stamp(time: &[char]) -> (r: TimeStamp)
        ensures
            r == start_stamp_of(time@),
    {
        let t = trim(time);
        let sep = range_separator();
        let parts = split_on(t.as_slice(), &sep);
        proof {
            crate::text::lemma_split_nonempty(t@, range_sep());
        }
        match Self::parse_time_to_minutes(parts[0].as_slice()) {
            Some(total_minutes) => TimeStamp::from(total_minutes),
            None => TimeStamp { hr: 0, min: 0 },
        }
    }

    /// The length in minutes of a column headed `time`.
    fn get_duration(time: &[char]) -> (r: u16)
        ensures
            r == duration_of(time@),
    {
        let sep = range_separator();
        let parts = split_on(time, &sep);
        if parts.len() != 2 {
            return 0;
        }
        let start_minutes = match Self::parse_time_to_minutes(parts[0].as_slice()) {
            Some(m) => m,
            None => 0,
        };
        let end_minutes = match Self::parse_time_to_minutes(parts[1].as_slice()) {
            Some(m) => m,
            None => 0,
        };
        if end_minutes >= start_minutes {
            end_minutes - start_minutes
        } else {
            0
        }
    }

    /// A column from its heading (a time range such as "9:00 - 10:00") and
    /// the text of its cells, read in order.
    pub fn frm_json(time: &str, slots: &Vec<String>) -> (r: ColumnRes)
        ensures
            column_from(r, time@, slots@),
    {
        let t = chars_of(time);
        let start_time = ColumnRes::get_start_time_stamp(t.as_slice());
        let duration = ColumnRes::get_duration(t.as_slice());
        let mut schedules: Vec<SlotRes> = Vec::new();
        let mut i: usize = 0;
        while i < slots.len()
            invariant
                i <= slots@.len(),
                schedules@.len() == i,
                forall|k: int| 0 <= k < i ==> read_from(#[trigger] schedules@[k], slots@[k]@),
            decreases slots@.len() - i,
        {
            schedules.push(SlotRes::frm_str(slots[i].as_str()));
            i = i + 1;
        }
        ColumnRes { start_time, duration, schedules }
    }
}

} // verus!
