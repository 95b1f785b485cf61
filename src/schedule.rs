use vstd::prelude::*;
use crate::column::{column_from, ColumnRes, DayRes};
use crate::text::{
    chars_of, decimal_value, find_from, find_pat, lemma_find_pat, lemma_split_nonempty,
    parse_unsigned, same_text, split_on, split_pat, string_of, string_views, trim, trimmed,
};

verus! {

/// A subject of a year's catalog.
#[derive(Clone, Debug)]
pub struct Subject {
    pub code: String,
    pub full_code: String,
    pub subject: String,
}

/// The classes held in one time slot of a day.
#[derive(Clone, Debug)]
pub struct TimeSlot {
    /// The slot's heading, a time range such as "9:00 - 9:50".
    pub time: String,
    /// The text of each class in the slot.
    pub classes: Vec<String>,
}

/// A day's time slots; no two share a heading.
#[derive(Clone, Debug)]
pub struct DaySchedule {
    pub time_slots: Vec<TimeSlot>,
}

/// A week's timetable, Monday to Saturday.
#[derive(Clone, Debug)]
pub struct ExtTimetable {
    pub monday: DaySchedule,
    pub tuesday: DaySchedule,
    pub wednesday: DaySchedule,
    pub thursday: DaySchedule,
    pub friday: DaySchedule,
    pub saturday: DaySchedule,
}

/// The timetable and subjects of one year of study.
#[derive(Clone, Debug)]
pub struct YearData {
    pub timetable: ExtTimetable,
    pub subjects: Vec<Subject>,
}

/// One year of study and its data.
#[derive(Clone, Debug)]
pub struct YearEntry {
    pub year: String,
    pub data: YearData,
}

/// The data of every year of study; no two entries share a year.
#[derive(Clone, Debug)]
pub struct TimetableData {
    pub years: Vec<YearEntry>,
}

/// The headings of a day's slots.
pub open spec fn slot_times(d: DaySchedule) -> Seq<Seq<char>> {
    d.time_slots@.map_values(|t: TimeSlot| t.time@)
}

/// The years of study held.
pub open spec fn year_names(t: TimetableData) -> Seq<Seq<char>> {
    t.years@.map_values(|e: YearEntry| e.year@)
}

/// No heading occurs twice.
pub open spec fn distinct(v: Seq<Seq<char>>) -> bool {
    forall|i: int, j: int| 0 <= i < v.len() && 0 <= j < v.len() && i != j ==> v[i] != v[j]
}

impl DaySchedule {
    /// No two slots share a heading.
    pub open spec fn wf(&self) -> bool {
        distinct(slot_times(*self))
    }
}

impl TimetableData {
    /// No two entries share a year.
    pub open spec fn wf(&self) -> bool {
        distinct(year_names(*self))
    }
}

/// Which day, Monday as 0, an upper-case day name means: the short names
/// MON, TUES, WED, THUR, FRI and SAT, or the full English names.
pub open spec fn day_index(u: Seq<char>) -> Option<int> {
    if u == "MON"@ || u == "MONDAY"@ {
        Some(0)
    } else if u == "TUES"@ || u == "TUESDAY"@ {
        Some(1)
    } else if u == "WED"@ || u == "WEDNESDAY"@ {
        Some(2)
    } else if u == "THUR"@ || u == "THURSDAY"@ {
        Some(3)
    } else if u == "FRI"@ || u == "FRIDAY"@ {
        Some(4)
    } else if u == "SAT"@ || u == "SATURDAY"@ {
        Some(5)
    } else {
        None
    }
}

/// Day `i` of the week, Monday as 0.
pub open spec fn day_of(t: ExtTimetable, i: int) -> DaySchedule {
    if i == 0 {
        t.monday
    } else if i == 1 {
        t.tuesday
    } else if i == 2 {
        t.wednesday
    } else if i == 3 {
        t.thursday
    } else if i == 4 {
        t.friday
    } else {
        t.saturday
    }
}

/// `s` in upper case, as `str::to_uppercase` gives it.
pub uninterp spec fn upper_of(s: Seq<char>) -> Seq<char>;

/// Relies on `str::to_uppercase`: the result depends on the text alone.
#[verifier::external_body]
fn uppercase(s: &str) -> (r: String)
    ensures
        r@ == upper_of(s@),
{
    s.to_uppercase()
}

impl TimetableData {
    /// The data of `year`, if it is held.
    pub fn get_year_data(&self, year: &str) -> (r: Option<&YearData>)
        ensures
            r is None <==> !year_names(*self).contains(year@),
            r matches Some(d) ==> exists|i: int|
                0 <= i < self.years@.len() && self.years@[i].year@ == year@ && *d
                    == self.years@[i].data,
    {
        let mut i: usize = 0;
        while i < self.years.len()
            invariant
                i <= self.years@.len(),
                forall|j: int| 0 <= j < i ==> self.years@[j].year@ != year@,
            decreases self.years@.len() - i,
        {
            if same_text(self.years[i].year.as_str(), year) {
                assert(year_names(*self)[i as int] == year@);
                return Some(&self.years[i].data);
            }
            i = i + 1;
        }
        assert forall|j: int| 0 <= j < year_names(*self).len() implies year_names(*self)[j] != year@ by {}
        None
    }

    /// Every year held, in order.
    pub fn get_all_years(&self) -> (r: Vec<String>)
        ensures
            string_views(r@) == year_names(*self),
    {
        let mut out: Vec<String> = Vec::new();
        let mut i: usize = 0;
        while i < self.years.len()
            invariant
                i <= self.years@.len(),
                string_views(out@) == year_names(*self).subrange(0, i as int),
            decreases self.years@.len() - i,
        {
            let ghost before = out@;
            out.push(self.years[i].year.clone());
            assert(string_views(out@) =~= string_views(before).push(self.years@[i as int].year@));
            assert(year_names(*self).subrange(0, i + 1) =~= year_names(*self).subrange(0, i as int).push(
                self.years@[i as int].year@,
            ));
            i = i + 1;
        }
        assert(year_names(*self).subrange(0, self.years@.len() as int) =~= year_names(*self));
        out
    }
}

impl YearData {
    /// The first subject with the given code.
    pub fn get_subject_by_code(&self, code: &str) -> (r: Option<&Subject>)
        ensures
            r is None <==> forall|i: int| 0 <= i < self.subjects@.len() ==> self.subjects@[i].code@ != code@,
            r matches Some(s) ==> exists|i: int|
                0 <= i < self.subjects@.len() && *s == self.subjects@[i] && s.code@ == code@
                    && forall|j: int| 0 <= j < i ==> self.subjects@[j].code@ != code@,
    {
        let mut i: usize = 0;
        while i < self.subjects.len()
            invariant
                i <= self.subjects@.len(),
                forall|j: int| 0 <= j < i ==> self.subjects@[j].code@ != code@,
            decreases self.subjects@.len() - i,
        {
            if same_text(self.subjects[i].code.as_str(), code) {
                return Some(&self.subjects[i]);
            }
            i = i + 1;
        }
        None
    }

    /// The schedule of the day named `upper`, an upper-case day name.
    pub fn schedule_for_upper(&self, upper: &str) -> (r: Option<&DaySchedule>)
        ensures
            match day_index(upper@) {
                Some(i) => r matches Some(d) && *d == day_of(self.timetable, i),
                None => r is None,
            },
    {
        if same_text(upper, "MON") || same_text(upper, "MONDAY") {
            Some(&self.timetable.monday)
        } else if same_text(upper, "TUES") || same_text(upper, "TUESDAY") {
            Some(&self.timetable.tuesday)
        } else if same_text(upper, "WED") || same_text(upper, "WEDNESDAY") {
            Some(&self.timetable.wednesday)
        } else if same_text(upper, "THUR") || same_text(upper, "THURSDAY") {
            Some(&self.timetable.thursday)
        } else if same_text(upper, "FRI") || same_text(upper, "FRIDAY") {
            Some(&self.timetable.friday)
        } else if same_text(upper, "SAT") || same_text(upper, "SATURDAY") {
            Some(&self.timetable.saturday)
        } else {
            None
        }
    }

    /// The schedule of the day named `day`, in any case.
    pub fn get_day_schedule(&self, day: &str) -> (r: Option<&DaySchedule>)
        ensures
            match day_index(upper_of(day@)) {
                Some(i) => r matches Some(d) && *d == day_of(self.timetable, i),
                None => r is None,
            },
    {
        let upper = uppercase(day);
        self.schedule_for_upper(upper.as_str())
    }
}

impl DaySchedule {
    /// The classes held in the slot headed `time_slot`.
    pub fn get_classes_at_time(&self, time_slot: &str) -> (r: Option<&Vec<String>>)
        ensures
            r is None <==> !slot_times(*self).contains(time_slot@),
            r matches Some(c) ==> exists|i: int|
                0 <= i < self.time_slots@.len() && self.time_slots@[i].time@ == time_slot@ && *c
                    == self.time_slots@[i].classes,
    {
        let mut i: usize = 0;
        while i < self.time_slots.len()
            invariant
                i <= self.time_slots@.len(),
                forall|j: int| 0 <= j < i ==> self.time_slots@[j].time@ != time_slot@,
            decreases self.time_slots@.len() - i,
        {
            if same_text(self.time_slots[i].time.as_str(), time_slot) {
                assert(slot_times(*self)[i as int] == time_slot@);
                return Some(&self.time_slots[i].classes);
            }
            i = i + 1;
        }
        assert forall|j: int| 0 <= j < slot_times(*self).len() implies slot_times(*self)[j] != time_slot@ by {}
        None
    }

    /// The headings of every slot, in order.
    pub fn get_all_time_slots(&self) -> (r: Vec<String>)
        ensures
            string_views(r@) == slot_times(*self),
    {
        let mut out: Vec<String> = Vec::new();
        let mut i: usize = 0;
        while i < self.time_slots.len()
            invariant
                i <= self.time_slots@.len(),
                string_views(out@) == slot_times(*self).subrange(0, i as int),
            decreases self.time_slots@.len() - i,
        {
            let ghost before = out@;
            out.push(self.time_slots[i].time.clone());
            assert(string_views(out@) =~= string_views(before).push(self.time_slots@[i as int].time@));
            assert(slot_times(*self).subrange(0, i + 1) =~= slot_times(*self).subrange(0, i as int).push(
                self.time_slots@[i as int].time@,
            ));
            i = i + 1;
        }
        assert(slot_times(*self).subrange(0, self.time_slots@.len() as int) =~= slot_times(*self));
        out
    }

    /// The day's columns, one per slot in order, each read from its heading
    /// and the text of its classes.
    pub fn transform(&self) -> (r: Vec<ColumnRes>)
        ensures
            r@.len() == self.time_slots@.len(),
            forall|k: int|
                0 <= k < r@.len() ==> column_from(
                    #[trigger] r@[k],
                    self.time_slots@[k].time@,
                    self.time_slots@[k].classes@,
                ),
    {
        let mut cols: Vec<ColumnRes> = Vec::new();
        let mut i: usize = 0;
        while i < self.time_slots.len()
            invariant
                i <= self.time_slots@.len(),
                cols@.len() == i,
                forall|k: int|
                    0 <= k < i ==> column_from(
                        #[trigger] cols@[k],
                        self.time_slots@[k].time@,
                        self.time_slots@[k].classes@,
                    ),
            decreases self.time_slots@.len() - i,
        {
            let slot = &self.time_slots[i];
            cols.push(ColumnRes::frm_json(slot.time.as_str(), &slot.classes));
            i = i + 1;
        }
        cols
    }
}

/// `d` is day number `n` read from the schedule `s`.
pub open spec fn day_from(d: DayRes, n: int, s: DaySchedule) -> bool {
    &&& d.day == n
    &&& d.cols@.len() == s.time_slots@.len()
    &&& forall|k: int|
        0 <= k < d.cols@.len() ==> column_from(
            #[trigger] d.cols@[k],
            s.time_slots@[k].time@,
            s.time_slots@[k].classes@,
        )
}

impl ExtTimetable {
    /// The week's six days, Monday as day 0, each with its columns read.
    pub fn transform(&self) -> (r: Vec<DayRes>)
        ensures
            r@.len() == 6,
            forall|i: int| 0 <= i < 6 ==> day_from(#[trigger] r@[i], i, day_of(*self, i)),
    {
        let mut days: Vec<DayRes> = Vec::new();
        days.push(DayRes { day: 0, cols: self.monday.transform() });
        days.push(DayRes { day: 1, cols: self.tuesday.transform() });
        days.push(DayRes { day: 2, cols: self.wednesday.transform() });
        days.push(DayRes { day: 3, cols: self.thursday.transform() });
        days.push(DayRes { day: 4, cols: self.friday.transform() });
        days.push(DayRes { day: 5, cols: self.saturday.transform() });
        assert(day_from(days@[0], 0, day_of(*self, 0)));
        assert(day_from(days@[1], 1, day_of(*self, 1)));
        assert(day_from(days@[2], 2, day_of(*self, 2)));
        assert(day_from(days@[3], 3, day_of(*self, 3)));
        assert(day_from(days@[4], 4, day_of(*self, 4)));
        assert(day_from(days@[5], 5, day_of(*self, 5)));
        days
    }
}

// ---------------------------------------------------------------------------
// Time ranges written as "9:00 - 10:30 AM"
// ---------------------------------------------------------------------------

/// A time range: the starting hour on a 24-hour clock and its length in minutes.
#[derive(Clone, Copy, Debug, PartialEq, Eq, Structural)]
pub struct TimeInfo {
    pub start: u32,
    pub dur: u32,
}

/// The pieces joined back together.
pub open spec fn concat_all(pieces: Seq<Seq<char>>) -> Seq<char>
    decreases pieces.len(),
{
    if pieces.len() == 0 {
        Seq::empty()
    } else {
        concat_all(pieces.drop_last()) + pieces.last()
    }
}

/// `s` with every occurrence of the non-empty `p` removed, as
/// `str::replace(p, "")` gives it.
pub open spec fn without(s: Seq<char>, p: Seq<char>) -> Seq<char> {
    concat_all(split_pat(s, p))
}

/// `s` mentions AM or PM.
pub open spec fn has_mark(s: Seq<char>) -> bool {
    find_pat(s, "AM"@) is Some || find_pat(s, "PM"@) is Some
}

/// The hour (24-hour clock) and minute that a time such as "9:30 pm" names:
/// after upper-casing and removing every AM and PM, `hours:minutes` with an
/// hour up to 12 and a minute below 60. 12 is midnight with AM and noon
/// otherwise; PM adds twelve hours to the others.
pub open spec fn time_of_day(text: Seq<char>) -> Option<(int, int)> {
    let u = upper_of(text);
    let parts = split_pat(trimmed(without(without(u, "AM"@), "PM"@)), seq![':']);
    if parts.len() != 2 {
        None
    } else {
        match (decimal_value(trimmed(parts[0])), decimal_value(trimmed(parts[1]))) {
            (Some(h), Some(m)) => if h > 12 || m >= 60 {
                None
            } else if h == 12 {
                Some((if find_pat(u, "AM"@) is Some { 0 } else { 12 }, m))
            } else if find_pat(u, "PM"@) is Some {
                Some((h + 12, m))
            } else {
                Some((h, m))
            },
            _ => None,
        }
    }
}

/// The range that "start - end" names: where only the end carries AM or PM,
/// the start takes the same mark; `None` where either time cannot be read or
/// the end comes before the start.
pub open spec fn time_block(input: Seq<char>) -> Option<(int, int)> {
    let parts = split_pat(input, seq!['-']);
    if parts.len() != 2 {
        None
    } else {
        let st = trimmed(parts[0]);
        let en = trimmed(parts[1]);
        let eu = upper_of(en);
        let start_text = if has_mark(eu) && !has_mark(upper_of(st)) {
            st + if find_pat(eu, "AM"@) is Some {
                " AM"@
            } else {
                " PM"@
            }
        } else {
            st
        };
        match (time_of_day(start_text), time_of_day(en)) {
            (Some((sh, sm)), Some((eh, em))) => if eh * 60 + em < sh * 60 + sm {
                None
            } else {
                Some((sh, eh * 60 + em - (sh * 60 + sm)))
            },
            _ => None,
        }
    }
}

/// Whether the literal `p` occurs in `s`.
fn mentions(s: &[char], p: &str) -> (r: bool)
    requires
        p@.len() > 0,
    ensures
        r == (find_pat(s@, p@) is Some),
{
    let pc = chars_of(p);
    assert(s@.subrange(0, s@.len() as int) =~= s@);
    find_from(s, 0, pc.as_slice()).is_some()
}

/// `s` with every occurrence of the literal `p` removed.
fn remove_all(s: &[char], p: &str) -> (r: Vec<char>)
    requires
        p@.len() > 0,
    ensures
        r@ == without(s@, p@),
{
    let pc = chars_of(p);
    let pieces = split_on(s, pc.as_slice());
    let ghost all = split_pat(s@, p@);
    let mut out: Vec<char> = Vec::new();
    let mut i: usize = 0;
    while i < pieces.len()
        invariant
            i <= pieces@.len(),
            pieces@.len() == all.len(),
            all == split_pat(s@, p@),
            forall|k: int| 0 <= k < pieces@.len() ==> #[trigger] pieces@[k]@ == all[k],
            out@ == concat_all(all.subrange(0, i as int)),
        decreases pieces@.len() - i,
    {
        assert(all.subrange(0, i + 1).drop_last() =~= all.subrange(0, i as int));
        let mut piece = crate::text::slice_of(pieces[i].as_slice(), 0, pieces[i].len());
        assert(piece@ =~= all[i as int]);
        out.append(&mut piece);
        i = i + 1;
    }
    assert(all.subrange(0, pieces@.len() as int) =~= all);
    out
}

/// `s` in upper case, as characters.
fn upper_chars(s: &[char]) -> (r: Vec<char>)
    ensures
        r@ == upper_of(s@),
{
    let text = string_of(s);
    let up = uppercase(text.as_str());
    chars_of(up.as_str())
}

/// The hour and minute that a time such as "9:30 pm" names.
fn read_time(text: &[char]) -> (r: Option<(u32, u32)>)
    ensures
        r matches Some((h, m)) ==> time_of_day(text@) == Some((h as int, m as int)),
        r is None ==> time_of_day(text@) is None,
{
    proof {
        reveal_strlit("AM");
        reveal_strlit("PM");
    }
    let u = upper_chars(text);
    let is_pm = mentions(u.as_slice(), "PM");
    let is_am = mentions(u.as_slice(), "AM");
    let no_am = remove_all(u.as_slice(), "AM");
    let clean = remove_all(no_am.as_slice(), "PM");
    let t = trim(clean.as_slice());
    let colon = [':'];
    assert(colon@ =~= seq![':']);
    let parts = split_on(t.as_slice(), &colon);
    if parts.len() != 2 {
        return None;
    }
    let hs = trim(parts[0].as_slice());
    let ms = trim(parts[1].as_slice());
    let hour = match parse_unsigned(hs.as_slice(), 0xffff_ffff) {
        Some(h) => h,
        None => return None,
    };
    let minute = match parse_unsigned(ms.as_slice(), 0xffff_ffff) {
        Some(m) => m,
        None => return None,
    };
    if hour > 12 || minute >= 60 {
        return None;
    }
    let hour24: u64 = if hour == 12 {
        if is_am {
            0
        } else {
            12
        }
    } else {
        if is_pm {
            hour + 12
        } else {
            hour
        }
    };
    Some((hour24 as u32, minute as u32))
}

/// Reads the time of day in `text`, such as "9:30 pm".
pub fn parse_time(text: &str) -> (r: Option<(u32, u32)>)
    ensures
        r matches Some((h, m)) ==> time_of_day(text@) == Some((h as int, m as int)),
        r is None ==> time_of_day(text@) is None,
{
    let t = chars_of(text);
    read_time(t.as_slice())
}

/// Reads a time range such as "9:00 - 10:30 AM".
pub fn parse_time_block(input: &str) -> (r: Option<TimeInfo>)
    ensures
        r matches Some(t) ==> time_block(input@) == Some((t.start as int, t.dur as int)),
        r is None ==> time_block(input@) is None,
{
    proof {
        reveal_strlit("AM");
        reveal_strlit("PM");
    }
    let s = chars_of(input);
    let dash = ['-'];
    assert(dash@ =~= seq!['-']);
    let parts = split_on(s.as_slice(), &dash);
    if parts.len() != 2 {
        return None;
    }
    let st = trim(parts[0].as_slice());
    let en = trim(parts[1].as_slice());
    assert(st@ == trimmed(split_pat(input@, seq!['-'])[0]));
    assert(en@ == trimmed(split_pat(input@, seq!['-'])[1]));
    let eu = upper_chars(en.as_slice());
    let su = upper_chars(st.as_slice());
    let end_mark = mentions(eu.as_slice(), "AM") || mentions(eu.as_slice(), "PM");
    let start_mark = mentions(su.as_slice(), "AM") || mentions(su.as_slice(), "PM");
    let start_text: Vec<char> = if end_mark && !start_mark {
        let mut v = crate::text::slice_of(st.as_slice(), 0, st.len());
        let mut suffix = if mentions(eu.as_slice(), "AM") {
            chars_of(" AM")
        } else {
            chars_of(" PM")
        };
        v.append(&mut suffix);
        v
    } else {
        crate::text::slice_of(st.as_slice(), 0, st.len())
    };
    assert(start_text@ == (if has_mark(eu@) && !has_mark(upper_of(st@)) {
        st@ + if find_pat(eu@, "AM"@) is Some {
            " AM"@
        } else {
            " PM"@
        }
    } else {
        st@
    }));
    let (sh, sm) = match read_time(start_text.as_slice()) {
        Some(p) => p,
        None => return None,
    };
    let (eh, em) = match read_time(en.as_slice()) {
        Some(p) => p,
        None => return None,
    };
    let start_minutes = sh * 60 + sm;
    let end_minutes = eh * 60 + em;
    if end_minutes < start_minutes {
        return None;
    }
    Some(TimeInfo { start: sh, dur: end_minutes - start_minutes })
}

} // verus!
