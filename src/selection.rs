use vstd::prelude::*;
use crate::text::{same_text, string_of, string_views};

verus! {

/// What decides which stored timetable a student gets: whom it is for, its
/// kind, and when it is in force.
#[derive(Clone, Debug)]
pub struct TimetableHeader {
    /// Faculty, department and level it is for; empty means any.
    pub faculty: String,
    pub department: String,
    pub level: String,
    /// "Exam", "CA", or another kind.
    pub kind: String,
    /// When it comes into force and when it lapses, both included; none
    /// means no bound.
    pub active_from: Option<i64>,
    pub active_until: Option<i64>,
}

/// Whom a timetable is picked for.
#[derive(Clone, Debug)]
pub struct StudentProfile {
    pub faculty: String,
    pub department: String,
    pub level: String,
}

/// The timetable is meant for the student.
pub open spec fn meant_for(t: TimetableHeader, p: StudentProfile) -> bool {
    &&& (t.faculty@.len() == 0 || t.faculty@ == p.faculty@)
    &&& (t.department@.len() == 0 || t.department@ == p.department@)
    &&& (t.level@.len() == 0 || t.level@ == p.level@)
}

/// The timetable is in force at `now`.
pub open spec fn in_force(t: TimetableHeader, now: i64) -> bool {
    &&& (t.active_from matches Some(a) ==> a <= now)
    &&& (t.active_until matches Some(u) ==> now <= u)
}

/// Precedence of a kind: exams first, then continuous assessment, then the rest.
pub open spec fn precedence(t: TimetableHeader) -> int {
    if t.kind@ == "Exam"@ {
        0
    } else if t.kind@ == "CA"@ {
        1
    } else {
        2
    }
}

/// Candidate `i` is considered: it is meant for the student, or no candidate is.
pub open spec fn considered(ts: Seq<TimetableHeader>, p: StudentProfile, i: int) -> bool {
    if exists|k: int| 0 <= k < ts.len() && meant_for(#[trigger] ts[k], p) {
        meant_for(ts[i], p)
    } else {
        true
    }
}

/// Candidate `i` is considered and in force at `now`.
pub open spec fn eligible(ts: Seq<TimetableHeader>, p: StudentProfile, now: i64, i: int) -> bool {
    considered(ts, p, i) && in_force(ts[i], now)
}

/// Candidate `i` comes before candidate `j`: higher precedence, or the same
/// precedence and an earlier place.
pub open spec fn ahead(ts: Seq<TimetableHeader>, i: int, j: int) -> bool {
    precedence(ts[i]) < precedence(ts[j]) || (precedence(ts[i]) == precedence(ts[j]) && i <= j)
}

/// Whether `t` is meant for the student.
fn is_meant_for(t: &TimetableHeader, p: &StudentProfile) -> (r: bool)
    ensures
        r == meant_for(*t, *p),
{
    let fac = t.faculty.unicode_len() == 0 || same_text(t.faculty.as_str(), p.faculty.as_str());
    let dep = t.department.unicode_len() == 0 || same_text(
        t.department.as_str(),
        p.department.as_str(),
    );
    let lev = t.level.unicode_len() == 0 || same_text(t.level.as_str(), p.level.as_str());
    fac && dep && lev
}

/// Whether `t` is in force at `now`.
fn is_in_force(t: &TimetableHeader, now: i64) -> (r: bool)
    ensures
        r == in_force(*t, now),
{
    let after_start = match t.active_from {
        Some(a) => a <= now,
        None => true,
    };
    let before_end = match t.active_until {
        Some(u) => now <= u,
        None => true,
    };
    after_start && before_end
}

/// The precedence of `t`'s kind.
fn rank(t: &TimetableHeader) -> (r: u8)
    ensures
        r == precedence(*t),
{
    if same_text(t.kind.as_str(), "Exam") {
        0
    } else if same_text(t.kind.as_str(), "CA") {
        1
    } else {
        2
    }
}

/// Picks the timetable that a student sees at `now`: among the candidates
/// considered, the first in force of the highest precedence; where none is in
/// force, the last considered. `None` only where there is no candidate.
pub fn pick_timetable(ts: &Vec<TimetableHeader>, p: &StudentProfile, now: i64) -> (r: Option<
    usize,
>)
    ensures
        r is None <==> ts@.len() == 0,
        r matches Some(i) ==> {
            &&& i < ts@.len()
            &&& considered(ts@, *p, i as int)
            &&& if exists|j: int| 0 <= j < ts@.len() && #[trigger] eligible(ts@, *p, now, j) {
                &&& in_force(ts@[i as int], now)
                &&& forall|j: int|
                    0 <= j < ts@.len() && #[trigger] eligible(ts@, *p, now, j) ==> ahead(
                        ts@,
                        i as int,
                        j,
                    )
            } else {
                forall|j: int| 0 <= j < ts@.len() && #[trigger] considered(ts@, *p, j) ==> j <= i
            }
        },
{
    if ts.len() == 0 {
        return None;
    }
    let mut any_meant = false;
    let mut k: usize = 0;
    while k < ts.len()
        invariant
            k <= ts@.len(),
            any_meant <==> exists|m: int| 0 <= m < k && meant_for(#[trigger] ts@[m], *p),
        decreases ts@.len() - k,
    {
        if is_meant_for(&ts[k], p) {
            any_meant = true;
        }
        k = k + 1;
    }
    let mut best: Option<usize> = None;
    let mut last: usize = 0;
    let mut i: usize = 0;
    while i < ts.len()
        invariant
            i <= ts@.len(),
            ts@.len() > 0,
            any_meant <==> exists|m: int| 0 <= m < ts@.len() && meant_for(#[trigger] ts@[m], *p),
            last < ts@.len(),
            (exists|j: int| 0 <= j < i && #[trigger] considered(ts@, *p, j)) ==> considered(
                ts@,
                *p,
                last as int,
            ) && forall|j: int| 0 <= j < i && #[trigger] considered(ts@, *p, j) ==> j <= last,
            match best {
                Some(b) => {
                    &&& b < i
                    &&& eligible(ts@, *p, now, b as int)
                    &&& forall|j: int|
                        0 <= j < i && #[trigger] eligible(ts@, *p, now, j) ==> ahead(
                            ts@,
                            b as int,
                            j,
                        )
                },
                None => forall|j: int| 0 <= j < i ==> !#[trigger] eligible(ts@, *p, now, j),
            },
        decreases ts@.len() - i,
    {
        let keep = !any_meant || is_meant_for(&ts[i], p);
        assert(keep == considered(ts@, *p, i as int));
        if keep {
            last = i;
            if is_in_force(&ts[i], now) {
                match best {
                    None => {
                        best = Some(i);
                    },
                    Some(b) => {
                        if rank(&ts[i]) < rank(&ts[b]) {
                            best = Some(i);
                        }
                    },
                }
            }
        }
        i = i + 1;
    }
    match best {
        Some(b) => Some(b),
        None => {
            proof {
                if !(exists|j: int| 0 <= j < ts@.len() && #[trigger] considered(ts@, *p, j)) {
                    if any_meant {
                        let m = choose|m: int| 0 <= m < ts@.len() && meant_for(ts@[m], *p);
                        assert(considered(ts@, *p, m));
                    } else {
                        assert(considered(ts@, *p, 0));
                    }
                }
            }
            Some(last)
        },
    }
}

/// Positions of the classes whose course code is among `codes`, in order.
pub fn selected_classes(class_codes: &Vec<String>, codes: &Vec<String>) -> (r: Vec<usize>)
    ensures
        forall|k: int| 0 <= k < r@.len() ==> (r@[k] as int) < class_codes@.len(),
        forall|k: int, l: int| 0 <= k < l < r@.len() ==> r@[k] < r@[l],
        forall|i: int|
            0 <= i < class_codes@.len() ==> (r@.contains(i as usize) <==> string_views(codes@).contains(
                #[trigger] class_codes@[i]@,
            )),
{
    let mut out: Vec<usize> = Vec::new();
    let mut i: usize = 0;
    while i < class_codes.len()
        invariant
            i <= class_codes@.len(),
            forall|k: int| 0 <= k < out@.len() ==> (out@[k] as int) < i,
            forall|k: int, l: int| 0 <= k < l < out@.len() ==> out@[k] < out@[l],
            forall|j: int|
                0 <= j < i ==> (out@.contains(j as usize) <==> string_views(codes@).contains(
                    #[trigger] class_codes@[j]@,
                )),
        decreases class_codes@.len() - i,
    {
        let mut found = false;
        let mut m: usize = 0;
        while m < codes.len()
            invariant
                m <= codes@.len(),
                i < class_codes@.len(),
                found <==> exists|q: int| 0 <= q < m && codes@[q]@ == class_codes@[i as int]@,
            decreases codes@.len() - m,
        {
            if codes[m] == class_codes[i] {
                found = true;
            }
            m = m + 1;
        }
        proof {
            if found {
                let q = choose|q: int| 0 <= q < codes@.len() && codes@[q]@ == class_codes@[i as int]@;
                assert(string_views(codes@)[q] == class_codes@[i as int]@);
            } else {
                assert forall|q: int| 0 <= q < string_views(codes@).len() implies string_views(codes@)[q]
                    != class_codes@[i as int]@ by {}
            }
        }
        let ghost before = out@;
        if found {
            out.push(i);
            assert forall|j: int| 0 <= j < i implies (#[trigger] out@.contains(j as usize) == before.contains(j as usize)) by {
                if before.contains(j as usize) {
                    let k = choose|k: int| 0 <= k < before.len() && before[k] == j as usize;
                    assert(out@[k] == j as usize);
                }
                if out@.contains(j as usize) {
                    let k = choose|k: int| 0 <= k < out@.len() && out@[k] == j as usize;
                    if k == before.len() {
                        assert(false);
                    } else {
                        assert(before[k] == j as usize);
                    }
                }
            }
            assert(out@[out@.len() - 1] == i);
        } else {
            assert forall|k: int| 0 <= k < out@.len() implies out@[k] != i by {}
        }
        i = i + 1;
    }
    out
}

/// The character of a decimal digit.
pub open spec fn digit_char(d: int) -> char {
    ('0' as int + d) as char
}

/// The decimal digits of `n`.
pub open spec fn decimal(n: nat) -> Seq<char>
    decreases n,
{
    if n < 10 {
        seq![digit_char(n as int)]
    } else {
        decimal(n / 10).push(digit_char((n % 10) as int))
    }
}

/// `n` written in decimal with at least two characters, as `{:02}` writes it.
pub open spec fn two_wide(n: int) -> Seq<char> {
    if n < 0 {
        seq!['-'] + decimal((-n) as nat)
    } else if n < 10 {
        seq!['0', digit_char(n)]
    } else {
        decimal(n as nat)
    }
}

/// The decimal digits of `n`.
fn write_decimal(n: u64) -> (r: Vec<char>)
    ensures
        r@ == decimal(n as nat),
    decreases n,
{
    if n < 10 {
        let v = vec![(('0' as u8) + (n as u8)) as char];
        assert(v@ =~= seq![digit_char(n as int)]);
        v
    } else {
        let mut v = write_decimal(n / 10);
        v.push((('0' as u8) + ((n % 10) as u8)) as char);
        v
    }
}

/// `n` written as `{:02}` writes it.
fn write_two_wide(n: i32) -> (r: Vec<char>)
    ensures
        r@ == two_wide(n as int),
{
    if n < 0 {
        let mut v = vec!['-'];
        let mut d = write_decimal(((n as i64) * -1) as u64);
        v.append(&mut d);
        v
    } else if n < 10 {
        let v = vec!['0', (('0' as u8) + (n as u8)) as char];
        assert(v@ =~= seq!['0', digit_char(n as int)]);
        v
    } else {
        write_decimal(n as u64)
    }
}

/// The names joined with ", ".
pub open spec fn comma_joined(names: Seq<Seq<char>>) -> Seq<char>
    decreases names.len(),
{
    if names.len() == 0 {
        Seq::empty()
    } else if names.len() == 1 {
        names[0]
    } else {
        comma_joined(names.drop_last()) + seq![',', ' '] + names.last()
    }
}

/// The warning text for a slot starting at `hr`:`min` where the courses
/// `names` meet: "Clash at HH:MM -> A, B".
pub open spec fn clash_text(hr: int, min: int, names: Seq<Seq<char>>) -> Seq<char> {
    "Clash at "@ + two_wide(hr) + seq![':'] + two_wide(min) + " -> "@ + comma_joined(names)
}

/// The warning for a slot starting at `hr`:`min` where the selected courses
/// `names` meet.
pub fn clash_warning(hr: i32, min: i32, names: &Vec<String>) -> (r: String)
    ensures
        r@ == clash_text(hr as int, min as int, string_views(names@)),
{
    let mut text: Vec<char> = crate::text::chars_of("Clash at ");
    let mut h = write_two_wide(hr);
    text.append(&mut h);
    text.push(':');
    let mut m = write_two_wide(min);
    text.append(&mut m);
    let mut arrow = crate::text::chars_of(" -> ");
    text.append(&mut arrow);
    let ghost head = text@;
    let mut i: usize = 0;
    while i < names.len()
        invariant
            i <= names@.len(),
            text@ == head + comma_joined(string_views(names@).subrange(0, i as int)),
        decreases names@.len() - i,
    {
        assert(string_views(names@).subrange(0, i + 1).drop_last() =~= string_views(names@).subrange(0, i as int));
        if i > 0 {
            text.push(',');
            text.push(' ');
        }
        let mut part = crate::text::chars_of(names[i].as_str());
        text.append(&mut part);
        proof {
            if i == 0 {
                assert(string_views(names@).subrange(0, 1) =~= seq![names@[0]@]);
            }
        }
        assert(text@ =~= head + comma_joined(string_views(names@).subrange(0, i + 1)));
        i = i + 1;
    }
    assert(string_views(names@).subrange(0, names@.len() as int) =~= string_views(names@));
    string_of(text.as_slice())
}

} // verus!
