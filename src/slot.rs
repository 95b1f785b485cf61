use vstd::prelude::*;
use crate::text::{
    ascii_lower, ascii_upper, chars_of, decimal_value, find_char, find_from, find_pat, is_digit,
    lemma_find_pat, lemma_split_nonempty, lower_ascii, nonempty_only, parse_unsigned,
    rfind, rfind_char, same_chars, split_on, split_pat, string_of, string_views, slice_of,
    to_ascii_upper, trim, trim_each, trimmed, trimmed_strings, upper_ascii,
};

verus! {

// ---------------------------------------------------------------------------
// Student batches
// ---------------------------------------------------------------------------

/// A group of students: a letter and a number, F1 to F11 or E15 to E17.
#[derive(Clone, Debug)]
pub struct Batch {
    pub prefix: String,
    pub distinction: u8,
}

/// The batch that a code such as "F7" or "E16" names: two or three
/// characters, `F` with 1 to 11 or `E` with 15 to 17.
pub open spec fn batch_code(s: Seq<char>) -> Option<(char, int)> {
    if s.len() < 2 || s.len() > 3 {
        None
    } else {
        match decimal_value(s.drop_first()) {
            Some(n) => if s[0] == 'F' && 1 <= n <= 11 {
                Some(('F', n))
            } else if s[0] == 'E' && 15 <= n <= 17 {
                Some(('E', n))
            } else {
                None
            },
            None => None,
        }
    }
}

/// `b` is the batch with letter `c` and number `n`.
pub open spec fn is_batch(b: Batch, c: char, n: int) -> bool {
    b.prefix@ == seq![c] && b.distinction == n
}

/// `b` is the batch named by `code`.
pub open spec fn has_code(b: Batch, code: Option<(char, int)>) -> bool {
    match code {
        Some((c, n)) => is_batch(b, c, n),
        None => false,
    }
}

/// `b` is batch number `k` in catalog order: F1 to F11, then E15 to E17.
pub open spec fn catalog_batch(b: Batch, k: int) -> bool {
    if k < 11 {
        is_batch(b, 'F', k + 1)
    } else {
        is_batch(b, 'E', k + 4)
    }
}

/// `v` holds every batch, in catalog order.
pub open spec fn every_batch(v: Seq<Batch>) -> bool {
    v.len() == 14 && forall|k: int| 0 <= k < 14 ==> catalog_batch(#[trigger] v[k], k)
}

/// The letters of "all", in any case.
pub open spec fn is_all(s: Seq<char>) -> bool {
    s.map_values(|c: char| ascii_lower(c)) == seq!['a', 'l', 'l']
}

/// Whether `s` spells "all" in any case.
fn spells_all(s: &[char]) -> (r: bool)
    ensures
        r == is_all(s@),
{
    let low = lower_ascii(s);
    let all = ['a', 'l', 'l'];
    assert(all@ =~= seq!['a', 'l', 'l']);
    same_chars(low.as_slice(), &all)
}

impl Batch {
    /// The batch named by `batch`, if it names one.
    pub fn new(batch: &String) -> (r: Option<Batch>)
        ensures
            match batch_code(batch@) {
                Some((c, n)) => r matches Some(b) && is_batch(b, c, n),
                None => r is None,
            },
    {
        let s = chars_of(batch.as_str());
        if s.len() < 2 || s.len() > 3 {
            return None;
        }
        let mut rest: Vec<char> = Vec::new();
        let mut i: usize = 1;
        while i < s.len()
            invariant
                1 <= i <= s@.len(),
                rest@ == s@.subrange(1, i as int),
            decreases s@.len() - i,
        {
            rest.push(s[i]);
            assert(s@.subrange(1, i + 1) =~= s@.subrange(1, i as int).push(s@[i as int]));
            i = i + 1;
        }
        assert(rest@ =~= s@.drop_first());
        let n = match parse_unsigned(rest.as_slice(), 255) {
            Some(n) => n,
            None => {
                assert(batch_code(batch@) is None);
                return None;
            },
        };
        let prefix = s[0];
        assert(batch@ == s@);
        assert(decimal_value(s@.drop_first()) == Some(n as int));
        if prefix == 'F' && 1 <= n && n <= 11 {
            let p = ['F'];
            assert(p@ =~= seq!['F']);
            Some(Batch { prefix: string_of(&p), distinction: n as u8 })
        } else if prefix == 'E' && 15 <= n && n <= 17 {
            let p = ['E'];
            assert(p@ =~= seq!['E']);
            Some(Batch { prefix: string_of(&p), distinction: n as u8 })
        } else {
            None
        }
    }

    /// Every batch, in catalog order.
    fn get_all() -> (r: Vec<Batch>)
        ensures
            r@.len() == 14,
            forall|k: int| 0 <= k < 14 ==> catalog_batch(#[trigger] r@[k], k),
    {
        let mut out: Vec<Batch> = Vec::new();
        let f = ['F'];
        assert(f@ =~= seq!['F']);
        let mut i: u8 = 1;
        while i < 12
            invariant
                1 <= i <= 12,
                out@.len() == i - 1,
                f@ == seq!['F'],
                forall|k: int| 0 <= k < out@.len() ==> catalog_batch(#[trigger] out@[k], k),
            decreases 12 - i,
        {
            out.push(Batch { prefix: string_of(&f), distinction: i });
            i = i + 1;
        }
        let e = ['E'];
        assert(e@ =~= seq!['E']);
        let mut i: u8 = 15;
        while i < 18
            invariant
                15 <= i <= 18,
                out@.len() == i - 4,
                e@ == seq!['E'],
                forall|k: int| 0 <= k < out@.len() ==> catalog_batch(#[trigger] out@[k], k),
            decreases 18 - i,
        {
            out.push(Batch { prefix: string_of(&e), distinction: i });
            i = i + 1;
        }
        out
    }

    /// Every batch where `batch` spells "all".
    fn parse_all(batch: &str) -> (r: Option<Vec<Batch>>)
        ensures
            is_all(batch@) ==> (r matches Some(v) && every_batch(v@)),
            !is_all(batch@) ==> r is None,
    {
        let s = chars_of(batch);
        if spells_all(s.as_slice()) {
            Some(Self::get_all())
        } else {
            None
        }
    }

    /// The batches that a list of codes names: a list of just "all" (in any
    /// case) names every batch; otherwise each code must name a batch.
    pub fn parse_vec(batch_list: &Vec<String>) -> (r: Option<Vec<Batch>>)
        ensures
            batch_list@.len() == 1 && is_all(batch_list@[0]@) ==> (r matches Some(v) && every_batch(
                v@,
            )),
            !(batch_list@.len() == 1 && is_all(batch_list@[0]@)) ==> {
                &&& r is Some <==> forall|k: int|
                    0 <= k < batch_list@.len() ==> (#[trigger] batch_code(batch_list@[k]@)) is Some
                &&& r matches Some(v) ==> v@.len() == batch_list@.len() && forall|k: int|
                    0 <= k < v@.len() ==> has_code(#[trigger] v@[k], batch_code(batch_list@[k]@))
            },
    {
        if batch_list.len() == 1 {
            let first = chars_of(batch_list[0].as_str());
            if spells_all(first.as_slice()) {
                return Self::parse_all(batch_list[0].as_str());
            }
        }
        let mut out: Vec<Batch> = Vec::new();
        let mut i: usize = 0;
        while i < batch_list.len()
            invariant
                !(batch_list@.len() == 1 && is_all(batch_list@[0]@)),
                i <= batch_list@.len(),
                out@.len() == i,
                forall|k: int| 0 <= k < i ==> (#[trigger] batch_code(batch_list@[k]@)) is Some,
                forall|k: int|
                    0 <= k < i ==> has_code(#[trigger] out@[k], batch_code(batch_list@[k]@)),
            decreases batch_list@.len() - i,
        {
            match Batch::new(&batch_list[i]) {
                Some(b) => out.push(b),
                None => return None,
            }
            i = i + 1;
        }
        Some(out)
    }
}

// ---------------------------------------------------------------------------
// Timetable cells
// ---------------------------------------------------------------------------

/// Whether `c` has Unicode's Alphabetic property.
pub uninterp spec fn alphabetic(c: char) -> bool;

/// Relies on `char::is_alphabetic`: the answer depends on the character alone.
#[verifier::external_body]
fn is_alphabetic(c: char) -> (r: bool)
    ensures
        r == alphabetic(c),
{
    c.is_alphabetic()
}

/// One cell of a timetable as written: what it is for, the batches, the
/// course code, the room and the teachers.
#[derive(Clone, Debug)]
pub struct SlotRes {
    pub slot_purpose: Option<String>,
    pub batch: Option<Vec<String>>,
    pub course: Option<String>,
    pub room: Option<String>,
    pub teacher: Option<Vec<String>>,
}

/// The kind of a cell: its first non-blank character, in upper case.
pub open spec fn purpose_of(s: Seq<char>) -> Seq<char> {
    let t = trimmed(s);
    if t.len() == 0 {
        Seq::empty()
    } else {
        seq![ascii_upper(t[0])]
    }
}

/// The course code of a cell: the ten characters after its first `(`, or a
/// fixed default code where it has none.
pub open spec fn course_of(s: Seq<char>) -> Seq<char> {
    match find_pat(s, seq!['(']) {
        None => "15B11PH111"@,
        Some(n) => s.subrange(n + 1, if n + 11 <= s.len() {
            n + 11
        } else {
            s.len() as int
        }),
    }
}

/// The room within the place part of a cell: the second `/`-separated field
/// where there are three or more, else the first, trimmed.
pub open spec fn location_of(part: Seq<char>) -> Seq<char> {
    let sl = split_pat(part, seq!['/']);
    trimmed(
        if sl.len() >= 3 {
            sl[1]
        } else {
            sl[0]
        },
    )
}

/// The room of a cell: taken from the text after the last `-`, or, where
/// there is no `-`, after the last `)`; a cell with neither is its own room.
pub open spec fn room_of(s: Seq<char>) -> Seq<char> {
    let parts = split_pat(s, seq!['-']);
    if parts.len() < 2 {
        match rfind_char(s, ')') {
            None => s,
            Some(p) => location_of(s.subrange(p + 1, s.len() as int)),
        }
    } else {
        location_of(parts.last())
    }
}

/// The teachers listed after the first `/` of a cell, each trimmed; the whole
/// cell where it has no `/`.
pub open spec fn after_first_slash(s: Seq<char>) -> Seq<Seq<char>> {
    match find_pat(s, seq!['/']) {
        Some(sp) => trim_each(split_pat(trimmed(s.subrange(sp + 1, s.len() as int)), seq!['/'])),
        None => seq![s],
    }
}

/// The teachers of a cell: the `/`-separated names after the room, trimmed,
/// without empty ones; where the room is empty, missing, or followed by no
/// `/`, the names after the first `/`.
pub open spec fn teachers_of(s: Seq<char>) -> Seq<Seq<char>> {
    let room = room_of(s);
    if room.len() == 0 {
        after_first_slash(s)
    } else {
        match find_pat(s, room) {
            Some(rp) => {
                let after = s.subrange(rp + room.len(), s.len() as int);
                match find_pat(after, seq!['/']) {
                    Some(sp) => nonempty_only(
                        trim_each(split_pat(after.subrange(sp + 1, after.len() as int), seq!['/'])),
                    ),
                    None => after_first_slash(s),
                }
            },
            None => after_first_slash(s),
        }
    }
}

/// Number of ASCII digits that `s` starts with.
pub open spec fn digit_run(s: Seq<char>) -> nat
    decreases s.len(),
{
    if s.len() > 0 && is_digit(s[0]) {
        1 + digit_run(s.drop_first())
    } else {
        0
    }
}

/// Takes more than one byte in UTF-8.
pub open spec fn over_one_byte(b: Seq<char>) -> bool {
    b.len() > 1 || (b.len() == 1 && b[0] as u32 >= 0x80)
}

/// The batch codes read from `t`: each letter starts a code that takes the
/// digits after it; "ALl" reads as "All" and "AL" as "Al"; a code is kept
/// where it takes more than one byte and is not "Al" alone.
pub open spec fn scan_batches(t: Seq<char>) -> Seq<Seq<char>>
    decreases t.len(),
{
    if t.len() == 0 {
        Seq::empty()
    } else if !alphabetic(t[0]) {
        scan_batches(t.drop_first())
    } else if t[0] == 'A' && t.len() >= 3 && t[1] == 'L' && t[2] == 'l' {
        seq![seq!['A', 'l', 'l']] + scan_batches(t.subrange(3, t.len() as int))
    } else {
        let two = t[0] == 'A' && t.len() >= 2 && t[1] == 'L';
        let head = if two {
            seq!['A', 'l']
        } else {
            seq![t[0]]
        };
        let rest = if two {
            t.subrange(2, t.len() as int)
        } else {
            t.subrange(1, t.len() as int)
        };
        let d = digit_run(rest) as int;
        let code = head + rest.subrange(0, d);
        let kept = if over_one_byte(code) && code != seq!['A', 'l'] {
            seq![code]
        } else {
            Seq::empty()
        };
        if d <= rest.len() {
            kept + scan_batches(rest.subrange(d, rest.len() as int))
        } else {
            kept
        }
    }
}

/// The text of a cell in which batches are listed: from its second character
/// up to its first `(`, or "F1" where it has none.
pub open spec fn batch_text(s: Seq<char>) -> Seq<char> {
    match find_pat(s, seq!['(']) {
        None => seq!['F', '1'],
        Some(n) => if n == 0 {
            s.subrange(1, s.len() as int)
        } else {
            s.subrange(1, n)
        },
    }
}

/// The batch codes of a cell: ["ALL"] where its batch text is "all" in any
/// case, else the codes read from the batch text.
pub open spec fn batches_of(s: Seq<char>) -> Seq<Seq<char>> {
    let b = batch_text(s);
    if b.map_values(|c: char| ascii_upper(c)) == seq!['A', 'L', 'L'] {
        seq![seq!['A', 'L', 'L']]
    } else {
        scan_batches(b)
    }
}

proof fn lemma_digit_run(s: Seq<char>, k: int)
    requires
        0 <= k <= s.len(),
        forall|i: int| 0 <= i < k ==> is_digit(s[i]),
    ensures
        k < s.len() && !is_digit(s[k]) ==> digit_run(s) == k,
        k == s.len() ==> digit_run(s) == k,
        k < s.len() && is_digit(s[k]) ==> digit_run(s) > k,
        digit_run(s) <= s.len(),
    decreases s.len(),
{
    if s.len() > 0 && is_digit(s[0]) {
        let t = s.drop_first();
        if k > 0 {
            assert forall|i: int| 0 <= i < k - 1 implies is_digit(t[i]) by {
                assert(t[i] == s[i + 1]);
            }
            lemma_digit_run(t, k - 1);
        } else {
            lemma_digit_run(t, 0);
        }
    }
}

impl SlotRes {
    /// Minutes that a cell of the given purpose lasts: 110 for a practical,
    /// 50 for any other purpose, 0 with no purpose.
    pub fn get_duration(&self) -> (r: i32)
        ensures
            r == (match self.slot_purpose {
                None => 0i32,
                Some(p) => if p@ == "P"@ {
                    110
                } else {
                    50
                },
            }),
    {
        match &self.slot_purpose {
            None => 0,
            Some(purpose) => {
                if crate::text::same_text(purpose.as_str(), "P") {
                    50 + 60
                } else {
                    50
                }
            },
        }
    }

    /// The batch codes listed in a cell.
    fn batch_extractor(input: &str) -> (r: Vec<String>)
        ensures
            string_views(r@) == batches_of(input@),
    {
        let s = chars_of(input);
        let t: Vec<char> = match find_char(s.as_slice(), '(') {
            None => {
                let v = ['F', '1'];
                assert(v@ =~= seq!['F', '1']);
                let t = slice_of(&v, 0, 2);
                assert(t@ =~= seq!['F', '1']);
                t
            },
            Some(n) => {
                proof {
                    lemma_find_pat(s@, seq!['(']);
                }
                if n == 0 {
                    slice_of(s.as_slice(), 1, s.len())
                } else {
                    slice_of(s.as_slice(), 1, n)
                }
            },
        };
        assert(t@ == batch_text(input@));
        let up = upper_ascii(t.as_slice());
        let all = ['A', 'L', 'L'];
        assert(all@ =~= seq!['A', 'L', 'L']);
        if same_chars(up.as_slice(), &all) {
            let mut out: Vec<String> = Vec::new();
            out.push(string_of(&all));
            assert(string_views(out@) =~= seq![seq!['A', 'L', 'L']]);
            return out;
        }
        let n = t.len();
        let mut out: Vec<String> = Vec::new();
        let mut i: usize = 0;
        let ghost whole = scan_batches(t@);
        assert(t@.subrange(0, 0) + t@ =~= t@);
        assert(t@.subrange(0, n as int) =~= t@);
        while i < n
            invariant
                n == t@.len(),
                i <= n,
                whole == scan_batches(t@),
                whole == string_views(out@) + scan_batches(t@.subrange(i as int, n as int)),
            decreases n - i,
        {
            let ghost cur = t@.subrange(i as int, n as int);
            let ch = t[i];
            assert(cur[0] == ch);
            if !is_alphabetic(ch) {
                assert(cur.drop_first() =~= t@.subrange(i + 1, n as int));
                i = i + 1;
            } else if ch == 'A' && n - i > 2 && t[i + 1] == 'L' && t[i + 2] == 'l' {
                assert(cur.subrange(3, cur.len() as int) =~= t@.subrange(i + 3, n as int));
                let a = ['A', 'l', 'l'];
                assert(a@ =~= seq!['A', 'l', 'l']);
                let ghost before = string_views(out@);
                out.push(string_of(&a));
                assert(string_views(out@) =~= before.push(seq!['A', 'l', 'l']));
                let ghost later = scan_batches(t@.subrange(i + 3, n as int));
                assert(before + (seq![seq!['A', 'l', 'l']] + later) =~= before.push(
                    seq!['A', 'l', 'l'],
                ) + later);
                i = i + 3;
            } else {
                let two = ch == 'A' && n - i > 1 && t[i + 1] == 'L';
                let mut code: Vec<char> = Vec::new();
                code.push(ch);
                let mut j: usize = i + 1;
                if two {
                    code.push('l');
                    j = i + 2;
                }
                let ghost head = code@;
                let ghost rest = t@.subrange(j as int, n as int);
                assert(two ==> head =~= seq!['A', 'l']);
                assert(!two ==> head =~= seq![ch]);
                assert(two ==> rest =~= cur.subrange(2, cur.len() as int));
                assert(!two ==> rest =~= cur.subrange(1, cur.len() as int));
                let start = j;
                while j < n && '0' <= t[j] && t[j] <= '9'
                    invariant
                        start <= j <= n,
                        n == t@.len(),
                        rest == t@.subrange(start as int, n as int),
                        code@ == head + rest.subrange(0, j - start),
                        forall|k: int| 0 <= k < j - start ==> is_digit(rest[k]),
                    decreases n - j,
                {
                    code.push(t[j]);
                    assert(rest.subrange(0, j + 1 - start) =~= rest.subrange(0, j - start).push(rest[j - start]));
                    j = j + 1;
                }
                proof {
                    lemma_digit_run(rest, j - start);
                }
                let d = j - start;
                assert(t@.subrange(j as int, n as int) =~= rest.subrange(d as int, rest.len() as int));
                let wide = code.len() > 1 || (code.len() == 1 && code[0] as u32 >= 0x80);
                let lone_al = code.len() == 2 && code[0] == 'A' && code[1] == 'l';
                assert(lone_al == (code@ =~= seq!['A', 'l']));
                let ghost before = string_views(out@);
                let ghost later = scan_batches(t@.subrange(j as int, n as int));
                if wide && !lone_al {
                    out.push(string_of(code.as_slice()));
                    assert(string_views(out@) =~= before.push(code@));
                    assert(before + (seq![code@] + later) =~= before.push(code@) + later);
                } else {
                    assert(before + (Seq::<Seq<char>>::empty() + later) =~= before + later);
                }
                i = j;
            }
        }
        assert(t@.subrange(n as int, n as int) =~= Seq::<char>::empty());
        assert(string_views(out@) + Seq::<Seq<char>>::empty() =~= string_views(out@));
        out
    }

    /// The purpose letter of a cell.
    fn get_purpose(input: &str) -> (r: String)
        ensures
            r@ == purpose_of(input@),
    {
        let s = chars_of(input);
        let t = trim(s.as_slice());
        if t.len() == 0 {
            String::new()
        } else {
            let c = [to_ascii_upper(t[0])];
            assert(c@ =~= seq![ascii_upper(t@[0])]);
            string_of(&c)
        }
    }

    /// The course code of a cell.
    fn get_course(input: &str) -> (r: String)
        ensures
            r@ == course_of(input@),
    {
        let s = chars_of(input);
        match find_char(s.as_slice(), '(') {
            None => String::from_str("15B11PH111"),
            Some(n) => {
                proof {
                    lemma_find_pat(s@, seq!['(']);
                }
                let end = if s.len() - (n + 1) >= 10 {
                    n + 11
                } else {
                    s.len()
                };
                let c = slice_of(s.as_slice(), n + 1, end);
                string_of(c.as_slice())
            },
        }
    }
}

/// The room within the place part of a cell.
fn location(part: &[char]) -> (r: Vec<char>)
    ensures
        r@ == location_of(part@),
{
    let slash = ['/'];
    assert(slash@ =~= seq!['/']);
    let sl = split_on(part, &slash);
    proof {
        lemma_split_nonempty(part@, seq!['/']);
    }
    if sl.len() >= 3 {
        trim(sl[1].as_slice())
    } else {
        trim(sl[0].as_slice())
    }
}

/// The room of a cell, as characters.
fn room_chars(s: &[char]) -> (r: Vec<char>)
    ensures
        r@ == room_of(s@),
{
    let n = s.len();
    let dash = ['-'];
    assert(dash@ =~= seq!['-']);
    let parts = split_on(s, &dash);
    if parts.len() < 2 {
        match rfind(s, ')') {
            None => {
                let all = slice_of(s, 0, n);
                assert(all@ =~= s@);
                all
            },
            Some(p) => {
                let after = slice_of(s, p + 1, n);
                location(after.as_slice())
            },
        }
    } else {
        location(parts[parts.len() - 1].as_slice())
    }
}

/// The teachers after the first `/` of a cell.
fn after_slash(s: &[char]) -> (r: Vec<String>)
    ensures
        string_views(r@) == after_first_slash(s@),
{
    let n = s.len();
    match find_char(s, '/') {
        Some(sp) => {
            proof {
                lemma_find_pat(s@, seq!['/']);
            }
            let tail = slice_of(s, sp + 1, n);
            let t = trim(tail.as_slice());
            let slash = ['/'];
            assert(slash@ =~= seq!['/']);
            let pieces = split_on(t.as_slice(), &slash);
            assert(pieces@.map_values(|v: Vec<char>| v@) =~= split_pat(t@, seq!['/']));
            trimmed_strings(&pieces, false)
        },
        None => {
            let mut out: Vec<String> = Vec::new();
            out.push(string_of(s));
            assert(string_views(out@) =~= seq![s@]);
            out
        },
    }
}

/// `r` is the cell read from the text `s`.
pub open spec fn read_from(r: SlotRes, s: Seq<char>) -> bool {
    &&& r.slot_purpose matches Some(p) && p@ == purpose_of(s)
    &&& r.batch matches Some(b) && string_views(b@) == batches_of(s)
    &&& r.course matches Some(c) && c@ == course_of(s)
    &&& r.room matches Some(m) && m@ == room_of(s)
    &&& r.teacher matches Some(t) && string_views(t@) == teachers_of(s)
}

impl SlotRes {
    /// The room of a cell.
    fn get_room(input: &str) -> (r: String)
        ensures
            r@ == room_of(input@),
    {
        let s = chars_of(input);
        let room = room_chars(s.as_slice());
        string_of(room.as_slice())
    }

    /// The teachers of a cell.
    fn get_teacher(input: &str) -> (r: Vec<String>)
        ensures
            string_views(r@) == teachers_of(input@),
    {
        let s = chars_of(input);
        let len = s.len();
        let room = room_chars(s.as_slice());
        if room.len() == 0 {
            return after_slash(s.as_slice());
        }
        proof {
            lemma_find_pat(s@, room@);
        }
        assert(s@.subrange(0, s@.len() as int) =~= s@);
        match find_from(s.as_slice(), 0, room.as_slice()) {
            Some(rp) => {
                let after = slice_of(s.as_slice(), rp + room.len(), len);
                match find_char(after.as_slice(), '/') {
                    Some(sp) => {
                        proof {
                            lemma_find_pat(after@, seq!['/']);
                        }
                        let tail = slice_of(after.as_slice(), sp + 1, after.len());
                        let slash = ['/'];
                        assert(slash@ =~= seq!['/']);
                        let pieces = split_on(tail.as_slice(), &slash);
                        assert(pieces@.map_values(|v: Vec<char>| v@) =~= split_pat(tail@, seq!['/']));
                        trimmed_strings(&pieces, true)
                    },
                    None => after_slash(s.as_slice()),
                }
            },
            None => after_slash(s.as_slice()),
        }
    }

    /// Reads one timetable cell such as "PF7F8F9(15B17CI373)/CL3/PAM/PRM/MIT":
    /// every field is present, as its reader above finds it.
    pub fn frm_str(input: &str) -> (r: SlotRes)
        ensures
            read_from(r, input@),
    {
        let slot_purpose = Some(Self::get_purpose(input));
        let batch = Some(Self::batch_extractor(input));
        let course = Some(Self::get_course(input));
        let room = Some(Self::get_room(input));
        let teacher = Some(Self::get_teacher(input));
        SlotRes { slot_purpose, batch, course, room, teacher }
    }
}

} // verus!
