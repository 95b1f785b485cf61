use vstd::prelude::*;
use crate::text::{
    chars_of, find_char, find_pat, rfind, rfind_char, slice_of, split_on,
    split_pat, string_of, trim, trimmed,
};
use vstd::utf8::encode_utf8;

verus! {

/// The instructions that open the prompt of the plain schema.
pub const PROMPT_HEADER: &'static str = r#"You are a strict JSON generator.
Return ONLY JSON, no commentary, no markdown.
Segment input by headers: FACULTY/SCHOOL and DEPARTMENT; parse courses under each.
Courses appear as CODE DAY TIME HALL LECTURERS.
Rules:
- Split multiple rooms like G119-G123 into ["G119","G120","G121","G122","G123"].
- Preserve rooms like AMPHI 150 exactly.
- Parse group suffix like CHM201-G1 as group: "G1".
- Long durations such as 07:00-19:00 imply purpose: "Lab".
- Teachers list keeps commas and initials, e.g., "Tabo, D".
- Use 24h hr/min and compute duration in minutes.
Schema:
{
  "ver": "2025-01-10T08:00:00Z",
  "type": "lecture",
  "faculty": "Faculty of Science",
  "department": "Computer Science",
  "level": "200",
  "teachers": [
    { "abbreviation": "TD", "name": "Tabo, Daniel" },
    { "abbreviation": "SJ", "name": "Smith, John" }
  ],
  "courses": [
    { "code": "CSC209", "title": "Data Structures", "type": "major" },
    { "code": "MTH201", "title": "Linear Algebra", "type": "major" }
  ],
  "rooms": [
    { "code": "G112", "description": "" },
    { "code": "G113", "description": "" }
  ],
  "days": [
    {
      "day": 0,
      "columns": [
        {
          "start_time": { "hr": 7, "min": 0 },
          "end_time":   { "hr": 9, "min": 0 },
          "duration_min": 120,
          "entries": [
            {
              "purpose": "T",
              "course_code": "CSC209",
              "course_title": "Data Structures",
              "batches": ["F1"],
              "teachers": ["Tabo, D."],
              "room": "G112",
              "weeks": "ALL"
            }
          ]
        },
        {
          "start_time": { "hr": 9, "min": 0 },
          "end_time":   { "hr": 10, "min": 0 },
          "duration_min": 60,
          "entries": [
            {
              "purpose": "T",
              "course_code": "MTH201",
              "course_title": "Linear Algebra",
              "batches": ["F2"],
              "teachers": ["Smith, J."],
              "room": "G113",
              "weeks": "ALL"
            }
          ]
        }
      ]
    }
  ]
}

Example mappings:
1) CSC209 MON 07:00-09:00 G112-G113 Tabo, D.
   {"slot_purpose":"T","batch":["F1"],"course":"CSC209","room":"G112-G113","teacher":["Tabo, D."]}
2) G119-G123 → rooms: ["G119","G120","G121","G122","G123"]
3) AMPHI 150 → room: "AMPHI 150"
4) CHM201-G1 WED 10:00-12:00 AMPHI 150 Doe, J → group: "G1"
5) CHM450 FRI 07:00-19:00 LAB-X Prof. X → purpose: "Lab", duration: 720
6) MA101 TUE 08:00-10:00 G201 Dr. Y → course: "MA101"
"#;

/// The instructions of the detailed schema, before the examples.
pub const SCHEMA_HEAD: &'static str = r#"System: You are a JSON-only parser. Output MUST be valid JSON matching the schema.
Segmentation: Use FACULTY/SCHOOL and DEPARTMENT headers to scope parsing.
Multiple rooms like G119-G123 become ["G119","G120","G121","G122","G123"].
AMPHI 150 stays as exact room.
Group codes like CHM201-G1 capture group "G1".
Long ranges like 07:00-19:00 → purpose "Lab".
Schema (exact keys):
{
  "ver": "2025-01-10T08:00:00Z",
  "type": "lecture",
  "faculty": "Faculty of Science",
  "department": "Computer Science",
  "level": "200",
  "teachers": [
    { "abbreviation": "TD", "name": "Tabo, Daniel" },
    { "abbreviation": "SJ", "name": "Smith, John" }
  ],
  "courses": [
    { "code": "CSC209", "title": "Data Structures", "type": "major" },
    { "code": "MTH201", "title": "Linear Algebra", "type": "major" }
  ],
  "rooms": [
    { "code": "G112", "description": "" },
    { "code": "G113", "description": "" }
  ],
  "days": [
    {
      "day": 0,
      "columns": [
        {
          "start_time": { "hr": 7, "min": 0 },
          "end_time":   { "hr": 9, "min": 0 },
          "duration_min": 120,
          "entries": [
            {
              "purpose": "T",
              "course_code": "CSC209",
              "course_title": "Data Structures",
              "batches": ["F1"],
              "teachers": ["Tabo, D."],
              "room": "G112",
              "weeks": "ALL"
            }
          ]
        },
        {
          "start_time": { "hr": 9, "min": 0 },
          "end_time":   { "hr": 10, "min": 0 },
          "duration_min": 60,
          "entries": [
            {
              "purpose": "T",
              "course_code": "MTH201",
              "course_title": "Linear Algebra",
              "batches": ["F2"],
              "teachers": ["Smith, J."],
              "room": "G113",
              "weeks": "ALL"
            }
          ]
        }
      ]
    }
  ]
}
Examples from content:"#;

/// The instructions of the detailed schema, after the examples.
pub const SCHEMA_TAIL: &'static str = r#"
Rules:
- Return ONLY JSON. No commentary.
- If multiple rooms like G112-G113 or G119-G123, split into individual room codes.
- If ambiguous fields, set to null and include raw_text.
"#;

/// The text from the first `{` to the last `}`, both included, where the
/// last comes after the first.
pub open spec fn json_span(s: Seq<char>) -> Option<Seq<char>> {
    match (find_pat(s, seq!['{']), rfind_char(s, '}')) {
        (Some(a), Some(b)) => if b <= a {
            None
        } else {
            Some(s.subrange(a, b + 1))
        },
        _ => None,
    }
}

/// The JSON object embedded in a model's answer, if any.
pub fn extract_json(input: &str) -> (r: Option<String>)
    ensures
        match json_span(input@) {
            Some(j) => r matches Some(t) && t@ == j,
            None => r is None,
        },
{
    let s = chars_of(input);
    let n = s.len();
    let start = match find_char(s.as_slice(), '{') {
        Some(a) => a,
        None => return None,
    };
    let end = match rfind(s.as_slice(), '}') {
        Some(b) => b,
        None => return None,
    };
    if end <= start {
        return None;
    }
    let span = slice_of(s.as_slice(), start, end + 1);
    Some(string_of(span.as_slice()))
}

/// The day abbreviations that mark a line as a timetable entry.
pub open spec fn day_marks() -> Seq<Seq<char>> {
    seq!["MON"@, "TUE"@, "WED"@, "THU"@, "FRI"@, "SAT"@, "SUN"@]
}

/// A trimmed line that makes a good example: at least ten bytes long (as
/// `str::len` counts them),
/// starting with an ASCII capital, naming a day, and holding both `:` and `-`.
pub open spec fn good_example(l: Seq<char>) -> bool {
    &&& encode_utf8(l).len() as usize >= 10
    &&& 'A' <= l[0] && l[0] <= 'Z'
    &&& exists|d: int| 0 <= d < 7 && (#[trigger] find_pat(l, day_marks()[d])) is Some
    &&& find_pat(l, seq![':']) is Some
    &&& find_pat(l, seq!['-']) is Some
}

/// The examples picked from `lines`, in order: each good trimmed line, until
/// `max_n` are picked (at least one is always kept where there is one).
pub open spec fn picked(lines: Seq<Seq<char>>, max_n: nat) -> Seq<Seq<char>>
    decreases lines.len(),
{
    if lines.len() == 0 {
        Seq::empty()
    } else {
        let p = picked(lines.drop_last(), max_n);
        let l = trimmed(lines.last());
        if (p.len() > 0 && p.len() >= max_n) || !good_example(l) {
            p
        } else {
            p.push(l)
        }
    }
}

/// Whether `pat` occurs in `l`.
fn holds(l: &[char], pat: &str) -> (r: bool)
    requires
        pat@.len() > 0,
    ensures
        r == (find_pat(l@, pat@) is Some),
{
    let p = chars_of(pat);
    assert(l@.subrange(0, l@.len() as int) =~= l@);
    crate::text::find_from(l, 0, p.as_slice()).is_some()
}

/// Whether a trimmed line makes a good example.
fn is_good_example(l: &[char]) -> (r: bool)
    ensures
        r == good_example(l@),
{
    let text = string_of(l);
    let view = text.as_str();
    let bytes = view.len();
    assert(view@ == l@);
    if bytes < 10 {
        return false;
    }
    if !('A' <= l[0] && l[0] <= 'Z') {
        return false;
    }
    proof {
        reveal_strlit("MON");
        reveal_strlit("TUE");
        reveal_strlit("WED");
        reveal_strlit("THU");
        reveal_strlit("FRI");
        reveal_strlit("SAT");
        reveal_strlit("SUN");
        reveal_strlit(":");
        reveal_strlit("-");
    }
    let day = holds(l, "MON") || holds(l, "TUE") || holds(l, "WED") || holds(l, "THU") || holds(
        l,
        "FRI",
    ) || holds(l, "SAT") || holds(l, "SUN");
    proof {
        if !day {
            assert forall|d: int| 0 <= d < 7 implies !((#[trigger] find_pat(l@, day_marks()[d])) is Some) by {
                assert(day_marks()[d] == ["MON"@, "TUE"@, "WED"@, "THU"@, "FRI"@, "SAT"@, "SUN"@][d]);
            }
        } else {
            if find_pat(l@, "MON"@) is Some {
                assert(find_pat(l@, day_marks()[0]) is Some);
            } else if find_pat(l@, "TUE"@) is Some {
                assert(find_pat(l@, day_marks()[1]) is Some);
            } else if find_pat(l@, "WED"@) is Some {
                assert(find_pat(l@, day_marks()[2]) is Some);
            } else if find_pat(l@, "THU"@) is Some {
                assert(find_pat(l@, day_marks()[3]) is Some);
            } else if find_pat(l@, "FRI"@) is Some {
                assert(find_pat(l@, day_marks()[4]) is Some);
            } else if find_pat(l@, "SAT"@) is Some {
                assert(find_pat(l@, day_marks()[5]) is Some);
            } else {
                assert(find_pat(l@, day_marks()[6]) is Some);
            }
        }
    }
    if !day {
        return false;
    }
    assert(":"@ =~= seq![':']);
    assert("-"@ =~= seq!['-']);
    holds(l, ":") && holds(l, "-")
}

/// Up to `max_n` lines of `content` that make good examples for the model,
/// trimmed, in order.
fn pick_examples(content: &str, max_n: usize) -> (r: Vec<String>)
    ensures
        r@.map_values(|x: String| x@) == picked(split_pat(content@, seq!['\n']), max_n as nat),
{
    let s = chars_of(content);
    let nl = ['\n'];
    assert(nl@ =~= seq!['\n']);
    let lines = split_on(s.as_slice(), &nl);
    let ghost all = split_pat(content@, seq!['\n']);
    let mut out: Vec<String> = Vec::new();
    let mut i: usize = 0;
    while i < lines.len()
        invariant
            all == split_pat(content@, seq!['\n']),
            i <= lines@.len(),
            lines@.len() == all.len(),
            forall|k: int| 0 <= k < lines@.len() ==> #[trigger] lines@[k]@ == all[k],
            out@.map_values(|x: String| x@) == picked(all.subrange(0, i as int), max_n as nat),
        decreases lines@.len() - i,
    {
        assert(all.subrange(0, i + 1).drop_last() =~= all.subrange(0, i as int));
        assert(all.subrange(0, i + 1).last() == lines@[i as int]@);
        assert(out@.map_values(|x: String| x@).len() == out@.len());
        if out.len() > 0 && out.len() >= max_n {
            proof {
                lemma_picked_stops(all, max_n as nat, i as int);
            }
            assert(all.subrange(0, lines@.len() as int) =~= all);
            return out;
        }
        let l = trim(lines[i].as_slice());
        if l.len() > 0 && is_good_example(l.as_slice()) {
            let ghost before = out@;
            out.push(string_of(l.as_slice()));
            assert(out@.map_values(|x: String| x@) =~= before.map_values(|x: String| x@).push(l@));
        } else {
            assert(l@.len() == 0 ==> !good_example(l@)) by {
                if l@.len() == 0 {
                    assert(l@ =~= Seq::<char>::empty());
                }
            }
        }
        i = i + 1;
    }
    assert(all.subrange(0, lines@.len() as int) =~= all);
    out
}

/// Once `max_n` examples are picked, later lines add none.
proof fn lemma_picked_stops(lines: Seq<Seq<char>>, max_n: nat, i: int)
    requires
        0 <= i <= lines.len(),
        picked(lines.subrange(0, i), max_n).len() > 0,
        picked(lines.subrange(0, i), max_n).len() >= max_n,
    ensures
        picked(lines, max_n) == picked(lines.subrange(0, i), max_n),
    decreases lines.len() - i,
{
    if i < lines.len() {
        assert(lines.subrange(0, i + 1).drop_last() =~= lines.subrange(0, i));
        lemma_picked_stops(lines, max_n, i + 1);
    } else {
        assert(lines.subrange(0, i) =~= lines);
    }
}

/// `a` followed by `b`.
fn join(a: &str, b: &str) -> (r: String)
    ensures
        r@ == a@ + b@,
{
    let mut v = chars_of(a);
    let mut w = chars_of(b);
    v.append(&mut w);
    string_of(v.as_slice())
}

/// The prompt that asks for the plain schema over `content`.
fn get_prompt(content: &str) -> (r: String)
    ensures
        r@ == PROMPT_HEADER@ + "\nContent:\n"@ + content@,
{
    let with_label = join(PROMPT_HEADER, "\nContent:\n");
    join(with_label.as_str(), content)
}

/// The examples, each on a line of its own after "- ".
pub open spec fn example_block(ex: Seq<Seq<char>>) -> Seq<char>
    decreases ex.len(),
{
    if ex.len() == 0 {
        Seq::empty()
    } else {
        example_block(ex.drop_last()) + "\n- "@ + ex.last()
    }
}

/// The prompt that asks for the detailed schema over `content`, with up to
/// six example lines picked from it.
pub fn llm_schema_prompt(content: &str) -> (r: String)
    ensures
        r@ == SCHEMA_HEAD@ + example_block(picked(split_pat(content@, seq!['\n']), 6)) + SCHEMA_TAIL@,
{
    let examples = pick_examples(content, 6);
    let ghost ex = examples@.map_values(|x: String| x@);
    let mut block = String::new();
    let mut i: usize = 0;
    while i < examples.len()
        invariant
            i <= examples@.len(),
            ex == examples@.map_values(|x: String| x@),
            block@ == example_block(ex.subrange(0, i as int)),
        decreases examples@.len() - i,
    {
        assert(ex.subrange(0, i + 1).drop_last() =~= ex.subrange(0, i as int));
        let with_dash = join(block.as_str(), "\n- ");
        block = join(with_dash.as_str(), examples[i].as_str());
        i = i + 1;
    }
    assert(ex.subrange(0, examples@.len() as int) =~= ex);
    let head = join(SCHEMA_HEAD, block.as_str());
    join(head.as_str(), SCHEMA_TAIL)
}

} // verus!
