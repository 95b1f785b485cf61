use vstd::prelude::*;

verus! {

/// The characters of `s`, in order.
pub fn chars_of(s: &str) -> (r: Vec<char>)
    ensures
        r@ == s@,
{
    let n = s.unicode_len();
    let mut out: Vec<char> = Vec::new();
    let mut i: usize = 0;
    while i < n
        invariant
            n == s@.len(),
            i <= n,
            out@ == s@.subrange(0, i as int),
        decreases n - i,
    {
        out.push(s.get_char(i));
        i = i + 1;
    }
    assert(out@ =~= s@);
    out
}

/// Whether two character sequences are equal.
pub fn same_chars(a: &[char], b: &[char]) -> (r: bool)
    ensures
        r == (a@ == b@),
{
    if a.len() != b.len() {
        return false;
    }
    let mut i: usize = 0;
    while i < a.len()
        invariant
            a@.len() == b@.len(),
            i <= a@.len(),
            a@.subrange(0, i as int) == b@.subrange(0, i as int),
        decreases a@.len() - i,
    {
        if a[i] != b[i] {
            assert(a@[i as int] != b@[i as int]);
            return false;
        }
        assert(a@.subrange(0, i + 1) =~= a@.subrange(0, i as int).push(a@[i as int]));
        assert(b@.subrange(0, i + 1) =~= b@.subrange(0, i as int).push(b@[i as int]));
        i = i + 1;
    }
    assert(a@ =~= a@.subrange(0, a@.len() as int));
    assert(b@ =~= b@.subrange(0, b@.len() as int));
    true
}

/// Whether two strings hold the same characters.
pub fn same_text(a: &str, b: &str) -> (r: bool)
    ensures
        r == (a@ == b@),
{
    let x = chars_of(a);
    let y = chars_of(b);
    same_chars(x.as_slice(), y.as_slice())
}

/// Relies on `FromIterator<char>` for `String`: the string holds the
/// characters in the order given.
#[verifier::external_body]
pub fn string_of(chars: &[char]) -> (r: String)
    ensures
        r@ == chars@,
{
    chars.iter().collect()
}


// ---------------------------------------------------------------------------
// Searching and splitting
// ---------------------------------------------------------------------------

/// `pat` occurs in `s` starting at `i`.
pub open spec fn occurs_at(s: Seq<char>, pat: Seq<char>, i: int) -> bool {
    0 <= i && i + pat.len() <= s.len() && s.subrange(i, i + pat.len()) == pat
}

/// The first position at which the non-empty `pat` occurs in `s`.
pub open spec fn find_pat(s: Seq<char>, pat: Seq<char>) -> Option<int>
    decreases s.len(),
{
    if pat.len() == 0 || s.len() < pat.len() {
        None
    } else if s.subrange(0, pat.len() as int) == pat {
        Some(0)
    } else {
        match find_pat(s.drop_first(), pat) {
            Some(i) => Some(i + 1),
            None => None,
        }
    }
}

/// `find_pat` gives the first occurrence, and `None` only where there is none.
pub proof fn lemma_find_pat(s: Seq<char>, pat: Seq<char>)
    requires
        pat.len() > 0,
    ensures
        match find_pat(s, pat) {
            Some(i) => occurs_at(s, pat, i) && forall|j: int| 0 <= j < i ==> !occurs_at(s, pat, j),
            None => forall|j: int| !occurs_at(s, pat, j),
        },
    decreases s.len(),
{
    if s.len() < pat.len() {
    } else if s.subrange(0, pat.len() as int) == pat {
    } else {
        let t = s.drop_first();
        lemma_find_pat(t, pat);
        assert forall|j: int| 1 <= j implies occurs_at(s, pat, j) == occurs_at(t, pat, j - 1) by {
            if 0 <= j - 1 && j - 1 + pat.len() <= t.len() {
                assert(s.subrange(j, j + pat.len()) =~= t.subrange(j - 1, j - 1 + pat.len()));
            }
        }
        assert(!occurs_at(s, pat, 0));
    }
}

/// The pieces of `s` between the occurrences of the non-empty `pat`, from
/// the left, as `str::split` yields them.
pub open spec fn split_pat(s: Seq<char>, pat: Seq<char>) -> Seq<Seq<char>>
    decreases s.len(),
{
    match find_pat(s, pat) {
        Some(i) => if 0 <= i && i + pat.len() <= s.len() && pat.len() > 0 {
            seq![s.subrange(0, i)] + split_pat(s.subrange(i + pat.len(), s.len() as int), pat)
        } else {
            seq![s]
        },
        None => seq![s],
    }
}

/// Whether `pat` occurs in `s` at `k`.
fn matches_at(s: &[char], k: usize, pat: &[char]) -> (r: bool)
    requires
        k + pat@.len() <= s@.len(),
    ensures
        r == (s@.subrange(k as int, k + pat@.len()) == pat@),
{
    let n = s.len();
    let mut m: usize = 0;
    while m < pat.len()
        invariant
            n == s@.len(),
            k + pat@.len() <= s@.len(),
            m <= pat@.len(),
            s@.subrange(k as int, k + m) =~= pat@.subrange(0, m as int),
        decreases pat@.len() - m,
    {
        if s[k + m] != pat[m] {
            assert(s@.subrange(k as int, k + pat@.len())[m as int] != pat@[m as int]);
            return false;
        }
        assert(s@.subrange(k as int, k + m + 1) =~= s@.subrange(k as int, k + m).push(s@[k + m]));
        assert(pat@.subrange(0, m + 1) =~= pat@.subrange(0, m as int).push(pat@[m as int]));
        m = m + 1;
    }
    assert(pat@.subrange(0, pat@.len() as int) =~= pat@);
    true
}

/// Position of the first occurrence of `pat` in `s` at or after `from`.
pub fn find_from(s: &[char], from: usize, pat: &[char]) -> (r: Option<usize>)
    requires
        pat@.len() > 0,
        from <= s@.len(),
    ensures
        r matches Some(p) ==> find_pat(s@.subrange(from as int, s@.len() as int), pat@) == Some(
            p - from,
        ),
        r is None ==> find_pat(s@.subrange(from as int, s@.len() as int), pat@) is None,
        r matches Some(p) ==> from <= p && p + pat@.len() <= s@.len(),
{
    let ghost t = s@.subrange(from as int, s@.len() as int);
    proof {
        lemma_find_pat(t, pat@);
    }
    if s.len() - from < pat.len() {
        assert(forall|j: int| !occurs_at(t, pat@, j));
        proof {
            if let Some(i) = find_pat(t, pat@) {
                assert(occurs_at(t, pat@, i));
            }
        }
        return None;
    }
    let n = s.len();
    let last = n - pat.len();
    let mut k: usize = from;
    while k <= last
        invariant
            n == s@.len(),
            pat@.len() > 0,
            from <= k,
            last == s@.len() - pat@.len(),
            last + 1 >= from,
            k <= last + 1,
            t == s@.subrange(from as int, s@.len() as int),
            forall|j: int| 0 <= j < k - from ==> !occurs_at(t, pat@, j),
        decreases last + 1 - k,
    {
        assert(t.subrange(k - from, k - from + pat@.len()) =~= s@.subrange(
            k as int,
            k + pat@.len(),
        ));
        if matches_at(s, k, pat) {
            assert(occurs_at(t, pat@, k - from));
            proof {
                lemma_find_pat(t, pat@);
                match find_pat(t, pat@) {
                    Some(i) => {
                        if i < k - from {
                            assert(!occurs_at(t, pat@, i));
                        } else if i > k - from {
                            assert(!occurs_at(t, pat@, k - from));
                        }
                    },
                    None => {
                        assert(!occurs_at(t, pat@, k - from));
                    },
                }
            }
            return Some(k);
        }
        k = k + 1;
    }
    assert forall|j: int| #![auto] !occurs_at(t, pat@, j) by {
        if 0 <= j && j + pat@.len() <= t.len() {
            assert(j < k - from);
        }
    }
    proof {
        lemma_find_pat(t, pat@);
        if let Some(i) = find_pat(t, pat@) {
            assert(occurs_at(t, pat@, i));
        }
    }
    None
}

/// Position of the first `c` in `s`.
pub fn find_char(s: &[char], c: char) -> (r: Option<usize>)
    ensures
        r matches Some(i) ==> find_pat(s@, seq![c]) == Some(i as int) && i < s@.len(),
        r is None ==> find_pat(s@, seq![c]) is None,
{
    let pat = [c];
    assert(pat@ =~= seq![c]);
    assert(s@.subrange(0, s@.len() as int) =~= s@);
    find_from(s, 0, &pat)
}

/// Splits `s` at each occurrence of the non-empty `pat`, from the left.
pub fn split_on(s: &[char], pat: &[char]) -> (r: Vec<Vec<char>>)
    requires
        pat@.len() > 0,
    ensures
        r@.len() == split_pat(s@, pat@).len(),
        forall|k: int| 0 <= k < r@.len() ==> #[trigger] r@[k]@ == split_pat(s@, pat@)[k],
{
    let mut out: Vec<Vec<char>> = Vec::new();
    let mut j: usize = 0;
    let n = s.len();
    let ghost whole = split_pat(s@, pat@);
    assert(s@.subrange(0, s@.len() as int) =~= s@);
    loop
        invariant
            n == s@.len(),
            pat@.len() > 0,
            j <= s@.len(),
            whole == split_pat(s@, pat@),
            whole.len() == out@.len() + split_pat(s@.subrange(j as int, s@.len() as int), pat@).len(),
            forall|k: int| 0 <= k < out@.len() ==> #[trigger] out@[k]@ == whole[k],
            forall|k: int|
                0 <= k < split_pat(s@.subrange(j as int, s@.len() as int), pat@).len() ==> whole[out@.len() + k]
                    == split_pat(s@.subrange(j as int, s@.len() as int), pat@)[k],
        decreases s@.len() - j,
    {
        let ghost t = s@.subrange(j as int, s@.len() as int);
        proof {
            lemma_find_pat(t, pat@);
        }
        match find_from(s, j, pat) {
            None => {
                let mut piece: Vec<char> = Vec::new();
                let mut m: usize = j;
                while m < s.len()
                    invariant
                        j <= m <= s@.len(),
                        piece@ == s@.subrange(j as int, m as int),
                    decreases s@.len() - m,
                {
                    piece.push(s[m]);
                    assert(s@.subrange(j as int, m + 1) =~= s@.subrange(j as int, m as int).push(s@[m as int]));
                    m = m + 1;
                }
                assert(split_pat(t, pat@) == seq![t]);
                assert(piece@ =~= t);
                assert(whole[out@.len() + 0int] == split_pat(t, pat@)[0]);
                out.push(piece);
                assert(out@[out@.len() - 1]@ == whole[out@.len() - 1]);
                return out;
            },
            Some(p) => {
                let mut piece: Vec<char> = Vec::new();
                let mut m: usize = j;
                while m < p
                    invariant
                        j <= m <= p,
                        p <= s@.len(),
                        piece@ == s@.subrange(j as int, m as int),
                    decreases p - m,
                {
                    piece.push(s[m]);
                    assert(s@.subrange(j as int, m + 1) =~= s@.subrange(j as int, m as int).push(s@[m as int]));
                    m = m + 1;
                }
                let ghost i = p - j;
                assert(find_pat(t, pat@) == Some(i));
                assert(occurs_at(t, pat@, i));
                assert(t.subrange(0, i) =~= s@.subrange(j as int, p as int));
                assert(t.subrange(i + pat@.len(), t.len() as int) =~= s@.subrange(
                    p + pat@.len(),
                    s@.len() as int,
                ));
                assert(split_pat(t, pat@) == seq![t.subrange(0, i)] + split_pat(
                    s@.subrange(p + pat@.len(), s@.len() as int),
                    pat@,
                ));
                assert(piece@ =~= t.subrange(0, i));
                assert(whole[out@.len() + 0int] == split_pat(t, pat@)[0]);
                let ghost rest = s@.subrange(p + pat@.len(), s@.len() as int);
                let ghost before = out@.len();
                out.push(piece);
                assert(out@[out@.len() - 1]@ == whole[out@.len() - 1]);
                assert forall|k: int| 0 <= k < split_pat(rest, pat@).len() implies whole[out@.len() + k]
                    == split_pat(rest, pat@)[k] by {
                    assert(split_pat(t, pat@)[k + 1] == split_pat(rest, pat@)[k]);
                    assert(whole[before + (k + 1)] == split_pat(t, pat@)[k + 1]);
                }
                j = p + pat.len();
            },
        }
    }
}

/// The last position of `c` in `s`.
pub open spec fn rfind_char(s: Seq<char>, c: char) -> Option<int>
    decreases s.len(),
{
    if s.len() == 0 {
        None
    } else if s.last() == c {
        Some(s.len() - 1)
    } else {
        rfind_char(s.drop_last(), c)
    }
}

/// Position of the last `c` in `s`.
pub fn rfind(s: &[char], c: char) -> (r: Option<usize>)
    ensures
        r matches Some(i) ==> rfind_char(s@, c) == Some(i as int) && i < s@.len(),
        r is None ==> rfind_char(s@, c) is None,
{
    let mut k: usize = s.len();
    assert(s@.subrange(0, s@.len() as int) =~= s@);
    while k > 0
        invariant
            k <= s@.len(),
            rfind_char(s@, c) == rfind_char(s@.subrange(0, k as int), c),
        decreases k,
    {
        assert(s@.subrange(0, k as int).drop_last() =~= s@.subrange(0, k - 1));
        if s[k - 1] == c {
            return Some(k - 1);
        }
        k = k - 1;
    }
    None
}

// ---------------------------------------------------------------------------
// Whitespace, case and digits
// ---------------------------------------------------------------------------

/// A character of Unicode's White_Space property, which `char::is_whitespace`
/// and `str::trim` go by.
pub open spec fn is_space(c: char) -> bool {
    ('\u{9}' <= c && c <= '\u{d}') || c == ' ' || c == '\u{85}' || c == '\u{a0}' || c == '\u{1680}'
        || ('\u{2000}' <= c && c <= '\u{200a}') || c == '\u{2028}' || c == '\u{2029}' || c
        == '\u{202f}' || c == '\u{205f}' || c == '\u{3000}'
}

/// Whether `c` is white space.
pub fn space(c: char) -> (r: bool)
    ensures
        r == is_space(c),
{
    ('\u{9}' <= c && c <= '\u{d}') || c == ' ' || c == '\u{85}' || c == '\u{a0}' || c == '\u{1680}'
        || ('\u{2000}' <= c && c <= '\u{200a}') || c == '\u{2028}' || c == '\u{2029}' || c
        == '\u{202f}' || c == '\u{205f}' || c == '\u{3000}'
}

/// Number of white-space characters that `s` starts with.
pub open spec fn leading_space(s: Seq<char>) -> nat
    decreases s.len(),
{
    if s.len() == 0 || !is_space(s[0]) {
        0
    } else {
        1 + leading_space(s.drop_first())
    }
}

/// Number of white-space characters that `s` ends with.
pub open spec fn trailing_space(s: Seq<char>) -> nat
    decreases s.len(),
{
    if s.len() == 0 || !is_space(s.last()) {
        0
    } else {
        1 + trailing_space(s.drop_last())
    }
}

/// `s` without leading and trailing white space.
pub open spec fn trimmed(s: Seq<char>) -> Seq<char> {
    let a = leading_space(s) as int;
    if a >= s.len() {
        Seq::empty()
    } else {
        s.subrange(a, s.len() - trailing_space(s))
    }
}

proof fn lemma_leading_space_bound(s: Seq<char>)
    ensures
        leading_space(s) <= s.len(),
        leading_space(s) < s.len() ==> !is_space(s[leading_space(s) as int]),
        forall|i: int| 0 <= i < leading_space(s) ==> is_space(s[i]),
    decreases s.len(),
{
    if s.len() > 0 && is_space(s[0]) {
        let t = s.drop_first();
        lemma_leading_space_bound(t);
        assert forall|i: int| 0 <= i < leading_space(s) implies is_space(s[i]) by {
            if i > 0 {
                assert(s[i] == t[i - 1]);
            }
        }
    }
}

proof fn lemma_trailing_space_bound(s: Seq<char>)
    ensures
        trailing_space(s) <= s.len(),
        trailing_space(s) < s.len() ==> !is_space(s[s.len() - 1 - trailing_space(s)]),
        forall|i: int| s.len() - trailing_space(s) <= i < s.len() ==> is_space(s[i]),
    decreases s.len(),
{
    if s.len() > 0 && is_space(s.last()) {
        let t = s.drop_last();
        lemma_trailing_space_bound(t);
        assert forall|i: int| s.len() - trailing_space(s) <= i < s.len() implies is_space(s[i]) by {
            if i < s.len() - 1 {
                assert(s[i] == t[i]);
            }
        }
    }
}

/// `s` without leading and trailing white space.
pub fn trim(s: &[char]) -> (r: Vec<char>)
    ensures
        r@ == trimmed(s@),
{
    proof {
        lemma_leading_space_bound(s@);
        lemma_trailing_space_bound(s@);
    }
    let mut a: usize = 0;
    while a < s.len() && space(s[a])
        invariant
            a <= s@.len(),
            forall|i: int| 0 <= i < a ==> is_space(s@[i]),
            a <= leading_space(s@),
        decreases s@.len() - a,
    {
        proof {
            lemma_leading_prefix(s@, a as int);
        }
        a = a + 1;
    }
    proof {
        if a < s@.len() {
            lemma_leading_prefix(s@, a as int);
        }
    }
    let mut out: Vec<char> = Vec::new();
    if a >= s.len() {
        return out;
    }
    let mut b: usize = s.len();
    while b > a && space(s[b - 1])
        invariant
            a < b <= s@.len(),
            a == leading_space(s@),
            !is_space(s@[a as int]),
            s@.len() - b <= trailing_space(s@),
            forall|i: int| b <= i < s@.len() ==> is_space(s@[i]),
        decreases b,
    {
        proof {
            lemma_trailing_suffix(s@, (s@.len() - b) as int);
        }
        b = b - 1;
    }
    proof {
        if b > a {
            lemma_trailing_suffix(s@, (s@.len() - b) as int);
        }
    }
    let mut m: usize = a;
    while m < b
        invariant
            a <= m <= b,
            b <= s@.len(),
            out@ == s@.subrange(a as int, m as int),
        decreases b - m,
    {
        out.push(s[m]);
        assert(s@.subrange(a as int, m + 1) =~= s@.subrange(a as int, m as int).push(s@[m as int]));
        m = m + 1;
    }
    out
}

proof fn lemma_leading_prefix(s: Seq<char>, a: int)
    requires
        0 <= a <= s.len(),
        forall|i: int| 0 <= i < a ==> is_space(s[i]),
    ensures
        a < s.len() && !is_space(s[a]) ==> leading_space(s) == a,
        a < s.len() && is_space(s[a]) ==> leading_space(s) >= a + 1,
        a == s.len() ==> leading_space(s) == s.len(),
    decreases a,
{
    if a > 0 {
        let t = s.drop_first();
        assert forall|i: int| 0 <= i < a - 1 implies is_space(t[i]) by {
            assert(t[i] == s[i + 1]);
        }
        lemma_leading_prefix(t, a - 1);
    }
}

proof fn lemma_trailing_suffix(s: Seq<char>, n: int)
    requires
        0 <= n <= s.len(),
        forall|i: int| s.len() - n <= i < s.len() ==> is_space(s[i]),
    ensures
        n < s.len() && !is_space(s[s.len() - 1 - n]) ==> trailing_space(s) == n,
        n < s.len() && is_space(s[s.len() - 1 - n]) ==> trailing_space(s) >= n + 1,
        n == s.len() ==> trailing_space(s) == s.len(),
    decreases n,
{
    if n > 0 {
        let t = s.drop_last();
        assert forall|i: int| t.len() - (n - 1) <= i < t.len() implies is_space(t[i]) by {
            assert(t[i] == s[i]);
        }
        lemma_trailing_suffix(t, n - 1);
    }
}

/// `c` in upper case where it is an ASCII letter, else `c` itself.
pub open spec fn ascii_upper(c: char) -> char {
    if 'a' <= c && c <= 'z' {
        ((c as u32) - 32) as char
    } else {
        c
    }
}

/// `c` in lower case where it is an ASCII letter, else `c` itself.
pub open spec fn ascii_lower(c: char) -> char {
    if 'A' <= c && c <= 'Z' {
        ((c as u32) + 32) as char
    } else {
        c
    }
}

/// `char::to_ascii_uppercase`.
pub fn to_ascii_upper(c: char) -> (r: char)
    ensures
        r == ascii_upper(c),
{
    if 'a' <= c && c <= 'z' {
        ((c as u32) - 32) as u8 as char
    } else {
        c
    }
}

/// `char::to_ascii_lowercase`.
pub fn to_ascii_lower(c: char) -> (r: char)
    ensures
        r == ascii_lower(c),
{
    if 'A' <= c && c <= 'Z' {
        ((c as u32) + 32) as u8 as char
    } else {
        c
    }
}

/// `s` with its ASCII letters in upper case.
pub fn upper_ascii(s: &[char]) -> (r: Vec<char>)
    ensures
        r@ == s@.map_values(|c: char| ascii_upper(c)),
{
    let mut out: Vec<char> = Vec::new();
    let mut i: usize = 0;
    while i < s.len()
        invariant
            i <= s@.len(),
            out@ == s@.subrange(0, i as int).map_values(|c: char| ascii_upper(c)),
        decreases s@.len() - i,
    {
        out.push(to_ascii_upper(s[i]));
        assert(s@.subrange(0, i + 1).map_values(|c: char| ascii_upper(c)) =~= s@.subrange(
            0,
            i as int,
        ).map_values(|c: char| ascii_upper(c)).push(ascii_upper(s@[i as int])));
        i = i + 1;
    }
    assert(s@.subrange(0, s@.len() as int) =~= s@);
    out
}

/// `s` with its ASCII letters in lower case.
pub fn lower_ascii(s: &[char]) -> (r: Vec<char>)
    ensures
        r@ == s@.map_values(|c: char| ascii_lower(c)),
{
    let mut out: Vec<char> = Vec::new();
    let mut i: usize = 0;
    while i < s.len()
        invariant
            i <= s@.len(),
            out@ == s@.subrange(0, i as int).map_values(|c: char| ascii_lower(c)),
        decreases s@.len() - i,
    {
        out.push(to_ascii_lower(s[i]));
        assert(s@.subrange(0, i + 1).map_values(|c: char| ascii_lower(c)) =~= s@.subrange(
            0,
            i as int,
        ).map_values(|c: char| ascii_lower(c)).push(ascii_lower(s@[i as int])));
        i = i + 1;
    }
    assert(s@.subrange(0, s@.len() as int) =~= s@);
    out
}

/// An ASCII decimal digit.
pub open spec fn is_digit(c: char) -> bool {
    '0' <= c && c <= '9'
}

/// The number that a non-empty run of decimal digits spells.
pub open spec fn digits_value(s: Seq<char>) -> int
    decreases s.len(),
{
    if s.len() == 0 {
        0
    } else {
        digits_value(s.drop_last()) * 10 + (s.last() as int - '0' as int)
    }
}

/// `s` without the `+` sign that it may start with.
pub open spec fn unsigned_digits(s: Seq<char>) -> Seq<char> {
    if s.len() > 0 && s[0] == '+' {
        s.drop_first()
    } else {
        s
    }
}

/// Every character of `d` is a decimal digit.
pub open spec fn all_digits(d: Seq<char>) -> bool {
    forall|i: int| 0 <= i < d.len() ==> is_digit(#[trigger] d[i])
}

/// The unsigned number that `s` spells as the standard library reads it: an
/// optional `+`, then one or more decimal digits, and nothing else.
pub open spec fn decimal_value(s: Seq<char>) -> Option<int> {
    let d = unsigned_digits(s);
    if d.len() > 0 && all_digits(d) {
        Some(digits_value(d))
    } else {
        None
    }
}

proof fn lemma_digits_value_nonneg(s: Seq<char>)
    requires
        forall|i: int| 0 <= i < s.len() ==> is_digit(#[trigger] s[i]),
    ensures
        digits_value(s) >= 0,
    decreases s.len(),
{
    if s.len() > 0 {
        lemma_digits_value_nonneg(s.drop_last());
    }
}

proof fn lemma_digits_value_grows(s: Seq<char>, k: int)
    requires
        forall|i: int| 0 <= i < s.len() ==> is_digit(#[trigger] s[i]),
        0 <= k <= s.len(),
    ensures
        digits_value(s.subrange(0, k)) <= digits_value(s),
    decreases s.len() - k,
{
    if k < s.len() {
        lemma_digits_value_grows(s, k + 1);
        assert(s.subrange(0, k + 1).drop_last() =~= s.subrange(0, k));
        lemma_digits_value_nonneg(s.subrange(0, k));
    } else {
        assert(s.subrange(0, k) =~= s);
    }
}

/// Reads an unsigned number no greater than `max` from `s`, as `str::parse`
/// does for an unsigned integer type whose largest value is `max`.
pub fn parse_unsigned(s: &[char], max: u64) -> (r: Option<u64>)
    ensures
        match decimal_value(s@) {
            Some(v) => if v <= max {
                r == Some(v as u64)
            } else {
                r is None
            },
            None => r is None,
        },
        r matches Some(n) ==> decimal_value(s@) == Some(n as int) && n <= max,
{
    let start: usize = if s.len() > 0 && s[0] == '+' {
        1
    } else {
        0
    };
    let ghost d = unsigned_digits(s@);
    assert(d =~= s@.subrange(start as int, s@.len() as int));
    if start >= s.len() {
        return None;
    }
    let mut v: u64 = 0;
    let mut i: usize = start;
    while i < s.len()
        invariant
            start <= i <= s@.len(),
            start < s@.len(),
            d =~= s@.subrange(start as int, s@.len() as int),
            d == unsigned_digits(s@),
            forall|k: int| 0 <= k < i - start ==> is_digit(#[trigger] d[k]),
            v == digits_value(d.subrange(0, i - start)),
            v <= max,
        decreases s@.len() - i,
    {
        let c = s[i];
        if !('0' <= c && c <= '9') {
            assert(!is_digit(d[i - start]));
            assert(!all_digits(d));
            return None;
        }
        let digit = (c as u32 - '0' as u32) as u64;
        assert(d.subrange(0, i + 1 - start).drop_last() =~= d.subrange(0, i - start));
        assert(d[i - start] == c);
        let next: Option<u64> = match v.checked_mul(10) {
            Some(t) => t.checked_add(digit),
            None => None,
        };
        let fits = match next {
            Some(n) => n <= max,
            None => false,
        };
        if !fits {
            proof {
                let pre = d.subrange(0, i + 1 - start);
                assert(digits_value(pre) == v * 10 + digit);
                assert(digits_value(pre) > max);
                if all_digits(d) {
                    lemma_digits_value_grows(d, i + 1 - start);
                }
            }
            return None;
        }
        let n = match next {
            Some(n) => n,
            None => 0,
        };
        v = n;
        i = i + 1;
    }
    assert(d.subrange(0, d.len() as int) =~= d);
    Some(v)
}

/// The characters of `s` from `from` up to, not including, `to`.
pub fn slice_of(s: &[char], from: usize, to: usize) -> (r: Vec<char>)
    requires
        from <= to <= s@.len(),
    ensures
        r@ == s@.subrange(from as int, to as int),
{
    let mut out: Vec<char> = Vec::new();
    let mut m: usize = from;
    while m < to
        invariant
            from <= m <= to,
            to <= s@.len(),
            out@ == s@.subrange(from as int, m as int),
        decreases to - m,
    {
        out.push(s[m]);
        assert(s@.subrange(from as int, m + 1) =~= s@.subrange(from as int, m as int).push(s@[m as int]));
        m = m + 1;
    }
    out
}

/// `split_pat` always yields at least one piece.
pub proof fn lemma_split_nonempty(s: Seq<char>, pat: Seq<char>)
    ensures
        split_pat(s, pat).len() >= 1,
{
}

/// The text of each string.
pub open spec fn string_views(v: Seq<String>) -> Seq<Seq<char>> {
    v.map_values(|x: String| x@)
}

/// The pieces of `v` that are not empty, in order.
pub open spec fn nonempty_only(v: Seq<Seq<char>>) -> Seq<Seq<char>>
    decreases v.len(),
{
    if v.len() == 0 {
        v
    } else if v.last().len() > 0 {
        nonempty_only(v.drop_last()).push(v.last())
    } else {
        nonempty_only(v.drop_last())
    }
}

/// Each piece without leading and trailing white space.
pub open spec fn trim_each(v: Seq<Seq<char>>) -> Seq<Seq<char>> {
    v.map_values(|x: Seq<char>| trimmed(x))
}

/// Each piece as a string, trimmed; empty pieces are dropped when
/// `skip_empty` is set.
pub fn trimmed_strings(pieces: &Vec<Vec<char>>, skip_empty: bool) -> (r: Vec<String>)
    ensures
        !skip_empty ==> string_views(r@) == trim_each(pieces@.map_values(|v: Vec<char>| v@)),
        skip_empty ==> string_views(r@) == nonempty_only(
            trim_each(pieces@.map_values(|v: Vec<char>| v@)),
        ),
{
    let ghost all = trim_each(pieces@.map_values(|v: Vec<char>| v@));
    let mut out: Vec<String> = Vec::new();
    let mut i: usize = 0;
    while i < pieces.len()
        invariant
            i <= pieces@.len(),
            all == trim_each(pieces@.map_values(|v: Vec<char>| v@)),
            !skip_empty ==> string_views(out@) == all.subrange(0, i as int),
            skip_empty ==> string_views(out@) == nonempty_only(all.subrange(0, i as int)),
        decreases pieces@.len() - i,
    {
        let t = trim(pieces[i].as_slice());
        assert(all[i as int] == t@);
        assert(all.subrange(0, i + 1).drop_last() =~= all.subrange(0, i as int));
        assert(all.subrange(0, i + 1).last() == t@);
        if !skip_empty || t.len() > 0 {
            let ghost before = out@;
            out.push(string_of(t.as_slice()));
            assert(string_views(out@) =~= string_views(before).push(t@));
        }
        i = i + 1;
    }
    assert(all.subrange(0, pieces@.len() as int) =~= all);
    out
}

} // verus!
