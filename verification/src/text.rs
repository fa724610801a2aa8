//! Character-level text operations with their specifications.
//!
//! Text is handled as sequences of Unicode scalar values (`char`), which is
//! what `str` and `String` hold; the specifications speak of `Seq<char>`.

use vstd::prelude::*;

verus! {

/// The characters of `s`, in order.
pub fn chars_of(s: &str) -> (v: Vec<char>)
    ensures
        v@ == s@,
{
    let mut v: Vec<char> = Vec::new();
    for c in it: s.chars()
        invariant
            v@ == it.seq().take(it.index() as int),
            it.seq() == s@,
    {
        v.push(c);
    }
    v
}

/// Collects characters into a `String` with std's `FromIterator<&char>` for
/// `String`; the string holds exactly those characters, in order.
#[verifier::external_body]
pub(crate) fn string_from_chars(v: &Vec<char>) -> (s: String)
    ensures
        s@ == v@,
{
    v.iter().collect()
}

/// A copy of `s` as a `String`.
pub fn string_of(s: &str) -> (r: String)
    ensures
        r@ == s@,
{
    String::from_str(s)
}

/// Whether `c` has the Unicode `White_Space` property, which is what
/// `char::is_whitespace` and `str::trim` go by.
pub open spec fn is_white_space(c: char) -> bool {
    ||| ('\u{9}' <= c && c <= '\u{d}')
    ||| c == ' '
    ||| c == '\u{85}'
    ||| c == '\u{a0}'
    ||| c == '\u{1680}'
    ||| ('\u{2000}' <= c && c <= '\u{200a}')
    ||| c == '\u{2028}'
    ||| c == '\u{2029}'
    ||| c == '\u{202f}'
    ||| c == '\u{205f}'
    ||| c == '\u{3000}'
}

/// Whether `c` is white space.
pub fn is_whitespace(c: char) -> (b: bool)
    ensures
        b == is_white_space(c),
{
    ('\u{9}' <= c && c <= '\u{d}') || c == ' ' || c == '\u{85}' || c == '\u{a0}' || c
        == '\u{1680}' || ('\u{2000}' <= c && c <= '\u{200a}') || c == '\u{2028}' || c
        == '\u{2029}' || c == '\u{202f}' || c == '\u{205f}' || c == '\u{3000}'
}

/// `s` without its leading white space.
pub open spec fn trim_start_ws(s: Seq<char>) -> Seq<char>
    decreases s.len(),
{
    if s.len() > 0 && is_white_space(s[0]) {
        trim_start_ws(s.drop_first())
    } else {
        s
    }
}

/// `s` without its trailing white space.
pub open spec fn trim_end_ws(s: Seq<char>) -> Seq<char>
    decreases s.len(),
{
    if s.len() > 0 && is_white_space(s.last()) {
        trim_end_ws(s.drop_last())
    } else {
        s
    }
}

/// `s` without leading and trailing white space, as `str::trim` returns it.
pub open spec fn trim_ws(s: Seq<char>) -> Seq<char> {
    trim_end_ws(trim_start_ws(s))
}

/// `s` without the leading run of `c`, as `str::trim_start_matches(c)` returns it.
pub open spec fn trim_start_char(s: Seq<char>, c: char) -> Seq<char>
    decreases s.len(),
{
    if s.len() > 0 && s[0] == c {
        trim_start_char(s.drop_first(), c)
    } else {
        s
    }
}

/// `s` without the trailing run of `c`, as `str::trim_end_matches(c)` returns it.
pub open spec fn trim_end_char(s: Seq<char>, c: char) -> Seq<char>
    decreases s.len(),
{
    if s.len() > 0 && s.last() == c {
        trim_end_char(s.drop_last(), c)
    } else {
        s
    }
}

/// `s` without leading and trailing runs of `c`, as `str::trim_matches(c)` returns it.
pub open spec fn trim_char(s: Seq<char>, c: char) -> Seq<char> {
    trim_end_char(trim_start_char(s, c), c)
}

/// The characters of `v` from `start` up to `end`.
pub fn sub_chars(v: &Vec<char>, start: usize, end: usize) -> (r: Vec<char>)
    requires
        start <= end <= v@.len(),
    ensures
        r@ == v@.subrange(start as int, end as int),
{
    let mut r: Vec<char> = Vec::new();
    let mut i = start;
    while i < end
        invariant
            start <= i <= end <= v@.len(),
            r@ == v@.subrange(start as int, i as int),
        decreases end - i,
    {
        r.push(v[i]);
        proof {
            assert(v@.subrange(start as int, i + 1) =~= v@.subrange(start as int, i as int).push(
                v@[i as int],
            ));
        }
        i = i + 1;
    }
    r
}

proof fn lemma_trim_start_ws_skip(s: Seq<char>, i: int)
    requires
        0 <= i < s.len(),
        is_white_space(s[i]),
    ensures
        trim_start_ws(s.skip(i)) == trim_start_ws(s.skip(i + 1)),
{
    assert(s.skip(i).drop_first() =~= s.skip(i + 1));
}

proof fn lemma_trim_end_ws_take(s: Seq<char>, j: int)
    requires
        0 < j <= s.len(),
        is_white_space(s[j - 1]),
    ensures
        trim_end_ws(s.take(j)) == trim_end_ws(s.take(j - 1)),
{
    assert(s.take(j).drop_last() =~= s.take(j - 1));
}

proof fn lemma_trim_start_char_skip(s: Seq<char>, c: char, i: int)
    requires
        0 <= i < s.len(),
        s[i] == c,
    ensures
        trim_start_char(s.skip(i), c) == trim_start_char(s.skip(i + 1), c),
{
    assert(s.skip(i).drop_first() =~= s.skip(i + 1));
}

proof fn lemma_trim_end_char_take(s: Seq<char>, c: char, j: int)
    requires
        0 < j <= s.len(),
        s[j - 1] == c,
    ensures
        trim_end_char(s.take(j), c) == trim_end_char(s.take(j - 1), c),
{
    assert(s.take(j).drop_last() =~= s.take(j - 1));
}

/// `v` without leading and trailing white space.
pub fn trim(v: &Vec<char>) -> (r: Vec<char>)
    ensures
        r@ == trim_ws(v@),
{
    let n = v.len();
    let mut i: usize = 0;
    assert(v@.skip(0) =~= v@);
    while i < n && is_whitespace(v[i])
        invariant
            i <= n == v@.len(),
            trim_start_ws(v@) == trim_start_ws(v@.skip(i as int)),
        decreases n - i,
    {
        proof {
            lemma_trim_start_ws_skip(v@, i as int);
        }
        i = i + 1;
    }
    let ghost start = v@.skip(i as int);
    assert(trim_start_ws(start) == start);
    let mut j: usize = n;
    assert(start.take(n - i) =~= start);
    while j > i && is_whitespace(v[j - 1])
        invariant
            i <= j <= n == v@.len(),
            start == v@.skip(i as int),
            trim_end_ws(start) == trim_end_ws(start.take(j - i)),
        decreases j,
    {
        proof {
            lemma_trim_end_ws_take(start, j - i);
        }
        j = j - 1;
    }
    assert(trim_end_ws(start.take(j - i)) == start.take(j - i));
    assert(start.take(j - i) =~= v@.subrange(i as int, j as int));
    sub_chars(v, i, j)
}

/// `v` without the leading run of `c`.
pub fn trim_start_matches(v: &Vec<char>, c: char) -> (r: Vec<char>)
    ensures
        r@ == trim_start_char(v@, c),
{
    let n = v.len();
    let mut i: usize = 0;
    assert(v@.skip(0) =~= v@);
    while i < n && v[i] == c
        invariant
            i <= n == v@.len(),
            trim_start_char(v@, c) == trim_start_char(v@.skip(i as int), c),
        decreases n - i,
    {
        proof {
            lemma_trim_start_char_skip(v@, c, i as int);
        }
        i = i + 1;
    }
    assert(trim_start_char(v@.skip(i as int), c) == v@.skip(i as int));
    assert(v@.skip(i as int) =~= v@.subrange(i as int, n as int));
    sub_chars(v, i, n)
}

/// `v` without the trailing run of `c`.
pub fn trim_end_matches(v: &Vec<char>, c: char) -> (r: Vec<char>)
    ensures
        r@ == trim_end_char(v@, c),
{
    let n = v.len();
    let mut j: usize = n;
    assert(v@.take(n as int) =~= v@);
    while j > 0 && v[j - 1] == c
        invariant
            j <= n == v@.len(),
            trim_end_char(v@, c) == trim_end_char(v@.take(j as int), c),
        decreases j,
    {
        proof {
            lemma_trim_end_char_take(v@, c, j as int);
        }
        j = j - 1;
    }
    assert(v@.take(n as int) =~= v@);
    assert(trim_end_char(v@.take(j as int), c) == v@.take(j as int));
    assert(v@.take(j as int) =~= v@.subrange(0, j as int));
    sub_chars(v, 0, j)
}

/// `v` without leading and trailing runs of `c`.
pub fn trim_matches(v: &Vec<char>, c: char) -> (r: Vec<char>)
    ensures
        r@ == trim_char(v@, c),
{
    let s = trim_start_matches(v, c);
    trim_end_matches(&s, c)
}

/// Whether `a` and `b` hold the same characters.
pub fn chars_eq(a: &Vec<char>, b: &Vec<char>) -> (r: bool)
    ensures
        r == (a@ == b@),
{
    if a.len() != b.len() {
        return false;
    }
    let mut i: usize = 0;
    while i < a.len()
        invariant
            a@.len() == b@.len(),
            i <= a@.len(),
            forall|k: int| 0 <= k < i ==> a@[k] == b@[k],
        decreases a.len() - i,
    {
        if a[i] != b[i] {
            return false;
        }
        i = i + 1;
    }
    assert(a@ =~= b@);
    true
}

/// Whether the characters of `a` are those of the text `b`.
pub fn chars_eq_str(a: &Vec<char>, b: &str) -> (r: bool)
    ensures
        r == (a@ == b@),
{
    let bv = chars_of(b);
    chars_eq(a, &bv)
}

/// `a` followed by `b`.
pub fn concat_chars(a: &Vec<char>, b: &Vec<char>) -> (r: Vec<char>)
    ensures
        r@ == a@ + b@,
{
    let mut r = sub_chars(a, 0, a.len());
    let mut i: usize = 0;
    while i < b.len()
        invariant
            i <= b@.len(),
            r@ == a@ + b@.take(i as int),
        decreases b.len() - i,
    {
        r.push(b[i]);
        proof {
            assert(b@.take(i + 1) =~= b@.take(i as int).push(b@[i as int]));
        }
        i = i + 1;
    }
    assert(a@.subrange(0, a@.len() as int) =~= a@);
    assert(b@.take(b@.len() as int) =~= b@);
    r
}

/// Whether `pat` occurs in `s` at index `i`.
pub open spec fn matches_at(s: Seq<char>, pat: Seq<char>, i: int) -> bool {
    0 <= i && i + pat.len() <= s.len() && s.subrange(i, i + pat.len()) == pat
}

/// The first index at or after `i` where `pat` occurs in `s`.
pub open spec fn first_match_from(s: Seq<char>, pat: Seq<char>, i: int) -> Option<int>
    decreases s.len() + 1 - i,
{
    if i < 0 || i + pat.len() > s.len() {
        None
    } else if matches_at(s, pat, i) {
        Some(i)
    } else {
        first_match_from(s, pat, i + 1)
    }
}

/// A match that `first_match_from` finds lies inside `s`, at or after `i`, and
/// there is none between `i` and it.
pub proof fn lemma_first_match_from(s: Seq<char>, pat: Seq<char>, i: int)
    ensures
        first_match_from(s, pat, i) matches Some(k) ==> i <= k && k + pat.len() <= s.len()
            && matches_at(s, pat, k) && forall|m: int| i <= m < k ==> !matches_at(s, pat, m),
        first_match_from(s, pat, i) is None && i >= 0 ==> forall|m: int|
            i <= m ==> !matches_at(s, pat, m),
    decreases s.len() + 1 - i,
{
    if i < 0 || i + pat.len() > s.len() {
    } else if matches_at(s, pat, i) {
    } else {
        lemma_first_match_from(s, pat, i + 1);
    }
}

/// The pieces of `s` between the non-overlapping occurrences of the non-empty
/// pattern `pat`, found from left to right, as `str::split` returns them.
pub open spec fn split_on(s: Seq<char>, pat: Seq<char>) -> Seq<Seq<char>>
    decreases s.len(),
{
    if pat.len() == 0 {
        seq![s]
    } else {
        match first_match_from(s, pat, 0) {
            None => seq![s],
            Some(k) => {
                proof {
                    lemma_first_match_from(s, pat, 0);
                }
                seq![s.take(k)] + split_on(s.skip(k + pat.len()), pat)
            },
        }
    }
}

/// Whether `pat` occurs in `v` at index `i`.
pub fn matches_at_exec(v: &Vec<char>, pat: &Vec<char>, i: usize) -> (b: bool)
    ensures
        b == matches_at(v@, pat@, i as int),
{
    if pat.len() > v.len() || i > v.len() - pat.len() {
        return false;
    }
    let mut k: usize = 0;
    while k < pat.len()
        invariant
            i + pat@.len() <= v@.len(),
            v@.len() <= usize::MAX,
            k <= pat@.len(),
            forall|m: int| 0 <= m < k ==> v@[i + m] == pat@[m],
        decreases pat.len() - k,
    {
        if v[i + k] != pat[k] {
            assert(v@.subrange(i as int, i + pat@.len())[k as int] != pat@[k as int]);
            return false;
        }
        k = k + 1;
    }
    assert(v@.subrange(i as int, i + pat@.len()) =~= pat@);
    true
}

proof fn lemma_matches_at_skip(s: Seq<char>, pat: Seq<char>, start: int, m: int)
    requires
        0 <= start <= s.len(),
        0 <= m,
    ensures
        matches_at(s.skip(start), pat, m) == matches_at(s, pat, start + m),
{
    if matches_at(s, pat, start + m) {
        assert(s.skip(start).subrange(m, m + pat.len()) =~= s.subrange(
            start + m,
            start + m + pat.len(),
        ));
    }
    if matches_at(s.skip(start), pat, m) {
        assert(s.skip(start).subrange(m, m + pat.len()) =~= s.subrange(
            start + m,
            start + m + pat.len(),
        ));
    }
}

proof fn lemma_first_match_none_before(s: Seq<char>, pat: Seq<char>, i: int)
    requires
        0 <= i,
        forall|m: int| 0 <= m < i ==> !matches_at(s, pat, m),
    ensures
        first_match_from(s, pat, 0) == first_match_from(s, pat, i),
    decreases i,
{
    if i > 0 {
        lemma_first_match_none_before(s, pat, i - 1);
        if !(i - 1 + pat.len() > s.len()) {
            assert(!matches_at(s, pat, i - 1));
        } else {
            lemma_first_match_from(s, pat, i - 1);
            lemma_first_match_from(s, pat, i);
        }
    }
}

/// The views of a list of character vectors.
pub open spec fn views(v: Seq<Vec<char>>) -> Seq<Seq<char>> {
    v.map_values(|x: Vec<char>| x@)
}

/// The pieces of `v` between the occurrences of the non-empty pattern `pat`.
pub fn split(v: &Vec<char>, pat: &Vec<char>) -> (pieces: Vec<Vec<char>>)
    requires
        pat@.len() > 0,
    ensures
        views(pieces@) == split_on(v@, pat@),
{
    let n = v.len();
    let plen = pat.len();
    let mut out: Vec<Vec<char>> = Vec::new();
    let mut start: usize = 0;
    let mut i: usize = 0;
    assert(v@.skip(0) =~= v@);
    assert(views(out@) + split_on(v@, pat@) =~= split_on(v@, pat@));
    while i <= n && plen <= n - i
        invariant
            n == v@.len(),
            plen == pat@.len() > 0,
            start <= i <= n,
            views(out@) + split_on(v@.skip(start as int), pat@) == split_on(v@, pat@),
            forall|m: int| start <= m < i ==> !matches_at(v@, pat@, m),
        decreases n - i,
    {
        if matches_at_exec(v, pat, i) {
            let ghost rest = v@.skip(start as int);
            proof {
                assert forall|m: int| 0 <= m < i - start implies !matches_at(rest, pat@, m) by {
                    lemma_matches_at_skip(v@, pat@, start as int, m);
                }
                lemma_matches_at_skip(v@, pat@, start as int, i - start);
                lemma_first_match_none_before(rest, pat@, i - start);
                assert(rest.take(i - start) =~= v@.subrange(start as int, i as int));
                assert(rest.skip(i - start + plen) =~= v@.skip(i + plen));
            }
            let piece = sub_chars(v, start, i);
            out.push(piece);
            proof {
                assert(views(out@) =~= views(out@.drop_last()).push(piece@));
            }
            start = i + plen;
            i = start;
        } else {
            i = i + 1;
        }
    }
    let ghost rest = v@.skip(start as int);
    proof {
        assert forall|m: int| 0 <= m implies !matches_at(rest, pat@, m) by {
            lemma_matches_at_skip(v@, pat@, start as int, m);
            if start + m < i {
            } else {
                assert(start + m + plen > n);
            }
        }
        lemma_first_match_from(rest, pat@, 0);
        assert(rest =~= v@.subrange(start as int, n as int));
    }
    let last = sub_chars(v, start, n);
    out.push(last);
    proof {
        assert(views(out@) =~= views(out@.drop_last()).push(last@));
    }
    out
}


/// `c` with `A`..`Z` mapped to `a`..`z`, as `char::to_ascii_lowercase` returns it.
pub open spec fn ascii_lower_char(c: char) -> char {
    if 'A' <= c && c <= 'Z' {
        ((c as u32) + 32) as char
    } else {
        c
    }
}

/// `c` with `a`..`z` mapped to `A`..`Z`, as `char::to_ascii_uppercase` returns it.
pub open spec fn ascii_upper_char(c: char) -> char {
    if 'a' <= c && c <= 'z' {
        ((c as u32) - 32) as char
    } else {
        c
    }
}

/// `s` with ASCII letters in lower case, as `str::to_ascii_lowercase` returns it.
pub open spec fn ascii_lower(s: Seq<char>) -> Seq<char> {
    s.map_values(|c: char| ascii_lower_char(c))
}

/// `s` with ASCII letters in upper case, as `str::to_ascii_uppercase` returns it.
pub open spec fn ascii_upper(s: Seq<char>) -> Seq<char> {
    s.map_values(|c: char| ascii_upper_char(c))
}

/// `c` in ASCII lower case.
pub fn to_ascii_lower_char(c: char) -> (r: char)
    ensures
        r == ascii_lower_char(c),
{
    if 'A' <= c && c <= 'Z' {
        let b = (c as u8) + 32;
        b as char
    } else {
        c
    }
}

/// `c` in ASCII upper case.
pub fn to_ascii_upper_char(c: char) -> (r: char)
    ensures
        r == ascii_upper_char(c),
{
    if 'a' <= c && c <= 'z' {
        let b = (c as u8) - 32;
        b as char
    } else {
        c
    }
}

/// `v` with ASCII letters in lower case.
pub fn to_ascii_lowercase(v: &Vec<char>) -> (r: Vec<char>)
    ensures
        r@ == ascii_lower(v@),
{
    let mut r: Vec<char> = Vec::new();
    let mut i: usize = 0;
    while i < v.len()
        invariant
            i <= v@.len(),
            r@ == ascii_lower(v@.take(i as int)),
        decreases v.len() - i,
    {
        r.push(to_ascii_lower_char(v[i]));
        proof {
            assert(ascii_lower(v@.take(i + 1)) =~= ascii_lower(v@.take(i as int)).push(
                ascii_lower_char(v@[i as int]),
            ));
        }
        i = i + 1;
    }
    assert(v@.take(v@.len() as int) =~= v@);
    r
}

/// `v` with ASCII letters in upper case.
pub fn to_ascii_uppercase(v: &Vec<char>) -> (r: Vec<char>)
    ensures
        r@ == ascii_upper(v@),
{
    let mut r: Vec<char> = Vec::new();
    let mut i: usize = 0;
    while i < v.len()
        invariant
            i <= v@.len(),
            r@ == ascii_upper(v@.take(i as int)),
        decreases v.len() - i,
    {
        r.push(to_ascii_upper_char(v[i]));
        proof {
            assert(ascii_upper(v@.take(i + 1)) =~= ascii_upper(v@.take(i as int)).push(
                ascii_upper_char(v@[i as int]),
            ));
        }
        i = i + 1;
    }
    assert(v@.take(v@.len() as int) =~= v@);
    r
}

/// Whether `a` and `b` are equal up to ASCII case, as `str::eq_ignore_ascii_case` decides.
pub open spec fn eq_ignore_ascii_case(a: Seq<char>, b: Seq<char>) -> bool {
    ascii_lower(a) == ascii_lower(b)
}

/// The part of `s` before the first `c` and, if `c` occurs, the part after
/// it, as `str::split_once(c)` returns them (with `splitn(2, c)` giving the
/// same two parts).
pub open spec fn split_once_char(s: Seq<char>, c: char) -> (Seq<char>, Option<Seq<char>>) {
    match first_match_from(s, seq![c], 0) {
        None => (s, None),
        Some(k) => (s.take(k), Some(s.skip(k + 1))),
    }
}

/// The index of the first `c` in `v`, if any.
pub fn find_char(v: &Vec<char>, c: char) -> (r: Option<usize>)
    ensures
        r matches Some(k) ==> first_match_from(v@, seq![c], 0) == Some(k as int),
        r is None ==> first_match_from(v@, seq![c], 0) is None,
{
    let mut i: usize = 0;
    while i < v.len()
        invariant
            i <= v@.len(),
            forall|m: int| 0 <= m < i ==> v@[m] != c,
        decreases v.len() - i,
    {
        if v[i] == c {
            proof {
                assert forall|m: int| 0 <= m < i implies !matches_at(v@, seq![c], m) by {
                    assert(v@.subrange(m, m + 1)[0] == v@[m]);
                }
                lemma_first_match_none_before(v@, seq![c], i as int);
                assert(v@.subrange(i as int, i + 1) =~= seq![c]);
            }
            return Some(i);
        }
        i = i + 1;
    }
    proof {
        assert forall|m: int| 0 <= m < v@.len() implies !matches_at(v@, seq![c], m) by {
            assert(v@.subrange(m, m + 1)[0] == v@[m]);
        }
        lemma_first_match_none_before(v@, seq![c], v@.len() as int);
    }
    None
}

/// The parts of `v` around its first `c`.
pub fn split_once(v: &Vec<char>, c: char) -> (r: (Vec<char>, Option<Vec<char>>))
    ensures
        r.0@ == split_once_char(v@, c).0,
        match (r.1, split_once_char(v@, c).1) {
            (Some(a), Some(b)) => a@ == b,
            (None, None) => true,
            _ => false,
        },
{
    match find_char(v, c) {
        None => (sub_chars(v, 0, v.len()), None),
        Some(k) => {
            proof {
                lemma_first_match_from(v@, seq![c], 0);
            }
            let n = v.len();
            let before = sub_chars(v, 0, k);
            let after = sub_chars(v, k + 1, n);
            proof {
                assert(before@ =~= v@.take(k as int));
                assert(after@ =~= v@.skip(k + 1));
            }
            (before, Some(after))
        },
    }
}

/// What `str::to_lowercase` returns for text `s`: the Unicode lower-case
/// mapping of each character, which may change the length.
pub uninterp spec fn unicode_lowercase(s: Seq<char>) -> Seq<char>;

/// Lower-cases `s` with `str::to_lowercase` (the Unicode `Lowercase` mapping);
/// the result is named, not stated.
#[verifier::external_body]
pub(crate) fn to_lowercase(s: &str) -> (r: String)
    ensures
        r@ == unicode_lowercase(s@),
{
    s.to_lowercase()
}

/// Whether `v` starts with `c`.
pub fn starts_with_char(v: &Vec<char>, c: char) -> (b: bool)
    ensures
        b == (v@.len() > 0 && v@[0] == c),
{
    v.len() > 0 && v[0] == c
}

/// Whether `v` ends with `c`.
pub fn ends_with_char(v: &Vec<char>, c: char) -> (b: bool)
    ensures
        b == (v@.len() > 0 && v@.last() == c),
{
    v.len() > 0 && v[v.len() - 1] == c
}

/// Trimming twice is trimming once.
pub proof fn lemma_trim_ws_idempotent(s: Seq<char>)
    ensures
        trim_ws(trim_ws(s)) == trim_ws(s),
    decreases s.len(),
{
    lemma_trim_start_ws_fixed(s);
    lemma_trim_end_ws_keeps_start(trim_start_ws(s));
    lemma_trim_end_ws_fixed(trim_start_ws(s));
}

proof fn lemma_trim_start_ws_fixed(s: Seq<char>)
    ensures
        trim_start_ws(trim_start_ws(s)) == trim_start_ws(s),
        trim_start_ws(s).len() > 0 ==> !is_white_space(trim_start_ws(s)[0]),
    decreases s.len(),
{
    if s.len() > 0 && is_white_space(s[0]) {
        lemma_trim_start_ws_fixed(s.drop_first());
    }
}

proof fn lemma_trim_end_ws_fixed(s: Seq<char>)
    ensures
        trim_end_ws(trim_end_ws(s)) == trim_end_ws(s),
        trim_end_ws(s).len() > 0 ==> !is_white_space(trim_end_ws(s).last()),
    decreases s.len(),
{
    if s.len() > 0 && is_white_space(s.last()) {
        lemma_trim_end_ws_fixed(s.drop_last());
    }
}

proof fn lemma_trim_end_ws_keeps_start(s: Seq<char>)
    requires
        s.len() > 0 ==> !is_white_space(s[0]),
    ensures
        trim_start_ws(trim_end_ws(s)) == trim_end_ws(s),
    decreases s.len(),
{
    if s.len() > 0 && is_white_space(s.last()) {
        if s.len() > 1 {
            assert(s.drop_last()[0] == s[0]);
        }
        lemma_trim_end_ws_keeps_start(s.drop_last());
    }
}


/// Whether `pat` occurs somewhere in `s`, as `str::contains` decides.
pub open spec fn contains_seq(s: Seq<char>, pat: Seq<char>) -> bool {
    exists|i: int| matches_at(s, pat, i)
}

/// Whether `pat` occurs in `v`.
pub fn contains(v: &Vec<char>, pat: &Vec<char>) -> (b: bool)
    ensures
        b == contains_seq(v@, pat@),
{
    if pat.len() > v.len() {
        return false;
    }
    let last = v.len() - pat.len();
    let mut i: usize = 0;
    loop
        invariant_except_break
            last + pat@.len() == v@.len(),
            i <= last,
            forall|m: int| 0 <= m < i ==> !matches_at(v@, pat@, m),
        ensures
            forall|m: int| 0 <= m <= last ==> !matches_at(v@, pat@, m),
        decreases last - i,
    {
        if matches_at_exec(v, pat, i) {
            return true;
        }
        if i == last {
            break;
        }
        i = i + 1;
    }
    assert forall|m: int| !matches_at(v@, pat@, m) by {
        if 0 <= m <= last {
        }
    }
    false
}

/// Whether `v` begins with `pat`, as `str::starts_with` decides.
pub fn starts_with(v: &Vec<char>, pat: &Vec<char>) -> (b: bool)
    ensures
        b == matches_at(v@, pat@, 0),
{
    matches_at_exec(v, pat, 0)
}

/// The index of the last `c` in `s`.
pub open spec fn rfind_char(s: Seq<char>, c: char) -> Option<int>
    decreases s.len(),
{
    if s.len() == 0 {
        None
    } else if s.last() == c {
        Some(s.len() - 1)
    } else {
        rfind_char(s.drop_last(), c)
    }
}

proof fn lemma_rfind_char_from(s: Seq<char>, c: char, i: int)
    requires
        0 <= i <= s.len(),
        forall|m: int| i <= m < s.len() ==> s[m] != c,
    ensures
        rfind_char(s, c) == rfind_char(s.take(i), c),
    decreases s.len() - i,
{
    if i < s.len() {
        assert(s.drop_last().take(i) =~= s.take(i));
        lemma_rfind_char_from(s.drop_last(), c, i);
    } else {
        assert(s.take(i) =~= s);
    }
}

/// The parts of `s` before and after its last `c`, as `str::rsplit_once(c)`
/// returns them, or `None` when `c` does not occur.
pub open spec fn rsplit_once_char(s: Seq<char>, c: char) -> Option<(Seq<char>, Seq<char>)> {
    match rfind_char(s, c) {
        Some(k) => Some((s.take(k), s.skip(k + 1))),
        None => None,
    }
}

/// The parts of `v` around its last `c`, if it occurs.
pub fn rsplit_once(v: &Vec<char>, c: char) -> (r: Option<(Vec<char>, Vec<char>)>)
    ensures
        match (r, rsplit_once_char(v@, c)) {
            (Some((a, b)), Some((x, y))) => a@ == x && b@ == y,
            (None, None) => true,
            _ => false,
        },
{
    let n = v.len();
    let mut i: usize = n;
    while i > 0
        invariant
            i <= n == v@.len(),
            forall|m: int| i <= m < n ==> v@[m] != c,
        decreases i,
    {
        if v[i - 1] == c {
            proof {
                lemma_rfind_char_from(v@, c, i as int);
                assert(v@.take(i as int).last() == c);
            }
            let before = sub_chars(v, 0, i - 1);
            let after = sub_chars(v, i, n);
            proof {
                assert(before@ =~= v@.take(i - 1));
                assert(after@ =~= v@.skip(i as int));
            }
            return Some((before, after));
        }
        i = i - 1;
    }
    proof {
        lemma_rfind_char_from(v@, c, 0);
        assert(v@.take(0) =~= Seq::<char>::empty());
    }
    None
}

/// A copy of an optional string.
pub fn clone_opt_string(o: &Option<String>) -> (r: Option<String>)
    ensures
        r == *o,
{
    match o {
        Some(s) => Some(s.clone()),
        None => None,
    }
}

} // verus!
