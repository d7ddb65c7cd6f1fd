use vstd::prelude::*;
use vstd::string::{StrSliceExecFns, StringExecFns};

verus! {

/// The phrase of the power-management report that precedes the names of the
/// applications keeping the display awake.
pub const PREVENTED_BY: &'static str = "display sleep prevented by";

/// Unicode White_Space, the characters that `str::trim` removes.
pub open spec fn white_space(c: char) -> bool {
    ||| ('\u{9}' <= c && c <= '\u{d}')
    ||| c == ' '
    ||| c == '\u{85}'
    ||| c == '\u{a0}'
    ||| c == '\u{1680}'
    ||| ('\u{2000}' <= c && c <= '\u{200a}')
    ||| c == '\u{2028}'
    ||| c == '\u{2029}'
    ||| c == '\u{202f}'
    ||| c == '\u{205f}'
    ||| c == '\u{3000}'
}

pub fn is_white_space(c: char) -> (r: bool)
    ensures
        r == white_space(c),
{
    ('\u{9}' <= c && c <= '\u{d}') || c == ' ' || c == '\u{85}' || c == '\u{a0}' || c == '\u{1680}'
        || ('\u{2000}' <= c && c <= '\u{200a}') || c == '\u{2028}' || c == '\u{2029}'
        || c == '\u{202f}' || c == '\u{205f}' || c == '\u{3000}'
}

/// Whether `pat` occurs in `s` at index `i`.
pub open spec fn occurs_at(s: Seq<char>, pat: Seq<char>, i: int) -> bool {
    0 <= i && i + pat.len() <= s.len() && s.subrange(i, i + pat.len()) == pat
}

/// The first index from `i` on where `pat` occurs in `s`.
pub open spec fn find_spec(s: Seq<char>, pat: Seq<char>, i: int) -> Option<int>
    decreases s.len() + 1 - i,
{
    if i < 0 || i + pat.len() > s.len() {
        None
    } else if occurs_at(s, pat, i) {
        Some(i)
    } else {
        find_spec(s, pat, i + 1)
    }
}

/// The first index in `[from, to)` holding `c`, or `to`.
pub open spec fn index_of(s: Seq<char>, c: char, from: int, to: int) -> int
    decreases to - from,
{
    if from >= to {
        to
    } else if s[from] == c {
        from
    } else {
        index_of(s, c, from + 1, to)
    }
}

/// The first index in `[from, to)` not holding white space, or `to`.
pub open spec fn skip_front(s: Seq<char>, from: int, to: int) -> int
    decreases to - from,
{
    if from >= to {
        to
    } else if !white_space(s[from]) {
        from
    } else {
        skip_front(s, from + 1, to)
    }
}

/// The end of `[from, to)` once trailing white space is dropped.
pub open spec fn skip_back(s: Seq<char>, from: int, to: int) -> int
    decreases to - from,
{
    if from >= to {
        from
    } else if !white_space(s[to - 1]) {
        to
    } else {
        skip_back(s, from, to - 1)
    }
}

/// The first application named after the phrase: the text up to the next
/// `)` (or the end), then up to the first comma, trimmed; none if empty.
pub open spec fn first_app(s: Seq<char>) -> Option<Seq<char>> {
    match find_spec(s, PREVENTED_BY@, 0) {
        None => None,
        Some(k) => {
            let start = k + PREVENTED_BY@.len();
            let close = index_of(s, ')', start, s.len() as int);
            let comma = index_of(s, ',', start, close);
            let a = skip_front(s, start, comma);
            let b = skip_back(s, a, comma);
            if a == b { None } else { Some(s.subrange(a, b)) }
        },
    }
}

fn occurs_at_exec(s: &str, n: usize, pat: &str, m: usize, i: usize) -> (r: bool)
    requires
        n == s@.len(),
        m == pat@.len(),
        i + m <= n,
    ensures
        r == occurs_at(s@, pat@, i as int),
{
    let mut j: usize = 0;
    while j < m
        invariant
            j <= m,
            n == s@.len(),
            m == pat@.len(),
            i + m <= n,
            forall|t: int| 0 <= t < j ==> s@[i + t] == pat@[t],
        decreases m - j,
    {
        if s.get_char(i + j) != pat.get_char(j) {
            assert(s@.subrange(i as int, i + m)[j as int] != pat@[j as int]);
            return false;
        }
        j = j + 1;
    }
    assert(s@.subrange(i as int, i + m) =~= pat@);
    true
}

fn find_exec(s: &str, n: usize, pat: &str, m: usize) -> (r: Option<usize>)
    requires
        n == s@.len(),
        m == pat@.len(),
    ensures
        r matches Some(k) ==> find_spec(s@, pat@, 0) == Some(k as int),
        r is None ==> find_spec(s@, pat@, 0) is None,
{
    if m > n {
        return None;
    }
    let mut i: usize = 0;
    while i <= n - m
        invariant
            n == s@.len(),
            m == pat@.len(),
            m <= n,
            i <= n - m + 1,
            find_spec(s@, pat@, 0) == find_spec(s@, pat@, i as int),
        decreases n - m + 1 - i,
    {
        if occurs_at_exec(s, n, pat, m, i) {
            return Some(i);
        }
        if i == n - m {
            assert(find_spec(s@, pat@, i + 1) is None);
            return None;
        }
        i = i + 1;
    }
    None
}

fn index_of_exec(s: &str, c: char, from: usize, to: usize) -> (r: usize)
    requires
        from <= to <= s@.len(),
    ensures
        r == index_of(s@, c, from as int, to as int),
        from <= r <= to,
{
    let mut i = from;
    while i < to
        invariant
            from <= i <= to <= s@.len(),
            index_of(s@, c, from as int, to as int) == index_of(s@, c, i as int, to as int),
        decreases to - i,
    {
        if s.get_char(i) == c {
            return i;
        }
        i = i + 1;
    }
    to
}

fn skip_front_exec(s: &str, from: usize, to: usize) -> (r: usize)
    requires
        from <= to <= s@.len(),
    ensures
        r == skip_front(s@, from as int, to as int),
        from <= r <= to,
{
    let mut i = from;
    while i < to
        invariant
            from <= i <= to <= s@.len(),
            skip_front(s@, from as int, to as int) == skip_front(s@, i as int, to as int),
        decreases to - i,
    {
        if !is_white_space(s.get_char(i)) {
            return i;
        }
        i = i + 1;
    }
    to
}

fn skip_back_exec(s: &str, from: usize, to: usize) -> (r: usize)
    requires
        from <= to <= s@.len(),
    ensures
        r == skip_back(s@, from as int, to as int),
        from <= r <= to,
{
    let mut j = to;
    while j > from
        invariant
            from <= j <= to <= s@.len(),
            skip_back(s@, from as int, to as int) == skip_back(s@, from as int, j as int),
        decreases j - from,
    {
        if !is_white_space(s.get_char(j - 1)) {
            return j;
        }
        j = j - 1;
    }
    from
}

/// The first application that a power-management report names as keeping the
/// display awake.
pub fn extract_first_app(output_str: &str) -> (r: Option<String>)
    ensures
        r matches Some(name) ==> first_app(output_str@) == Some(name@),
        r is None ==> first_app(output_str@) is None,
{
    let n = output_str.unicode_len();
    let m = PREVENTED_BY.unicode_len();
    match find_exec(output_str, n, PREVENTED_BY, m) {
        None => None,
        Some(k) => {
            proof {
                assert(occurs_at(output_str@, PREVENTED_BY@, k as int)) by {
                    lemma_find_occurs(output_str@, PREVENTED_BY@, 0);
                }
            }
            let start = k + m;
            let close = index_of_exec(output_str, ')', start, n);
            let comma = index_of_exec(output_str, ',', start, close);
            let a = skip_front_exec(output_str, start, comma);
            let b = skip_back_exec(output_str, a, comma);
            if a == b {
                None
            } else {
                Some(String::from_str(output_str.substring_char(a, b)))
            }
        },
    }
}

proof fn lemma_find_occurs(s: Seq<char>, pat: Seq<char>, i: int)
    ensures
        find_spec(s, pat, i) matches Some(k) ==> occurs_at(s, pat, k),
    decreases s.len() + 1 - i,
{
    if !(i < 0 || i + pat.len() > s.len()) && !occurs_at(s, pat, i) {
        lemma_find_occurs(s, pat, i + 1);
    }
}

} // verus!
