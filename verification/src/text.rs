//! Character-level text utilities: substring search, trimming, and decimal
//! digit handling over `Seq<char>` models.
//!
//! Every parser in this crate is specified in terms of `spec_find`, the
//! first occurrence of a pattern inside a line, so its definition here is
//! the single point of truth for what "the line contains a marker" means.

use vstd::prelude::*;
use vstd::string::StrSliceExecFns;
use vstd::string::StringExecFns;

verus! {

/// The pattern `pat` occurs in `s` starting at index `i`.
pub open spec fn match_at(s: Seq<char>, pat: Seq<char>, i: int) -> bool {
    &&& 0 <= i
    &&& i + pat.len() <= s.len()
    &&& s.subrange(i, i + pat.len() as int) == pat
}

/// Index of the first occurrence of `pat` in `s` at or after `i`.  An
/// empty pattern counts as never occurring; every marker sought in this
/// crate is a non-empty literal.
pub open spec fn find_from(s: Seq<char>, pat: Seq<char>, i: int) -> Option<int>
    decreases s.len() - i,
{
    if pat.len() <= 0 || i + pat.len() > s.len() {
        None
    } else if match_at(s, pat, i) {
        Some(i)
    } else {
        find_from(s, pat, i + 1)
    }
}

/// Index of the first occurrence of `pat` in `s`, if any.
pub open spec fn spec_find(s: Seq<char>, pat: Seq<char>) -> Option<int> {
    find_from(s, pat, 0)
}

pub open spec fn spec_contains(s: Seq<char>, pat: Seq<char>) -> bool {
    spec_find(s, pat) is Some
}

/// `find_from` returns the first match at or after `i`, and `None` only
/// when no position at or after `i` matches.
pub proof fn lemma_find_from_props(s: Seq<char>, pat: Seq<char>, i: int)
    requires
        0 <= i,
        pat.len() > 0,
    ensures
        match find_from(s, pat, i) {
            Some(j) => {
                &&& i <= j
                &&& match_at(s, pat, j)
                &&& forall|k: int| i <= k < j ==> !match_at(s, pat, k)
            },
            None => forall|k: int| i <= k ==> !match_at(s, pat, k),
        },
    decreases s.len() - i,
{
    if i + pat.len() > s.len() {
        assert forall|k: int| i <= k implies !match_at(s, pat, k) by {}
    } else if match_at(s, pat, i) {
    } else {
        lemma_find_from_props(s, pat, i + 1);
    }
}

/// If `k` is a position that matches and nothing before it matches, the
/// search finds exactly `k`.
pub proof fn lemma_find_first_at(s: Seq<char>, pat: Seq<char>, k: int)
    requires
        pat.len() > 0,
        match_at(s, pat, k),
        forall|j: int| 0 <= j < k ==> !match_at(s, pat, j),
    ensures
        spec_find(s, pat) == Some(k),
{
    lemma_find_from_props(s, pat, 0);
    match spec_find(s, pat) {
        Some(j) => {
            if j < k {
                assert(!match_at(s, pat, j));
            }
            if k < j {
                assert(!match_at(s, pat, k));
            }
        },
        None => {
            assert(!match_at(s, pat, k));
        },
    }
}

/// First occurrence of `pat` in `s`, as character indices.
pub fn find_sub(s: &str, pat: &str) -> (r: Option<usize>)
    ensures
        match r {
            Some(i) => spec_find(s@, pat@) == Some(i as int) && match_at(s@, pat@, i as int),
            None => spec_find(s@, pat@) is None,
        },
{
    let n = s.unicode_len();
    let m = pat.unicode_len();
    if m == 0 || m > n {
        return None;
    }
    let mut i: usize = 0;
    loop
        invariant
            n == s@.len(),
            m == pat@.len(),
            1 <= m <= n,
            0 <= i <= n - m + 1,
            find_from(s@, pat@, 0) == find_from(s@, pat@, i as int),
        ensures
            find_from(s@, pat@, 0) == find_from(s@, pat@, i as int),
            i <= n - m ==> match_at(s@, pat@, i as int),
        decreases n - m - i + 1,
    {
        if i > n - m {
            proof {
                assert(i + pat@.len() > s@.len());
            }
            break;
        }
        let mut k: usize = 0;
        let mut ok: bool = true;
        while k < m
            invariant
                n == s@.len(),
                m == pat@.len(),
                i + m <= n,
                0 <= k <= m,
                ok ==> forall|t: int| 0 <= t < k ==> s@[i + t] == pat@[t],
                !ok ==> !match_at(s@, pat@, i as int),
            decreases m - k,
        {
            if s.get_char(i + k) != pat.get_char(k) {
                proof {
                    if match_at(s@, pat@, i as int) {
                        assert(s@.subrange(i as int, i + pat@.len() as int)[k as int]
                            == pat@[k as int]);
                    }
                }
                ok = false;
                k = m;
            } else {
                k = k + 1;
            }
        }
        if ok {
            proof {
                assert(s@.subrange(i as int, i + pat@.len() as int) =~= pat@);
            }
            break;
        }
        proof {
            assert(find_from(s@, pat@, i as int) == find_from(s@, pat@, i + 1));
        }
        i = i + 1;
    }
    if i <= n - m {
        proof {
            assert(find_from(s@, pat@, i as int) == Some(i as int));
        }
        Some(i)
    } else {
        proof {
            assert(i + pat@.len() > s@.len());
            assert(find_from(s@, pat@, i as int) is None);
        }
        None
    }
}

/// The line contains the pattern somewhere.
pub fn contains_sub(s: &str, pat: &str) -> (r: bool)
    ensures
        r == spec_contains(s@, pat@),
{
    find_sub(s, pat).is_some()
}

/// Index of the first occurrence of the character `c` in `s` at or after
/// `i`.
pub open spec fn find_char_from(s: Seq<char>, c: char, i: int) -> Option<int>
    decreases s.len() - i,
{
    if i < 0 || i >= s.len() {
        None
    } else if s[i] == c {
        Some(i)
    } else {
        find_char_from(s, c, i + 1)
    }
}

pub open spec fn spec_find_char(s: Seq<char>, c: char) -> Option<int> {
    find_char_from(s, c, 0)
}

pub open spec fn spec_contains_char(s: Seq<char>, c: char) -> bool {
    spec_find_char(s, c) is Some
}

/// First occurrence of the character `c` in `s`.
pub fn find_char(s: &str, c: char) -> (r: Option<usize>)
    ensures
        match r {
            Some(i) => spec_find_char(s@, c) == Some(i as int) && i < s@.len() && s@[i as int]
                == c,
            None => spec_find_char(s@, c) is None,
        },
{
    let n = s.unicode_len();
    let mut i: usize = 0;
    while i < n
        invariant
            n == s@.len(),
            0 <= i <= n,
            spec_find_char(s@, c) == find_char_from(s@, c, i as int),
        decreases n - i,
    {
        if s.get_char(i) == c {
            return Some(i);
        }
        i = i + 1;
    }
    None
}

pub fn contains_char(s: &str, c: char) -> (r: bool)
    ensures
        r == spec_contains_char(s@, c),
{
    find_char(s, c).is_some()
}

/// The character search returns the first occurrence, and `None` only
/// when the character is absent.
pub proof fn lemma_find_char_from_props(s: Seq<char>, c: char, i: int)
    requires
        0 <= i,
    ensures
        match find_char_from(s, c, i) {
            Some(j) => {
                &&& i <= j < s.len()
                &&& s[j] == c
                &&& forall|k: int| i <= k < j ==> s[k] != c
            },
            None => forall|k: int| i <= k < s.len() ==> s[k] != c,
        },
    decreases s.len() - i,
{
    if 0 <= i < s.len() && s[i] != c {
        lemma_find_char_from_props(s, c, i + 1);
    }
}

/// The character search finds `k` exactly when `s[k]` is the character
/// and no earlier position carries it.
pub proof fn lemma_find_char_first_at(s: Seq<char>, c: char, k: int)
    requires
        0 <= k < s.len(),
        s[k] == c,
        forall|j: int| 0 <= j < k ==> s[j] != c,
    ensures
        spec_find_char(s, c) == Some(k),
{
    lemma_find_char_from_props(s, c, 0);
    match spec_find_char(s, c) {
        Some(j) => {
            if j < k {
                assert(s[j] != c);
            }
            if k < j {
                assert(s[k] != c);
            }
        },
        None => {
            assert(s[k] != c);
        },
    }
}

/// Characters stripped from both ends of extracted fields: the blanks that
/// the tool pads its columns with, and a stray carriage return or newline.
pub open spec fn is_space_char(c: char) -> bool {
    c == ' ' || c == '\t' || c == '\r' || c == '\n'
}

/// `s` with leading and trailing space characters removed.
pub open spec fn trim_spaces(s: Seq<char>) -> Seq<char>
    decreases s.len(),
{
    if s.len() == 0 {
        s
    } else if is_space_char(s.first()) {
        trim_spaces(s.drop_first())
    } else if is_space_char(s.last()) {
        trim_spaces(s.drop_last())
    } else {
        s
    }
}

/// A string of digits and dots keeps itself under trimming.
pub proof fn lemma_trim_no_spaces(s: Seq<char>)
    requires
        forall|i: int| 0 <= i < s.len() ==> !is_space_char(s[i]),
    ensures
        trim_spaces(s) == s,
{
    if s.len() > 0 {
        assert(!is_space_char(s[0]));
        assert(!is_space_char(s[s.len() - 1]));
    }
}

/// Trim space characters from both ends of a string slice.
pub fn trim_str(s: &str) -> (r: &str)
    ensures
        r@ == trim_spaces(s@),
{
    let n = s.unicode_len();
    proof {
        assert(s@.skip(0) =~= s@);
    }
    let mut a: usize = 0;
    while a < n && is_space(s.get_char(a))
        invariant
            n == s@.len(),
            0 <= a <= n,
            trim_spaces(s@) == trim_spaces(s@.skip(a as int)),
        decreases n - a,
    {
        proof {
            assert(s@.skip(a as int).first() == s@[a as int]);
            assert(s@.skip(a as int).drop_first() =~= s@.skip(a + 1));
        }
        a = a + 1;
    }
    if a == n {
        proof {
            assert(s@.skip(a as int).len() == 0);
        }
        let r = s.substring_char(n, n);
        proof {
            assert(r@ =~= s@.skip(a as int));
        }
        return r;
    }
    let mut b: usize = n;
    while b > a + 1 && is_space(s.get_char(b - 1))
        invariant
            n == s@.len(),
            0 <= a < b <= n,
            !is_space_char(s@[a as int]),
            trim_spaces(s@) == trim_spaces(s@.subrange(a as int, b as int)),
        decreases b,
    {
        proof {
            let part = s@.subrange(a as int, b as int);
            assert(part.first() == s@[a as int]);
            assert(part.last() == s@[b - 1]);
            assert(part.drop_last() =~= s@.subrange(a as int, b - 1));
        }
        b = b - 1;
    }
    proof {
        let part = s@.subrange(a as int, b as int);
        assert(part.first() == s@[a as int]);
        assert(part.last() == s@[b - 1]);
        if is_space_char(s@[b - 1]) {
            assert(b == a + 1);
            assert(part.first() == part.last());
        }
        assert(trim_spaces(part) == part);
    }
    s.substring_char(a, b)
}

/// Exec mirror of `is_space_char`.
pub fn is_space(c: char) -> (r: bool)
    ensures
        r == is_space_char(c),
{
    c == ' ' || c == '\t' || c == '\r' || c == '\n'
}

pub open spec fn is_digit_char(c: char) -> bool {
    48 <= c as u32 <= 57
}

pub open spec fn digit_val(c: char) -> int {
    c as u32 - 48
}

pub open spec fn all_digits(s: Seq<char>) -> bool {
    forall|i: int| 0 <= i < s.len() ==> is_digit_char(s[i])
}

/// Value of a digit string read in base ten; an empty string reads as 0.
pub open spec fn digits_val(s: Seq<char>) -> int
    decreases s.len(),
{
    if s.len() == 0 {
        0
    } else {
        digits_val(s.drop_last()) * 10 + digit_val(s.last())
    }
}

pub proof fn lemma_digits_val_bounds(s: Seq<char>)
    requires
        all_digits(s),
    ensures
        digits_val(s) >= 0,
    decreases s.len(),
{
    if s.len() > 0 {
        assert(all_digits(s.drop_last()));
        lemma_digits_val_bounds(s.drop_last());
        assert(is_digit_char(s.last()));
    }
}

pub open spec fn char_of_digit(d: int) -> char {
    if d == 0 {
        '0'
    } else if d == 1 {
        '1'
    } else if d == 2 {
        '2'
    } else if d == 3 {
        '3'
    } else if d == 4 {
        '4'
    } else if d == 5 {
        '5'
    } else if d == 6 {
        '6'
    } else if d == 7 {
        '7'
    } else if d == 8 {
        '8'
    } else {
        '9'
    }
}

/// Base-ten rendering of a non-negative number, without leading zeros.
pub open spec fn spec_dec(n: int) -> Seq<char>
    decreases n,
{
    if n < 10 {
        seq![char_of_digit(n)]
    } else {
        spec_dec(n / 10) + seq![char_of_digit(n % 10)]
    }
}

fn digit_str(d: u64) -> (s: &'static str)
    requires
        d < 10,
    ensures
        s@ =~= seq![char_of_digit(d as int)],
{
    proof {
        reveal_strlit("0");
        reveal_strlit("1");
        reveal_strlit("2");
        reveal_strlit("3");
        reveal_strlit("4");
        reveal_strlit("5");
        reveal_strlit("6");
        reveal_strlit("7");
        reveal_strlit("8");
        reveal_strlit("9");
    }
    match d {
        0 => "0",
        1 => "1",
        2 => "2",
        3 => "3",
        4 => "4",
        5 => "5",
        6 => "6",
        7 => "7",
        8 => "8",
        _ => "9",
    }
}

/// Render `n` in base ten.
pub fn u64_to_dec(n: u64) -> (s: String)
    ensures
        s@ == spec_dec(n as int),
    decreases n,
{
    if n < 10 {
        String::from_str(digit_str(n))
    } else {
        let mut q = u64_to_dec(n / 10);
        q.append(digit_str(n % 10));
        proof {
            assert(q@ =~= spec_dec(n as int));
        }
        q
    }
}

} // verus!
