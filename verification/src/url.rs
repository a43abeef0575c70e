//! Validation of the source address before any process or network
//! activity: an optional scheme, an optional `www.` prefix, one of the
//! two accepted hosts, and a non-empty remainder after the slash.

use vstd::prelude::*;
use vstd::string::StrSliceExecFns;

verus! {

/// `s` begins with `p`.
pub open spec fn starts_with(s: Seq<char>, p: Seq<char>) -> bool {
    p.len() <= s.len() && s.take(p.len() as int) == p
}

/// `s` with an accepted scheme prefix removed, when one is present.
pub open spec fn after_scheme(s: Seq<char>) -> Seq<char> {
    if starts_with(s, "https://"@) {
        s.skip(8)
    } else if starts_with(s, "http://"@) {
        s.skip(7)
    } else {
        s
    }
}

/// `s` with a `www.` prefix removed, when one is present.
pub open spec fn after_www(s: Seq<char>) -> Seq<char> {
    if starts_with(s, "www."@) {
        s.skip(4)
    } else {
        s
    }
}

/// One of the accepted hosts, a slash, and at least one more character.
pub open spec fn host_ok(s: Seq<char>) -> bool {
    ||| (starts_with(s, "youtube.com/"@) && s.len() > 12)
    ||| (starts_with(s, "youtu.be/"@) && s.len() > 9)
}

/// The address shapes accepted as a source to fetch or download.
pub open spec fn valid_media_url(s: Seq<char>) -> bool {
    host_ok(after_www(after_scheme(s)))
}

/// `s` begins with `p`, character for character.
pub fn starts_with_str(s: &str, p: &str) -> (b: bool)
    ensures
        b == starts_with(s@, p@),
{
    let n = s.unicode_len();
    let m = p.unicode_len();
    if m > n {
        return false;
    }
    let mut k: usize = 0;
    while k < m
        invariant
            n == s@.len(),
            m == p@.len(),
            m <= n,
            0 <= k <= m,
            forall|t: int| 0 <= t < k ==> s@[t] == p@[t],
        decreases m - k,
    {
        if s.get_char(k) != p.get_char(k) {
            proof {
                if starts_with(s@, p@) {
                    assert(s@.take(m as int)[k as int] == p@[k as int]);
                }
            }
            return false;
        }
        k = k + 1;
    }
    proof {
        assert(s@.take(m as int) =~= p@);
    }
    true
}

/// Accept or reject a pasted address.  Rejection happens before any
/// subprocess or network activity.
pub fn is_valid_youtube_url(url: &str) -> (b: bool)
    ensures
        b == valid_media_url(url@),
{
    proof {
        reveal_strlit("https://");
        reveal_strlit("http://");
        reveal_strlit("www.");
        reveal_strlit("youtube.com/");
        reveal_strlit("youtu.be/");
    }
    let n = url.unicode_len();
    let r1 = if starts_with_str(url, "https://") {
        url.substring_char(8, n)
    } else if starts_with_str(url, "http://") {
        url.substring_char(7, n)
    } else {
        url
    };
    proof {
        assert(r1@ =~= after_scheme(url@));
    }
    let n1 = r1.unicode_len();
    let r2 = if starts_with_str(r1, "www.") {
        r1.substring_char(4, n1)
    } else {
        r1
    };
    proof {
        assert(r2@ =~= after_www(after_scheme(url@)));
    }
    let n2 = r2.unicode_len();
    (starts_with_str(r2, "youtube.com/") && n2 > 12) || (starts_with_str(r2, "youtu.be/") && n2
        > 9)
}

} // verus!
