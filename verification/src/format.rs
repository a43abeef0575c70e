//! Display formatting for metadata fields: durations as `H:MM:SS` or
//! `M:SS`, and view counts grouped with thousands separators.

use vstd::prelude::*;
use vstd::string::StrSliceExecFns;
use vstd::string::StringExecFns;
use crate::text::spec_dec;
use crate::text::u64_to_dec;

verus! {

/// `s` from position `i` on, with a comma before every later position
/// from which a multiple of three characters remains.
pub open spec fn commas_from(s: Seq<char>, i: int) -> Seq<char>
    decreases s.len() - i,
{
    if i < 0 || i >= s.len() {
        Seq::empty()
    } else {
        let here = if i > 0 && (s.len() - i) % 3 == 0 {
            seq![',']
        } else {
            Seq::<char>::empty()
        };
        here + seq![s[i]] + commas_from(s, i + 1)
    }
}

/// The decimal digits of `n` with a comma every three, counted from the
/// right.
pub open spec fn spec_grouped(n: int) -> Seq<char> {
    commas_from(spec_dec(n), 0)
}

/// Render a count with thousands separators.
pub fn format_number_with_commas(num: u64) -> (r: String)
    ensures
        r@ == spec_grouped(num as int),
{
    let digits = u64_to_dec(num);
    let ds = digits.as_str();
    let n = ds.unicode_len();
    let mut res = String::new();
    proof {
        assert(res@ + commas_from(ds@, 0) =~= commas_from(ds@, 0));
    }
    let mut i: usize = 0;
    while i < n
        invariant
            n == ds@.len(),
            ds@ == spec_dec(num as int),
            0 <= i <= n,
            res@ + commas_from(ds@, i as int) == commas_from(ds@, 0),
        decreases n - i,
    {
        let ghost pre = res@;
        if i > 0 && (n - i) % 3 == 0 {
            res.append(",");
            proof {
                assert(","@ =~= seq![',']) by {
                    reveal_strlit(",");
                }
            }
        }
        let c = ds.substring_char(i, i + 1);
        res.append(c);
        proof {
            assert(c@ =~= seq![ds@[i as int]]);
            let here = if i > 0 && (ds@.len() - i) % 3 == 0 {
                seq![',']
            } else {
                Seq::<char>::empty()
            };
            assert(res@ =~= pre + here + seq![ds@[i as int]]);
            assert(res@ + commas_from(ds@, i + 1) =~= pre + commas_from(ds@, i as int));
        }
        i = i + 1;
    }
    proof {
        assert(res@ =~= res@ + commas_from(ds@, i as int));
    }
    res
}

/// A minutes or seconds field, zero-padded to two digits.
pub open spec fn spec_pad2(n: int) -> Seq<char> {
    if n < 10 {
        "0"@ + spec_dec(n)
    } else {
        spec_dec(n)
    }
}

/// A duration in seconds rendered as `H:MM:SS`, or `M:SS` when there is
/// no whole hour.
pub open spec fn spec_duration(total: int) -> Seq<char> {
    let h = total / 3600;
    let m = (total % 3600) / 60;
    let s = total % 60;
    if h > 0 {
        spec_dec(h) + ":"@ + spec_pad2(m) + ":"@ + spec_pad2(s)
    } else {
        spec_dec(m) + ":"@ + spec_pad2(s)
    }
}

fn pad2(n: u64) -> (r: String)
    ensures
        r@ == spec_pad2(n as int),
{
    if n < 10 {
        let mut r = String::from_str("0");
        let d = u64_to_dec(n);
        r.append(d.as_str());
        r
    } else {
        u64_to_dec(n)
    }
}

/// Render a whole number of seconds for display.
pub fn format_duration(total_seconds: u64) -> (r: String)
    ensures
        r@ == spec_duration(total_seconds as int),
{
    let hours = total_seconds / 3600;
    let minutes = (total_seconds % 3600) / 60;
    let seconds = total_seconds % 60;
    if hours > 0 {
        let mut r = u64_to_dec(hours);
        r.append(":");
        let m = pad2(minutes);
        r.append(m.as_str());
        r.append(":");
        let s = pad2(seconds);
        r.append(s.as_str());
        proof {
            assert(r@ =~= spec_duration(total_seconds as int));
        }
        r
    } else {
        let mut r = u64_to_dec(minutes);
        r.append(":");
        let s = pad2(seconds);
        r.append(s.as_str());
        proof {
            assert(r@ =~= spec_duration(total_seconds as int));
        }
        r
    }
}

} // verus!
