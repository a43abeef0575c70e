//! Classification of one line of tool output into a progress update.
//!
//! Progress fractions are carried as integer parts-per-million of the
//! whole (`1_000_000` = done), so a percentage of `45.2` becomes
//! `452_000`.  Fractional digits of the percentage beyond the fourth are
//! ignored, and a percentage whose integer part does not stay under ten
//! decimal digits is not treated as progress; both limits are far outside
//! anything the tool emits.

use vstd::prelude::*;
use vstd::string::StrSliceExecFns;
use vstd::string::StringExecFns;
use crate::text::match_at;
use crate::text::lemma_find_first_at;
use crate::text::lemma_find_from_props;
use crate::text::lemma_find_char_first_at;
use crate::text::lemma_find_char_from_props;
use crate::text::is_space_char;
use crate::text::lemma_trim_no_spaces;
use crate::text::all_digits;
use crate::text::digits_val;
use crate::text::is_digit_char;
use crate::text::lemma_digits_val_bounds;
use crate::text::spec_find_char;
use crate::text::find_char;
use crate::text::spec_find;
use crate::text::find_sub;
use crate::text::spec_contains;
use crate::text::contains_sub;
use crate::text::spec_contains_char;
use crate::text::contains_char;
use crate::text::trim_spaces;
use crate::text::trim_str;
use crate::text::spec_dec;
use crate::text::u64_to_dec;

verus! {

/// Digits of the percentage before the first dot, or all of it.
pub open spec fn int_part(t: Seq<char>) -> Seq<char> {
    match spec_find_char(t, '.') {
        Some(k) => t.take(k),
        None => t,
    }
}

/// Digits of the percentage after the first dot, empty when there is none.
pub open spec fn frac_part(t: Seq<char>) -> Seq<char> {
    match spec_find_char(t, '.') {
        Some(k) => t.skip(k + 1),
        None => Seq::<char>::empty(),
    }
}

/// The trimmed percent text reads as a number: digits with at most one
/// dot, at least one digit in all, integer part under ten digits' worth.
pub open spec fn numeral_ok(t: Seq<char>) -> bool {
    &&& all_digits(int_part(t))
    &&& all_digits(frac_part(t))
    &&& int_part(t).len() + frac_part(t).len() > 0
    &&& digits_val(int_part(t)) < 10_000_000_000
}

/// Powers of ten up to the four fractional digits that are kept.
pub open spec fn scale_of(k: int) -> int {
    if k <= 0 {
        1
    } else if k == 1 {
        10
    } else if k == 2 {
        100
    } else if k == 3 {
        1000
    } else {
        10000
    }
}

/// Parts-per-million contributed by the fractional digits: the first four
/// of them, padded with zeros on the right.
pub open spec fn frac4_val(f: Seq<char>) -> int {
    let g = if f.len() > 4 {
        f.take(4)
    } else {
        f
    };
    digits_val(g) * scale_of(4 - g.len())
}

/// The percentage as parts-per-million of the whole.
pub open spec fn numeral_ppm(t: Seq<char>) -> int {
    digits_val(int_part(t)) * 10000 + frac4_val(frac_part(t))
}

/// A digit string of at most four digits stays under the matching power
/// of ten.
proof fn lemma_digits_val_upper(s: Seq<char>)
    requires
        all_digits(s),
        s.len() <= 4,
    ensures
        digits_val(s) < scale_of(s.len() as int),
    decreases s.len(),
{
    if s.len() > 0 {
        assert(all_digits(s.drop_last()));
        lemma_digits_val_upper(s.drop_last());
        assert(is_digit_char(s.last()));
        assert(10 * scale_of(s.len() - 1) == scale_of(s.len() as int));
    }
}

/// The fractional contribution stays under one percent's worth.
pub proof fn lemma_frac4_val_bounds(f: Seq<char>)
    requires
        all_digits(f),
    ensures
        0 <= frac4_val(f) < 10000,
{
    let g = if f.len() > 4 {
        f.take(4)
    } else {
        f
    };
    assert(all_digits(g)) by {
        assert(forall|i: int| 0 <= i < g.len() ==> g[i] == f[i]);
    }
    lemma_digits_val_upper(g);
    lemma_digits_val_bounds(g);
    if g.len() == 0 {
    } else if g.len() == 1 {
    } else if g.len() == 2 {
    } else if g.len() == 3 {
    } else {
        assert(g.len() == 4);
    }
}

/// All characters of `s` in positions `[from, to)` are digits.
fn check_digits(s: &str, from: usize, to: usize) -> (r: bool)
    requires
        from <= to <= s@.len(),
    ensures
        r == all_digits(s@.subrange(from as int, to as int)),
{
    let ghost seg = s@.subrange(from as int, to as int);
    let mut j: usize = from;
    while j < to
        invariant
            from <= j <= to <= s@.len(),
            seg == s@.subrange(from as int, to as int),
            forall|i: int| from <= i < j ==> is_digit_char(s@[i]),
        decreases to - j,
    {
        let u = s.get_char(j) as u32;
        if u < 48 || u > 57 {
            proof {
                assert(seg[j - from] == s@[j as int]);
            }
            return false;
        }
        j = j + 1;
    }
    proof {
        assert forall|i: int| 0 <= i < seg.len() implies is_digit_char(seg[i]) by {
            assert(seg[i] == s@[from + i]);
        }
    }
    true
}

/// Value of the digits in positions `[from, to)`, or `None` when it
/// reaches the cap under which every percentage of interest falls.
fn digits_value_capped(s: &str, from: usize, to: usize) -> (r: Option<u64>)
    requires
        from <= to <= s@.len(),
        all_digits(s@.subrange(from as int, to as int)),
    ensures
        match r {
            Some(v) => v as int == digits_val(s@.subrange(from as int, to as int)) && v
                < 10_000_000_000,
            None => digits_val(s@.subrange(from as int, to as int)) >= 10_000_000_000,
        },
{
    let ghost seg = s@.subrange(from as int, to as int);
    let mut acc: u64 = 0;
    let mut big: bool = false;
    let mut j: usize = from;
    while j < to
        invariant
            from <= j <= to <= s@.len(),
            seg == s@.subrange(from as int, to as int),
            all_digits(seg),
            !big ==> acc as int == digits_val(s@.subrange(from as int, j as int)) && acc
                < 10_000_000_000,
            big ==> digits_val(s@.subrange(from as int, j as int)) >= 10_000_000_000,
        decreases to - j,
    {
        proof {
            assert(seg[j - from] == s@[j as int]);
            assert(is_digit_char(s@[j as int]));
            assert(s@.subrange(from as int, j + 1).drop_last() =~= s@.subrange(
                from as int,
                j as int,
            ));
            assert(s@.subrange(from as int, j + 1).last() == s@[j as int]);
        }
        let u = s.get_char(j) as u32;
        if big {
            proof {
                lemma_digits_val_bounds(s@.subrange(from as int, j + 1));
            }
        } else {
            let d = (u - 48) as u64;
            let next = acc * 10 + d;
            if next >= 10_000_000_000 {
                big = true;
            } else {
                acc = next;
            }
        }
        j = j + 1;
    }
    if big {
        None
    } else {
        Some(acc)
    }
}

/// Parts-per-million of the fractional digits in positions `[from, to)`.
fn frac4_value(s: &str, from: usize, to: usize) -> (v: u64)
    requires
        from <= to <= s@.len(),
        all_digits(s@.subrange(from as int, to as int)),
    ensures
        v as int == frac4_val(s@.subrange(from as int, to as int)),
        v < 10000,
{
    let ghost seg = s@.subrange(from as int, to as int);
    let len = to - from;
    let g: usize = if len > 4 {
        4
    } else {
        len
    };
    let ghost gseq = if seg.len() > 4 {
        seg.take(4)
    } else {
        seg
    };
    proof {
        assert(gseq =~= s@.subrange(from as int, from + g));
        assert(all_digits(gseq)) by {
            assert(forall|i: int| 0 <= i < gseq.len() ==> gseq[i] == seg[i]);
        }
        lemma_digits_val_upper(gseq);
        lemma_digits_val_bounds(gseq);
        lemma_frac4_val_bounds(seg);
    }
    let mut acc: u64 = 0;
    let mut j: usize = from;
    while j < from + g
        invariant
            from <= j <= from + g,
            from + g <= to <= s@.len(),
            g <= 4,
            gseq == s@.subrange(from as int, from + g),
            all_digits(gseq),
            acc as int == digits_val(s@.subrange(from as int, j as int)),
            (acc as int) < scale_of(j - from),
        decreases from + g - j,
    {
        proof {
            assert(gseq[j - from] == s@[j as int]);
            assert(is_digit_char(s@[j as int]));
            assert(s@.subrange(from as int, j + 1).drop_last() =~= s@.subrange(
                from as int,
                j as int,
            ));
            assert(s@.subrange(from as int, j + 1).last() == s@[j as int]);
            assert(10 * scale_of(j - from) <= scale_of(j - from + 1));
        }
        let u = s.get_char(j) as u32;
        let d = (u - 48) as u64;
        acc = acc * 10 + d;
        j = j + 1;
    }
    proof {
        assert(s@.subrange(from as int, from + g) == gseq);
    }
    if g == 0 {
        acc * 10000
    } else if g == 1 {
        acc * 1000
    } else if g == 2 {
        acc * 100
    } else if g == 3 {
        acc * 10
    } else {
        acc
    }
}

/// Parse the trimmed percent text into parts-per-million.
pub fn parse_percent_ppm(t: &str) -> (r: Option<u64>)
    ensures
        match r {
            Some(v) => numeral_ok(t@) && v as int == numeral_ppm(t@),
            None => !numeral_ok(t@),
        },
{
    let n = t.unicode_len();
    let dot = find_char(t, '.');
    let ip_from: usize = 0;
    let ip_to: usize;
    let fp_from: usize;
    let fp_to: usize;
    match dot {
        Some(k) => {
            ip_to = k;
            fp_from = k + 1;
            fp_to = n;
        },
        None => {
            ip_to = n;
            fp_from = n;
            fp_to = n;
        },
    }
    proof {
        assert(int_part(t@) =~= t@.subrange(ip_from as int, ip_to as int));
        assert(frac_part(t@) =~= t@.subrange(fp_from as int, fp_to as int));
    }
    if !check_digits(t, ip_from, ip_to) {
        return None;
    }
    if !check_digits(t, fp_from, fp_to) {
        return None;
    }
    if ip_to - ip_from == 0 && fp_to - fp_from == 0 {
        return None;
    }
    let iv = match digits_value_capped(t, ip_from, ip_to) {
        Some(v) => v,
        None => {
            return None;
        },
    };
    let fv = frac4_value(t, fp_from, fp_to);
    Some(iv * 10000 + fv)
}

/// A progress update extracted from one line: how much of the whole is
/// done, in parts-per-million, and the text shown beside the bar.
pub struct ProgressEvent {
    pub fraction_ppm: u64,
    pub status: String,
}

/// The percentage rendered with one digit after the dot, rounding the
/// parts-per-million half up.
pub open spec fn fmt_pct_tenths(ppm: int) -> Seq<char> {
    let tenths = (ppm + 500) / 1000;
    spec_dec(tenths / 10) + "."@ + spec_dec(tenths % 10)
}

/// Status text when the line carries no speed and ETA pair.
pub open spec fn simple_status(ppm: int) -> Seq<char> {
    "Downloading... "@ + fmt_pct_tenths(ppm) + "%"@
}

/// Status text enriched with the speed and ETA fields, kept verbatim.
pub open spec fn rich_status(ppm: int, speed: Seq<char>, eta: Seq<char>) -> Seq<char> {
    "Downloading... "@ + fmt_pct_tenths(ppm) + "% at "@ + speed + " (ETA: "@ + eta + ")"@
}

/// Status chosen for a percentage line: enriched when the line shows
/// both a speed marker and an ETA marker, in that order.
pub open spec fn status_of(line: Seq<char>, ppm: int) -> Seq<char> {
    match (spec_find(line, " at "@), spec_find(line, " ETA "@)) {
        (Some(a), Some(b)) => if a + 4 <= b {
            rich_status(ppm, line.subrange(a + 4, b), trim_spaces(line.skip(b + 5)))
        } else {
            simple_status(ppm)
        },
        _ => simple_status(ppm),
    }
}

/// The general percentage rule: the text between the first `"] "` and
/// the first `'%'` after it, trimmed, read as a number.
pub open spec fn generic_progress(line: Seq<char>) -> Option<(int, Seq<char>)> {
    match spec_find(line, "] "@) {
        None => None,
        Some(i) => {
            let rest = line.skip(i + 2);
            match spec_find_char(rest, '%') {
                None => None,
                Some(j) => {
                    let t = trim_spaces(rest.take(j));
                    if numeral_ok(t) {
                        Some((numeral_ppm(t), status_of(line, numeral_ppm(t))))
                    } else {
                        None
                    }
                },
            }
        },
    }
}

/// Stage markers that carry no percentage; their fractions are fixed
/// placeholders for stages the tool does not meter.
pub open spec fn tail_progress(line: Seq<char>) -> Option<(int, Seq<char>)> {
    if spec_contains(line, "[ExtractAudio]"@) {
        Some((900000int, "Extracting audio..."@))
    } else if spec_contains(line, "[ffmpeg]"@) {
        Some((950000int, "Converting to MP3..."@))
    } else {
        None
    }
}

/// What one line of tool output means for progress: a destination
/// announcement restarts the bar, a bare `100%` marker completes it, a
/// percentage line reports itself, and the audio-extraction and
/// conversion stages show fixed late-stage fractions.
pub open spec fn progress_spec(line: Seq<char>) -> Option<(int, Seq<char>)> {
    if spec_contains(line, "[download] Destination:"@) {
        Some((0int, "Preparing download..."@))
    } else if spec_contains(line, "[download] 100%"@) {
        Some((1000000int, "Download completed!"@))
    } else if spec_contains(line, "[download]"@) && spec_contains_char(line, '%') {
        match generic_progress(line) {
            Some(e) => Some(e),
            None => tail_progress(line),
        }
    } else {
        tail_progress(line)
    }
}

/// The event agrees with the specified classification.
pub open spec fn event_matches(r: Option<ProgressEvent>, sp: Option<(int, Seq<char>)>) -> bool {
    match (r, sp) {
        (Some(e), Some(p)) => e.fraction_ppm as int == p.0 && e.status@ == p.1,
        (None, None) => true,
        _ => false,
    }
}

/// Render the percentage with one digit after the dot.
fn pct_tenths_text(ppm: u64) -> (s: String)
    requires
        ppm <= 100_000_000_000_000,
    ensures
        s@ == fmt_pct_tenths(ppm as int),
{
    let tenths = (ppm + 500) / 1000;
    let mut s = u64_to_dec(tenths / 10);
    s.append(".");
    let f = u64_to_dec(tenths % 10);
    s.append(f.as_str());
    proof {
        assert(s@ =~= fmt_pct_tenths(ppm as int));
    }
    s
}

/// The parsed percentage fits comfortably in 64 bits.
proof fn lemma_numeral_ppm_bounds(t: Seq<char>)
    requires
        numeral_ok(t),
    ensures
        0 <= numeral_ppm(t) <= 100_000_000_000_000,
{
    lemma_digits_val_bounds(int_part(t));
    lemma_frac4_val_bounds(frac_part(t));
}

/// The general percentage rule, executable half.
fn generic_parse(line: &str) -> (r: Option<ProgressEvent>)
    ensures
        event_matches(r, generic_progress(line@)),
{
    let n = line.unicode_len();
    let i = match find_sub(line, "] ") {
        Some(i) => i,
        None => {
            return None;
        },
    };
    proof {
        reveal_strlit("] ");
    }
    let rest = line.substring_char(i + 2, n);
    proof {
        assert(rest@ =~= line@.skip(i + 2));
    }
    let j = match find_char(rest, '%') {
        Some(j) => j,
        None => {
            return None;
        },
    };
    let pct_raw = rest.substring_char(0, j);
    proof {
        assert(pct_raw@ =~= rest@.take(j as int));
    }
    let t = trim_str(pct_raw);
    let ppm = match parse_percent_ppm(t) {
        Some(v) => v,
        None => {
            return None;
        },
    };
    proof {
        lemma_numeral_ppm_bounds(t@);
    }
    let pct = pct_tenths_text(ppm);
    let a_opt = find_sub(line, " at ");
    let b_opt = find_sub(line, " ETA ");
    proof {
        reveal_strlit(" at ");
        reveal_strlit(" ETA ");
    }
    match (a_opt, b_opt) {
        (Some(a), Some(b)) => {
            if a + 4 <= b {
                let speed = line.substring_char(a + 4, b);
                let eta_raw = line.substring_char(b + 5, n);
                let eta = trim_str(eta_raw);
                let mut s = String::from_str("Downloading... ");
                s.append(pct.as_str());
                s.append("% at ");
                s.append(speed);
                s.append(" (ETA: ");
                s.append(eta);
                s.append(")");
                proof {
                    assert(eta_raw@ =~= line@.skip(b + 5));
                    assert(s@ =~= rich_status(
                        ppm as int,
                        line@.subrange(a + 4, b as int),
                        trim_spaces(line@.skip(b + 5)),
                    ));
                }
                Some(ProgressEvent { fraction_ppm: ppm, status: s })
            } else {
                let mut s = String::from_str("Downloading... ");
                s.append(pct.as_str());
                s.append("%");
                proof {
                    assert(s@ =~= simple_status(ppm as int));
                }
                Some(ProgressEvent { fraction_ppm: ppm, status: s })
            }
        },
        _ => {
            let mut s = String::from_str("Downloading... ");
            s.append(pct.as_str());
            s.append("%");
            proof {
                assert(s@ =~= simple_status(ppm as int));
            }
            Some(ProgressEvent { fraction_ppm: ppm, status: s })
        },
    }
}

/// The stage markers, executable half.
fn tail_parse(line: &str) -> (r: Option<ProgressEvent>)
    ensures
        event_matches(r, tail_progress(line@)),
{
    if contains_sub(line, "[ExtractAudio]") {
        Some(
            ProgressEvent {
                fraction_ppm: 900000,
                status: String::from_str("Extracting audio..."),
            },
        )
    } else if contains_sub(line, "[ffmpeg]") {
        Some(
            ProgressEvent {
                fraction_ppm: 950000,
                status: String::from_str("Converting to MP3..."),
            },
        )
    } else {
        None
    }
}

/// Classify one line of tool output as a progress update, or nothing.
/// A line that fails the percentage grammar is silently not progress;
/// no input makes this function fail.
pub fn parse_progress_line(line: &str) -> (r: Option<ProgressEvent>)
    ensures
        event_matches(r, progress_spec(line@)),
{
    if contains_sub(line, "[download] Destination:") {
        return Some(
            ProgressEvent { fraction_ppm: 0, status: String::from_str("Preparing download...") },
        );
    }
    if contains_sub(line, "[download] 100%") {
        return Some(
            ProgressEvent {
                fraction_ppm: 1000000,
                status: String::from_str("Download completed!"),
            },
        );
    }
    if contains_sub(line, "[download]") && contains_char(line, '%') {
        let g = generic_parse(line);
        if g.is_some() {
            return g;
        }
    }
    tail_parse(line)
}

/// A percentage line as the tool shapes it: the stream tag, the percent
/// text, the percent sign, and whatever follows.
pub open spec fn percent_line(t: Seq<char>, suffix: Seq<char>) -> Seq<char> {
    "[download] "@ + t + "%"@ + suffix
}

/// Every character of a well-formed numeral is a digit or the dot.
proof fn lemma_numeral_chars(t: Seq<char>)
    requires
        all_digits(int_part(t)),
        all_digits(frac_part(t)),
    ensures
        forall|i: int| 0 <= i < t.len() ==> is_digit_char(t[i]) || t[i] == '.',
{
    lemma_find_char_from_props(t, '.', 0);
    assert forall|i: int| 0 <= i < t.len() implies is_digit_char(t[i]) || t[i] == '.' by {
        match spec_find_char(t, '.') {
            Some(k) => {
                if i < k {
                    assert(int_part(t)[i] == t[i]);
                    assert(is_digit_char(int_part(t)[i]));
                } else if i > k {
                    assert(frac_part(t)[i - k - 1] == t[i]);
                    assert(is_digit_char(frac_part(t)[i - k - 1]));
                }
            },
            None => {
                assert(int_part(t)[i] == t[i]);
                assert(is_digit_char(int_part(t)[i]));
            },
        }
    }
}

/// Where the marker and the percent sign of a shaped percentage line are
/// found: the scaffolding shared by the percentage laws.
proof fn lemma_percent_line_shape(t: Seq<char>, suffix: Seq<char>)
    requires
        forall|i: int| 0 <= i < t.len() ==> t[i] != '%',
    ensures
        spec_find(percent_line(t, suffix), "] "@) == Some(9int),
        percent_line(t, suffix).skip(11) == t + "%"@ + suffix,
        spec_find_char(t + "%"@ + suffix, '%') == Some(t.len() as int),
        (t + "%"@ + suffix).take(t.len() as int) == t,
        spec_contains(percent_line(t, suffix), "[download]"@),
        spec_contains_char(percent_line(t, suffix), '%'),
{
    reveal_strlit("[download] ");
    reveal_strlit("[download]");
    reveal_strlit("] ");
    reveal_strlit("%");
    let line = percent_line(t, suffix);
    let rest = t + "%"@ + suffix;
    assert(line.len() == 11 + t.len() + 1 + suffix.len());
    assert(line.subrange(9, 11) =~= "] "@);
    assert(match_at(line, "] "@, 9));
    assert forall|j: int| 0 <= j < 9 implies !match_at(line, "] "@, j) by {
        if match_at(line, "] "@, j) {
            assert(line.subrange(j, j + 2)[0] == line[j]);
            assert(line[j] == "[download] "@[j]);
        }
    }
    lemma_find_first_at(line, "] "@, 9);
    assert(line.skip(11) =~= rest);
    assert(rest[t.len() as int] == '%');
    assert forall|j: int| 0 <= j < t.len() implies rest[j] != '%' by {
        assert(rest[j] == t[j]);
    }
    lemma_find_char_first_at(rest, '%', t.len() as int);
    assert(rest.take(t.len() as int) =~= t);
    assert(line.subrange(0, 10) =~= "[download]"@);
    assert(match_at(line, "[download]"@, 0));
    lemma_find_from_props(line, "[download]"@, 0);
    assert(line[11 + t.len() as int] == rest[t.len() as int]);
    lemma_find_char_from_props(line, '%', 0);
}

/// For every percentage embedded in a well-formed progress line, the
/// fraction the parser reports is exactly that percentage over one
/// hundred: the parts-per-million equal the numeral's value scaled by
/// ten thousand.
pub proof fn lemma_progress_fraction_exact(t: Seq<char>, suffix: Seq<char>)
    requires
        numeral_ok(t),
        !spec_contains(percent_line(t, suffix), "[download] Destination:"@),
        !spec_contains(percent_line(t, suffix), "[download] 100%"@),
    ensures
        match progress_spec(percent_line(t, suffix)) {
            Some(p) => p.0 == numeral_ppm(t),
            None => false,
        },
{
    let line = percent_line(t, suffix);
    lemma_numeral_chars(t);
    assert forall|i: int| 0 <= i < t.len() implies t[i] != '%' by {
        assert(('%' as u32) == 37);
        assert(('.' as u32) == 46);
    }
    lemma_percent_line_shape(t, suffix);
    assert forall|i: int| 0 <= i < t.len() implies !is_space_char(t[i]) by {
        assert((' ' as u32) == 32);
        assert(('\t' as u32) == 9);
        assert(('\r' as u32) == 13);
        assert(('\n' as u32) == 10);
        assert(('.' as u32) == 46);
    }
    lemma_trim_no_spaces(t);
}

/// A line whose percent text does not read as a number yields no
/// progress event at all; malformed text is ignored, not an error.
pub proof fn lemma_malformed_percent_ignored(t: Seq<char>, suffix: Seq<char>)
    requires
        forall|i: int| 0 <= i < t.len() ==> t[i] != '%',
        !numeral_ok(trim_spaces(t)),
        !spec_contains(percent_line(t, suffix), "[download] Destination:"@),
        !spec_contains(percent_line(t, suffix), "[download] 100%"@),
        !spec_contains(percent_line(t, suffix), "[ExtractAudio]"@),
        !spec_contains(percent_line(t, suffix), "[ffmpeg]"@),
    ensures
        progress_spec(percent_line(t, suffix)) is None,
{
    lemma_percent_line_shape(t, suffix);
}

/// The enriched status text carries the two extracted fields verbatim.
proof fn lemma_rich_status_carries_fields(ppm: int, speed: Seq<char>, eta: Seq<char>)
    ensures
        speed.len() > 0 ==> spec_contains(rich_status(ppm, speed, eta), speed),
        eta.len() > 0 ==> spec_contains(rich_status(ppm, speed, eta), eta),
{
    reveal_strlit("Downloading... ");
    reveal_strlit("% at ");
    reveal_strlit(" (ETA: ");
    reveal_strlit(")");
    let st = rich_status(ppm, speed, eta);
    let pct = fmt_pct_tenths(ppm);
    let k1: int = 15 + pct.len() as int + 5;
    assert(st.subrange(k1, k1 + speed.len() as int) =~= speed);
    if speed.len() > 0 {
        assert(match_at(st, speed, k1));
        lemma_find_from_props(st, speed, 0);
    }
    let k2: int = k1 + speed.len() as int + 7;
    assert(st.subrange(k2, k2 + eta.len() as int) =~= eta);
    if eta.len() > 0 {
        assert(match_at(st, eta, k2));
        lemma_find_from_props(st, eta, 0);
    }
}

/// With both a speed marker and an ETA marker on the line, in that
/// order, the status text carries the two extracted fields verbatim;
/// with fewer, it is the percentage alone.
pub proof fn lemma_status_fields(line: Seq<char>, ppm: int)
    ensures
        match (spec_find(line, " at "@), spec_find(line, " ETA "@)) {
            (Some(a), Some(b)) => {
                if a + 4 <= b {
                    let speed = line.subrange(a + 4, b);
                    let eta = trim_spaces(line.skip(b + 5));
                    &&& status_of(line, ppm) == rich_status(ppm, speed, eta)
                    &&& (speed.len() > 0 ==> spec_contains(status_of(line, ppm), speed))
                    &&& (eta.len() > 0 ==> spec_contains(status_of(line, ppm), eta))
                } else {
                    status_of(line, ppm) == simple_status(ppm)
                }
            },
            _ => status_of(line, ppm) == simple_status(ppm),
        },
{
    match (spec_find(line, " at "@), spec_find(line, " ETA "@)) {
        (Some(a), Some(b)) => {
            if a + 4 <= b {
                lemma_rich_status_carries_fields(
                    ppm,
                    line.subrange(a + 4, b),
                    trim_spaces(line.skip(b + 5)),
                );
            }
        },
        _ => {},
    }
}

} // verus!
