//! Discovery of the final output file location from free-form tool
//! output, and the fold that keeps the most recent discovery.
//!
//! Three patterns announce a path: a destination announcement, an
//! already-downloaded notice, and a merge message naming the merged file
//! in quotes.  A later discovery supersedes an earlier one, since the
//! merge output is more authoritative than a provisional destination.

use vstd::prelude::*;
use vstd::string::StrSliceExecFns;
use vstd::string::StringExecFns;
use crate::text::spec_find;
use crate::text::find_sub;
use crate::text::spec_find_char;
use crate::text::find_char;
use crate::text::trim_spaces;
use crate::text::trim_str;
use crate::progress::ProgressEvent;
use crate::progress::event_matches;
use crate::progress::progress_spec;
use crate::progress::parse_progress_line;

verus! {

/// Path named by a destination announcement: the text after the marker.
pub open spec fn dest_path(line: Seq<char>) -> Option<Seq<char>> {
    match spec_find(line, "Destination: "@) {
        Some(i) => Some(trim_spaces(line.skip(i + 13))),
        None => None,
    }
}

/// Path named by an already-downloaded notice: the text between the
/// stream tag and the notice.
pub open spec fn already_path(line: Seq<char>) -> Option<Seq<char>> {
    match (spec_find(line, "[download] "@), spec_find(line, " has already been downloaded"@)) {
        (Some(i), Some(j)) => if i + 11 <= j {
            Some(trim_spaces(line.subrange(i + 11, j)))
        } else {
            None
        },
        _ => None,
    }
}

/// Path named by a merge message: the text inside the quotes.
pub open spec fn merge_path(line: Seq<char>) -> Option<Seq<char>> {
    match spec_find(line, "into \""@) {
        Some(i) => {
            let rest = line.skip(i + 6);
            match spec_find_char(rest, '"') {
                Some(j) => Some(rest.take(j)),
                None => None,
            }
        },
        None => None,
    }
}

/// The path a single line discovers, if any; when several patterns match
/// one line, the later, more authoritative pattern wins.
pub open spec fn path_spec(line: Seq<char>) -> Option<Seq<char>> {
    if merge_path(line) is Some {
        merge_path(line)
    } else if already_path(line) is Some {
        already_path(line)
    } else {
        dest_path(line)
    }
}

/// The discovery left standing after a sequence of lines: that of the
/// last line which discovered anything.
pub open spec fn fold_paths(lines: Seq<Seq<char>>) -> Option<Seq<char>>
    decreases lines.len(),
{
    if lines.len() == 0 {
        None
    } else {
        match path_spec(lines.last()) {
            Some(p) => Some(p),
            None => fold_paths(lines.drop_last()),
        }
    }
}

/// Whichever pattern a discovery came from, the discovery reported after
/// the stream ends is the one from the last line that matched any
/// pattern.
pub proof fn lemma_last_discovery_wins(lines: Seq<Seq<char>>, k: int)
    requires
        0 <= k < lines.len(),
        path_spec(lines[k]) is Some,
        forall|j: int| k < j < lines.len() ==> path_spec(lines[j]) is None,
    ensures
        fold_paths(lines) == path_spec(lines[k]),
    decreases lines.len(),
{
    if k == lines.len() - 1 {
    } else {
        assert(path_spec(lines.last()) is None);
        assert(lines.drop_last()[k] == lines[k]);
        lemma_last_discovery_wins(lines.drop_last(), k);
    }
}

/// A stream in which no line discovers a path leaves nothing discovered.
pub proof fn lemma_no_discovery(lines: Seq<Seq<char>>)
    requires
        forall|j: int| 0 <= j < lines.len() ==> path_spec(lines[j]) is None,
    ensures
        fold_paths(lines) is None,
    decreases lines.len(),
{
    if lines.len() > 0 {
        assert(path_spec(lines.last()) is None);
        lemma_no_discovery(lines.drop_last());
    }
}

/// Every update to the discovered path replaces the whole value, so the
/// value left standing is exactly the complete discovery of one of the
/// lines seen, never a mixture of two discoveries.
pub proof fn lemma_discovery_is_whole_value(lines: Seq<Seq<char>>)
    requires
        fold_paths(lines) is Some,
    ensures
        exists|i: int|
            0 <= i < lines.len() && path_spec(lines[i]) == fold_paths(lines),
    decreases lines.len(),
{
    if path_spec(lines.last()) is Some {
        assert(path_spec(lines[lines.len() - 1]) == fold_paths(lines));
    } else {
        lemma_discovery_is_whole_value(lines.drop_last());
        let i = choose|i: int|
            0 <= i < lines.drop_last().len() && path_spec(lines.drop_last()[i]) == fold_paths(
                lines.drop_last(),
            );
        assert(lines.drop_last()[i] == lines[i]);
        assert(path_spec(lines[i]) == fold_paths(lines));
    }
}

/// Extract the path a single line discovers, if any.
pub fn parse_path_line(line: &str) -> (r: Option<String>)
    ensures
        match r {
            Some(p) => path_spec(line@) == Some(p@),
            None => path_spec(line@) is None,
        },
{
    let n = line.unicode_len();
    proof {
        reveal_strlit("into \"");
        reveal_strlit("[download] ");
        reveal_strlit(" has already been downloaded");
        reveal_strlit("Destination: ");
    }
    if let Some(i) = find_sub(line, "into \"") {
        let rest = line.substring_char(i + 6, n);
        proof {
            assert(rest@ =~= line@.skip(i + 6));
        }
        if let Some(j) = find_char(rest, '"') {
            let p = rest.substring_char(0, j);
            proof {
                assert(p@ =~= rest@.take(j as int));
            }
            return Some(String::from_str(p));
        }
    }
    if let Some(i) = find_sub(line, "[download] ") {
        if let Some(j) = find_sub(line, " has already been downloaded") {
            if i + 11 <= j {
                let p = trim_str(line.substring_char(i + 11, j));
                return Some(String::from_str(p));
            }
        }
    }
    if let Some(i) = find_sub(line, "Destination: ") {
        let p = trim_str(line.substring_char(i + 13, n));
        proof {
            assert(line@.subrange(i + 13, n as int) =~= line@.skip(i + 13));
        }
        return Some(String::from_str(p));
    }
    None
}

} // verus!
