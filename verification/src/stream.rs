//! Per-download folding of the primary output stream.
//!
//! A `StreamScan` consumes the lines of the tool's primary stream one at
//! a time, in arrival order, reporting progress events and keeping the
//! most recent path discovery.  The concurrent reader threads serialize
//! their complete observations into this fold; the discovered path is
//! only ever replaced wholesale, never edited in place.

use vstd::prelude::*;
use vstd::string::StringExecFns;
use crate::paths::fold_paths;
use crate::paths::parse_path_line;
use crate::progress::event_matches;
use crate::progress::parse_progress_line;
use crate::progress::progress_spec;
use crate::progress::ProgressEvent;

verus! {

/// Running state of one download's stream scan.
pub struct StreamScan {
    discovered: Option<String>,
    seen: Ghost<Seq<Seq<char>>>,
}

impl StreamScan {
    /// The lines observed so far, oldest first.
    pub closed spec fn seen_lines(self) -> Seq<Seq<char>> {
        self.seen@
    }

    /// The discovery currently standing.
    pub closed spec fn discovered_view(self) -> Option<Seq<char>> {
        match self.discovered {
            Some(p) => Some(p@),
            None => None,
        }
    }

    /// The discovery standing is always the fold of the lines seen.
    pub open spec fn wf(self) -> bool {
        self.discovered_view() == fold_paths(self.seen_lines())
    }

    pub fn new() -> (s: Self)
        ensures
            s.wf(),
            s.seen_lines() == Seq::<Seq<char>>::empty(),
    {
        StreamScan { discovered: None, seen: Ghost(Seq::empty()) }
    }

    /// Observe the next line of the primary stream: report what it means
    /// for progress, and keep its path discovery, if any, in place of
    /// the previous one.
    pub fn note_line(&mut self, line: &str) -> (ev: Option<ProgressEvent>)
        requires
            old(self).wf(),
        ensures
            final(self).wf(),
            final(self).seen_lines() == old(self).seen_lines().push(line@),
            event_matches(ev, progress_spec(line@)),
    {
        let p = parse_path_line(line);
        if p.is_some() {
            self.discovered = p;
        }
        proof {
            self.seen@ = self.seen@.push(line@);
            assert(self.seen@.last() == line@);
            assert(self.seen@.drop_last() =~= old(self).seen@);
        }
        parse_progress_line(line)
    }

    /// The final path for a finished download: the best discovery, or
    /// the directory the caller asked for when nothing was discovered —
    /// in that case the flag asks the caller to log a warning, since the
    /// fallback is not a real file path.
    pub fn final_path(&self, requested_dir: &str) -> (r: (String, bool))
        ensures
            match self.discovered_view() {
                Some(p) => r.0@ == p && r.1 == false,
                None => r.0@ == requested_dir@ && r.1 == true,
            },
    {
        match &self.discovered {
            Some(p) => (p.clone(), false),
            None => (String::from_str(requested_dir), true),
        }
    }
}

} // verus!
