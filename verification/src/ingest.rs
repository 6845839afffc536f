//! The tally of an indexing run.
use crate::document::Built;
use vstd::prelude::*;

verus! {

/// What an indexing run did with the candidate files it saw.
///
/// Each count stops at `u64::MAX` rather than wrap.
#[derive(Clone, Copy, Debug, PartialEq, Eq, Structural)]
pub struct IngestSummary {
    /// Candidate files for which a document was built.
    pub indexed: u64,
    /// Candidate files that were skipped: binary, unreadable or too large.
    pub skipped: u64,
    /// Entries the traversal could not read; each gave a warning and the
    /// traversal went on.
    pub walk_failures: u64,
}

/// `n + 1`, stopping at the largest count.
pub open spec fn bumped(n: u64) -> u64 {
    if n < u64::MAX {
        (n + 1) as u64
    } else {
        n
    }
}

impl IngestSummary {
    /// The tally of a run that has seen nothing yet.
    pub fn new() -> (summary: IngestSummary)
        ensures
            summary == (IngestSummary { indexed: 0, skipped: 0, walk_failures: 0 }),
    {
        IngestSummary { indexed: 0, skipped: 0, walk_failures: 0 }
    }

    /// The number of candidate files seen: those indexed and those skipped.
    pub open spec fn seen_count(self) -> int {
        self.indexed + self.skipped
    }

    /// The number of candidate files seen, stopping at `u64::MAX`.
    pub fn seen(&self) -> (n: u64)
        ensures
            n == if self.seen_count() <= u64::MAX {
                self.seen_count()
            } else {
                u64::MAX as int
            },
    {
        self.indexed.saturating_add(self.skipped)
    }

    /// Counts one candidate file, by what was built for it.
    pub fn record(&mut self, built: &Built)
        ensures
            *final(self) == match *built {
                Built::Doc(_) => IngestSummary {
                    indexed: bumped(old(self).indexed),
                    ..*old(self)
                },
                Built::Skip(_) => IngestSummary {
                    skipped: bumped(old(self).skipped),
                    ..*old(self)
                },
            },
    {
        match built {
            Built::Doc(_) => {
                self.indexed = self.indexed.saturating_add(1);
            },
            Built::Skip(_) => {
                self.skipped = self.skipped.saturating_add(1);
            },
        }
    }

    /// Counts one entry that the traversal could not read.
    pub fn record_walk_failure(&mut self)
        ensures
            *final(self) == (IngestSummary {
                walk_failures: bumped(old(self).walk_failures),
                ..*old(self)
            }),
    {
        self.walk_failures = self.walk_failures.saturating_add(1);
    }
}

} // verus!
