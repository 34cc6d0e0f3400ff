//! Bookkeeping of a scan: the byte ranges already claimed, and the files still to scan.
use vstd::prelude::*;

verus! {

/// The half-open ranges `[a, b)` and `[c, d)` share a byte.
pub open spec fn overlaps(a: int, b: int, c: int, d: int) -> bool {
    a < d && c < b
}

/// No range of `regions` shares a byte with `[start, end)`.
pub open spec fn free_in(regions: Seq<(usize, usize)>, start: int, end: int) -> bool {
    forall|i: int|
        0 <= i < regions.len() ==> !overlaps(
            (#[trigger] regions[i]).0 as int,
            regions[i].1 as int,
            start,
            end,
        )
}

/// Byte ranges claimed by successful extractions, pairwise disjoint.
pub struct ConsumedRegions {
    pub regions: Vec<(usize, usize)>,
}

impl ConsumedRegions {
    pub open spec fn wf(&self) -> bool {
        &&& forall|i: int| 0 <= i < self.regions@.len() ==> (#[trigger] self.regions@[i]).0 < self.regions@[i].1
        &&& forall|i: int, j: int|
            0 <= i < j < self.regions@.len() ==> !overlaps(
                (#[trigger] self.regions@[i]).0 as int,
                self.regions@[i].1 as int,
                (#[trigger] self.regions@[j]).0 as int,
                self.regions@[j].1 as int,
            )
    }

    /// No claimed range shares a byte with `[start, end)`.
    pub open spec fn is_free(&self, start: int, end: int) -> bool {
        free_in(self.regions@, start, end)
    }

    pub fn new() -> (r: ConsumedRegions)
        ensures
            r.wf(),
            r.regions@.len() == 0,
    {
        ConsumedRegions { regions: Vec::new() }
    }

    /// Whether the byte at `pos` already belongs to an extraction.
    pub fn is_claimed(&self, pos: usize) -> (r: bool)
        ensures
            r == !self.is_free(pos as int, pos + 1),
    {
        let mut i: usize = 0;
        while i < self.regions.len()
            invariant
                i <= self.regions@.len(),
                forall|j: int|
                    0 <= j < i ==> !overlaps(
                        (#[trigger] self.regions@[j]).0 as int,
                        self.regions@[j].1 as int,
                        pos as int,
                        pos + 1,
                    ),
            decreases self.regions@.len() - i,
        {
            let (a, b) = self.regions[i];
            if a <= pos && pos < b {
                return true;
            }
            i = i + 1;
        }
        false
    }

    /// Claims `[start, end)` when it is not empty and shares no byte with an earlier claim.
    pub fn claim(&mut self, start: usize, end: usize) -> (r: bool)
        requires
            old(self).wf(),
        ensures
            final(self).wf(),
            r == (start < end && old(self).is_free(start as int, end as int)),
            r ==> final(self).regions@ == old(self).regions@.push((start, end)),
            !r ==> final(self).regions@ == old(self).regions@,
    {
        if start >= end {
            return false;
        }
        let mut i: usize = 0;
        while i < self.regions.len()
            invariant
                i <= self.regions@.len(),
                self.regions@ == old(self).regions@,
                self.wf(),
                forall|j: int|
                    0 <= j < i ==> !overlaps(
                        (#[trigger] self.regions@[j]).0 as int,
                        self.regions@[j].1 as int,
                        start as int,
                        end as int,
                    ),
            decreases self.regions@.len() - i,
        {
            let (a, b) = self.regions[i];
            if a < end && start < b {
                return false;
            }
            i = i + 1;
        }
        self.regions.push((start, end));
        true
    }
}

/// A file waiting to be scanned, at its depth of nesting.
pub struct ScanItem {
    pub path: Vec<u8>,
    pub depth: usize,
}

/// Breadth-first queue of files to scan, bounded in how many it ever takes.
pub struct ScanQueue {
    pub items: Vec<ScanItem>,
    pub next: usize,
    pub max_files: usize,
}

impl ScanQueue {
    pub open spec fn wf(&self) -> bool {
        self.next <= self.items@.len() <= self.max_files
    }

    pub fn new(max_files: usize) -> (r: ScanQueue)
        ensures
            r.wf(),
            r.items@.len() == 0,
            r.next == 0,
            r.max_files == max_files,
    {
        ScanQueue { items: Vec::new(), next: 0, max_files }
    }

    /// Queues a file; refused, and reported as truncation, once `max_files` were taken.
    pub fn push(&mut self, path: Vec<u8>, depth: usize) -> (r: bool)
        requires
            old(self).wf(),
        ensures
            final(self).wf(),
            final(self).next == old(self).next,
            final(self).max_files == old(self).max_files,
            r == (old(self).items@.len() < old(self).max_files),
            r ==> final(self).items@.len() == old(self).items@.len() + 1
                && final(self).items@.last().path@ == path@
                && final(self).items@.last().depth == depth
                && final(self).items@.drop_last() == old(self).items@,
            !r ==> final(self).items@ == old(self).items@,
    {
        if self.items.len() >= self.max_files {
            return false;
        }
        self.items.push(ScanItem { path, depth });
        true
    }

    /// Takes the oldest file not yet scanned.
    pub fn pop(&mut self) -> (r: Option<(Vec<u8>, usize)>)
        requires
            old(self).wf(),
        ensures
            final(self).wf(),
            final(self).items@ == old(self).items@,
            final(self).max_files == old(self).max_files,
            old(self).next == old(self).items@.len() ==> r is None && final(self).next == old(self).next,
            old(self).next < old(self).items@.len() ==> final(self).next == old(self).next + 1
                && (r matches Some((p, d)) && p@ == old(self).items@[old(self).next as int].path@
                && d == old(self).items@[old(self).next as int].depth),
    {
        if self.next >= self.items.len() {
            return None;
        }
        let item = &self.items[self.next];
        let path = item.path.clone();
        let depth = item.depth;
        self.next = self.next + 1;
        Some((path, depth))
    }
}

} // verus!
