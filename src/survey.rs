//! A dry-run pass over the candidates of a blob: what is in it, and how large, with
//! nothing written.
use crate::dispatch::{internal_result, run_internal};
use crate::extractor::{Extractor, ExtractorType};
use crate::progress::{free_in, ConsumedRegions};
use vstd::prelude::*;

verus! {

/// A position proposed by signature matching, with the format it seems to hold.
pub struct Candidate {
    pub offset: usize,
    pub format: String,
}

/// The descriptors of each format, most specific first.
pub struct Registry {
    pub entries: Vec<(String, Vec<Extractor>)>,
}

/// What the survey reports of one candidate.
#[derive(Debug, Clone, Copy, PartialEq, Eq, Structural)]
pub struct Record {
    pub offset: usize,
    pub success: bool,
    pub size: Option<usize>,
    /// The format's descriptors hold one with no strategy.
    pub configuration_error: bool,
}

/// The descriptors registered first for `format`, searching from entry `from`.
pub open spec fn lookup_from(entries: Seq<(String, Vec<Extractor>)>, format: Seq<char>, from: int) -> Option<
    Seq<Extractor>,
>
    decreases entries.len() - from,
{
    if from >= entries.len() {
        None
    } else if entries[from].0@ == format {
        Some(entries[from].1@)
    } else {
        lookup_from(entries, format, from + 1)
    }
}

/// How a dry-run attempt on one candidate ends.
#[derive(Debug, Clone, Copy, PartialEq, Eq, Structural)]
pub enum DryOutcome {
    /// Descriptor `index` recognised `size` bytes.
    Found { index: usize, size: usize },
    /// Descriptor `index` has no strategy.
    Misconfigured { index: usize },
    /// No descriptor recognised the candidate.
    NotFound,
}

/// Descriptors are tried in order from `from`; external tools cannot run without an
/// output directory and are passed over.
pub open spec fn dry_outcome(descs: Seq<Extractor>, from: int, blob: Seq<u8>, offset: int) -> DryOutcome
    decreases descs.len() - from,
{
    if from < 0 || from >= descs.len() {
        DryOutcome::NotFound
    } else {
        match descs[from].utility {
            ExtractorType::Internal(k) => {
                let r = internal_result(k, blob, offset, None);
                if r.0 && r.1 is Some {
                    DryOutcome::Found { index: from as usize, size: r.1->0 }
                } else {
                    dry_outcome(descs, from + 1, blob, offset)
                }
            },
            ExtractorType::External(_) => dry_outcome(descs, from + 1, blob, offset),
            ExtractorType::Unconfigured => DryOutcome::Misconfigured { index: from as usize },
        }
    }
}

/// The records and claimed ranges after one more candidate. A candidate inside a claimed
/// range is skipped; a recognised object claims its bytes where they are still free.
pub open spec fn survey_step(
    state: (Seq<Record>, Seq<(usize, usize)>),
    entries: Seq<(String, Vec<Extractor>)>,
    blob: Seq<u8>,
    c: Candidate,
) -> (Seq<Record>, Seq<(usize, usize)>) {
    let (records, claimed) = state;
    let o = c.offset;
    if !free_in(claimed, o as int, o + 1) {
        state
    } else {
        let failed = Record { offset: o, success: false, size: None, configuration_error: false };
        match lookup_from(entries, c.format@, 0) {
            None => (records.push(failed), claimed),
            Some(descs) => match dry_outcome(descs, 0, blob, o as int) {
                DryOutcome::Found { index, size } => {
                    let rec = Record { offset: o, success: true, size: Some(size), configuration_error: false };
                    if 0 < size && o + size <= blob.len() && free_in(claimed, o as int, o + size) {
                        (records.push(rec), claimed.push((o, (o + size) as usize)))
                    } else {
                        (records.push(rec), claimed)
                    }
                },
                DryOutcome::Misconfigured { index } => (
                    records.push(Record { configuration_error: true, ..failed }),
                    claimed,
                ),
                DryOutcome::NotFound => (records.push(failed), claimed),
            },
        }
    }
}

/// The records and claimed ranges after the candidates `cs`, in order.
pub open spec fn survey_of(entries: Seq<(String, Vec<Extractor>)>, blob: Seq<u8>, cs: Seq<Candidate>) -> (
    Seq<Record>,
    Seq<(usize, usize)>,
)
    decreases cs.len(),
{
    if cs.len() == 0 {
        (seq![], seq![])
    } else {
        survey_step(survey_of(entries, blob, cs.drop_last()), entries, blob, cs.last())
    }
}

/// A candidate that is not recognised claims no bytes: the candidates after it are judged
/// exactly as if it had not been there, and it adds at most one failed record.
pub proof fn lemma_failure_leaves_claims(
    state: (Seq<Record>, Seq<(usize, usize)>),
    entries: Seq<(String, Vec<Extractor>)>,
    blob: Seq<u8>,
    c: Candidate,
)
    ensures
        ({
            let next = survey_step(state, entries, blob, c);
            (next.0.len() == state.0.len() || !next.0.last().success) ==> next.1 == state.1
        }),
{
}

impl Registry {
    /// The descriptors registered first for `format`.
    pub fn lookup(&self, format: &String) -> (r: Option<&Vec<Extractor>>)
        ensures
            match (r, lookup_from(self.entries@, format@, 0)) {
                (Some(v), Some(s)) => v@ == s,
                (None, None) => true,
                _ => false,
            },
    {
        let mut i: usize = 0;
        while i < self.entries.len()
            invariant
                i <= self.entries@.len(),
                lookup_from(self.entries@, format@, 0) == lookup_from(self.entries@, format@, i as int),
            decreases self.entries@.len() - i,
        {
            if self.entries[i].0 == *format {
                return Some(&self.entries[i].1);
            }
            i = i + 1;
        }
        None
    }
}

/// Tries the descriptors in order on the candidate at `offset`, writing nothing.
pub fn dry_run_extract(descs: &Vec<Extractor>, blob: &[u8], offset: usize) -> (r: DryOutcome)
    ensures
        r == dry_outcome(descs@, 0, blob@, offset as int),
{
    let mut i: usize = 0;
    while i < descs.len()
        invariant
            i <= descs@.len(),
            dry_outcome(descs@, 0, blob@, offset as int) == dry_outcome(descs@, i as int, blob@, offset as int),
        decreases descs@.len() - i,
    {
        match &descs[i].utility {
            ExtractorType::Internal(k) => {
                let r = run_internal(*k, blob, offset, None);
                if r.success {
                    if let Some(size) = r.size {
                        return DryOutcome::Found { index: i, size };
                    }
                }
            },
            ExtractorType::External(_) => {},
            ExtractorType::Unconfigured => {
                return DryOutcome::Misconfigured { index: i };
            },
        }
        i = i + 1;
    }
    DryOutcome::NotFound
}

/// Surveys the candidates in order, recording for each not already inside an extracted
/// object whether it was recognised and how large it is.
pub fn survey(registry: &Registry, blob: &[u8], candidates: &Vec<Candidate>) -> (r: Vec<Record>)
    ensures
        r@ == survey_of(registry.entries@, blob@, candidates@).0,
{
    let mut records: Vec<Record> = Vec::new();
    let mut claimed = ConsumedRegions::new();
    let mut i: usize = 0;
    while i < candidates.len()
        invariant
            i <= candidates@.len(),
            claimed.wf(),
            (records@, claimed.regions@) == survey_of(registry.entries@, blob@, candidates@.take(i as int)),
        decreases candidates@.len() - i,
    {
        let c = &candidates[i];
        let o = c.offset;
        assert(candidates@.take(i + 1).drop_last() =~= candidates@.take(i as int));
        if !claimed.is_claimed(o) {
            let failed = Record { offset: o, success: false, size: None, configuration_error: false };
            match registry.lookup(&c.format) {
                None => records.push(failed),
                Some(descs) => match dry_run_extract(descs, blob, o) {
                    DryOutcome::Found { index, size } => {
                        records.push(Record { offset: o, success: true, size: Some(size), configuration_error: false });
                        if o <= blob.len() && size <= blob.len() - o {
                            claimed.claim(o, o + size);
                        }
                    },
                    DryOutcome::Misconfigured { index } => {
                        records.push(Record { offset: o, success: false, size: None, configuration_error: true });
                    },
                    DryOutcome::NotFound => records.push(failed),
                },
            }
        }
        i = i + 1;
    }
    assert(candidates@.take(i as int) =~= candidates@);
    records
}

} // verus!
