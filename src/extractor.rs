//! Extractor descriptors and the result every extraction attempt returns.
use crate::chroot::CarvePlan;
use vstd::prelude::*;

verus! {

/// The in-process extractors of this library.
#[derive(Debug, Clone, Copy, PartialEq, Eq, Structural)]
pub enum InternalExtractor {
    Pe,
}

/// How an extractor does its work.
pub enum ExtractorType {
    /// Not configured: such a descriptor must never be dispatched.
    Unconfigured,
    /// Runs in-process against the blob.
    Internal(InternalExtractor),
    /// Runs the named command on a carved copy of the candidate region.
    External(String),
}

/// One extraction capability, immutable once built.
pub struct Extractor {
    pub utility: ExtractorType,
    pub extension: String,
    pub arguments: Vec<String>,
    pub exit_codes: Vec<i32>,
    pub do_not_recurse: bool,
}

impl Default for Extractor {
    fn default() -> (r: Extractor)
        ensures
            r.utility is Unconfigured,
            r.extension@.len() == 0,
            r.arguments@.len() == 0,
            r.exit_codes@ == seq![0i32],
            !r.do_not_recurse,
    {
        Extractor {
            utility: ExtractorType::Unconfigured,
            extension: String::new(),
            arguments: Vec::new(),
            exit_codes: vec![0i32],
            do_not_recurse: false,
        }
    }
}

/// What a planned carve writes: its path and its bytes.
pub open spec fn plan_view(c: Option<CarvePlan>) -> Option<(Seq<u8>, Seq<u8>)> {
    match c {
        Some(p) => Some((p.path@, p.data@)),
        None => None,
    }
}

/// The outcome of one extraction attempt.
///
/// Where `carve` holds a plan, the extraction stands only once that file is written:
/// `finish_carve` records whether it was.
pub struct ExtractionResult {
    pub success: bool,
    pub size: Option<usize>,
    pub carve: Option<CarvePlan>,
}

impl ExtractionResult {
    pub open spec fn view(&self) -> (bool, Option<usize>, Option<(Seq<u8>, Seq<u8>)>) {
        (self.success, self.size, plan_view(self.carve))
    }

    /// A failed attempt that claims nothing.
    pub fn failed() -> (r: ExtractionResult)
        ensures
            r@ == (false, None::<usize>, None::<(Seq<u8>, Seq<u8>)>),
    {
        ExtractionResult { success: false, size: None, carve: None }
    }

    /// Records whether the planned file was written; the plan is then spent.
    pub fn finish_carve(self, written: bool) -> (r: ExtractionResult)
        ensures
            r.success == (self.success && written),
            r.size == self.size,
            r.carve is None,
    {
        ExtractionResult { success: self.success && written, size: self.size, carve: None }
    }
}

} // verus!
