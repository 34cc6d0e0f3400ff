//! Choosing an extractor for a candidate, and deciding what is scanned again.
use crate::chroot::{carve_outcome, CarveError, CarvePlan, Chroot};
use crate::extractor::{ExtractionResult, Extractor, ExtractorType, InternalExtractor};
use crate::pe_extractor::{dir_view, extract_pe_file, pe_extraction};
use crate::progress::ScanQueue;
use vstd::prelude::*;
use vstd::string::StringSliceAdditionalSpecFns;

verus! {

/// The name under which a candidate region is handed to an external tool: `source`.
pub open spec fn external_input_name() -> Seq<u8> {
    seq![115u8, 111u8, 117u8, 114u8, 99u8, 101u8]
}

/// What an in-process extractor returns.
pub open spec fn internal_result(k: InternalExtractor, blob: Seq<u8>, offset: int, dir: Option<Seq<u8>>) -> (
    bool,
    Option<usize>,
    Option<(Seq<u8>, Seq<u8>)>,
) {
    match k {
        InternalExtractor::Pe => pe_extraction(blob, offset, dir),
    }
}

/// The file an external tool reads: the blob from `offset` to its end.
pub open spec fn external_input(blob: Seq<u8>, offset: int, dir: Option<Seq<u8>>) -> Result<
    (Seq<u8>, Seq<u8>),
    CarveError,
> {
    carve_outcome(dir, external_input_name(), blob, offset, blob.len() - offset)
}

/// The extractor is passed over at once: an in-process one that fails, or an external
/// one whose input cannot be carved (no output directory, nothing left to carve).
pub open spec fn passes_over(u: ExtractorType, blob: Seq<u8>, offset: int, dir: Option<Seq<u8>>) -> bool {
    match u {
        ExtractorType::Internal(k) => !internal_result(k, blob, offset, dir).0,
        ExtractorType::External(_) => external_input(blob, offset, dir) is Err,
        ExtractorType::Unconfigured => false,
    }
}

/// Runs an in-process extractor.
pub fn run_internal(k: InternalExtractor, blob: &[u8], offset: usize, output_directory: Option<&str>) -> (r:
    ExtractionResult)
    ensures
        r@ == internal_result(k, blob@, offset as int, dir_view(output_directory)),
{
    match k {
        InternalExtractor::Pe => extract_pe_file(blob, offset, output_directory),
    }
}

/// The next thing to do for one candidate.
pub enum Step {
    /// Descriptor `index` extracted the candidate in-process.
    Extracted { index: usize, result: ExtractionResult },
    /// Descriptor `index` names an external tool: write `input`, then run `command`.
    RunExternal { index: usize, command: String, input: CarvePlan },
    /// Descriptor `index` has no strategy: a configuration error.
    Misconfigured { index: usize },
    /// No descriptor from the starting one on extracted the candidate.
    NoMatch,
}

/// Tries the descriptors from `from` on, in order, and stops at the first that extracts
/// the candidate, needs an external run, or is misconfigured.
pub fn next_step(
    descriptors: &Vec<Extractor>,
    from: usize,
    blob: &[u8],
    offset: usize,
    output_directory: Option<&str>,
) -> (r: Step)
    ensures
        ({
            let dir = dir_view(output_directory);
            let passed = |lo: int, hi: int|
                forall|j: int|
                    lo <= j < hi ==> passes_over(#[trigger] descriptors@[j].utility, blob@, offset as int, dir);
            match r {
                Step::Extracted { index, result } => {
                    &&& from <= index < descriptors@.len()
                    &&& passed(from as int, index as int)
                    &&& descriptors@[index as int].utility matches ExtractorType::Internal(k)
                        && result@ == internal_result(k, blob@, offset as int, dir)
                    &&& result.success
                },
                Step::RunExternal { index, command, input } => {
                    &&& from <= index < descriptors@.len()
                    &&& passed(from as int, index as int)
                    &&& descriptors@[index as int].utility matches ExtractorType::External(c)
                        && command == c
                    &&& external_input(blob@, offset as int, dir) == Ok::<(Seq<u8>, Seq<u8>), CarveError>((input.path@, input.data@))
                },
                Step::Misconfigured { index } => {
                    &&& from <= index < descriptors@.len()
                    &&& passed(from as int, index as int)
                    &&& descriptors@[index as int].utility is Unconfigured
                },
                Step::NoMatch => passed(from as int, descriptors@.len() as int),
            }
        }),
{
    let ghost dir = dir_view(output_directory);
    let mut i: usize = from;
    while i < descriptors.len()
        invariant
            dir == dir_view(output_directory),
            from <= i || descriptors@.len() <= i,
            forall|j: int|
                from <= j < i ==> passes_over(#[trigger] descriptors@[j].utility, blob@, offset as int, dir),
        decreases descriptors@.len() - i,
    {
        match &descriptors[i].utility {
            ExtractorType::Internal(k) => {
                let result = run_internal(*k, blob, offset, output_directory);
                if result.success {
                    return Step::Extracted { index: i, result };
                }
            },
            ExtractorType::External(command) => {
                let chroot = Chroot::new(output_directory);
                let name = "source";
                proof {
                    reveal_strlit("source");
                    vstd::string::is_ascii_spec_bytes(name);
                    assert(name.spec_bytes() =~= external_input_name());
                }
                let rest = if offset <= blob.len() { blob.len() - offset } else { 0 };
                if let Ok(input) = chroot.plan_carve(name, blob, offset, rest) {
                    return Step::RunExternal { index: i, command: command.clone(), input };
                }
            },
            ExtractorType::Unconfigured => {
                return Step::Misconfigured { index: i };
            },
        }
        i = i + 1;
    }
    Step::NoMatch
}

/// Whether an external tool's exit code counts as success for its descriptor.
pub fn external_succeeded(extractor: &Extractor, exit_code: i32) -> (r: bool)
    ensures
        r == extractor.exit_codes@.contains(exit_code),
{
    let mut i: usize = 0;
    while i < extractor.exit_codes.len()
        invariant
            i <= extractor.exit_codes@.len(),
            forall|j: int| 0 <= j < i ==> extractor.exit_codes@[j] != exit_code,
        decreases extractor.exit_codes@.len() - i,
    {
        if extractor.exit_codes[i] == exit_code {
            return true;
        }
        i = i + 1;
    }
    false
}

/// What becomes of an extraction's output.
#[derive(Debug, Clone, Copy, PartialEq, Eq, Structural)]
pub enum Recursion {
    /// Nothing is scanned again.
    Stop,
    /// The carved output is queued for scanning at the next depth.
    Enqueue,
    /// The output would be scanned, but the depth bound is reached: reported as truncated.
    LimitExceeded,
}

/// Output is scanned again only where it was written and its extractor allows it.
pub open spec fn wants_rescan(do_not_recurse: bool, success: bool, wrote_output: bool) -> bool {
    success && wrote_output && !do_not_recurse
}

/// Decides whether the output of a successful extraction at `depth` is scanned again.
pub fn recursion_after(extractor: &Extractor, result: &ExtractionResult, wrote_output: bool, depth: usize, max_depth: usize) -> (r: Recursion)
    ensures
        !wants_rescan(extractor.do_not_recurse, result.success, wrote_output) ==> r == Recursion::Stop,
        wants_rescan(extractor.do_not_recurse, result.success, wrote_output) && depth < max_depth ==> r == Recursion::Enqueue,
        wants_rescan(extractor.do_not_recurse, result.success, wrote_output) && depth >= max_depth ==> r == Recursion::LimitExceeded,
{
    if !result.success || !wrote_output || extractor.do_not_recurse {
        Recursion::Stop
    } else if depth < max_depth {
        Recursion::Enqueue
    } else {
        Recursion::LimitExceeded
    }
}

/// Queues the output of an extraction at `depth` for scanning at the next depth, where
/// `recursion_after` calls for it and the queue still has room; a full queue is reported
/// as the recursion limit, never dropped in silence.
pub fn queue_output(
    queue: &mut ScanQueue,
    extractor: &Extractor,
    result: &ExtractionResult,
    output: Vec<u8>,
    wrote_output: bool,
    depth: usize,
    max_depth: usize,
) -> (r: Recursion)
    requires
        old(queue).wf(),
    ensures
        final(queue).wf(),
        final(queue).next == old(queue).next,
        final(queue).max_files == old(queue).max_files,
        ({
            let wanted = wants_rescan(extractor.do_not_recurse, result.success, wrote_output);
            let room = old(queue).items@.len() < old(queue).max_files;
            &&& !wanted ==> r == Recursion::Stop
            &&& wanted && (depth >= max_depth || !room) ==> r == Recursion::LimitExceeded
            &&& wanted && depth < max_depth && room ==> r == Recursion::Enqueue
        }),
        r == Recursion::Enqueue ==> {
            &&& final(queue).items@.drop_last() == old(queue).items@
            &&& final(queue).items@.last().path@ == output@
            &&& final(queue).items@.last().depth == depth + 1
        },
        r != Recursion::Enqueue ==> final(queue).items@ == old(queue).items@,
{
    let decision = recursion_after(extractor, result, wrote_output, depth, max_depth);
    match decision {
        Recursion::Enqueue => {
            if queue.push(output, depth + 1) {
                Recursion::Enqueue
            } else {
                Recursion::LimitExceeded
            }
        },
        _ => decision,
    }
}

/// A descriptor that forbids recursion never has its output queued again, whatever the
/// result and whatever the depth.
pub proof fn lemma_do_not_recurse_never_enqueues(success: bool, wrote_output: bool)
    ensures
        !wants_rescan(true, success, wrote_output),
{
}

} // verus!
