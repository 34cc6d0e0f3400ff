//! Carving of PE executables.
use crate::chroot::{carve_outcome, Chroot};
use crate::extractor::{
    plan_view, ExtractionResult, Extractor, ExtractorType, InternalExtractor,
};
use crate::pe::{image_size, is_pe, lemma_image_reparses, parse_pe_file};
use vstd::prelude::*;
use vstd::string::StringSliceAdditionalSpecFns;

verus! {

/// The name a carved executable gets: `executable.exe`.
pub open spec fn pe_outfile_name() -> Seq<u8> {
    seq![101u8, 120u8, 101u8, 99u8, 117u8, 116u8, 97u8, 98u8, 108u8, 101u8, 46u8, 101u8, 120u8, 101u8]
}

pub open spec fn dir_view(d: Option<&str>) -> Option<Seq<u8>> {
    match d {
        Some(s) => Some(s.spec_bytes()),
        None => None,
    }
}

/// The result of extracting a PE image at `offset`: success, size, and the file to write.
pub open spec fn pe_extraction(blob: Seq<u8>, offset: int, dir: Option<Seq<u8>>) -> (
    bool,
    Option<usize>,
    Option<(Seq<u8>, Seq<u8>)>,
) {
    if offset > blob.len() || !is_pe(blob.subrange(offset, blob.len() as int)) {
        (false, None, None)
    } else {
        let n = image_size(blob.subrange(offset, blob.len() as int));
        match dir {
            None => (true, Some(n as usize), None),
            Some(d) => match carve_outcome(Some(d), pe_outfile_name(), blob, offset, n) {
                Ok(plan) => (true, Some(n as usize), Some(plan)),
                Err(_) => (false, Some(n as usize), None),
            },
        }
    }
}

/// The carved executable holds exactly the `size` bytes of the image at `offset`.
pub proof fn lemma_carved_pe_is_image(blob: Seq<u8>, offset: int, dir: Option<Seq<u8>>)
    requires
        0 <= offset,
        blob.len() <= usize::MAX,
    ensures
        pe_extraction(blob, offset, dir) matches (success, Some(size), Some((path, data))) ==> {
            &&& success
            &&& data.len() == size
            &&& data == blob.subrange(offset, offset + size)
        },
{
}

/// Extracting the carved executable again, from its first byte, finds the same image: the
/// same size, and a carve of the very same bytes.
pub proof fn lemma_carved_pe_reextracts(
    blob: Seq<u8>,
    offset: int,
    dir: Option<Seq<u8>>,
    again: Option<Seq<u8>>,
)
    requires
        0 <= offset,
        blob.len() <= usize::MAX,
    ensures
        pe_extraction(blob, offset, dir) matches (true, Some(n), Some((path, data))) ==> {
            &&& pe_extraction(data, 0, again).1 == Some(n)
            &&& pe_extraction(data, 0, again).2 matches Some((p2, d2)) ==> d2 == data
        },
{
    if let (true, Some(n), Some((path, data))) = pe_extraction(blob, offset, dir) {
        let sub = blob.subrange(offset, blob.len() as int);
        lemma_image_reparses(sub);
        assert(data =~= sub.subrange(0, image_size(sub)));
        assert(data.subrange(0, data.len() as int) =~= data);
    }
}

/// Two extractions over the same blob, offset and output directory plan the same file with
/// the same bytes, and report the same outcome.
pub proof fn lemma_rerun_is_identical(
    first: ExtractionResult,
    second: ExtractionResult,
    blob: Seq<u8>,
    offset: int,
    dir: Option<Seq<u8>>,
)
    requires
        first@ == pe_extraction(blob, offset, dir),
        second@ == pe_extraction(blob, offset, dir),
    ensures
        first.success == second.success,
        first.size == second.size,
        plan_view(first.carve) == plan_view(second.carve),
{
}

/// At the very end of the blob nothing is extracted, and nothing is carved.
pub proof fn lemma_end_of_blob_fails(blob: Seq<u8>, dir: Option<Seq<u8>>)
    ensures
        pe_extraction(blob, blob.len() as int, dir) == (false, None::<usize>, None::<(Seq<u8>, Seq<u8>)>),
{
}

/// The descriptor of the PE extractor; its output is never scanned again.
pub fn pe_extractor() -> (r: Extractor)
    ensures
        r.utility == ExtractorType::Internal(InternalExtractor::Pe),
        r.do_not_recurse,
        r.extension@.len() == 0,
        r.arguments@.len() == 0,
        r.exit_codes@ == seq![0i32],
{
    Extractor { do_not_recurse: true, utility: ExtractorType::Internal(InternalExtractor::Pe), ..Default::default() }
}

/// Extracts the PE image at `offset` of `file_data`, planning its carve when an
/// output directory is given.
pub fn extract_pe_file(file_data: &[u8], offset: usize, output_directory: Option<&str>) -> (r:
    ExtractionResult)
    ensures
        r@ == pe_extraction(file_data@, offset as int, dir_view(output_directory)),
{
    let outfile_name = "executable.exe";
    proof {
        reveal_strlit("executable.exe");
        vstd::string::is_ascii_spec_bytes(outfile_name);
        assert(outfile_name.spec_bytes() =~= pe_outfile_name());
    }
    if offset > file_data.len() {
        return ExtractionResult::failed();
    }
    let region = vstd::slice::slice_subrange(file_data, offset, file_data.len());
    match parse_pe_file(region) {
        Err(_) => ExtractionResult::failed(),
        Ok(pe_file) => {
            match output_directory {
                None => ExtractionResult { success: true, size: Some(pe_file.size), carve: None },
                Some(_) => {
                    let chroot = Chroot::new(output_directory);
                    match chroot.plan_carve(outfile_name, file_data, offset, pe_file.size) {
                        Ok(plan) => ExtractionResult {
                            success: true,
                            size: Some(pe_file.size),
                            carve: Some(plan),
                        },
                        Err(_) => ExtractionResult {
                            success: false,
                            size: Some(pe_file.size),
                            carve: None,
                        },
                    }
                },
            }
        },
    }
}

} // verus!
