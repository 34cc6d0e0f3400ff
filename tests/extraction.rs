use binwalk::chroot::{sanitize_name, CarveError, Chroot};
use binwalk::dispatch::{
    external_succeeded, next_step, queue_output, recursion_after, Recursion, Step,
};
use binwalk::extractor::{ExtractionResult, Extractor, ExtractorType, InternalExtractor};
use binwalk::pe::{parse_pe_file, StructureError};
use binwalk::pe_extractor::{extract_pe_file, pe_extractor};
use binwalk::progress::{ConsumedRegions, ScanQueue};
use binwalk::survey::{dry_run_extract, survey, Candidate, DryOutcome, Record, Registry};

/// A 64-byte PE stub: DOS header with the PE header folded into it, no sections.
fn pe_stub() -> Vec<u8> {
    let mut s = vec![0u8; 64];
    s[0] = b'M';
    s[1] = b'Z';
    s[4] = b'P';
    s[5] = b'E';
    s[8] = 0x4c;
    s[9] = 0x01;
    s[0x3C] = 4;
    s
}

fn blob_with_stub() -> Vec<u8> {
    let mut blob = vec![0u8; 10_000];
    blob[100..164].copy_from_slice(&pe_stub());
    blob
}

fn noise(n: usize) -> Vec<u8> {
    let mut x: u32 = 0x1234_5678;
    (0..n)
        .map(|_| {
            x = x.wrapping_mul(1_103_515_245).wrapping_add(12_345);
            (x >> 16) as u8
        })
        .collect()
}

#[test]
fn stub_with_output_directory_is_carved() {
    let blob = blob_with_stub();
    let r = extract_pe_file(&blob, 100, Some("/tmp/out"));
    assert!(r.success);
    assert_eq!(r.size, Some(64));
    let plan = r.carve.expect("a carve is planned");
    assert_eq!(plan.path, b"/tmp/out/executable.exe".to_vec());
    assert_eq!(plan.data.len(), 64);
    assert_eq!(plan.data, blob[100..164].to_vec());
}

#[test]
fn stub_without_output_directory_plans_nothing() {
    let blob = blob_with_stub();
    let r = extract_pe_file(&blob, 100, None);
    assert!(r.success);
    assert_eq!(r.size, Some(64));
    assert!(r.carve.is_none());
}

#[test]
fn noise_fails_and_later_candidates_still_extract() {
    let mut blob = noise(10_000);
    blob[5000..5064].copy_from_slice(&pe_stub());
    let r = extract_pe_file(&blob, 17, Some("out"));
    assert!(!r.success);
    assert!(r.carve.is_none());
    let r = extract_pe_file(&blob, 5000, Some("out"));
    assert!(r.success);
    assert_eq!(r.size, Some(64));
}

#[test]
fn offset_at_end_of_blob_fails() {
    let blob = blob_with_stub();
    let r = extract_pe_file(&blob, blob.len(), Some("out"));
    assert!(!r.success);
    assert!(r.size.is_none());
    let r = extract_pe_file(&blob, blob.len() + 5, None);
    assert!(!r.success);
}

#[test]
fn rerun_gives_identical_carve() {
    let blob = blob_with_stub();
    let a = extract_pe_file(&blob, 100, Some("out")).carve.unwrap();
    let b = extract_pe_file(&blob, 100, Some("out")).carve.unwrap();
    assert_eq!(a.path, b.path);
    assert_eq!(a.data, b.data);
}

#[test]
fn image_size_follows_sections() {
    let mut img = vec![0u8; 0x400];
    img[0] = b'M';
    img[1] = b'Z';
    img[0x3C] = 0x80;
    img[0x80] = b'P';
    img[0x81] = b'E';
    img[0x86] = 2; // two sections
    img[0x94] = 0; // no optional header
    // section table at 0x98: raw size at +16, raw pointer at +20
    let s0 = 0x98;
    img[s0 + 16] = 0x00;
    img[s0 + 17] = 0x01; // 0x100 bytes
    img[s0 + 20] = 0x00;
    img[s0 + 21] = 0x02; // at 0x200
    let s1 = s0 + 40;
    img[s1 + 16] = 0x80; // 0x80 bytes
    img[s1 + 20] = 0x00;
    img[s1 + 21] = 0x01; // at 0x100
    let p = parse_pe_file(&img).ok().unwrap();
    assert_eq!(p.size, 0x300);
    assert_eq!(p.sections, 2);
    // one byte short of the last section: truncated
    assert_eq!(parse_pe_file(&img[..0x2ff]).err(), Some(StructureError::Truncated));
}

#[test]
fn parser_errors() {
    assert_eq!(parse_pe_file(&[0u8; 10]).err(), Some(StructureError::Truncated));
    assert_eq!(parse_pe_file(&[0u8; 64]).err(), Some(StructureError::BadMagic));
    let mut s = pe_stub();
    s[10] = 97; // more sections than the format allows
    assert_eq!(parse_pe_file(&s).err(), Some(StructureError::TooManySections));
    let mut s = pe_stub();
    s[0x3C] = 200; // PE header past the end
    assert_eq!(parse_pe_file(&s).err(), Some(StructureError::Truncated));
    let mut s = pe_stub();
    s[5] = b'X';
    assert_eq!(parse_pe_file(&s).err(), Some(StructureError::BadMagic));
}

#[test]
fn traversal_names_are_sanitized() {
    assert_eq!(sanitize_name(b"../../etc/passwd"), Some(b"etc_passwd".to_vec()));
    assert_eq!(sanitize_name(b"/abs/./x"), Some(b"abs_x".to_vec()));
    assert_eq!(sanitize_name(b"..\\..\\win.ini"), Some(b"win.ini".to_vec()));
    assert_eq!(sanitize_name(b"executable.exe"), Some(b"executable.exe".to_vec()));
    assert_eq!(sanitize_name(b"..."), Some(b"...".to_vec()));
    assert_eq!(sanitize_name(b".."), None);
    assert_eq!(sanitize_name(b"/"), None);
    assert_eq!(sanitize_name(b""), None);
}

#[test]
fn carve_plans_stay_under_root() {
    let blob: Vec<u8> = (0u8..50).collect();
    let c = Chroot::new(Some("root"));
    let p = c.plan_carve("../../etc/passwd", &blob, 10, 5).ok().unwrap();
    assert_eq!(p.path, b"root/etc_passwd".to_vec());
    assert_eq!(p.data, vec![10, 11, 12, 13, 14]);
    let c = Chroot::new(Some("root/"));
    assert_eq!(c.plan_carve("a", &blob, 0, 1).ok().unwrap().path, b"root/a".to_vec());
    let c = Chroot::new(Some(""));
    assert_eq!(c.plan_carve("a", &blob, 0, 1).ok().unwrap().path, b"a".to_vec());
}

#[test]
fn carve_is_clipped_to_blob() {
    let blob: Vec<u8> = (0u8..50).collect();
    let c = Chroot::new(Some("root"));
    let p = c.plan_carve("x", &blob, 45, 100).ok().unwrap();
    assert_eq!(p.data, vec![45, 46, 47, 48, 49]);
}

#[test]
fn carve_errors() {
    let blob: Vec<u8> = (0u8..50).collect();
    let c = Chroot::new(Some("root"));
    assert_eq!(c.plan_carve("x", &blob, 51, 1).err(), Some(CarveError::OffsetOutOfRange));
    assert_eq!(c.plan_carve("x", &blob, 50, 1).err(), Some(CarveError::EmptyRange));
    assert_eq!(c.plan_carve("x", &blob, 3, 0).err(), Some(CarveError::EmptyRange));
    assert_eq!(c.plan_carve("../..", &blob, 3, 4).err(), Some(CarveError::UnsafeName));
    let dry = Chroot::new(None);
    assert_eq!(dry.plan_carve("x", &blob, 3, 4).err(), Some(CarveError::DryRun));
}

#[test]
fn pe_descriptor_does_not_recurse() {
    let e = pe_extractor();
    assert!(e.do_not_recurse);
    assert!(matches!(e.utility, ExtractorType::Internal(InternalExtractor::Pe)));
    assert_eq!(e.exit_codes, vec![0]);
    let d = Extractor::default();
    assert!(matches!(d.utility, ExtractorType::Unconfigured));
    assert!(!d.do_not_recurse);
}

#[test]
fn self_referential_output_is_not_rescanned() {
    // the carved file is byte for byte the input
    let stub = pe_stub();
    let e = pe_extractor();
    let r = extract_pe_file(&stub, 0, Some("out"));
    assert!(r.success);
    assert_eq!(r.carve.as_ref().unwrap().data, stub);
    assert_eq!(recursion_after(&e, &r, true, 0, 8), Recursion::Stop);
}

#[test]
fn recursion_is_bounded() {
    let mut e = Extractor::default();
    e.utility = ExtractorType::External("unzip".to_string());
    let ok = ExtractionResult { success: true, size: Some(4), carve: None };
    assert_eq!(recursion_after(&e, &ok, true, 2, 8), Recursion::Enqueue);
    assert_eq!(recursion_after(&e, &ok, true, 8, 8), Recursion::LimitExceeded);
    assert_eq!(recursion_after(&e, &ok, false, 2, 8), Recursion::Stop);
    assert_eq!(recursion_after(&e, &ExtractionResult::failed(), true, 2, 8), Recursion::Stop);
}

#[test]
fn finish_carve_records_the_write() {
    let blob = blob_with_stub();
    let r = extract_pe_file(&blob, 100, Some("out")).finish_carve(false);
    assert!(!r.success);
    assert_eq!(r.size, Some(64));
    assert!(r.carve.is_none());
    let r = extract_pe_file(&blob, 100, Some("out")).finish_carve(true);
    assert!(r.success);
}

#[test]
fn dispatch_tries_descriptors_in_order() {
    let blob = blob_with_stub();
    let mut ext = Extractor::default();
    ext.utility = ExtractorType::External("tool".to_string());
    let descriptors = vec![pe_extractor(), ext, Extractor::default()];
    match next_step(&descriptors, 0, &blob, 100, Some("out")) {
        Step::Extracted { index, result } => {
            assert_eq!(index, 0);
            assert_eq!(result.size, Some(64));
        }
        _ => panic!("expected an in-process extraction"),
    }
    match next_step(&descriptors, 0, &blob, 7, Some("out")) {
        Step::RunExternal { index, command, input } => {
            assert_eq!(index, 1);
            assert_eq!(command, "tool");
            assert_eq!(input.path, b"out/source".to_vec());
            assert_eq!(input.data, blob[7..].to_vec());
        }
        _ => panic!("expected an external run"),
    }
    // dry run: the external tool is passed over, the unconfigured one is reported
    assert!(matches!(
        next_step(&descriptors, 0, &blob, 7, None),
        Step::Misconfigured { index: 2 }
    ));
    let only_pe = vec![pe_extractor()];
    assert!(matches!(next_step(&only_pe, 0, &blob, 7, None), Step::NoMatch));
}

#[test]
fn exit_codes_decide_external_success() {
    let mut e = Extractor::default();
    e.exit_codes = vec![0, 2];
    assert!(external_succeeded(&e, 0));
    assert!(external_succeeded(&e, 2));
    assert!(!external_succeeded(&e, 1));
}

#[test]
fn consumed_regions_do_not_overlap() {
    let mut c = ConsumedRegions::new();
    assert!(c.claim(100, 164));
    assert!(!c.claim(150, 200));
    assert!(!c.claim(0, 101));
    assert!(c.claim(164, 200));
    assert!(!c.claim(5, 5));
    assert!(c.is_claimed(100));
    assert!(c.is_claimed(199));
    assert!(!c.is_claimed(99));
    assert!(!c.is_claimed(200));
    assert_eq!(c.regions, vec![(100, 164), (164, 200)]);
}

#[test]
fn scan_queue_is_fifo_and_bounded() {
    let mut q = ScanQueue::new(2);
    assert!(q.push(b"a".to_vec(), 1));
    assert!(q.push(b"b".to_vec(), 2));
    assert!(!q.push(b"c".to_vec(), 2));
    assert_eq!(q.pop(), Some((b"a".to_vec(), 1)));
    assert_eq!(q.pop(), Some((b"b".to_vec(), 2)));
    assert_eq!(q.pop(), None);
}

#[test]
fn candidates_get_their_own_directory() {
    let c = Chroot::new(Some("out")).for_candidate(0x1F);
    assert_eq!(c.root, Some(b"out/1F".to_vec()));
    let c = Chroot::new(Some("out/")).for_candidate(0);
    assert_eq!(c.root, Some(b"out/0".to_vec()));
    let c = Chroot::new(Some("out")).for_candidate(100);
    assert_eq!(c.root, Some(b"out/64".to_vec()));
    let c = Chroot::new(None).for_candidate(5);
    assert!(c.root.is_none());
    let a = Chroot::new(Some("out")).for_candidate(16);
    let b = Chroot::new(Some("out")).for_candidate(1);
    assert_ne!(a.root, b.root);
}

fn registry() -> Registry {
    Registry {
        entries: vec![
            ("pe".to_string(), vec![pe_extractor()]),
            ("broken".to_string(), vec![Extractor::default()]),
        ],
    }
}

#[test]
fn survey_reports_each_candidate_once() {
    let mut blob = noise(10_000);
    blob[100..164].copy_from_slice(&pe_stub());
    let cs = vec![
        Candidate { offset: 40, format: "pe".to_string() },
        Candidate { offset: 100, format: "pe".to_string() },
        Candidate { offset: 120, format: "pe".to_string() },
        Candidate { offset: 164, format: "zip".to_string() },
        Candidate { offset: 200, format: "broken".to_string() },
    ];
    let r = survey(&registry(), &blob, &cs);
    assert_eq!(
        r,
        vec![
            Record { offset: 40, success: false, size: None, configuration_error: false },
            Record { offset: 100, success: true, size: Some(64), configuration_error: false },
            Record { offset: 164, success: false, size: None, configuration_error: false },
            Record { offset: 200, success: false, size: None, configuration_error: true },
        ]
    );
}

#[test]
fn registry_lookup_and_dry_run() {
    let reg = registry();
    assert!(reg.lookup(&"zip".to_string()).is_none());
    let descs = reg.lookup(&"pe".to_string()).unwrap();
    let blob = blob_with_stub();
    assert_eq!(dry_run_extract(descs, &blob, 100), DryOutcome::Found { index: 0, size: 64 });
    assert_eq!(dry_run_extract(descs, &blob, 101), DryOutcome::NotFound);
    let broken = reg.lookup(&"broken".to_string()).unwrap();
    assert_eq!(dry_run_extract(broken, &blob, 100), DryOutcome::Misconfigured { index: 0 });
}

#[test]
fn carved_output_is_queued_within_bounds() {
    let mut e = Extractor::default();
    e.utility = ExtractorType::External("unzip".to_string());
    let ok = ExtractionResult { success: true, size: Some(4), carve: None };
    let mut q = ScanQueue::new(1);
    assert_eq!(queue_output(&mut q, &e, &ok, b"out/0/a".to_vec(), true, 0, 4), Recursion::Enqueue);
    assert_eq!(q.pop(), Some((b"out/0/a".to_vec(), 1)));
    // the queue has taken all it may
    assert_eq!(
        queue_output(&mut q, &e, &ok, b"out/0/b".to_vec(), true, 0, 4),
        Recursion::LimitExceeded
    );
    let mut q = ScanQueue::new(4);
    assert_eq!(
        queue_output(&mut q, &e, &ok, b"out/0/c".to_vec(), true, 4, 4),
        Recursion::LimitExceeded
    );
    assert_eq!(q.items.len(), 0);
    // the executable extractor never feeds its output back, even into an empty queue
    let stub = pe_stub();
    let r = extract_pe_file(&stub, 0, Some("out"));
    assert_eq!(
        queue_output(&mut q, &pe_extractor(), &r, b"out/executable.exe".to_vec(), true, 0, 4),
        Recursion::Stop
    );
    assert_eq!(q.items.len(), 0);
}
