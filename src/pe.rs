//! Structural recognition of PE (MZ/PE) executables inside a byte region.
use vstd::prelude::*;

verus! {

/// Size of the DOS header that starts every PE image.
pub const DOS_HEADER_SIZE: usize = 64;

/// Size of the PE signature plus the COFF file header.
pub const PE_HEADER_SIZE: usize = 24;

/// Size of one entry of the section table.
pub const SECTION_ENTRY_SIZE: usize = 40;

/// The format's limit on the number of sections.
pub const MAX_SECTIONS: usize = 96;

/// Little-endian 16-bit value at `i`.
pub open spec fn le16(d: Seq<u8>, i: int) -> int {
    d[i] as int + 256 * (d[i + 1] as int)
}

/// Little-endian 32-bit value at `i`.
pub open spec fn le32(d: Seq<u8>, i: int) -> int {
    le16(d, i) + 65536 * le16(d, i + 2)
}

/// Offset of the PE signature, read from the DOS header.
pub open spec fn pe_offset(d: Seq<u8>) -> int {
    le32(d, 0x3C)
}

pub open spec fn section_count(d: Seq<u8>) -> int {
    le16(d, pe_offset(d) + 6)
}

pub open spec fn optional_header_size(d: Seq<u8>) -> int {
    le16(d, pe_offset(d) + 20)
}

pub open spec fn section_table_start(d: Seq<u8>) -> int {
    pe_offset(d) + PE_HEADER_SIZE + optional_header_size(d)
}

/// End of the headers: DOS header aside, the PE header, optional header and section table.
pub open spec fn headers_end(d: Seq<u8>) -> int {
    section_table_start(d) + SECTION_ENTRY_SIZE * section_count(d)
}

/// End of the raw data of section `k`; a section without raw data ends nowhere.
pub open spec fn section_end(d: Seq<u8>, k: int) -> int {
    let e = section_table_start(d) + SECTION_ENTRY_SIZE * k;
    if le32(d, e + 16) == 0 {
        0
    } else {
        le32(d, e + 20) + le32(d, e + 16)
    }
}

pub open spec fn max_int(a: int, b: int) -> int {
    if a >= b { a } else { b }
}

/// Largest end of raw data among the first `n` sections.
pub open spec fn max_section_end(d: Seq<u8>, n: int) -> int
    decreases n,
{
    if n <= 0 {
        0
    } else {
        max_int(max_section_end(d, n - 1), section_end(d, n - 1))
    }
}

/// The bytes that belong to the image: its headers and every section's raw data.
pub open spec fn image_size(d: Seq<u8>) -> int {
    max_int(DOS_HEADER_SIZE as int, max_int(headers_end(d), max_section_end(d, section_count(d))))
}

pub open spec fn has_pe_signature(d: Seq<u8>) -> bool {
    let p = pe_offset(d);
    d[p] == 0x50u8 && d[p + 1] == 0x45u8 && d[p + 2] == 0u8 && d[p + 3] == 0u8
}

/// A structurally valid PE image starts at the beginning of `d` and lies wholly inside it.
pub open spec fn is_pe(d: Seq<u8>) -> bool {
    &&& d.len() >= DOS_HEADER_SIZE
    &&& d[0] == 0x4Du8 && d[1] == 0x5Au8
    &&& pe_offset(d) + PE_HEADER_SIZE <= d.len()
    &&& has_pe_signature(d)
    &&& section_count(d) <= MAX_SECTIONS
    &&& headers_end(d) <= d.len()
    &&& image_size(d) <= d.len()
}

proof fn lemma_max_section_end_prefix(d: Seq<u8>, e: Seq<u8>, n: int)
    requires
        0 <= n <= section_count(d),
        section_table_start(e) == section_table_start(d),
        section_table_start(d) + SECTION_ENTRY_SIZE * section_count(d) <= e.len() <= d.len(),
        forall|i: int| 0 <= i < e.len() ==> e[i] == d[i],
    ensures
        max_section_end(e, n) == max_section_end(d, n),
    decreases n,
{
    if n > 0 {
        lemma_max_section_end_prefix(d, e, n - 1);
        let at = section_table_start(d) + SECTION_ENTRY_SIZE * (n - 1);
        assert(at + 23 < e.len()) by (nonlinear_arith)
            requires
                at == section_table_start(d) + SECTION_ENTRY_SIZE * (n - 1),
                section_table_start(d) + SECTION_ENTRY_SIZE * section_count(d) <= e.len(),
                1 <= n <= section_count(d),
        ;
        assert(section_end(e, n - 1) == section_end(d, n - 1));
    }
}

/// The first `image_size` bytes of a valid image form a valid image of that same size:
/// carving an image and parsing the carved bytes again finds all of it, and only it.
pub proof fn lemma_image_reparses(d: Seq<u8>)
    requires
        is_pe(d),
    ensures
        is_pe(d.subrange(0, image_size(d))),
        image_size(d.subrange(0, image_size(d))) == image_size(d),
{
    let n = image_size(d);
    let e = d.subrange(0, n);
    assert(forall|i: int| 0 <= i < e.len() ==> e[i] == d[i]);
    assert(pe_offset(e) == pe_offset(d));
    let p = pe_offset(d);
    assert(section_count(e) == section_count(d));
    assert(optional_header_size(e) == optional_header_size(d));
    assert(has_pe_signature(e));
    lemma_max_section_end_prefix(d, e, section_count(d));
}

/// What the parser reports of a valid image.
pub struct PEFile {
    pub machine: u16,
    pub sections: u16,
    pub size: usize,
}

#[derive(Debug, Clone, Copy, PartialEq, Eq, Structural)]
pub enum StructureError {
    Truncated,
    BadMagic,
    TooManySections,
}

fn read_le16(d: &[u8], i: usize) -> (r: u16)
    requires
        i + 1 < d.len(),
    ensures
        r as int == le16(d@, i as int),
{
    let lo = d[i];
    let hi = d[i + 1];
    (lo as u16) + 256 * (hi as u16)
}

fn read_le32(d: &[u8], i: usize) -> (r: u32)
    requires
        i + 3 < d.len(),
    ensures
        r as int == le32(d@, i as int),
{
    let lo = read_le16(d, i);
    let hi = read_le16(d, i + 2);
    assert(65536 * (hi as int) <= 65536 * 65535) by (nonlinear_arith)
        requires
            hi <= 65535,
    ;
    (lo as u32) + 65536 * (hi as u32)
}

/// Why `d` is not a valid image, by the first check it fails.
pub open spec fn pe_error(d: Seq<u8>) -> StructureError {
    if d.len() < DOS_HEADER_SIZE {
        StructureError::Truncated
    } else if !(d[0] == 0x4Du8 && d[1] == 0x5Au8) {
        StructureError::BadMagic
    } else if pe_offset(d) + PE_HEADER_SIZE > d.len() {
        StructureError::Truncated
    } else if !has_pe_signature(d) {
        StructureError::BadMagic
    } else if section_count(d) > MAX_SECTIONS {
        StructureError::TooManySections
    } else {
        StructureError::Truncated
    }
}

/// Validates the PE image at the start of `data` and reports its structural size.
pub fn parse_pe_file(data: &[u8]) -> (r: Result<PEFile, StructureError>)
    ensures
        r.is_ok() <==> is_pe(data@),
        r matches Ok(p) ==> {
            &&& p.size as int == image_size(data@)
            &&& p.sections as int == section_count(data@)
            &&& p.machine as int == le16(data@, pe_offset(data@) + 4)
        },
        r matches Err(e) ==> e == pe_error(data@),
{
    let d = data;
    let len = d.len();
    if len < DOS_HEADER_SIZE {
        return Err(StructureError::Truncated);
    }
    if d[0] != 0x4D || d[1] != 0x5A {
        return Err(StructureError::BadMagic);
    }
    let p = read_le32(d, 0x3C) as usize;
    if p > len || len - p < PE_HEADER_SIZE {
        return Err(StructureError::Truncated);
    }
    if d[p] != 0x50 || d[p + 1] != 0x45 || d[p + 2] != 0 || d[p + 3] != 0 {
        return Err(StructureError::BadMagic);
    }
    let machine = read_le16(d, p + 4);
    let count = read_le16(d, p + 6);
    let opt = read_le16(d, p + 20);
    if count as usize > MAX_SECTIONS {
        return Err(StructureError::TooManySections);
    }
    let table = p + PE_HEADER_SIZE;
    if len - table < opt as usize {
        return Err(StructureError::Truncated);
    }
    let table = table + opt as usize;
    if len - table < SECTION_ENTRY_SIZE * count as usize {
        return Err(StructureError::Truncated);
    }
    let headers = table + SECTION_ENTRY_SIZE * count as usize;
    let mut max_end: u64 = 0;
    let mut k: usize = 0;
    while k < count as usize
        invariant
            d@ == data@,
            len == d@.len(),
            table as int == section_table_start(d@),
            count as int == section_count(d@),
            table + SECTION_ENTRY_SIZE * count as int <= len,
            k <= count,
            max_end as int == max_section_end(d@, k as int),
            max_end <= 0x2_0000_0000u64,
        decreases count - k,
    {
        let e = table + SECTION_ENTRY_SIZE * k;
        let raw = read_le32(d, e + 16);
        let ptr = read_le32(d, e + 20);
        let end: u64 = if raw == 0 { 0 } else { ptr as u64 + raw as u64 };
        if end > max_end {
            max_end = end;
        }
        k = k + 1;
    }
    let mut size: u64 = DOS_HEADER_SIZE as u64;
    if headers as u64 > size {
        size = headers as u64;
    }
    if max_end > size {
        size = max_end;
    }
    if size > len as u64 {
        return Err(StructureError::Truncated);
    }
    Ok(PEFile { machine, sections: count, size: size as usize })
}

} // verus!
