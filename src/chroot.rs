//! The carving surface: every file it plans lies directly beneath its root.
use vstd::prelude::*;
use vstd::string::StringSliceAdditionalSpecFns;

verus! {

/// `/`, `\` and NUL split a name into components.
pub open spec fn is_separator(b: u8) -> bool {
    b == 47u8 || b == 92u8 || b == 0u8
}

/// An empty component, `.` or `..`: none of these names a file of its own.
pub open spec fn is_traversal(c: Seq<u8>) -> bool {
    c.len() == 0 || c =~= seq![46u8] || c =~= seq![46u8, 46u8]
}

/// A single path component that stays where it is put.
pub open spec fn is_safe_component(c: Seq<u8>) -> bool {
    &&& !is_traversal(c)
    &&& forall|i: int| 0 <= i < c.len() ==> !is_separator(#[trigger] c[i])
}

/// Adds a finished component to the name built so far, joined by `_`.
pub open spec fn flush(out: Seq<u8>, cur: Seq<u8>) -> Seq<u8> {
    if is_traversal(cur) {
        out
    } else if out.len() == 0 {
        cur
    } else {
        out + seq![95u8] + cur
    }
}

/// The name built so far and the component being read, after reading `s`.
pub open spec fn scan(s: Seq<u8>) -> (Seq<u8>, Seq<u8>)
    decreases s.len(),
{
    if s.len() == 0 {
        (seq![], seq![])
    } else {
        let (o, c) = scan(s.drop_last());
        if is_separator(s.last()) {
            (flush(o, c), seq![])
        } else {
            (o, c.push(s.last()))
        }
    }
}

/// `name` with its separators and traversal components taken out, the rest joined by `_`.
pub open spec fn sanitized(name: Seq<u8>) -> Seq<u8> {
    flush(scan(name).0, scan(name).1)
}

/// Where a file of the given name lands beneath `root`.
pub open spec fn join_path(root: Seq<u8>, name: Seq<u8>) -> Seq<u8> {
    if root.len() == 0 {
        name
    } else if root.last() == 47u8 {
        root + name
    } else {
        root + seq![47u8] + name
    }
}

/// Number of bytes a carve of `length` bytes at `offset` takes from a blob of `n` bytes.
pub open spec fn clipped_len(n: int, offset: int, length: int) -> int {
    if length <= n - offset { length } else { n - offset }
}

/// Upper-case hexadecimal digit of `v < 16`.
pub open spec fn hex_digit(v: int) -> u8 {
    if v < 10 { (48 + v) as u8 } else { (55 + v) as u8 }
}

/// `n` in upper-case hexadecimal, without leading zeros.
pub open spec fn hex_of(n: nat) -> Seq<u8>
    decreases n,
{
    if n < 16 {
        seq![hex_digit(n as int)]
    } else {
        hex_of(n / 16).push(hex_digit((n % 16) as int))
    }
}

proof fn lemma_hex_digit_injective(a: int, b: int)
    requires
        0 <= a < 16,
        0 <= b < 16,
        hex_digit(a) == hex_digit(b),
    ensures
        a == b,
{
}

proof fn lemma_hex_of_injective(a: nat, b: nat)
    requires
        hex_of(a) == hex_of(b),
    ensures
        a == b,
    decreases a + b,
{
    if a < 16 && b < 16 {
        assert(hex_of(a) == seq![hex_digit(a as int)]);
        assert(hex_of(b) == seq![hex_digit(b as int)]);
        assert(hex_of(a)[0] == hex_digit(a as int));
        assert(hex_of(b)[0] == hex_digit(b as int));
        lemma_hex_digit_injective(a as int, b as int);
    } else if a >= 16 && b >= 16 {
        assert(hex_of(a).drop_last() =~= hex_of(a / 16));
        assert(hex_of(b).drop_last() =~= hex_of(b / 16));
        lemma_hex_of_injective(a / 16, b / 16);
        assert(hex_of(a) == hex_of(a / 16).push(hex_digit((a % 16) as int)));
        assert(hex_of(b) == hex_of(b / 16).push(hex_digit((b % 16) as int)));
        assert(hex_of(a).last() == hex_digit((a % 16) as int));
        assert(hex_of(b).last() == hex_digit((b % 16) as int));
        lemma_hex_digit_injective((a % 16) as int, (b % 16) as int);
    } else {
        lemma_hex_of_len(a);
        lemma_hex_of_len(b);
    }
}

proof fn lemma_hex_of_len(n: nat)
    ensures
        hex_of(n).len() >= 1,
        n < 16 <==> hex_of(n).len() == 1,
    decreases n,
{
    if n >= 16 {
        lemma_hex_of_len(n / 16);
    }
}

/// Candidates at different offsets get different directories beneath the same root, so
/// their carves never collide.
pub proof fn lemma_candidate_roots_differ(root: Seq<u8>, a: nat, b: nat)
    requires
        a != b,
    ensures
        join_path(root, hex_of(a)) != join_path(root, hex_of(b)),
{
    let pre = if root.len() == 0 {
        seq![]
    } else if root.last() == 47u8 {
        root
    } else {
        root + seq![47u8]
    };
    assert(join_path(root, hex_of(a)) =~= pre + hex_of(a));
    assert(join_path(root, hex_of(b)) =~= pre + hex_of(b));
    if pre + hex_of(a) == pre + hex_of(b) {
        assert(hex_of(a) =~= (pre + hex_of(a)).subrange(pre.len() as int, (pre + hex_of(a)).len() as int));
        assert(hex_of(b) =~= (pre + hex_of(b)).subrange(pre.len() as int, (pre + hex_of(b)).len() as int));
        lemma_hex_of_injective(a, b);
    }
}

#[derive(Debug, Clone, Copy, PartialEq, Eq, Structural)]
pub enum CarveError {
    /// The carve would start past the end of the blob.
    OffsetOutOfRange,
    /// No byte is left to carve.
    EmptyRange,
    /// Nothing of the name is left once traversal is taken out.
    UnsafeName,
    /// The carve is representable, but no output directory was given.
    DryRun,
}

/// The outcome of a carve request: the destination path and the bytes to write there.
pub open spec fn carve_outcome(
    root: Option<Seq<u8>>,
    name: Seq<u8>,
    blob: Seq<u8>,
    offset: int,
    length: int,
) -> Result<(Seq<u8>, Seq<u8>), CarveError> {
    if offset > blob.len() {
        Err(CarveError::OffsetOutOfRange)
    } else if clipped_len(blob.len() as int, offset, length) == 0 {
        Err(CarveError::EmptyRange)
    } else if sanitized(name).len() == 0 {
        Err(CarveError::UnsafeName)
    } else {
        match root {
            None => Err(CarveError::DryRun),
            Some(r) => Ok(
                (
                    join_path(r, sanitized(name)),
                    blob.subrange(offset, offset + clipped_len(blob.len() as int, offset, length)),
                ),
            ),
        }
    }
}

/// One file to write: `data` goes to `path`, replacing whatever was there.
pub struct CarvePlan {
    pub path: Vec<u8>,
    pub data: Vec<u8>,
}

/// A capability to write beneath one output directory, or none in dry-run mode.
pub struct Chroot {
    pub root: Option<Vec<u8>>,
}

pub open spec fn root_view(r: Option<Vec<u8>>) -> Option<Seq<u8>> {
    match r {
        Some(v) => Some(v@),
        None => None,
    }
}

proof fn lemma_flush_safe(out: Seq<u8>, cur: Seq<u8>)
    requires
        out.len() == 0 || is_safe_component(out),
        forall|i: int| 0 <= i < cur.len() ==> !is_separator(#[trigger] cur[i]),
    ensures
        flush(out, cur).len() == 0 || is_safe_component(flush(out, cur)),
{
    if !is_traversal(cur) && out.len() != 0 {
        let r = out + seq![95u8] + cur;
        assert forall|i: int| 0 <= i < r.len() implies !is_separator(#[trigger] r[i]) by {
            if i < out.len() {
                assert(r[i] == out[i]);
            } else if i > out.len() {
                assert(r[i] == cur[i - out.len() - 1]);
            }
        }
        assert(r.len() >= 3);
    }
}

proof fn lemma_scan_safe(s: Seq<u8>)
    ensures
        scan(s).0.len() == 0 || is_safe_component(scan(s).0),
        forall|i: int| 0 <= i < scan(s).1.len() ==> !is_separator(#[trigger] scan(s).1[i]),
    decreases s.len(),
{
    if s.len() > 0 {
        lemma_scan_safe(s.drop_last());
        let (o, c) = scan(s.drop_last());
        if is_separator(s.last()) {
            lemma_flush_safe(o, c);
        } else {
            let c2 = c.push(s.last());
            assert forall|i: int| 0 <= i < c2.len() implies !is_separator(#[trigger] c2[i]) by {
                if i < c.len() {
                    assert(c2[i] == c[i]);
                }
            }
        }
    }
}

/// A sanitized name that is not empty is a single component with no way out of its directory.
pub proof fn lemma_sanitized_is_safe(name: Seq<u8>)
    ensures
        sanitized(name).len() == 0 || is_safe_component(sanitized(name)),
{
    lemma_scan_safe(name);
    lemma_flush_safe(scan(name).0, scan(name).1);
}

/// A planned carve writes exactly the bytes `[offset, offset + n)` of the blob, where `n` is
/// the requested length clipped to what the blob holds.
pub proof fn lemma_carve_copies_region(
    root: Option<Seq<u8>>,
    name: Seq<u8>,
    blob: Seq<u8>,
    offset: int,
    length: int,
)
    requires
        0 <= offset,
        0 <= length,
    ensures
        carve_outcome(root, name, blob, offset, length) matches Ok((path, data)) ==> {
            &&& 0 < data.len() <= length
            &&& offset + data.len() <= blob.len()
            &&& data == blob.subrange(offset, offset + data.len())
        },
{
}

/// Whatever the name, a planned carve lands on the root joined with one safe component:
/// no separator, no `.` or `..`, so never outside the root.
pub proof fn lemma_carve_stays_under_root(
    root: Seq<u8>,
    name: Seq<u8>,
    blob: Seq<u8>,
    offset: int,
    length: int,
)
    ensures
        carve_outcome(Some(root), name, blob, offset, length) matches Ok((path, data)) ==> {
            &&& path == join_path(root, sanitized(name))
            &&& is_safe_component(sanitized(name))
            &&& path.subrange(0, root.len() as int) == root
        },
{
    lemma_sanitized_is_safe(name);
    let c = sanitized(name);
    if root.len() > 0 && root.last() == 47u8 {
        assert((root + c).subrange(0, root.len() as int) =~= root);
    } else if root.len() > 0 {
        assert((root + seq![47u8] + c).subrange(0, root.len() as int) =~= root);
    } else {
        assert(join_path(root, c).subrange(0, 0) =~= root);
    }
}

/// A carve at the end of the blob, or of no bytes, is refused and plans no file.
pub proof fn lemma_empty_carve_fails(
    root: Option<Seq<u8>>,
    name: Seq<u8>,
    blob: Seq<u8>,
    offset: int,
    length: int,
)
    requires
        0 <= offset <= blob.len(),
        0 <= length,
        offset == blob.len() || length == 0,
    ensures
        carve_outcome(root, name, blob, offset, length) == Err::<(Seq<u8>, Seq<u8>), CarveError>(
            CarveError::EmptyRange,
        ),
{
}

fn append(dst: &mut Vec<u8>, src: &Vec<u8>)
    ensures
        final(dst)@ == old(dst)@ + src@,
{
    let mut i: usize = 0;
    while i < src.len()
        invariant
            i <= src@.len(),
            dst@ == old(dst)@ + src@.subrange(0, i as int),
        decreases src@.len() - i,
    {
        dst.push(src[i]);
        i = i + 1;
        assert(src@.subrange(0, i as int) =~= src@.subrange(0, i - 1) + seq![src@[i - 1]]);
    }
    assert(src@.subrange(0, i as int) =~= src@);
}

fn is_traversal_exec(c: &Vec<u8>) -> (r: bool)
    ensures
        r == is_traversal(c@),
{
    c.len() == 0 || (c.len() == 1 && c[0] == 46) || (c.len() == 2 && c[0] == 46 && c[1] == 46)
}

fn flush_exec(out: &mut Vec<u8>, cur: &Vec<u8>)
    ensures
        final(out)@ == flush(old(out)@, cur@),
{
    if is_traversal_exec(cur) {
    } else if out.len() == 0 {
        append(out, cur);
    } else {
        out.push(95u8);
        append(out, cur);
    }
}

/// Takes separators and traversal components out of `name`; `None` where nothing is left.
pub fn sanitize_name(name: &[u8]) -> (r: Option<Vec<u8>>)
    ensures
        sanitized(name@).len() == 0 ==> r is None,
        sanitized(name@).len() > 0 ==> (r matches Some(v) && v@ == sanitized(name@)),
{
    let mut out: Vec<u8> = Vec::new();
    let mut cur: Vec<u8> = Vec::new();
    let mut i: usize = 0;
    while i < name.len()
        invariant
            i <= name@.len(),
            (out@, cur@) == scan(name@.subrange(0, i as int)),
        decreases name@.len() - i,
    {
        let b = name[i];
        assert(name@.subrange(0, i + 1).drop_last() =~= name@.subrange(0, i as int));
        if b == 47 || b == 92 || b == 0 {
            flush_exec(&mut out, &cur);
            cur = Vec::new();
        } else {
            cur.push(b);
        }
        i = i + 1;
    }
    assert(name@.subrange(0, i as int) =~= name@);
    flush_exec(&mut out, &cur);
    if out.len() == 0 {
        None
    } else {
        Some(out)
    }
}

fn join_exec(root: &Vec<u8>, name: &Vec<u8>) -> (r: Vec<u8>)
    ensures
        r@ == join_path(root@, name@),
{
    let mut r: Vec<u8> = Vec::new();
    append(&mut r, root);
    if root.len() > 0 && root[root.len() - 1] != 47 {
        r.push(47u8);
    }
    append(&mut r, name);
    r
}

fn copy_range(blob: &[u8], start: usize, end: usize) -> (r: Vec<u8>)
    requires
        start <= end <= blob@.len(),
    ensures
        r@ == blob@.subrange(start as int, end as int),
{
    let mut r: Vec<u8> = Vec::new();
    let mut i: usize = start;
    while i < end
        invariant
            start <= i <= end <= blob@.len(),
            r@ == blob@.subrange(start as int, i as int),
        decreases end - i,
    {
        r.push(blob[i]);
        i = i + 1;
        assert(blob@.subrange(start as int, i as int) =~= blob@.subrange(start as int, i - 1)
            + seq![blob@[i - 1]]);
    }
    r
}

fn push_hex(out: &mut Vec<u8>, n: usize)
    ensures
        final(out)@ == old(out)@ + hex_of(n as nat),
    decreases n,
{
    if n >= 16 {
        push_hex(out, n / 16);
    }
    let v = n % 16;
    let digit: u8 = if v < 10 { 48 + v as u8 } else { 55 + v as u8 };
    out.push(digit);
    proof {
        if n >= 16 {
            assert(hex_of(n as nat) == hex_of((n / 16) as nat).push(hex_digit(v as int)));
        }
    }
}

impl Chroot {
    /// A carving surface beneath `output_directory`; `None` makes it dry-run only.
    pub fn new(output_directory: Option<&str>) -> (r: Chroot)
        ensures
            root_view(r.root) == match output_directory {
                Some(s) => Some(s.spec_bytes()),
                None => None::<Seq<u8>>,
            },
    {
        match output_directory {
            Some(s) => Chroot { root: Some(vstd::slice::slice_to_vec(s.as_bytes())) },
            None => Chroot { root: None },
        }
    }

    /// The chroot for the candidate at `offset`: a subdirectory named by the offset in
    /// hexadecimal. A dry-run chroot stays dry-run.
    pub fn for_candidate(&self, offset: usize) -> (r: Chroot)
        ensures
            root_view(r.root) == match root_view(self.root) {
                Some(root) => Some(join_path(root, hex_of(offset as nat))),
                None => None::<Seq<u8>>,
            },
    {
        match &self.root {
            None => Chroot { root: None },
            Some(root) => {
                let mut name: Vec<u8> = Vec::new();
                push_hex(&mut name, offset);
                assert(name@ =~= hex_of(offset as nat));
                Chroot { root: Some(join_exec(root, &name)) }
            },
        }
    }

    /// Works out the file that carving `length` bytes of `blob` at `offset` under `name` writes.
    pub fn plan_carve(&self, name: &str, blob: &[u8], offset: usize, length: usize) -> (r: Result<
        CarvePlan,
        CarveError,
    >)
        ensures
            match (r, carve_outcome(root_view(self.root), name.spec_bytes(), blob@, offset as int, length as int)) {
                (Ok(p), Ok((path, data))) => p.path@ == path && p.data@ == data,
                (Err(e), Err(f)) => e == f,
                _ => false,
            },
    {
        if offset > blob.len() {
            return Err(CarveError::OffsetOutOfRange);
        }
        let avail = blob.len() - offset;
        let n = if length <= avail { length } else { avail };
        if n == 0 {
            return Err(CarveError::EmptyRange);
        }
        let clean = match sanitize_name(name.as_bytes()) {
            Some(c) => c,
            None => return Err(CarveError::UnsafeName),
        };
        match &self.root {
            None => Err(CarveError::DryRun),
            Some(root) => Ok(
                CarvePlan { path: join_exec(root, &clean), data: copy_range(blob, offset, offset + n) },
            ),
        }
    }
}

} // verus!
