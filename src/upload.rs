use vstd::prelude::*;
use crate::text::push_text;

verus! {

/// Bytes sent per part; the store needs at least 5 MiB per part but the last.
pub const CHUNK_SIZE: u64 = 52428800;

/// Most parts that one multipart upload may have.
pub const MAX_CHUNKS: u64 = 10000;

/// Why an upload is refused before anything is sent.
#[derive(Clone, Copy, Debug, PartialEq, Eq, Structural)]
pub enum PlanError {
    /// The file holds no bytes.
    EmptyFile,
    /// The file needs more parts than the store accepts.
    TooManyChunks { chunk_count: u64 },
}

/// How a file of `file_size` bytes is cut into parts of `chunk_size` bytes.
#[derive(Clone, Copy, Debug, PartialEq, Eq, Structural)]
pub struct ChunkPlan {
    pub file_size: u64,
    pub chunk_size: u64,
    pub chunk_count: u64,
    pub last_chunk_size: u64,
}

pub open spec fn ceil_div(a: int, b: int) -> int {
    (a + b - 1) / b
}

/// What planning an upload of `size` bytes in chunks of `chunk` gives.
pub open spec fn plan_of(size: u64, chunk: u64) -> Result<ChunkPlan, PlanError> {
    let count = ceil_div(size as int, chunk as int);
    if size == 0 {
        Err(PlanError::EmptyFile)
    } else if count > MAX_CHUNKS {
        Err(PlanError::TooManyChunks { chunk_count: count as u64 })
    } else {
        Ok(
            ChunkPlan {
                file_size: size,
                chunk_size: chunk,
                chunk_count: count as u64,
                last_chunk_size: (size - (count - 1) * chunk) as u64,
            },
        )
    }
}

impl ChunkPlan {
    /// A plan that covers its file: the count is the rounded-up quotient, within
    /// the limit, and the last chunk takes what the full chunks leave.
    pub open spec fn wf(&self) -> bool {
        &&& self.chunk_size > 0
        &&& self.file_size > 0
        &&& self.chunk_count == ceil_div(self.file_size as int, self.chunk_size as int)
        &&& self.chunk_count <= MAX_CHUNKS
        &&& self.last_chunk_size == self.file_size - (self.chunk_count - 1) * self.chunk_size
    }

    /// Length of chunk `i`.
    pub open spec fn length_of(&self, i: int) -> int {
        if i == self.chunk_count - 1 {
            self.last_chunk_size as int
        } else {
            self.chunk_size as int
        }
    }

    /// Total length of the first `n` chunks.
    pub open spec fn covered(&self, n: int) -> int
        decreases n,
    {
        if n <= 0 {
            0
        } else {
            self.covered(n - 1) + self.length_of(n - 1)
        }
    }

    /// Cuts a file of `file_size` bytes into chunks of `chunk_size` bytes.
    pub fn new(file_size: u64, chunk_size: u64) -> (r: Result<ChunkPlan, PlanError>)
        requires
            chunk_size > 0,
        ensures
            r == plan_of(file_size, chunk_size),
            r matches Ok(p) ==> p.wf(),
    {
        if file_size == 0 {
            return Err(PlanError::EmptyFile);
        }
        proof {
            lemma_count(file_size as int, chunk_size as int);
        }
        let mut chunk_count = file_size / chunk_size;
        let mut last_chunk_size = file_size % chunk_size;
        if last_chunk_size == 0 {
            last_chunk_size = chunk_size;
        } else {
            proof {
                assert(file_size / chunk_size < u64::MAX) by (nonlinear_arith)
                    requires
                        chunk_size >= 2,
                ;
            }
            chunk_count = chunk_count + 1;
        }
        if chunk_count > MAX_CHUNKS {
            return Err(PlanError::TooManyChunks { chunk_count });
        }
        Ok(ChunkPlan { file_size, chunk_size, chunk_count, last_chunk_size })
    }

    /// Length of chunk `index`.
    pub fn chunk_length(&self, index: u64) -> (r: u64)
        requires
            self.wf(),
            index < self.chunk_count,
        ensures
            r == self.length_of(index as int),
    {
        if index == self.chunk_count - 1 {
            self.last_chunk_size
        } else {
            self.chunk_size
        }
    }

    /// Where chunk `index` starts in the file.
    pub fn chunk_offset(&self, index: u64) -> (r: u64)
        requires
            self.wf(),
            index < self.chunk_count,
        ensures
            r == index * self.chunk_size,
            r + self.length_of(index as int) <= self.file_size,
    {
        proof {
            lemma_count(self.file_size as int, self.chunk_size as int);
            if index < self.chunk_count - 1 {
                assert(index * self.chunk_size + self.chunk_size <= (self.chunk_count - 1) * self.chunk_size)
                    by (nonlinear_arith)
                    requires
                        index + 1 <= self.chunk_count - 1,
                        self.chunk_size > 0,
                ;
            }
        }
        index * self.chunk_size
    }

    /// The part to send for each chunk, in order: part numbers `1..=chunk_count`.
    pub fn parts(&self) -> (r: Vec<PartSpan>)
        requires
            self.wf(),
        ensures
            r@.len() == self.chunk_count,
            forall|i: int|
                0 <= i < r@.len() ==> (#[trigger] r@[i]).part_number == i + 1 && r@[i].offset == i
                    * self.chunk_size && r@[i].length == self.length_of(i),
    {
        let mut r: Vec<PartSpan> = Vec::new();
        let mut i: u64 = 0;
        while i < self.chunk_count
            invariant
                self.wf(),
                i <= self.chunk_count,
                r@.len() == i,
                forall|j: int|
                    0 <= j < i ==> (#[trigger] r@[j]).part_number == j + 1 && r@[j].offset == j
                        * self.chunk_size && r@[j].length == self.length_of(j),
            decreases self.chunk_count - i,
        {
            let offset = self.chunk_offset(i);
            let length = self.chunk_length(i);
            r.push(PartSpan { part_number: i + 1, offset, length });
            i = i + 1;
        }
        r
    }
}

/// The facts about the rounded-up quotient that a plan relies on.
proof fn lemma_count(s: int, c: int)
    requires
        s > 0,
        c > 0,
    ensures
        ceil_div(s, c) == (if s % c == 0 { s / c } else { s / c + 1 }),
        ceil_div(s, c) >= 1,
        0 < s - (ceil_div(s, c) - 1) * c <= c,
        (ceil_div(s, c) - 1) * c < s,
        s % c == 0 ==> s - (ceil_div(s, c) - 1) * c == c,
        s % c != 0 ==> s - (ceil_div(s, c) - 1) * c == s % c,
        s % c != 0 ==> c >= 2,
{
    let q = s / c;
    let r = s % c;
    assert(s == q * c + r && 0 <= r < c) by (nonlinear_arith)
        requires
            c > 0,
            q == s / c,
            r == s % c,
    ;
    if r == 0 {
        assert((s + c - 1) / c == q) by (nonlinear_arith)
            requires
                c > 0,
                s == q * c,
        ;
        assert((q - 1) * c == s - c) by (nonlinear_arith)
            requires
                s == q * c,
        ;
        assert(q >= 1) by (nonlinear_arith)
            requires
                s == q * c,
                s > 0,
                c > 0,
        ;
    } else {
        assert((s + c - 1) / c == q + 1) by (nonlinear_arith)
            requires
                c > 0,
                s == q * c + r,
                0 < r < c,
        ;
        assert(q * c == s - r) by (nonlinear_arith)
            requires
                s == q * c + r,
        ;
        assert(q >= 0) by (nonlinear_arith)
            requires
                s > 0,
                c > 0,
                q == s / c,
        ;
    }
}

/// One part of a multipart upload: which bytes of the file it carries.
#[derive(Clone, Copy, Debug, PartialEq, Eq, Structural)]
pub struct PartSpan {
    pub part_number: u64,
    pub offset: u64,
    pub length: u64,
}

/// Index just past the last '/' of `p`, or 0 where there is none.
pub open spec fn name_start(p: Seq<char>) -> int
    decreases p.len(),
{
    if p.len() == 0 {
        0
    } else if p.last() == '/' {
        p.len() as int
    } else {
        name_start(p.drop_last())
    }
}

/// The file name of a path: the text after its last '/'.
pub open spec fn base_name(p: Seq<char>) -> Seq<char> {
    p.subrange(name_start(p), p.len() as int)
}

proof fn lemma_name_start(p: Seq<char>, i: int)
    requires
        0 <= i <= p.len(),
        i == 0 || p[i - 1] == '/',
        forall|j: int| i <= j < p.len() ==> p[j] != '/',
    ensures
        name_start(p) == i,
    decreases p.len(),
{
    if p.len() > i {
        assert(p.drop_last()[i - 1] == p[i - 1] || i == 0);
        lemma_name_start(p.drop_last(), i);
    } else if i > 0 {
        assert(p.last() == '/');
    }
}

/// The object key under which a local file is uploaded: its file name.
pub fn upload_key(path: &str) -> (r: String)
    ensures
        r@ == base_name(path@),
{
    let n = path.unicode_len();
    let mut i: usize = n;
    while i > 0
        invariant
            n == path@.len(),
            i <= n,
            forall|j: int| i <= j < n ==> path@[j] != '/',
        ensures
            i <= n,
            i == 0 || path@[i - 1] == '/',
            forall|j: int| i <= j < n ==> path@[j] != '/',
        decreases i,
    {
        if path.get_char(i - 1) == '/' {
            break;
        }
        i = i - 1;
    }
    proof {
        lemma_name_start(path@, i as int);
    }
    String::from_str(path.substring_char(i, n))
}

/// The text of the URL that `Url::parse(base)` and then `join(key)` give, as
/// the url crate resolves and escapes it; `None` where either step fails.
pub uninterp spec fn url_join_of(base: Seq<char>, key: Seq<char>) -> Option<Seq<char>>;

pub open spec fn opt_string(o: Option<String>) -> Option<Seq<char>> {
    match o {
        Some(s) => Some(s@),
        None => None,
    }
}

/// Relies on `url::Url::parse` of `base` and `Url::join` of `key` on the
/// result (resolving the key as a relative reference and percent-encoding what
/// a path cannot hold); the text depends on the two strings alone.
#[verifier::external_body]
fn join_url(base: &str, key: &str) -> (r: Option<String>)
    ensures
        opt_string(r) == url_join_of(base@, key@),
{
    url::Url::parse(base).ok()?.join(key).ok().map(|u| u.to_string())
}

/// The address a public domain serves from.
pub open spec fn domain_base(domain: Seq<char>) -> Seq<char> {
    "https://"@ + domain
}

/// Where an uploaded object can be found: the key joined onto the bucket's
/// public domain where one is served (and the join succeeds), else the bare key.
pub open spec fn public_location_of(domain: Option<Seq<char>>, key: Seq<char>) -> Seq<char> {
    match domain {
        Some(d) => match url_join_of(domain_base(d), key) {
            Some(u) => u,
            None => key,
        },
        None => key,
    }
}

pub fn public_location(domain: Option<&str>, key: &str) -> (r: String)
    ensures
        r@ == public_location_of(
            match domain {
                Some(d) => Some(d@),
                None => None,
            },
            key@,
        ),
{
    match domain {
        Some(d) => {
            let mut base = String::from_str("https://");
            push_text(&mut base, d);
            match join_url(base.as_str(), key) {
                Some(u) => u,
                None => String::from_str(key),
            }
        },
        None => String::from_str(key),
    }
}

/// A part the store has accepted, with the tag it returned for it.
#[derive(Debug, PartialEq, Eq)]
pub struct CompletedPart {
    pub part_number: u64,
    pub tag: String,
}

/// Why a set of completed parts cannot finish an upload.
#[derive(Clone, Copy, Debug, PartialEq, Eq, Structural)]
pub enum AssembleError {
    /// No part carries this number.
    MissingPart { part_number: u64 },
    /// There are more or fewer parts than chunks.
    WrongCount { expected: u64, got: u64 },
}

/// Whether some part carries number `k`.
pub open spec fn has_part(parts: Seq<CompletedPart>, k: int) -> bool {
    exists|j: int| 0 <= j < parts.len() && parts[j].part_number == k
}

/// Parts that finish an upload of `count` chunks: one per chunk, numbered
/// `1..=count`.
pub open spec fn completes(parts: Seq<CompletedPart>, count: u64) -> bool {
    parts.len() == count && forall|k: int| 1 <= k <= count ==> has_part(parts, k)
}

/// `v` holds, at each position `i`, part number `i + 1` with the tag that
/// `parts` has for it.
pub open spec fn in_part_order(v: Seq<CompletedPart>, parts: Seq<CompletedPart>) -> bool {
    forall|i: int|
        0 <= i < v.len() ==> (#[trigger] v[i]).part_number == i + 1 && exists|j: int|
            0 <= j < parts.len() && parts[j].part_number == i + 1 && parts[j].tag@ == v[i].tag@
}

/// The completed parts in part-number order, ready for the completion call;
/// refused unless every number `1..=chunk_count` is there and nothing else.
pub fn assemble_parts(chunk_count: u64, parts: &Vec<CompletedPart>) -> (r: Result<Vec<CompletedPart>, AssembleError>)
    ensures
        r is Ok <==> completes(parts@, chunk_count),
        r matches Ok(v) ==> v@.len() == chunk_count && in_part_order(v@, parts@),
{
    if parts.len() as u64 != chunk_count {
        return Err(AssembleError::WrongCount { expected: chunk_count, got: parts.len() as u64 });
    }
    let mut out: Vec<CompletedPart> = Vec::new();
    let mut i: u64 = 0;
    while i < chunk_count
        invariant
            parts@.len() == chunk_count,
            i <= chunk_count,
            out@.len() == i,
            forall|m: int| 1 <= m <= i ==> has_part(parts@, m),
            forall|n: int|
                0 <= n < out@.len() ==> (#[trigger] out@[n]).part_number == n + 1 && exists|j: int|
                    0 <= j < parts@.len() && parts@[j].part_number == n + 1 && parts@[j].tag@ == out@[n].tag@,
        decreases chunk_count - i,
    {
        let k = i + 1;
        let mut j: usize = 0;
        while j < parts.len() && parts[j].part_number != k
            invariant
                j <= parts@.len(),
                forall|m: int| 0 <= m < j ==> parts@[m].part_number != k,
            decreases parts@.len() - j,
        {
            j = j + 1;
        }
        if j == parts.len() {
            assert(!has_part(parts@, k as int));
            return Err(AssembleError::MissingPart { part_number: k });
        }
        let ghost before = out@;
        out.push(CompletedPart { part_number: k, tag: parts[j].tag.clone() });
        assert(has_part(parts@, k as int));
        assert forall|n: int| 0 <= n < out@.len() implies (#[trigger] out@[n]).part_number == n + 1 && exists|w: int|
            0 <= w < parts@.len() && parts@[w].part_number == n + 1 && parts@[w].tag@ == out@[n].tag@ by {
            if n < i {
                assert(out@[n] == before[n]);
            } else {
                assert(parts@[j as int].part_number == n + 1 && parts@[j as int].tag@ == out@[n].tag@);
            }
        }
        i = k;
    }
    assert(in_part_order(out@, parts@));
    Ok(out)
}

/// Every file size that can be uploaded is cut into exactly the rounded-up
/// number of chunks, whose lengths add up to the size; the last chunk takes the
/// remainder and is never empty.
pub proof fn law_chunks_cover_file(size: u64, chunk: u64)
    requires
        chunk > 0,
        0 < size <= MAX_CHUNKS * chunk,
    ensures
        plan_of(size, chunk) is Ok,
        plan_of(size, chunk)->Ok_0.chunk_count == ceil_div(size as int, chunk as int),
        plan_of(size, chunk)->Ok_0.covered(plan_of(size, chunk)->Ok_0.chunk_count as int) == size,
        plan_of(size, chunk)->Ok_0.last_chunk_size > 0,
        plan_of(size, chunk)->Ok_0.last_chunk_size <= chunk,
{
    lemma_count(size as int, chunk as int);
    assert(ceil_div(size as int, chunk as int) <= MAX_CHUNKS) by (nonlinear_arith)
        requires
            chunk > 0,
            size <= MAX_CHUNKS * chunk,
            (ceil_div(size as int, chunk as int) - 1) * chunk < size,
    ;
    let p = plan_of(size, chunk)->Ok_0;
    lemma_covered(p, p.chunk_count as int - 1);
}

proof fn lemma_covered(p: ChunkPlan, n: int)
    requires
        0 <= n < p.chunk_count,
    ensures
        p.covered(n) == n * p.chunk_size,
    decreases n,
{
    if n > 0 {
        lemma_covered(p, n - 1);
        assert(p.covered(n) == p.covered(n - 1) + p.length_of(n - 1));
        assert(p.length_of(n - 1) == p.chunk_size);
        assert((n - 1) * p.chunk_size + p.chunk_size == n * p.chunk_size) by (nonlinear_arith);
    } else {
        assert(n * p.chunk_size == 0) by (nonlinear_arith)
            requires
                n == 0,
        ;
    }
}

/// Both refusals happen at planning, before any request is made: an empty file,
/// and a file that needs more than `MAX_CHUNKS` chunks.
pub proof fn law_refused_before_upload(size: u64, chunk: u64)
    requires
        chunk > 0,
    ensures
        size == 0 ==> plan_of(size, chunk) == Err::<ChunkPlan, PlanError>(PlanError::EmptyFile),
        size > 0 && ceil_div(size as int, chunk as int) > MAX_CHUNKS ==> plan_of(size, chunk) is Err,
{
}

} // verus!
