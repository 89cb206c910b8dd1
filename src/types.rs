//! The binary structures exchanged with the SuperFetch information class, in
//! their 64-bit layout, and the decoding of the memory range replies.
//!
//! Buffers are sequences of little-endian 64-bit words, which also gives them the
//! eight-byte alignment the kernel expects.
use vstd::prelude::*;

use crate::error::SpfError;
use crate::MemoryRange;

verus! {

/// `STATUS_BUFFER_TOO_SMALL` (0xC0000023) as an `NTSTATUS`.
pub const STATUS_BUFFER_TOO_SMALL: i32 = -1073741789i32;

/// Size in bytes of a version 1 range info header, placeholder range included.
pub const RANGE_INFO_V1_BYTES: u32 = 24;

/// Size in bytes of a version 2 range info header, placeholder range included.
pub const RANGE_INFO_V2_BYTES: u32 = 32;

/// Word at which the range array of a version 1 reply starts.
pub const RANGE_ARRAY_V1_WORD: usize = 1;

/// Word at which the range array of a version 2 reply starts.
pub const RANGE_ARRAY_V2_WORD: usize = 2;

/// One physical memory range as the kernel reports it.
#[derive(Debug, Clone, Copy, PartialEq, Eq, Structural)]
pub struct PF_PHYSICAL_MEMORY_RANGE {
    pub BasePfn: u64,
    pub PageCount: u64,
}

/// Header of a version 1 memory range reply, followed by its ranges.
#[derive(Debug, Clone, PartialEq, Eq)]
pub struct PF_MEMORY_RANGE_INFO_V1 {
    pub Version: u32,
    pub RangeCount: u32,
    pub Ranges: Vec<PF_PHYSICAL_MEMORY_RANGE>,
}

/// Header of a version 2 memory range reply, followed by its ranges.
#[derive(Debug, Clone, PartialEq, Eq)]
pub struct PF_MEMORY_RANGE_INFO_V2 {
    pub Version: u32,
    pub Flags: u32,
    pub RangeCount: u32,
    pub Ranges: Vec<PF_PHYSICAL_MEMORY_RANGE>,
}

/// Identity of one page frame: which virtual address maps it, if any.
#[derive(Debug, Clone, Copy, PartialEq, Eq, Structural)]
pub struct MMPFN_IDENTITY {
    pub u1: u64,
    pub PageFrameIndex: u64,
    /// Zero where no virtual address maps the frame.
    pub u2_VirtualAddress: u64,
}

/// Memory list counters that head a page frame request.
#[derive(Debug, Clone, Copy, PartialEq, Eq)]
pub struct SYSTEM_MEMORY_LIST_INFORMATION {
    pub ZeroPageCount: u64,
    pub FreePageCount: u64,
    pub ModifiedPageCount: u64,
    pub ModifiedNoWritePageCount: u64,
    pub BadPageCount: u64,
    pub PageCountByPriority: [u64; 8],
    pub RepurposedPagesByPriority: [u64; 8],
    pub ModifiedPageCountPageFile: u64,
}

/// Header of a page frame request, followed by one identity per frame.
#[derive(Debug, Clone, Copy, PartialEq, Eq)]
pub struct PF_PFN_PRIO_REQUEST {
    pub Version: u32,
    pub RequestFlags: u32,
    pub PfnCount: u64,
    pub MemInfo: SYSTEM_MEMORY_LIST_INFORMATION,
}

/// The low half of a word.
pub open spec fn low_u32(w: u64) -> int {
    (w % 0x1_0000_0000) as int
}

/// The high half of a word.
pub open spec fn high_u32(w: u64) -> int {
    (w / 0x1_0000_0000) as int
}

/// Range count of a version 1 reply: the `u32` after the version.
pub open spec fn v1_range_count(words: Seq<u64>) -> int {
    high_u32(words[0])
}

/// Range count of a version 2 reply: the `u32` after version and flags.
pub open spec fn v2_range_count(words: Seq<u64>) -> int {
    low_u32(words[1])
}

/// The page count word of the `i`-th range of an array starting at word `first`.
pub open spec fn pages_word(words: Seq<u64>, first: int, i: int) -> u64 {
    words[first + 2 * i + 1]
}

/// The `i`-th range of an array starting at word `first`.
pub open spec fn range_at(words: Seq<u64>, first: int, i: int) -> MemoryRange {
    MemoryRange { pfn: words[first + 2 * i], page_count: pages_word(words, first, i) as usize }
}

/// The array of `count` ranges at word `first` lies inside the buffer and each
/// page count fits in a `usize`.
pub open spec fn range_array_fits(words: Seq<u64>, first: int, count: int) -> bool {
    &&& first + 2 * count <= words.len()
    &&& forall|i: int| 0 <= i < count ==> #[trigger] pages_word(words, first, i) <= usize::MAX
}

/// The `count` ranges at word `first`.
pub open spec fn range_array(words: Seq<u64>, first: int, count: int) -> Seq<MemoryRange> {
    Seq::new(count as nat, |i: int| range_at(words, first, i))
}

/// The ranges of a version 1 reply, or `None` where they do not fit its buffer.
pub open spec fn decode_v1_spec(words: Seq<u64>) -> Option<Seq<MemoryRange>> {
    if words.len() >= 1 && range_array_fits(words, 1, v1_range_count(words)) {
        Some(range_array(words, 1, v1_range_count(words)))
    } else {
        None
    }
}

/// The ranges of a version 2 reply, or `None` where they do not fit its buffer.
pub open spec fn decode_v2_spec(words: Seq<u64>) -> Option<Seq<MemoryRange>> {
    if words.len() >= 2 && range_array_fits(words, 2, v2_range_count(words)) {
        Some(range_array(words, 2, v2_range_count(words)))
    } else {
        None
    }
}

/// The result of a decode, as a `Result` with a `Layout` error.
pub open spec fn as_decoded(d: Option<Seq<MemoryRange>>, r: Result<Vec<MemoryRange>, SpfError>) -> bool {
    match d {
        Some(rs) => r is Ok && r->Ok_0@ == rs,
        None => r == Err::<Vec<MemoryRange>, SpfError>(SpfError::Layout),
    }
}

fn decode_range_array(words: &Vec<u64>, first: usize, count: u32) -> (r: Result<
    Vec<MemoryRange>,
    SpfError,
>)
    requires
        first + 2 * count <= words@.len(),
    ensures
        range_array_fits(words@, first as int, count as int) ==> r is Ok && r->Ok_0@
            == range_array(words@, first as int, count as int),
        !range_array_fits(words@, first as int, count as int) ==> r == Err::<
            Vec<MemoryRange>,
            SpfError,
        >(SpfError::Layout),
{
    let n: usize = words.len();
    let mut out: Vec<MemoryRange> = Vec::new();
    let mut i: u32 = 0;
    while i < count
        invariant
            i <= count,
            n == words@.len(),
            first + 2 * count <= words@.len(),
            out@ == range_array(words@, first as int, i as int),
            forall|k: int| 0 <= k < i ==> #[trigger] pages_word(words@, first as int, k) <= usize::MAX,
        decreases count - i,
    {
        let at: usize = first + 2 * (i as usize);
        let pfn = words[at];
        let pages = words[at + 1];
        if pages > usize::MAX as u64 {
            assert(pages_word(words@, first as int, i as int) == pages);
            return Err(SpfError::Layout);
        }
        out.push(MemoryRange { pfn, page_count: pages as usize });
        i = i + 1;
        assert(out@ =~= range_array(words@, first as int, i as int));
    }
    Ok(out)
}

/// The probe buffer of a version 1 range query: a zeroed header stamped with
/// version 1.
pub fn range_probe_v1() -> (r: Vec<u64>)
    ensures
        r@ == seq![1u64, 0u64, 0u64],
        r@.len() * 8 == RANGE_INFO_V1_BYTES,
{
    let r = vec![1u64, 0u64, 0u64];
    assert(r@ =~= seq![1u64, 0u64, 0u64]);
    r
}

/// The probe buffer of a version 2 range query: a zeroed header stamped with
/// version 2.
pub fn range_probe_v2() -> (r: Vec<u64>)
    ensures
        r@ == seq![2u64, 0u64, 0u64, 0u64],
        r@.len() * 8 == RANGE_INFO_V2_BYTES,
{
    let r = vec![2u64, 0u64, 0u64, 0u64];
    assert(r@ =~= seq![2u64, 0u64, 0u64, 0u64]);
    r
}

/// A zeroed buffer of `length` bytes, rounded up to whole words, stamped with
/// `version` in its first field.
pub open spec fn range_fetch_spec(version: u32, length: u32) -> Seq<u64> {
    Seq::new(((length + 7) / 8) as nat, |j: int| if j == 0 { version as u64 } else { 0u64 })
}

/// The fetch buffer of a range query for a reply of `length` bytes.
pub fn range_fetch(version: u32, length: u32) -> (r: Vec<u64>)
    requires
        length > 0,
    ensures
        r@ == range_fetch_spec(version, length),
        r@.len() >= 1,
        r@.len() * 8 >= length,
{
    let words: usize = ((length as u64 + 7) / 8) as usize;
    let mut r: Vec<u64> = Vec::with_capacity(words);
    r.push(version as u64);
    while r.len() < words
        invariant
            1 <= r@.len() <= words,
            words == (length + 7) / 8,
            forall|j: int| 0 <= j < r@.len() ==> r@[j] == (if j == 0 { version as u64 } else { 0u64 }),
        decreases words - r@.len(),
    {
        r.push(0u64);
    }
    assert(r@ =~= range_fetch_spec(version, length));
    r
}

/// Decodes the ranges of a version 1 reply: the count is the `u32` after the
/// version, and the ranges follow the header's first eight bytes.
pub fn decode_range_info_v1(words: &Vec<u64>) -> (r: Result<Vec<MemoryRange>, SpfError>)
    ensures
        as_decoded(decode_v1_spec(words@), r),
{
    if words.len() < 1 {
        return Err(SpfError::Layout);
    }
    let count: u32 = (words[0] / 0x1_0000_0000u64) as u32;
    if (words.len() as u64) < RANGE_ARRAY_V1_WORD as u64 + 2 * (count as u64) {
        return Err(SpfError::Layout);
    }
    decode_range_array(words, RANGE_ARRAY_V1_WORD, count)
}

/// Decodes the ranges of a version 2 reply: the count is the `u32` after version
/// and flags, and the ranges follow the header's first sixteen bytes.
pub fn decode_range_info_v2(words: &Vec<u64>) -> (r: Result<Vec<MemoryRange>, SpfError>)
    ensures
        as_decoded(decode_v2_spec(words@), r),
{
    if words.len() < 2 {
        return Err(SpfError::Layout);
    }
    let count: u32 = (words[1] % 0x1_0000_0000u64) as u32;
    if (words.len() as u64) < RANGE_ARRAY_V2_WORD as u64 + 2 * (count as u64) {
        return Err(SpfError::Layout);
    }
    decode_range_array(words, RANGE_ARRAY_V2_WORD, count)
}

} // verus!
