//! Page frame identity requests: one request per memory range, with one identity
//! slot per frame, and the translation entries that a reply yields.
use std::collections::HashMap;
use vstd::prelude::*;

use crate::page::{align_down, page_base, FRAME_LIMIT, MAX_FRAME_BASE};
use crate::MemoryRange;

verus! {

broadcast use vstd::std_specs::hash::group_hash_axioms;

/// Words in the header of a page frame request (`PF_PFN_PRIO_REQUEST`).
pub const PFN_HEADER_WORDS: usize = 24;

/// Words in one frame identity slot (`MMPFN_IDENTITY`).
pub const IDENTITY_WORDS: usize = 3;

/// Version stamped in a page frame request.
pub const PFN_REQUEST_VERSION: u64 = 1;

/// Request flags stamped in a page frame request.
pub const PFN_REQUEST_FLAGS: u64 = 1;

/// The most frames one request can carry while its length fits in a `u32`.
pub const MAX_REQUEST_FRAMES: usize = 178956962;

/// A request for the range can be formed: its length fits in a `u32` and the
/// byte address of each of its frames fits in 64 bits.
pub open spec fn queryable(r: MemoryRange) -> bool {
    &&& r.page_count <= MAX_REQUEST_FRAMES
    &&& r.pfn + r.page_count <= FRAME_LIMIT
}

/// Whether a request for `r` can be formed.
pub fn is_queryable(r: &MemoryRange) -> (b: bool)
    ensures
        b == queryable(*r),
{
    r.page_count <= MAX_REQUEST_FRAMES && r.pfn <= FRAME_LIMIT && r.page_count as u64 <= FRAME_LIMIT
        - r.pfn
}

/// Length in bytes of the request for `r`.
pub fn request_length(r: &MemoryRange) -> (n: u32)
    requires
        queryable(*r),
    ensures
        n == 8 * request_words(*r),
{
    let pages: u64 = r.page_count as u64;
    assert(pages <= 178956962);
    let words: u64 = 24 + 3 * pages;
    assert(8 * words <= u32::MAX);
    (8 * words) as u32
}

/// Number of words in the request for `r`.
pub open spec fn request_words(r: MemoryRange) -> int {
    PFN_HEADER_WORDS + IDENTITY_WORDS * r.page_count
}

/// Word `j` of the request for `r`. The first header word holds version and
/// flags, the second the frame count, the rest of the header is zero. Slot `i`
/// holds its frame number `pfn + i` in its second word, and zero elsewhere.
pub open spec fn request_word(r: MemoryRange, j: int) -> u64 {
    if j == 0 {
        (PFN_REQUEST_VERSION + PFN_REQUEST_FLAGS * 0x1_0000_0000) as u64
    } else if j == 1 {
        r.page_count as u64
    } else if j < PFN_HEADER_WORDS {
        0
    } else if (j - PFN_HEADER_WORDS) % 3 == 1 {
        (r.pfn + (j - PFN_HEADER_WORDS) / 3) as u64
    } else {
        0
    }
}

/// The whole request for `r`.
pub open spec fn request_spec(r: MemoryRange) -> Seq<u64> {
    Seq::new(request_words(r) as nat, |j: int| request_word(r, j))
}

/// The virtual address that a reply records in slot `i`, zero for none.
pub open spec fn slot_address(words: Seq<u64>, i: int) -> u64 {
    words[PFN_HEADER_WORDS + IDENTITY_WORDS * i + 2]
}

/// The translations after the first `n` slots of a reply for `r` are recorded
/// in `m`, in slot order: each slot with an address maps the address's page to
/// its frame's byte address.
pub open spec fn with_frames(m: Map<u64, u64>, r: MemoryRange, words: Seq<u64>, n: int) -> Map<
    u64,
    u64,
>
    decreases n,
{
    if n <= 0 {
        m
    } else {
        let prev = with_frames(m, r, words, n - 1);
        let va = slot_address(words, n - 1);
        if va != 0 {
            prev.insert(page_base(va), ((r.pfn + n - 1) * 4096) as u64)
        } else {
            prev
        }
    }
}

/// Every key and value is a page boundary, and every value a frame base.
pub open spec fn page_aligned_entries(m: Map<u64, u64>) -> bool {
    forall|k: u64|
        #[trigger] m.contains_key(k) ==> k % 4096 == 0 && m[k] % 4096 == 0 && m[k]
            <= MAX_FRAME_BASE
}

/// Builds the request for range `r`: a header stamped with version, flags and
/// frame count, then one zeroed identity slot per frame with its frame number
/// `pfn + i` filled in.
pub fn pfn_request(r: MemoryRange) -> (words: Vec<u64>)
    requires
        queryable(r),
    ensures
        words@ == request_spec(r),
{
    let total: usize = PFN_HEADER_WORDS + IDENTITY_WORDS * r.page_count;
    let mut words: Vec<u64> = Vec::with_capacity(total);
    words.push(PFN_REQUEST_VERSION + PFN_REQUEST_FLAGS * 0x1_0000_0000u64);
    words.push(r.page_count as u64);
    while words.len() < PFN_HEADER_WORDS
        invariant
            2 <= words@.len() <= PFN_HEADER_WORDS,
            forall|j: int| 0 <= j < words@.len() ==> words@[j] == request_word(r, j),
        decreases PFN_HEADER_WORDS - words@.len(),
    {
        words.push(0u64);
    }
    let mut i: usize = 0;
    while i < r.page_count
        invariant
            queryable(r),
            i <= r.page_count,
            words@.len() == PFN_HEADER_WORDS + IDENTITY_WORDS * i,
            forall|j: int| 0 <= j < words@.len() ==> words@[j] == request_word(r, j),
        decreases r.page_count - i,
    {
        let ghost base: int = PFN_HEADER_WORDS + IDENTITY_WORDS * i;
        assert((base + 0 - PFN_HEADER_WORDS) % 3 == 0 && (base + 1 - PFN_HEADER_WORDS) % 3 == 1
            && (base + 2 - PFN_HEADER_WORDS) % 3 == 2 && (base + 1 - PFN_HEADER_WORDS) / 3 == i);
        words.push(0u64);
        words.push(r.pfn + i as u64);
        words.push(0u64);
        i = i + 1;
    }
    assert(words@ =~= request_spec(r));
    words
}

/// Records in `translations` the entries of a successful reply for range `r`,
/// slot by slot: where a slot names a virtual address, that address's page maps
/// to the byte address of the slot's frame.
pub fn record_frames(translations: &mut HashMap<u64, u64>, r: MemoryRange, words: &Vec<u64>)
    requires
        queryable(r),
        words@.len() == request_words(r),
    ensures
        final(translations)@ == with_frames(old(translations)@, r, words@, r.page_count as int),
        page_aligned_entries(old(translations)@) ==> page_aligned_entries(final(translations)@),
        final(translations)@.len() <= old(translations)@.len() + r.page_count,
{
    let ghost start = translations@;
    let mut i: usize = 0;
    while i < r.page_count
        invariant
            queryable(r),
            words@.len() == request_words(r),
            i <= r.page_count,
            translations@ == with_frames(start, r, words@, i as int),
            page_aligned_entries(start) ==> page_aligned_entries(translations@),
            translations@.len() <= start.len() + i,
        decreases r.page_count - i,
    {
        let va = words[PFN_HEADER_WORDS + IDENTITY_WORDS * i + 2];
        if va != 0 {
            let frame: u64 = r.pfn + i as u64;
            assert(frame * 4096 <= MAX_FRAME_BASE) by (nonlinear_arith)
                requires
                    frame < FRAME_LIMIT,
            ;
            let phys: u64 = frame * 4096;
            assert(phys % 4096 == 0) by (nonlinear_arith)
                requires
                    phys == frame * 4096,
            ;
            let key = align_down(va);
            translations.insert(key, phys);
        }
        i = i + 1;
    }
}

} // verus!
