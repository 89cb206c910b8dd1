use vstd::prelude::*;

verus! {

/// Size of a page frame in bytes.
pub const PAGE_SIZE: u64 = 4096;

/// Number of bits that a frame number is shifted by to give its byte address.
pub const PAGE_SHIFT: u64 = 12;

/// The highest physical address that a frame's base can have.
pub const MAX_FRAME_BASE: u64 = 0xFFFF_FFFF_FFFF_F000;

/// Number of frames whose base address fits in 64 bits.
pub const FRAME_LIMIT: u64 = 0x10_0000_0000_0000;

/// The address with its offset inside the page cleared.
pub open spec fn page_base(a: u64) -> u64 {
    (a - a % 4096) as u64
}

/// The offset of an address inside its page.
pub open spec fn page_offset(a: u64) -> u64 {
    (a % 4096) as u64
}

/// The byte address of the first byte of frame `frame`.
pub open spec fn frame_address(frame: int) -> int {
    frame * 4096
}

proof fn lemma_mask_is_page_arith(a: u64)
    ensures
        a & !0xFFFu64 == a - a % 4096,
        a & 0xFFFu64 == a % 4096,
{
    assert(a & !0xFFFu64 == a - a % 4096) by (bit_vector);
    assert(a & 0xFFFu64 == a % 4096) by (bit_vector);
}

/// Clears the low twelve bits of `a`.
pub fn align_down(a: u64) -> (r: u64)
    ensures
        r == page_base(a),
        r % 4096 == 0,
        r <= a,
{
    proof {
        lemma_mask_is_page_arith(a);
    }
    a & !0xFFFu64
}

/// The low twelve bits of `a`.
pub fn offset_in_page(a: u64) -> (r: u64)
    ensures
        r == page_offset(a),
        r < 4096,
{
    proof {
        lemma_mask_is_page_arith(a);
    }
    a & 0xFFFu64
}

/// Aligning an aligned address leaves it as it is, and its offset is zero.
pub proof fn lemma_page_base_idempotent(a: u64)
    ensures
        page_base(page_base(a)) == page_base(a),
        page_offset(page_base(a)) == 0,
        page_base(a) + page_offset(a) == a,
{
}

} // verus!
