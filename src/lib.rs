//! Translation of virtual addresses into the physical addresses that back them,
//! from a snapshot of the page-frame metadata that the Windows SuperFetch
//! information class reports.
//!
//! The library holds every decision of the snapshot protocol: which query comes
//! next, how each reply buffer is laid out and decoded, and how frame identities
//! become translation entries. The caller performs each query against the kernel
//! and hands the reply back (see [`snapshot::SnapshotBuilder`]).
#![allow(non_camel_case_types, non_snake_case)]

use std::collections::HashMap;
use vstd::prelude::*;

use crate::error::SpfError;
use crate::frames::page_aligned_entries;
use crate::page::{align_down, offset_in_page, page_base, page_offset};

/// The crate's error type.
pub mod error;
/// Page and address arithmetic.
pub mod page;
/// Taking a snapshot, one kernel reply at a time.
pub mod snapshot;
/// Page frame identity requests and the entries of their replies.
pub mod frames;
/// The SuperFetch information classes and request envelope.
pub mod superfetch;
/// The binary structures of the queries and their replies.
pub mod types;

verus! {

/// A contiguous run of physical page frames that the kernel reported present.
#[derive(Debug, Clone, Copy, PartialEq, Eq, Structural)]
pub struct MemoryRange {
    /// Number of the first page frame.
    pub pfn: u64,
    /// Number of pages.
    pub page_count: usize,
}

/// Number of frames in the first `n` ranges of `s`.
pub open spec fn frames_in(s: Seq<MemoryRange>, n: int) -> int
    decreases n,
{
    if n <= 0 {
        0
    } else {
        frames_in(s, n - 1) + s[n - 1].page_count
    }
}

/// Number of frames in all ranges of `s`.
pub open spec fn total_frames(s: Seq<MemoryRange>) -> int {
    frames_in(s, s.len() as int)
}

/// A longer prefix of ranges holds at least as many frames.
pub proof fn lemma_frames_in_monotone(s: Seq<MemoryRange>, i: int, j: int)
    requires
        0 <= i <= j,
    ensures
        frames_in(s, i) <= frames_in(s, j),
    decreases j - i,
{
    if i < j {
        lemma_frames_in_monotone(s, i, j - 1);
    }
}

/// What translating `address` against the translations `m` gives: the physical
/// base of the address's page plus the address's offset in it, or `Translate`
/// where the page was not observed.
pub open spec fn translate_spec(m: Map<u64, u64>, address: u64) -> Result<u64, SpfError> {
    if m.contains_key(page_base(address)) {
        Ok((m[page_base(address)] + page_offset(address)) as u64)
    } else {
        Err(SpfError::Translate)
    }
}

/// A snapshot of the system's memory: its physical ranges and the translation
/// of each observed virtual page to the physical address of its frame.
pub struct MemoryMap {
    memory_ranges: Vec<MemoryRange>,
    translations: HashMap<u64, u64>,
}

impl MemoryMap {
    /// Keys and values are page boundaries, and there are no more entries than
    /// the ranges hold frames. Every snapshot the library hands out is so.
    pub closed spec fn wf(&self) -> bool {
        &&& page_aligned_entries(self.translations@)
        &&& self.translations@.len() <= total_frames(self.memory_ranges@)
    }

    /// The physical memory ranges of the snapshot, in the kernel's order.
    pub closed spec fn range_list(&self) -> Seq<MemoryRange> {
        self.memory_ranges@
    }

    /// The translations: page-aligned virtual address to physical frame base.
    pub closed spec fn translation_map(&self) -> Map<u64, u64> {
        self.translations@
    }

    /// Packages ranges and translations into a snapshot.
    pub(crate) fn assemble(memory_ranges: Vec<MemoryRange>, translations: HashMap<u64, u64>) -> (m:
        Self)
        requires
            page_aligned_entries(translations@),
            translations@.len() <= total_frames(memory_ranges@),
        ensures
            m.wf(),
            m.range_list() == memory_ranges@,
            m.translation_map() == translations@,
    {
        MemoryMap { memory_ranges, translations }
    }

    /// A copy of the physical memory ranges.
    pub fn ranges(&self) -> (r: Vec<MemoryRange>)
        ensures
            r@ == self.range_list(),
    {
        let r = self.memory_ranges.clone();
        assert(r@ =~= self.memory_ranges@);
        r
    }

    /// A copy of the translation table.
    pub fn translations(&self) -> (r: HashMap<u64, u64>)
        ensures
            r@ == self.translation_map(),
    {
        self.translations.clone()
    }

    /// Translates a virtual address into the physical address backing it: the
    /// address's page is looked up and its offset in the page added to the
    /// frame base found.
    pub fn translate(&self, address: u64) -> (r: Result<u64, SpfError>)
        requires
            self.wf(),
        ensures
            r == translate_spec(self.translation_map(), address),
    {
        let aligned = align_down(address);
        match self.translations.get(&aligned) {
            Some(phys_base) => {
                let offset = offset_in_page(address);
                assert(self.translations@.contains_key(aligned));
                Ok(*phys_base + offset)
            },
            None => Err(SpfError::Translate),
        }
    }
}

/// Translating an address whose page is in the table gives the page's frame
/// base plus the address's offset, and translating the page itself gives the
/// frame base; neither sum overflows.
pub proof fn lemma_translate_round_trip(m: &MemoryMap, address: u64)
    requires
        m.wf(),
        m.translation_map().contains_key(page_base(address)),
    ensures
        m.translation_map()[page_base(address)] + page_offset(address) <= u64::MAX,
        translate_spec(m.translation_map(), address) == Ok::<u64, SpfError>(
            (m.translation_map()[page_base(address)] + page_offset(address)) as u64,
        ),
        translate_spec(m.translation_map(), page_base(address)) == Ok::<u64, SpfError>(
            m.translation_map()[page_base(address)],
        ),
{
    crate::page::lemma_page_base_idempotent(address);
}

/// Translating an address whose page is not in the table fails with
/// `Translate`.
pub proof fn lemma_translate_miss(m: &MemoryMap, address: u64)
    requires
        !m.translation_map().contains_key(page_base(address)),
    ensures
        translate_spec(m.translation_map(), address) == Err::<u64, SpfError>(SpfError::Translate),
{
}

/// Each frame yields at most one translation: the table has no more entries
/// than the ranges hold frames.
pub proof fn lemma_translations_bounded(m: &MemoryMap)
    requires
        m.wf(),
    ensures
        m.translation_map().len() <= total_frames(m.range_list()),
{
}

/// Every key and every value of the table is a page boundary.
pub proof fn lemma_translations_page_aligned(m: &MemoryMap)
    requires
        m.wf(),
    ensures
        page_aligned_entries(m.translation_map()),
{
}

} // verus!
