//! Taking a snapshot as a sequence of kernel queries.
//!
//! The builder decides each query and what each reply means; the caller makes
//! the query against the kernel and hands the reply back. The ranges are
//! discovered first, the version 1 structure tried before version 2, then one
//! page frame query is made per range. A failed page frame query only leaves
//! its range without translations.
use std::collections::HashMap;
use vstd::prelude::*;

use crate::error::{nt_success, SpfError};
use crate::frames::{
    is_queryable, page_aligned_entries, pfn_request, request_length, queryable, record_frames, request_spec, request_words,
    with_frames, IDENTITY_WORDS, PFN_HEADER_WORDS,
};
use crate::superfetch::SUPERFETCH_INFORMATION_CLASS;
use crate::types::{
    decode_range_info_v1, decode_range_info_v2, decode_v1_spec, decode_v2_spec, range_fetch,
    range_fetch_spec, range_probe_v1, range_probe_v2, RANGE_INFO_V1_BYTES, RANGE_INFO_V2_BYTES,
    STATUS_BUFFER_TOO_SMALL,
};
use crate::{frames_in, lemma_frames_in_monotone, MemoryMap, MemoryRange};

verus! {

broadcast use vstd::std_specs::hash::group_hash_axioms;

/// The reply a builder waits for.
#[derive(Debug, Clone, Copy, PartialEq, Eq, Structural)]
pub enum Stage {
    /// The size probe of the version 1 range structure.
    ProbeV1,
    /// The fetch of the version 1 range structure.
    FetchV1,
    /// The size probe of the version 2 range structure.
    ProbeV2,
    /// The fetch of the version 2 range structure.
    FetchV2,
    /// The page frame query of the range at `index`.
    Resolve { index: usize },
}

/// One SuperFetch query to make: the class, the buffer handed to the kernel and
/// its length in bytes, and whether the kernel's required length is wanted back.
pub struct Query {
    pub class: SUPERFETCH_INFORMATION_CLASS,
    pub buffer: Vec<u64>,
    pub length: u32,
    pub wants_length: bool,
}

/// What the kernel answered to a query: its status, the required length it
/// reported (zero where none was asked for), and the buffer as it left it.
pub struct Reply {
    pub status: i32,
    pub return_length: u32,
    pub buffer: Vec<u64>,
}

/// What follows a reply.
pub enum Step {
    /// Make `query` and hand its reply to `next`.
    Issue { next: SnapshotBuilder, query: Query },
    /// The snapshot is complete.
    Ready { map: MemoryMap },
    /// The snapshot failed.
    Failed { error: SpfError },
}

/// A snapshot under way: the stage it is at, the ranges discovered and the
/// translations gathered so far.
pub struct SnapshotBuilder {
    stage: Stage,
    ranges: Vec<MemoryRange>,
    translations: HashMap<u64, u64>,
}

/// `q` is the size probe of range structure `version` (`1` or `2`).
pub open spec fn is_range_probe(q: &Query, version: u32) -> bool {
    &&& q.class == SUPERFETCH_INFORMATION_CLASS::SuperfetchMemoryRangesQuery
    &&& q.wants_length
    &&& version == 1 ==> q.buffer@ == seq![1u64, 0u64, 0u64] && q.length == RANGE_INFO_V1_BYTES
    &&& version == 2 ==> q.buffer@ == seq![2u64, 0u64, 0u64, 0u64] && q.length
        == RANGE_INFO_V2_BYTES
}

/// `q` fetches range structure `version` into a zeroed buffer of `length` bytes.
pub open spec fn is_range_fetch(q: &Query, version: u32, length: u32) -> bool {
    &&& q.class == SUPERFETCH_INFORMATION_CLASS::SuperfetchMemoryRangesQuery
    &&& !q.wants_length
    &&& q.buffer@ == range_fetch_spec(version, length)
    &&& q.length == length
}

/// `q` is the page frame query of range `r`.
pub open spec fn is_pfn_query(q: &Query, r: MemoryRange) -> bool {
    &&& q.class == SUPERFETCH_INFORMATION_CLASS::SuperfetchPfnQuery
    &&& !q.wants_length
    &&& q.buffer@ == request_spec(r)
    &&& q.length == 8 * request_words(r)
}

/// The first range at or after `i` whose request can be formed, or the number
/// of ranges where there is none.
pub open spec fn next_queryable(ranges: Seq<MemoryRange>, i: int) -> int
    decreases ranges.len() - i,
{
    if i >= ranges.len() {
        ranges.len() as int
    } else if queryable(ranges[i]) {
        i
    } else {
        next_queryable(ranges, i + 1)
    }
}

/// `s` waits at `stage` with `ranges` and `entries`.
pub open spec fn waits(s: Step, stage: Stage, ranges: Seq<MemoryRange>, entries: Map<u64, u64>) -> bool {
    &&& s is Issue
    &&& s->next.stage() == stage
    &&& s->next.range_list() == ranges
    &&& s->next.entries() == entries
}

/// `s` goes on with the ranges from index `i`: it queries the next range whose
/// request can be formed, or, where none is left, completes the snapshot.
pub open spec fn continues_from(s: Step, ranges: Seq<MemoryRange>, entries: Map<u64, u64>, i: int) -> bool {
    let j = next_queryable(ranges, i);
    if j < ranges.len() {
        &&& waits(s, Stage::Resolve { index: j as usize }, ranges, entries)
        &&& is_pfn_query(&s->query, ranges[j])
    } else {
        &&& s is Ready
        &&& s->map.wf()
        &&& s->map.range_list() == ranges
        &&& s->map.translation_map() == entries
    }
}

/// The translations after the reply to the page frame query of `r` is taken in:
/// a successful reply of the request's size adds its slots, any other leaves
/// them as they were.
pub open spec fn after_pfn_reply(entries: Map<u64, u64>, r: MemoryRange, status: i32, words: Seq<u64>) -> Map<u64, u64> {
    if nt_success(status) && words.len() == request_words(r) {
        with_frames(entries, r, words, r.page_count as int)
    } else {
        entries
    }
}

/// Where a successful range fetch leads: on to the page frame queries of the
/// decoded ranges, or to `Layout` where they do not fit the reply.
pub open spec fn after_fetch(s: Step, decoded: Option<Seq<MemoryRange>>) -> bool {
    match decoded {
        Some(rs) => continues_from(s, rs, Map::empty(), 0),
        None => s == Step::Failed { error: SpfError::Layout },
    }
}

/// A page frame query that fails, or whose reply does not have the request's
/// size, leaves the translations as they were; the snapshot goes on with the
/// next range either way.
pub proof fn lemma_failed_pfn_reply_adds_nothing(
    entries: Map<u64, u64>,
    r: MemoryRange,
    status: i32,
    words: Seq<u64>,
)
    requires
        !nt_success(status) || words.len() != request_words(r),
    ensures
        after_pfn_reply(entries, r, status, words) == entries,
{
}

impl SnapshotBuilder {
    /// The reply this builder waits for.
    pub closed spec fn stage(&self) -> Stage {
        self.stage
    }

    /// The ranges discovered so far.
    pub closed spec fn range_list(&self) -> Seq<MemoryRange> {
        self.ranges@
    }

    /// The translations gathered so far.
    pub closed spec fn entries(&self) -> Map<u64, u64> {
        self.translations@
    }

    /// Before the ranges are known nothing is gathered; while ranges are
    /// resolved the pending range can be queried, and the entries are page
    /// aligned and no more than the frames of the ranges before it.
    pub closed spec fn wf(&self) -> bool {
        match self.stage {
            Stage::Resolve { index } => {
                &&& index < self.ranges@.len()
                &&& queryable(self.ranges@[index as int])
                &&& page_aligned_entries(self.translations@)
                &&& self.translations@.len() <= frames_in(self.ranges@, index as int)
            },
            _ => self.ranges@.len() == 0 && self.translations@ == Map::<u64, u64>::empty(),
        }
    }

    /// Starts a snapshot with the size probe of the version 1 range structure.
    /// The two privileges must already be raised.
    pub fn start() -> (r: (SnapshotBuilder, Query))
        ensures
            r.0.wf(),
            r.0.stage() == Stage::ProbeV1,
            r.0.range_list() == Seq::<MemoryRange>::empty(),
            r.0.entries() == Map::<u64, u64>::empty(),
            is_range_probe(&r.1, 1),
    {
        let b = SnapshotBuilder { stage: Stage::ProbeV1, ranges: Vec::new(), translations: HashMap::new() };
        let q = Query {
            class: SUPERFETCH_INFORMATION_CLASS::SuperfetchMemoryRangesQuery,
            buffer: range_probe_v1(),
            length: RANGE_INFO_V1_BYTES,
            wants_length: true,
        };
        (b, q)
    }

    /// Goes on from range `from`: queries the next range whose request can be
    /// formed, or completes the snapshot.
    fn resume(ranges: Vec<MemoryRange>, translations: HashMap<u64, u64>, from: usize) -> (s: Step)
        requires
            from <= ranges@.len(),
            page_aligned_entries(translations@),
            translations@.len() <= frames_in(ranges@, from as int),
        ensures
            continues_from(s, ranges@, translations@, from as int),
            s is Issue ==> s->next.wf(),
    {
        let mut j: usize = from;
        while j < ranges.len() && !is_queryable(&ranges[j])
            invariant
                from <= j <= ranges@.len(),
                next_queryable(ranges@, from as int) == next_queryable(ranges@, j as int),
            decreases ranges@.len() - j,
        {
            j = j + 1;
        }
        proof {
            lemma_frames_in_monotone(ranges@, from as int, j as int);
            lemma_frames_in_monotone(ranges@, from as int, ranges@.len() as int);
        }
        if j < ranges.len() {
            let query = Query {
                class: SUPERFETCH_INFORMATION_CLASS::SuperfetchPfnQuery,
                buffer: pfn_request(ranges[j]),
                length: request_length(&ranges[j]),
                wants_length: false,
            };
            Step::Issue { next: SnapshotBuilder { stage: Stage::Resolve { index: j }, ranges, translations }, query }
        } else {
            Step::Ready { map: MemoryMap::assemble(ranges, translations) }
        }
    }

    /// Takes in the reply to the query this builder waits for and says what
    /// follows it.
    ///
    /// - Size probe of version 1: `STATUS_BUFFER_TOO_SMALL` with a required
    ///   length fetches that many bytes, with no length it is `Layout`; any other
    ///   status falls back to the size probe of version 2.
    /// - Size probe of version 2: the same, but any other status is
    ///   `QueryRanges(status)`.
    /// - Fetch of either version: a failing status is `QueryRanges(status)`;
    ///   otherwise the ranges are decoded (`Layout` where they do not fit) and
    ///   resolved one by one.
    /// - Page frame query: a successful reply adds the range's translations;
    ///   then the next range is resolved, or the snapshot is ready.
    pub fn advance(self, reply: Reply) -> (s: Step)
        requires
            self.wf(),
        ensures
            s is Issue ==> s->next.wf(),
            self.stage() == Stage::ProbeV1 ==> if reply.status == STATUS_BUFFER_TOO_SMALL {
                if reply.return_length == 0 {
                    s == Step::Failed { error: SpfError::Layout }
                } else {
                    waits(s, Stage::FetchV1, self.range_list(), self.entries())
                        && is_range_fetch(&s->query, 1, reply.return_length)
                }
            } else {
                waits(s, Stage::ProbeV2, self.range_list(), self.entries()) && is_range_probe(&s->query, 2)
            },
            self.stage() == Stage::ProbeV2 ==> if reply.status == STATUS_BUFFER_TOO_SMALL {
                if reply.return_length == 0 {
                    s == Step::Failed { error: SpfError::Layout }
                } else {
                    waits(s, Stage::FetchV2, self.range_list(), self.entries())
                        && is_range_fetch(&s->query, 2, reply.return_length)
                }
            } else {
                s == Step::Failed { error: SpfError::QueryRanges(reply.status) }
            },
            self.stage() == Stage::FetchV1 ==> if nt_success(reply.status) {
                after_fetch(s, decode_v1_spec(reply.buffer@))
            } else {
                s == Step::Failed { error: SpfError::QueryRanges(reply.status) }
            },
            self.stage() == Stage::FetchV2 ==> if nt_success(reply.status) {
                after_fetch(s, decode_v2_spec(reply.buffer@))
            } else {
                s == Step::Failed { error: SpfError::QueryRanges(reply.status) }
            },
            self.stage() is Resolve ==> continues_from(
                s,
                self.range_list(),
                after_pfn_reply(
                    self.entries(),
                    self.range_list()[self.stage()->index as int],
                    reply.status,
                    reply.buffer@,
                ),
                self.stage()->index + 1,
            ),
    {
        let SnapshotBuilder { stage, ranges, mut translations } = self;
        match stage {
            Stage::ProbeV1 => {
                if reply.status == STATUS_BUFFER_TOO_SMALL {
                    if reply.return_length == 0 {
                        Step::Failed { error: SpfError::Layout }
                    } else {
                        let query = Query {
                            class: SUPERFETCH_INFORMATION_CLASS::SuperfetchMemoryRangesQuery,
                            buffer: range_fetch(1, reply.return_length),
                            length: reply.return_length,
                            wants_length: false,
                        };
                        Step::Issue { next: SnapshotBuilder { stage: Stage::FetchV1, ranges, translations }, query }
                    }
                } else {
                    let query = Query {
                        class: SUPERFETCH_INFORMATION_CLASS::SuperfetchMemoryRangesQuery,
                        buffer: range_probe_v2(),
                        length: RANGE_INFO_V2_BYTES,
                        wants_length: true,
                    };
                    Step::Issue { next: SnapshotBuilder { stage: Stage::ProbeV2, ranges, translations }, query }
                }
            },
            Stage::ProbeV2 => {
                if reply.status == STATUS_BUFFER_TOO_SMALL {
                    if reply.return_length == 0 {
                        Step::Failed { error: SpfError::Layout }
                    } else {
                        let query = Query {
                            class: SUPERFETCH_INFORMATION_CLASS::SuperfetchMemoryRangesQuery,
                            buffer: range_fetch(2, reply.return_length),
                            length: reply.return_length,
                            wants_length: false,
                        };
                        Step::Issue { next: SnapshotBuilder { stage: Stage::FetchV2, ranges, translations }, query }
                    }
                } else {
                    Step::Failed { error: SpfError::QueryRanges(reply.status) }
                }
            },
            Stage::FetchV1 => {
                if reply.status >= 0 {
                    match decode_range_info_v1(&reply.buffer) {
                        Ok(found) => Self::resume(found, HashMap::new(), 0),
                        Err(error) => Step::Failed { error },
                    }
                } else {
                    Step::Failed { error: SpfError::QueryRanges(reply.status) }
                }
            },
            Stage::FetchV2 => {
                if reply.status >= 0 {
                    match decode_range_info_v2(&reply.buffer) {
                        Ok(found) => Self::resume(found, HashMap::new(), 0),
                        Err(error) => Step::Failed { error },
                    }
                } else {
                    Step::Failed { error: SpfError::QueryRanges(reply.status) }
                }
            },
            Stage::Resolve { index } => {
                let n: usize = ranges.len();
                let r = ranges[index];
                if reply.status >= 0 && reply.buffer.len() == PFN_HEADER_WORDS + IDENTITY_WORDS * r.page_count {
                    record_frames(&mut translations, r, &reply.buffer);
                }
                proof {
                    assert(frames_in(ranges@, index + 1) == frames_in(ranges@, index as int) + r.page_count);
                }
                Self::resume(ranges, translations, index + 1)
            },
        }
    }
}

} // verus!
