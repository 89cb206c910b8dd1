use std::collections::HashMap;

use superfetch::error::{raise_outcome, SpfError};
use superfetch::frames::{is_queryable, pfn_request, request_length, MAX_REQUEST_FRAMES};
use superfetch::page::{align_down, offset_in_page};
use superfetch::snapshot::{Query, Reply, SnapshotBuilder, Stage, Step};
use superfetch::superfetch::{superfetch_information, SUPERFETCH_INFORMATION_CLASS};
use superfetch::types::{
    decode_range_info_v1, decode_range_info_v2, range_fetch, STATUS_BUFFER_TOO_SMALL,
};
use superfetch::{MemoryMap, MemoryRange};

const STATUS_INVALID_INFO_CLASS: i32 = 0xC000_0003u32 as i32;
const STATUS_ACCESS_DENIED: i32 = 0xC000_0022u32 as i32;

/// A simulated kernel: which range versions it knows, the ranges it reports,
/// the virtual address owning each frame, and ranges whose frame query fails.
struct Kernel {
    v1: bool,
    v2: bool,
    ranges: Vec<(u64, u64)>,
    owners: HashMap<u64, u64>,
    failing_pfn: Vec<u64>,
    zero_hint: bool,
    queries: Vec<(u32, usize)>,
}

impl Kernel {
    fn new(ranges: Vec<(u64, u64)>, owners: Vec<(u64, u64)>) -> Kernel {
        Kernel {
            v1: true,
            v2: true,
            ranges,
            owners: owners.into_iter().collect(),
            failing_pfn: Vec::new(),
            zero_hint: false,
            queries: Vec::new(),
        }
    }

    fn reply(&mut self, q: Query) -> Reply {
        self.queries.push((q.class.code(), q.buffer.len()));
        let mut buffer = q.buffer;
        match q.class {
            SUPERFETCH_INFORMATION_CLASS::SuperfetchMemoryRangesQuery => {
                let version = buffer[0] & 0xFFFF_FFFF;
                let known = (version == 1 && self.v1) || (version == 2 && self.v2);
                if !known {
                    return Reply { status: STATUS_INVALID_INFO_CLASS, return_length: 0, buffer };
                }
                let first: usize = if version == 1 { 1 } else { 2 };
                let needed = (8 * first + 16 * self.ranges.len()) as u32;
                if q.wants_length {
                    let hint = if self.zero_hint { 0 } else { needed };
                    return Reply { status: STATUS_BUFFER_TOO_SMALL, return_length: hint, buffer };
                }
                if version == 1 {
                    buffer[0] = 1 | ((self.ranges.len() as u64) << 32);
                } else {
                    buffer[1] = self.ranges.len() as u64;
                }
                for (i, (pfn, count)) in self.ranges.iter().enumerate() {
                    buffer[first + 2 * i] = *pfn;
                    buffer[first + 2 * i + 1] = *count;
                }
                Reply { status: 0, return_length: 0, buffer }
            }
            SUPERFETCH_INFORMATION_CLASS::SuperfetchPfnQuery => {
                let count = buffer[1] as usize;
                let base = buffer[24 + 1];
                if self.failing_pfn.contains(&base) {
                    return Reply { status: STATUS_ACCESS_DENIED, return_length: 0, buffer };
                }
                for i in 0..count {
                    let frame = buffer[24 + 3 * i + 1];
                    if let Some(va) = self.owners.get(&frame) {
                        buffer[24 + 3 * i + 2] = *va;
                    }
                }
                Reply { status: 0, return_length: 0, buffer }
            }
            _ => Reply { status: STATUS_INVALID_INFO_CLASS, return_length: 0, buffer },
        }
    }

    fn snapshot(&mut self) -> Result<MemoryMap, SpfError> {
        let (mut builder, mut query) = SnapshotBuilder::start();
        loop {
            let reply = self.reply(query);
            match builder.advance(reply) {
                Step::Issue { next, query: q } => {
                    builder = next;
                    query = q;
                }
                Step::Ready { map } => return Ok(map),
                Step::Failed { error } => return Err(error),
            }
        }
    }
}

fn two_range_kernel() -> Kernel {
    Kernel::new(
        vec![(0x100, 4), (0x200, 2)],
        vec![(0x101, 0x7FF6_0000_1000), (0x103, 0x7FF6_0000_5000), (0x201, 0xFFFF_F800_0000_0000)],
    )
}

#[test]
fn snapshot_collects_ranges_and_translations() {
    let mm = two_range_kernel().snapshot().unwrap();
    assert_eq!(
        mm.ranges(),
        vec![MemoryRange { pfn: 0x100, page_count: 4 }, MemoryRange { pfn: 0x200, page_count: 2 }]
    );
    let t = mm.translations();
    assert_eq!(t.len(), 3);
    assert_eq!(t.get(&0x7FF6_0000_1000), Some(&(0x101u64 << 12)));
    assert_eq!(t.get(&0x7FF6_0000_5000), Some(&(0x103u64 << 12)));
    assert_eq!(t.get(&0xFFFF_F800_0000_0000), Some(&(0x201u64 << 12)));
}

#[test]
fn translate_adds_offset_in_page() {
    let mm = two_range_kernel().snapshot().unwrap();
    assert_eq!(mm.translate(0x7FF6_0000_1123), Ok(0x101123));
    assert_eq!(mm.translate(0xFFFF_F800_0000_0FFF), Ok(0x201FFF));
}

#[test]
fn translate_round_trip_alignment() {
    let mm = two_range_kernel().snapshot().unwrap();
    let a: u64 = 0x7FF6_0000_5ABC;
    let p = *mm.translations().get(&(a & !0xFFF)).unwrap();
    assert_eq!(mm.translate(a), Ok(p + (a & 0xFFF)));
    assert_eq!(mm.translate(a & !0xFFF), Ok(p));
}

#[test]
fn translate_is_idempotent() {
    let mm = two_range_kernel().snapshot().unwrap();
    for a in [0x7FF6_0000_1123u64, 0x1234, 0xFFFF_F800_0000_0001] {
        assert_eq!(mm.translate(a), mm.translate(a));
    }
}

#[test]
fn translate_miss_is_error() {
    let mm = two_range_kernel().snapshot().unwrap();
    assert_eq!(mm.translate(0x7FF6_0000_2000), Err(SpfError::Translate));
    assert_eq!(mm.translate(0), Err(SpfError::Translate));
    assert_eq!(mm.translate(0x7FF6_0000_0FFF), Err(SpfError::Translate));
}

#[test]
fn translations_bounded_by_frames() {
    let mm = two_range_kernel().snapshot().unwrap();
    let frames: usize = mm.ranges().iter().map(|r| r.page_count).sum();
    assert!(mm.translations().len() <= frames);
}

#[test]
fn ranges_are_nonempty_and_disjoint() {
    let mm = two_range_kernel().snapshot().unwrap();
    let ranges = mm.ranges();
    for (i, a) in ranges.iter().enumerate() {
        assert!(a.page_count > 0);
        for b in ranges.iter().skip(i + 1) {
            let a_end = a.pfn + a.page_count as u64;
            let b_end = b.pfn + b.page_count as u64;
            assert!(a_end <= b.pfn || b_end <= a.pfn);
        }
    }
}

#[test]
fn failed_range_query_is_skipped() {
    let mut k = two_range_kernel();
    k.failing_pfn.push(0x200);
    let mm = k.snapshot().unwrap();
    let t = mm.translations();
    assert_eq!(t.len(), 2);
    assert!(t.contains_key(&0x7FF6_0000_1000));
    assert!(t.contains_key(&0x7FF6_0000_5000));
    assert_eq!(mm.translate(0xFFFF_F800_0000_0000), Err(SpfError::Translate));
    assert_eq!(mm.ranges().len(), 2);
}

#[test]
fn all_range_queries_failing_still_succeeds() {
    let mut k = two_range_kernel();
    k.failing_pfn.push(0x100);
    k.failing_pfn.push(0x200);
    let mm = k.snapshot().unwrap();
    assert!(mm.translations().is_empty());
    assert_eq!(mm.ranges().len(), 2);
}

#[test]
fn version_two_is_used_when_version_one_is_unknown() {
    let mut k = two_range_kernel();
    k.v1 = false;
    let mm = k.snapshot().unwrap();
    assert_eq!(
        mm.ranges(),
        vec![MemoryRange { pfn: 0x100, page_count: 4 }, MemoryRange { pfn: 0x200, page_count: 2 }]
    );
    assert_eq!(mm.translate(0x7FF6_0000_1008), Ok(0x101008));
    // probe v1, probe v2, fetch v2, one query per range
    assert_eq!(k.queries.len(), 5);
    assert_eq!(k.queries[1], (17, 4));
}

#[test]
fn version_one_is_tried_first() {
    let mut k = two_range_kernel();
    k.snapshot().unwrap();
    assert_eq!(k.queries[0], (17, 3));
    assert_eq!(k.queries[1], (17, 5));
    assert_eq!(k.queries[2].0, 6);
    assert_eq!(k.queries.len(), 4);
}

#[test]
fn no_known_version_fails_with_status() {
    let mut k = two_range_kernel();
    k.v1 = false;
    k.v2 = false;
    assert_eq!(k.snapshot().err(), Some(SpfError::QueryRanges(STATUS_INVALID_INFO_CLASS)));
}

#[test]
fn zero_hint_at_version_one_is_layout_error() {
    let mut k = two_range_kernel();
    k.zero_hint = true;
    assert_eq!(k.snapshot().err(), Some(SpfError::Layout));
    assert_eq!(k.queries.len(), 1);
}

#[test]
fn zero_hint_at_version_two_is_layout_error() {
    let mut k = two_range_kernel();
    k.v1 = false;
    k.zero_hint = true;
    assert_eq!(k.snapshot().err(), Some(SpfError::Layout));
    assert_eq!(k.queries.len(), 2);
}

#[test]
fn failing_fetch_is_query_ranges_error() {
    let (b, _) = SnapshotBuilder::start();
    let s = b.advance(Reply { status: STATUS_BUFFER_TOO_SMALL, return_length: 40, buffer: vec![1, 0, 0] });
    let (b, q) = match s {
        Step::Issue { next, query } => (next, query),
        _ => panic!("expected a fetch"),
    };
    assert_eq!(q.length, 40);
    assert_eq!(q.buffer, vec![1, 0, 0, 0, 0]);
    assert!(!q.wants_length);
    match b.advance(Reply { status: STATUS_ACCESS_DENIED, return_length: 0, buffer: q.buffer }) {
        Step::Failed { error } => assert_eq!(error, SpfError::QueryRanges(STATUS_ACCESS_DENIED)),
        _ => panic!("expected a failure"),
    }
}

#[test]
fn fetch_with_too_many_ranges_is_layout_error() {
    let (b, _) = SnapshotBuilder::start();
    let s = b.advance(Reply { status: STATUS_BUFFER_TOO_SMALL, return_length: 24, buffer: vec![1, 0, 0] });
    let b = match s {
        Step::Issue { next, .. } => next,
        _ => panic!("expected a fetch"),
    };
    let reply = Reply { status: 0, return_length: 0, buffer: vec![1 | (5u64 << 32), 0x10, 1, 0] };
    match b.advance(reply) {
        Step::Failed { error } => assert_eq!(error, SpfError::Layout),
        _ => panic!("expected a failure"),
    }
}

#[test]
fn no_ranges_gives_empty_snapshot() {
    let mut k = Kernel::new(vec![], vec![]);
    let mm = k.snapshot().unwrap();
    assert!(mm.ranges().is_empty());
    assert!(mm.translations().is_empty());
    assert_eq!(mm.translate(0x1000), Err(SpfError::Translate));
}

#[test]
fn range_too_large_for_one_request_is_skipped() {
    let mut k = Kernel::new(
        vec![(0x10, 1), (0x1000, MAX_REQUEST_FRAMES as u64 + 1), (0x20, 1)],
        vec![(0x10, 0x5000), (0x20, 0x9000)],
    );
    let mm = k.snapshot().unwrap();
    assert_eq!(mm.ranges().len(), 3);
    assert_eq!(mm.translate(0x5004), Ok(0x10004));
    assert_eq!(mm.translate(0x9FFF), Ok(0x20FFF));
    assert_eq!(k.queries.iter().filter(|q| q.0 == 6).count(), 2);
}

#[test]
fn unaligned_owner_address_is_keyed_by_its_page() {
    let mut k = Kernel::new(vec![(0x40, 1)], vec![(0x40, 0x3456_7ABC)]);
    let mm = k.snapshot().unwrap();
    assert_eq!(mm.translations().get(&0x3456_7000), Some(&0x40000));
    assert_eq!(mm.translate(0x3456_7010), Ok(0x40010));
}

#[test]
fn resolve_stage_follows_discovery() {
    let (b, _) = SnapshotBuilder::start();
    let b = match b.advance(Reply { status: STATUS_BUFFER_TOO_SMALL, return_length: 24, buffer: vec![1, 0, 0] }) {
        Step::Issue { next, .. } => next,
        _ => panic!("expected a fetch"),
    };
    match b.advance(Reply { status: 0, return_length: 0, buffer: vec![1 | (1u64 << 32), 0x77, 2] }) {
        Step::Issue { query, .. } => {
            assert_eq!(query.class, SUPERFETCH_INFORMATION_CLASS::SuperfetchPfnQuery);
            assert_eq!(query.length, 8 * (24 + 3 * 2));
            assert_eq!(query.buffer[25], 0x77);
            assert_eq!(query.buffer[28], 0x78);
        }
        _ => panic!("expected a frame query"),
    }
    let _ = Stage::ProbeV1;
}

#[test]
fn pfn_request_layout() {
    let r = MemoryRange { pfn: 0x500, page_count: 3 };
    let w = pfn_request(r);
    assert_eq!(w.len(), 24 + 9);
    assert_eq!(w[0], 1 | (1u64 << 32));
    assert_eq!(w[1], 3);
    assert!(w[2..24].iter().all(|x| *x == 0));
    assert_eq!(&w[24..], &[0, 0x500, 0, 0, 0x501, 0, 0, 0x502, 0]);
    assert_eq!(request_length(&r), 264);
}

#[test]
fn queryable_limits() {
    assert!(is_queryable(&MemoryRange { pfn: 0, page_count: MAX_REQUEST_FRAMES }));
    assert!(!is_queryable(&MemoryRange { pfn: 0, page_count: MAX_REQUEST_FRAMES + 1 }));
    assert!(!is_queryable(&MemoryRange { pfn: 0x10_0000_0000_0000, page_count: 1 }));
    assert!(is_queryable(&MemoryRange { pfn: 0xF_FFFF_FFFF_FFFF, page_count: 1 }));
    assert_eq!(request_length(&MemoryRange { pfn: 0, page_count: MAX_REQUEST_FRAMES }), 4294967280);
}

#[test]
fn decode_version_one_and_two() {
    let v1 = vec![1 | (2u64 << 32), 0x10, 3, 0x20, 4];
    assert_eq!(
        decode_range_info_v1(&v1),
        Ok(vec![MemoryRange { pfn: 0x10, page_count: 3 }, MemoryRange { pfn: 0x20, page_count: 4 }])
    );
    let v2 = vec![2 | (7u64 << 32), 1, 0x30, 5];
    assert_eq!(decode_range_info_v2(&v2), Ok(vec![MemoryRange { pfn: 0x30, page_count: 5 }]));
    assert_eq!(decode_range_info_v1(&vec![]), Err(SpfError::Layout));
    assert_eq!(decode_range_info_v2(&vec![2]), Err(SpfError::Layout));
    assert_eq!(decode_range_info_v2(&vec![2, 2, 0x30, 5]), Err(SpfError::Layout));
}

#[test]
fn fetch_buffer_rounds_up_to_words() {
    assert_eq!(range_fetch(1, 1), vec![1]);
    assert_eq!(range_fetch(2, 17), vec![2, 0, 0]);
    assert_eq!(range_fetch(1, 24), vec![1, 0, 0]);
}

#[test]
fn envelope_and_class_codes() {
    let e = superfetch_information(SUPERFETCH_INFORMATION_CLASS::SuperfetchMemoryRangesQuery, 24);
    assert_eq!(e.version, 45);
    assert_eq!(e.magic, u32::from_be_bytes(*b"kuhC"));
    assert_eq!(e.info_class, 17);
    assert_eq!(e.length, 24);
    assert_eq!(SUPERFETCH_INFORMATION_CLASS::SuperfetchPfnQuery.code(), 6);
    assert_eq!(SUPERFETCH_INFORMATION_CLASS::SuperfetchRetrieveTrace.code(), 1);
    assert_eq!(SUPERFETCH_INFORMATION_CLASS::SuperfetchInformationMax.code(), 20);
}

#[test]
fn privilege_status_outcome() {
    assert_eq!(raise_outcome(0), Ok(()));
    assert_eq!(raise_outcome(1), Ok(()));
    assert_eq!(raise_outcome(STATUS_ACCESS_DENIED), Err(SpfError::RaisePrivilege(STATUS_ACCESS_DENIED)));
}

#[test]
fn page_arithmetic() {
    assert_eq!(align_down(0x1FFF), 0x1000);
    assert_eq!(align_down(u64::MAX), 0xFFFF_FFFF_FFFF_F000);
    assert_eq!(offset_in_page(0x1FFF), 0xFFF);
    assert_eq!(offset_in_page(0x2000), 0);
}
