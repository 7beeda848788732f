//! Transfer planning: given a file length and a requested part size, decide
//! between a single-shot upload and a chunked (multipart) upload, and compute
//! the part boundaries for the chunked case.

use vstd::prelude::*;

verus! {

/// Endpoint-imposed floor: files shorter than this are sent in one shot,
/// because multipart protocols reject parts below this size for all but the
/// final part.
pub const MIN_MULTIPART_BYTES: u64 = 5 * 1024 * 1024;

/// Part size used when the caller does not request one.
pub const DEFAULT_PART_SIZE: u64 = 5 * 1024 * 1024;

/// One contiguous byte range of the source file, uploaded as one part.
#[derive(Clone, Copy, PartialEq, Eq, Structural, Debug)]
pub struct ByteRange {
    pub offset: u64,
    pub len: u64,
}

/// How a file is to be moved: in one request, or as a sequence of parts.
pub enum Strategy {
    SingleShot,
    Chunked { part_size: u64, ranges: Vec<ByteRange> },
}

/// Mathematical image of a `Strategy`: the range vector abstracted to a `Seq`.
pub enum StrategyView {
    SingleShot,
    Chunked { part_size: u64, ranges: Seq<ByteRange> },
}

impl View for Strategy {
    type V = StrategyView;

    open spec fn view(&self) -> StrategyView {
        match self {
            Strategy::SingleShot => StrategyView::SingleShot,
            Strategy::Chunked { part_size, ranges } => StrategyView::Chunked {
                part_size: *part_size,
                ranges: ranges@,
            },
        }
    }
}

/// The ranges covering `[offset, total)` in steps of `part_size`, by repeated
/// subtraction: each range takes `min(part_size, what remains)`.
pub open spec fn spec_ranges_from(offset: int, total: int, part_size: int) -> Seq<ByteRange>
    decreases total - offset
        when part_size > 0 && 0 <= offset
{
    if offset >= total {
        Seq::empty()
    } else {
        let len = if part_size <= total - offset {
            part_size
        } else {
            total - offset
        };
        seq![ByteRange { offset: offset as u64, len: len as u64 }] + spec_ranges_from(
            offset + len,
            total,
            part_size,
        )
    }
}

/// The full part plan for a file of `total` bytes at `part_size`.
pub open spec fn spec_plan_ranges(total: int, part_size: int) -> Seq<ByteRange> {
    spec_ranges_from(0, total, part_size)
}

/// The part size a request resolves to: the requested one, or the default.
pub open spec fn spec_effective_part_size(requested: Option<u64>) -> u64 {
    match requested {
        Some(p) => p,
        None => DEFAULT_PART_SIZE,
    }
}

/// The strategy `plan` must return for a file of `total` bytes.
pub open spec fn spec_plan(total: u64, requested: Option<u64>) -> StrategyView {
    let p = spec_effective_part_size(requested);
    if total < MIN_MULTIPART_BYTES {
        StrategyView::SingleShot
    } else {
        StrategyView::Chunked { part_size: p, ranges: spec_plan_ranges(total as int, p as int) }
    }
}

/// Decides the transfer strategy for a file of `file_length` bytes.
///
/// Files under the multipart floor are sent single-shot whatever part size
/// was requested; all others are chunked at the requested (or default) part
/// size, the ranges covering the file left to right.
pub fn plan(file_length: u64, requested_part_size: Option<u64>) -> (s: Strategy)
    requires
        requested_part_size matches Some(p) ==> p > 0,
    ensures
        s@ == spec_plan(file_length, requested_part_size),
{
    let part_size: u64 = match requested_part_size {
        Some(p) => p,
        None => DEFAULT_PART_SIZE,
    };
    if file_length < MIN_MULTIPART_BYTES {
        return Strategy::SingleShot;
    }
    let ranges = compute_ranges(file_length, part_size);
    Strategy::Chunked { part_size, ranges }
}

/// Decides the transfer strategy when the part size is requested in MiB, as
/// interactive callers supply it.
pub fn plan_from_mib(file_length: u64, part_size_mib: Option<u64>) -> (s: Strategy)
    requires
        part_size_mib matches Some(m) ==> 1 <= m && m * 1024 * 1024 <= u64::MAX,
    ensures
        s@ == spec_plan(
            file_length,
            match part_size_mib {
                Some(m) => Some((m * 1024 * 1024) as u64),
                None => None,
            },
        ),
{
    match part_size_mib {
        Some(m) => plan(file_length, Some(m * 1024 * 1024)),
        None => plan(file_length, None),
    }
}

/// Computes the byte ranges of a chunked plan by repeated subtraction.
pub fn compute_ranges(file_length: u64, part_size: u64) -> (ranges: Vec<ByteRange>)
    requires
        part_size > 0,
    ensures
        ranges@ == spec_plan_ranges(file_length as int, part_size as int),
{
    let mut ranges: Vec<ByteRange> = Vec::new();
    let mut position: u64 = 0;
    while position < file_length
        invariant
            part_size > 0,
            position <= file_length,
            spec_plan_ranges(file_length as int, part_size as int) == ranges@ + spec_ranges_from(
                position as int,
                file_length as int,
                part_size as int,
            ),
        decreases file_length - position,
    {
        let remaining = file_length - position;
        let chunk = if part_size <= remaining {
            part_size
        } else {
            remaining
        };
        let ghost prev = ranges@;
        ranges.push(ByteRange { offset: position, len: chunk });
        proof {
            assert(spec_ranges_from(position as int, file_length as int, part_size as int)
                == seq![ByteRange { offset: position, len: chunk }] + spec_ranges_from(
                position as int + chunk as int,
                file_length as int,
                part_size as int,
            ));
            assert(ranges@ + spec_ranges_from(
                position as int + chunk as int,
                file_length as int,
                part_size as int,
            ) =~= prev + spec_ranges_from(position as int, file_length as int, part_size as int));
        }
        position = position + chunk;
    }
    proof {
        assert(spec_ranges_from(position as int, file_length as int, part_size as int)
            =~= Seq::<ByteRange>::empty());
        assert(ranges@ + Seq::<ByteRange>::empty() =~= ranges@);
    }
    ranges
}

/// What it means for `ranges` to cover `[start, total)` exactly in parts of
/// at most `part_size` bytes: the ranges are contiguous, the first starts at
/// `start`, the last ends at `total`, every range is non-empty and no longer
/// than `part_size`, and only the final range may be shorter than it.
pub open spec fn is_exact_cover(
    ranges: Seq<ByteRange>,
    start: int,
    total: int,
    part_size: int,
) -> bool {
    &&& (ranges.len() == 0 <==> start >= total)
    &&& (forall|i: int| 0 <= i < ranges.len() ==> 1 <= (#[trigger] ranges[i]).len <= part_size)
    &&& (ranges.len() > 0 ==> ranges[0].offset == start)
    &&& (forall|i: int|
        0 <= i < ranges.len() - 1 ==> (#[trigger] ranges[i + 1]).offset == ranges[i].offset
            + ranges[i].len)
    &&& (forall|i: int| 0 <= i < ranges.len() - 1 ==> (#[trigger] ranges[i]).len == part_size)
    &&& (ranges.len() > 0 ==> ranges[ranges.len() - 1].offset + ranges[ranges.len() - 1].len
        == total)
}

/// The planner's ranges partition `[start, total)` exactly: no gaps, no
/// overlaps, and at most the final range shorter than the part size.
pub proof fn lemma_ranges_exact_cover(start: int, total: int, part_size: int)
    requires
        0 <= start,
        0 < part_size,
        total <= u64::MAX,
    ensures
        is_exact_cover(spec_ranges_from(start, total, part_size), start, total, part_size),
    decreases total - start,
{
    let ranges = spec_ranges_from(start, total, part_size);
    if start >= total {
        assert(ranges =~= Seq::<ByteRange>::empty());
    } else {
        let len = if part_size <= total - start {
            part_size
        } else {
            total - start
        };
        let first = ByteRange { offset: start as u64, len: len as u64 };
        let rest = spec_ranges_from(start + len, total, part_size);
        lemma_ranges_exact_cover(start + len, total, part_size);
        assert(ranges == seq![first] + rest);
        assert(ranges[0] == first);
        assert(forall|i: int| 0 <= i < rest.len() ==> ranges[i + 1] == rest[i]);
        assert forall|i: int| 0 <= i < ranges.len() - 1 implies (#[trigger] ranges[i
            + 1]).offset == ranges[i].offset + ranges[i].len by {
            if i == 0 {
                if rest.len() > 0 {
                    assert(ranges[1] == rest[0]);
                }
            } else {
                assert(ranges[i] == rest[i - 1]);
                assert(ranges[i + 1] == rest[i]);
            }
        }
        assert forall|i: int| 0 <= i < ranges.len() - 1 implies (#[trigger] ranges[i]).len
            == part_size by {
            if i == 0 {
                assert(rest.len() > 0);
                assert(len == part_size);
            } else {
                assert(ranges[i] == rest[i - 1]);
            }
        }
        if rest.len() > 0 {
            assert(ranges[ranges.len() - 1] == rest[rest.len() - 1]);
        }
    }
}

/// The full plan for a file of `total` bytes partitions `[0, total)` exactly.
pub proof fn lemma_plan_ranges_partition(total: int, part_size: int)
    requires
        0 <= total,
        0 < part_size,
        total <= u64::MAX,
    ensures
        is_exact_cover(spec_plan_ranges(total, part_size), 0, total, part_size),
{
    lemma_ranges_exact_cover(0, total, part_size);
}

/// Any file shorter than the multipart floor is planned single-shot,
/// whatever part size was requested.
pub proof fn lemma_small_file_single_shot(file_length: u64, requested: Option<u64>)
    requires
        file_length < MIN_MULTIPART_BYTES,
    ensures
        spec_plan(file_length, requested) == StrategyView::SingleShot,
{
}

/// Planning is deterministic: two plans drawn for the same length and the
/// same requested part size are identical, range for range.
pub proof fn lemma_plan_deterministic(
    s1: StrategyView,
    s2: StrategyView,
    file_length: u64,
    requested: Option<u64>,
)
    requires
        s1 == spec_plan(file_length, requested),
        s2 == spec_plan(file_length, requested),
    ensures
        s1 == s2,
{
}

} // verus!
