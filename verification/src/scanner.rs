//! The scan of one log.
//!
//! A log is handed over as its lines. Its region size is read first; a log
//! that has none is left unscanned and changes nothing. Otherwise every
//! line goes through the matcher, and every byte count found is sorted into
//! its bucket and added to the distribution, unless it is implausibly
//! small: such a count is only counted as a warning for the operator.

use crate::bucket::{
    bucket_of, counted, hits, implausible, lemma_tally_total, BucketCounts, SizeBucket,
};
use crate::distribution::Distribution;
use crate::matcher::{allocation_size, parse_humongous_object_allocation};
use crate::region::{extract_region_size, log_region_size, RegionSizeError};
use vstd::multiset::Multiset;
use vstd::prelude::*;
use vstd::utf8::encode_utf8;

verus! {

/// What a line contributed to the scan.
#[derive(Clone, Copy, Debug, PartialEq, Eq, Structural)]
pub enum LineOutcome {
    /// The line reports no allocation request.
    NoMatch,
    /// The line reports a request of this size, too small to be counted.
    Implausible(u64),
    /// The line reports a request of this size, counted in this bucket.
    Counted(u64, SizeBucket),
}

/// What the scan of a log found besides the counts.
#[derive(Clone, Copy, Debug, PartialEq, Eq, Structural)]
pub struct FileScan {
    /// The region size of the log, in megabytes.
    pub region_size: u32,
    /// The number of allocation requests too small to be counted.
    pub implausible: usize,
}

/// The byte counts that `lines` report, in the order of the lines.
pub open spec fn reported_sizes(lines: Seq<Seq<char>>) -> Seq<u64>
    decreases lines.len(),
{
    if lines.len() == 0 {
        Seq::empty()
    } else {
        match allocation_size(encode_utf8(lines.last())) {
            Some(size) => reported_sizes(lines.drop_last()).push(size),
            None => reported_sizes(lines.drop_last()),
        }
    }
}

/// What a line that reports `found` contributes.
pub open spec fn line_outcome(found: Option<u64>) -> LineOutcome {
    match found {
        Some(size) => match bucket_of(size) {
            Some(b) => LineOutcome::Counted(size, b),
            None => LineOutcome::Implausible(size),
        },
        None => LineOutcome::NoMatch,
    }
}

/// Counts one allocation of `size` bytes: in its bucket and in the
/// distribution if it has a bucket, and not at all if it has none.
pub fn record_allocation(
    size: u64,
    allocs_histogram: &mut Distribution,
    region_size_array: &mut BucketCounts,
) -> (r: Option<SizeBucket>)
    requires
        old(allocs_histogram).wf(),
        old(region_size_array).wf(),
        old(allocs_histogram)@.len() < u64::MAX,
        old(region_size_array).total() < u64::MAX,
    ensures
        r == bucket_of(size),
        final(allocs_histogram).wf(),
        final(region_size_array).wf(),
        final(region_size_array).follows(*old(region_size_array), size),
        final(region_size_array).total() == old(region_size_array).total() + if r is Some {
            1nat
        } else {
            0nat
        },
        r is None ==> *final(region_size_array) == *old(region_size_array),
        final(allocs_histogram)@ == if r is Some {
            old(allocs_histogram)@.insert(size)
        } else {
            old(allocs_histogram)@
        },
{
    let hit = region_size_array.record(size);
    if hit.is_some() {
        allocs_histogram.record(size);
    }
    hit
}

/// Scans one line: reads its byte count, if it reports one, and counts it.
/// A line that reports none, or one too small to be counted, changes
/// nothing.
pub fn scan_line(
    line: &str,
    allocs_histogram: &mut Distribution,
    region_size_array: &mut BucketCounts,
) -> (r: LineOutcome)
    requires
        old(allocs_histogram).wf(),
        old(region_size_array).wf(),
        old(allocs_histogram)@.len() < u64::MAX,
        old(region_size_array).total() < u64::MAX,
    ensures
        r == line_outcome(allocation_size(encode_utf8(line@))),
        final(allocs_histogram).wf(),
        final(region_size_array).wf(),
        match r {
            LineOutcome::Counted(size, _) => {
                &&& final(region_size_array).follows(*old(region_size_array), size)
                &&& final(region_size_array).total() == old(region_size_array).total() + 1
                &&& final(allocs_histogram)@ == old(allocs_histogram)@.insert(size)
            },
            _ => {
                &&& *final(region_size_array) == *old(region_size_array)
                &&& final(allocs_histogram)@ == old(allocs_histogram)@
            },
        },
{
    match parse_humongous_object_allocation(line) {
        Some(size) => match record_allocation(size, allocs_histogram, region_size_array) {
            Some(b) => LineOutcome::Counted(size, b),
            None => LineOutcome::Implausible(size),
        },
        None => LineOutcome::NoMatch,
    }
}

/// Scans a log: reads its region size and, if it has one, counts the
/// allocation requests of all its lines. A log without a region size is not
/// scanned and changes nothing.
pub fn gather_humongous_object_allocations(
    lines: &Vec<String>,
    allocs_histogram: &mut Distribution,
    region_size_array: &mut BucketCounts,
) -> (r: Result<FileScan, RegionSizeError>)
    requires
        old(allocs_histogram).wf(),
        old(region_size_array).wf(),
        old(allocs_histogram)@.len() + lines.len() <= u64::MAX,
        old(region_size_array).total() + lines.len() <= u64::MAX,
    ensures
        final(allocs_histogram).wf(),
        final(region_size_array).wf(),
        match r {
            Ok(scan) => {
                let sizes = reported_sizes(lines.deep_view());
                &&& log_region_size(lines.deep_view()) == Ok::<u32, RegionSizeError>(
                    scan.region_size,
                )
                &&& scan.implausible == implausible(sizes)
                &&& final(region_size_array).tallies(*old(region_size_array), sizes)
                &&& final(region_size_array).total() == old(region_size_array).total() + counted(
                    sizes,
                ).len()
                &&& final(allocs_histogram)@ == old(allocs_histogram)@.add(counted(sizes))
            },
            Err(e) => {
                &&& log_region_size(lines.deep_view()) == Err::<u32, RegionSizeError>(e)
                &&& *final(region_size_array) == *old(region_size_array)
                &&& final(allocs_histogram)@ == old(allocs_histogram)@
            },
        },
{
    let region_size = match extract_region_size(lines) {
        Ok(megabytes) => megabytes,
        Err(e) => {
            return Err(e);
        },
    };
    let ghost texts = lines.deep_view();
    let mut warnings: usize = 0;
    let mut i: usize = 0;
    proof {
        assert(texts.take(0) =~= Seq::<Seq<char>>::empty());
        assert(allocs_histogram@ =~= old(allocs_histogram)@.add(Multiset::<u64>::empty()));
    }
    while i < lines.len()
        invariant
            i <= lines.len(),
            texts == lines.deep_view(),
            allocs_histogram.wf(),
            region_size_array.wf(),
            old(allocs_histogram)@.len() + lines.len() <= u64::MAX,
            old(region_size_array).total() + lines.len() <= u64::MAX,
            allocs_histogram@.len() <= old(allocs_histogram)@.len() + i,
            region_size_array.total() <= old(region_size_array).total() + i,
            warnings == implausible(reported_sizes(texts.take(i as int))),
            warnings <= i,
            region_size_array.tallies(
                *old(region_size_array),
                reported_sizes(texts.take(i as int)),
            ),
            allocs_histogram@ == old(allocs_histogram)@.add(
                counted(reported_sizes(texts.take(i as int))),
            ),
        decreases lines.len() - i,
    {
        let ghost before = reported_sizes(texts.take(i as int));
        let ghost counts = *region_size_array;
        proof {
            let longer = texts.take(i + 1);
            assert(longer.drop_last() =~= texts.take(i as int));
            assert(longer.last() == lines@[i as int]@);
        }
        match scan_line(lines[i].as_str(), allocs_histogram, region_size_array) {
            LineOutcome::Counted(size, _) => {
                proof {
                    let after = reported_sizes(texts.take(i + 1));
                    assert(after.drop_last() =~= before);
                    assert(allocs_histogram@ =~= old(allocs_histogram)@.add(counted(after)));
                    assert forall|b: SizeBucket| #[trigger]
                        region_size_array.get(b) == old(region_size_array).get(b) + hits(
                            after,
                            b,
                        ) by {
                        assert(counts.get(b) == old(region_size_array).get(b) + hits(before, b));
                    }
                }
            },
            LineOutcome::Implausible(size) => {
                proof {
                    let after = reported_sizes(texts.take(i + 1));
                    assert(after.drop_last() =~= before);
                    assert forall|b: SizeBucket| #[trigger]
                        region_size_array.get(b) == old(region_size_array).get(b) + hits(
                            after,
                            b,
                        ) by {
                        assert(counts.get(b) == old(region_size_array).get(b) + hits(before, b));
                    }
                }
                warnings = warnings + 1;
            },
            LineOutcome::NoMatch => {},
        }
        i = i + 1;
    }
    proof {
        assert(texts.take(lines.len() as int) =~= texts);
        lemma_tally_total(*old(region_size_array), *region_size_array, reported_sizes(texts));
    }
    Ok(FileScan { region_size, implausible: warnings })
}

} // verus!
