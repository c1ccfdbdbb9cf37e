//! The report at the end of a run.
//!
//! A run that counted nothing reports just that. Any other run reports the
//! six counts and six figures of the distribution: its extremes and its
//! percentiles of rank 50, 75, 90 and 99. The figures are approximations of
//! a histogram, so they are checked before they are handed out: a report
//! holds them only if each is there and none is smaller than the one before
//! it.

use crate::bucket::{BucketCounts, SizeBucket};
use crate::distribution::{histogram_percentile, query_outcome, Distribution, QueryError};
use vstd::multiset::Multiset;
use vstd::prelude::*;
use vstd::string::StringExecFns;

verus! {

/// One row of the table of counts.
#[derive(Debug, PartialEq, Eq)]
pub struct G1RegionBucket {
    /// The name of the bucket.
    pub region_size: String,
    /// The largest size shown for the bucket.
    pub max_size: u32,
    /// The number of allocations counted in the bucket.
    pub num_allocations: u64,
}

impl G1RegionBucket {
    /// This row shows bucket `b` with its count in `counts`.
    pub open spec fn shows(self, b: SizeBucket, counts: BucketCounts) -> bool {
        &&& self.region_size@ == SizeBucket::label_text(b)
        &&& self.max_size == SizeBucket::shown_size(b)
        &&& self.num_allocations == counts.get(b)
    }
}

/// The row of bucket `b` with its count in `counts`.
pub fn table_row(counts: &BucketCounts, b: SizeBucket) -> (row: G1RegionBucket)
    ensures
        row.shows(b, *counts),
{
    G1RegionBucket {
        region_size: String::from_str(b.label()),
        max_size: b.max_size(),
        num_allocations: counts.count(b),
    }
}

/// The six rows of the table of counts, in the order of the buckets.
pub fn table_rows(counts: &BucketCounts) -> (rows: Vec<G1RegionBucket>)
    ensures
        rows.len() == 6,
        forall|b: SizeBucket| (#[trigger] rows@[b.position()]).shows(b, *counts),
{
    let mut rows: Vec<G1RegionBucket> = Vec::new();
    rows.push(table_row(counts, SizeBucket::Mb2));
    rows.push(table_row(counts, SizeBucket::Mb4));
    rows.push(table_row(counts, SizeBucket::Mb8));
    rows.push(table_row(counts, SizeBucket::Mb16));
    rows.push(table_row(counts, SizeBucket::Mb32));
    rows.push(table_row(counts, SizeBucket::Overflow));
    rows
}

/// Six figures of a distribution.
#[derive(Clone, Copy, Debug, PartialEq, Eq, Structural)]
pub struct Statistics {
    /// The smallest sample.
    pub min: u64,
    /// The percentile of rank 50.
    pub p50: u64,
    /// The percentile of rank 75.
    pub p75: u64,
    /// The percentile of rank 90.
    pub p90: u64,
    /// The percentile of rank 99.
    pub p99: u64,
    /// The largest sample.
    pub max: u64,
}

impl Statistics {
    /// No figure is smaller than the one of the rank before it.
    pub open spec fn ordered(self) -> bool {
        self.min <= self.p50 <= self.p75 <= self.p90 <= self.p99 <= self.max
    }
}

/// Why a distribution has no statistics.
#[derive(Clone, Copy, Debug, PartialEq, Eq, Structural)]
pub enum StatisticsError {
    /// The distribution holds no sample.
    NoData,
    /// The histogram has samples but lacks one of the six figures.
    Unavailable,
    /// The histogram gave six figures of which one is smaller than the one
    /// of the rank before it.
    OutOfOrder,
}

/// The error that stands for a failed query among the statistics.
pub open spec fn query_failure(e: QueryError) -> StatisticsError {
    match e {
        QueryError::NoData => StatisticsError::NoData,
        QueryError::Unavailable => StatisticsError::Unavailable,
    }
}

/// The statistics that six answers make: those of the six answers, in the
/// order of their ranks, if all six are there and in order; else the first
/// failure among them, and `OutOfOrder` if none failed.
pub open spec fn statistics_from(
    min: Result<u64, QueryError>,
    p50: Result<u64, QueryError>,
    p75: Result<u64, QueryError>,
    p90: Result<u64, QueryError>,
    p99: Result<u64, QueryError>,
    max: Result<u64, QueryError>,
) -> Result<Statistics, StatisticsError> {
    match (min, p50, p75, p90, p99, max) {
        (Ok(min), Ok(p50), Ok(p75), Ok(p90), Ok(p99), Ok(max)) => {
            let figures = Statistics { min, p50, p75, p90, p99, max };
            if figures.ordered() {
                Ok(figures)
            } else {
                Err(StatisticsError::OutOfOrder)
            }
        },
        (Err(e), _, _, _, _, _) => Err(query_failure(e)),
        (_, Err(e), _, _, _, _) => Err(query_failure(e)),
        (_, _, Err(e), _, _, _) => Err(query_failure(e)),
        (_, _, _, Err(e), _, _) => Err(query_failure(e)),
        (_, _, _, _, Err(e), _) => Err(query_failure(e)),
        (_, _, _, _, _, Err(e)) => Err(query_failure(e)),
    }
}

/// The statistics of a distribution of `samples`.
pub open spec fn statistics_of(samples: Multiset<u64>) -> Result<Statistics, StatisticsError> {
    statistics_from(
        query_outcome(samples, histogram_percentile(samples, 0)),
        query_outcome(samples, histogram_percentile(samples, 50)),
        query_outcome(samples, histogram_percentile(samples, 75)),
        query_outcome(samples, histogram_percentile(samples, 90)),
        query_outcome(samples, histogram_percentile(samples, 99)),
        query_outcome(samples, histogram_percentile(samples, 100)),
    )
}

/// The error of a failed query, as one of the statistics.
fn failure(e: QueryError) -> (r: StatisticsError)
    ensures
        r == query_failure(e),
{
    match e {
        QueryError::NoData => StatisticsError::NoData,
        QueryError::Unavailable => StatisticsError::Unavailable,
    }
}

/// Makes statistics of six answers, given in the order of their ranks.
/// Statistics that this function hands out are in order.
pub fn assemble_statistics(
    min: Result<u64, QueryError>,
    p50: Result<u64, QueryError>,
    p75: Result<u64, QueryError>,
    p90: Result<u64, QueryError>,
    p99: Result<u64, QueryError>,
    max: Result<u64, QueryError>,
) -> (r: Result<Statistics, StatisticsError>)
    ensures
        r == statistics_from(min, p50, p75, p90, p99, max),
        r matches Ok(figures) ==> figures.ordered(),
{
    let min = match min {
        Ok(v) => v,
        Err(e) => {
            return Err(failure(e));
        },
    };
    let p50 = match p50 {
        Ok(v) => v,
        Err(e) => {
            return Err(failure(e));
        },
    };
    let p75 = match p75 {
        Ok(v) => v,
        Err(e) => {
            return Err(failure(e));
        },
    };
    let p90 = match p90 {
        Ok(v) => v,
        Err(e) => {
            return Err(failure(e));
        },
    };
    let p99 = match p99 {
        Ok(v) => v,
        Err(e) => {
            return Err(failure(e));
        },
    };
    let max = match max {
        Ok(v) => v,
        Err(e) => {
            return Err(failure(e));
        },
    };
    if min <= p50 && p50 <= p75 && p75 <= p90 && p90 <= p99 && p99 <= max {
        Ok(Statistics { min, p50, p75, p90, p99, max })
    } else {
        Err(StatisticsError::OutOfOrder)
    }
}

/// Reads the six figures from a distribution.
pub fn statistics(allocs_histogram: &Distribution) -> (r: Result<Statistics, StatisticsError>)
    requires
        allocs_histogram.wf(),
    ensures
        r == statistics_of(allocs_histogram@),
        r matches Ok(figures) ==> figures.ordered(),
        allocs_histogram@.len() == 0 <==> r == Err::<Statistics, StatisticsError>(
            StatisticsError::NoData,
        ),
{
    let min = allocs_histogram.minimum();
    let p50 = allocs_histogram.percentile(50);
    let p75 = allocs_histogram.percentile(75);
    let p90 = allocs_histogram.percentile(90);
    let p99 = allocs_histogram.percentile(99);
    let max = allocs_histogram.maximum();
    assemble_statistics(min, p50, p75, p90, p99, max)
}

/// What a run has to report.
#[derive(Clone, Copy, Debug, PartialEq, Eq, Structural)]
pub enum ProcessingReport {
    /// No humongous allocation was counted.
    Nothing,
    /// The counts of the six buckets and the figures of the distribution.
    Summary(BucketCounts, Statistics),
}

/// The report on `counts` and a distribution of `samples`.
pub open spec fn report_of(counts: BucketCounts, samples: Multiset<u64>) -> Result<
    ProcessingReport,
    StatisticsError,
> {
    if counts.total() == 0 {
        Ok(ProcessingReport::Nothing)
    } else {
        match statistics_of(samples) {
            Ok(figures) => Ok(ProcessingReport::Summary(counts, figures)),
            Err(e) => Err(e),
        }
    }
}

/// Makes the report of a run from its counts and its distribution.
pub fn build_report(region_size_array: &BucketCounts, allocs_histogram: &Distribution) -> (r:
    Result<ProcessingReport, StatisticsError>)
    requires
        region_size_array.wf(),
        allocs_histogram.wf(),
    ensures
        r == report_of(*region_size_array, allocs_histogram@),
        r matches Ok(ProcessingReport::Summary(_, figures)) ==> figures.ordered(),
{
    if region_size_array.sum() == 0 {
        return Ok(ProcessingReport::Nothing);
    }
    match statistics(allocs_histogram) {
        Ok(figures) => Ok(ProcessingReport::Summary(*region_size_array, figures)),
        Err(e) => Err(e),
    }
}

} // verus!
