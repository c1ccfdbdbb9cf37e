//! The running distribution of allocation sizes.
//!
//! The sizes are kept in a fixed-resolution histogram of the `histogram`
//! crate, which answers percentile queries from bucketed counts rather than
//! from the samples themselves. Its answers are therefore approximations,
//! and they are taken here as that crate gives them: each is named as a
//! function of the samples and the rank, and nothing more is claimed of it
//! than that an empty histogram has no answer.

use histogram::Histogram;
use vstd::multiset::Multiset;
use vstd::prelude::*;

verus! {

/// `histogram::Histogram`, of which the verifier sees nothing but the name.
#[verifier::external_type_specification]
#[verifier::external_body]
pub struct ExHistogram(Histogram);

/// The largest sample that a histogram made by `Histogram::new` stores in
/// one of its buckets.
pub const HISTOGRAM_LIMIT: u64 = 60_000_000_000;

/// The samples that a histogram was fed since it was made, each as often as
/// it was fed.
pub uninterp spec fn histogram_samples(h: Histogram) -> Multiset<u64>;

/// Whether a histogram was made by `Histogram::new` and has since been
/// changed by `Histogram::increment` alone.
pub uninterp spec fn histogram_is_plain(h: Histogram) -> bool;

/// What `Histogram::percentile` answers for the rank `rank`, in percent, on
/// a plain histogram that was fed `samples`; `None` where it answers with an
/// error.
pub uninterp spec fn histogram_percentile(samples: Multiset<u64>, rank: u8) -> Option<u64>;

/// `Histogram::new`: a plain histogram that holds no sample.
#[verifier::external_body]
fn histogram_new() -> (h: Histogram)
    ensures
        histogram_is_plain(h),
        histogram_samples(h) == Multiset::<u64>::empty(),
{
    Histogram::new()
}

/// `Histogram::increment`: feeds one sample to a plain histogram. The
/// sample is counted whatever its size; the call reports success exactly
/// when the sample is at most [`HISTOGRAM_LIMIT`], and a larger sample is
/// counted as one beyond the histogram's range.
#[verifier::external_body]
fn histogram_increment(h: &mut Histogram, value: u64) -> (stored: bool)
    requires
        histogram_is_plain(*old(h)),
    ensures
        histogram_is_plain(*final(h)),
        histogram_samples(*final(h)) == histogram_samples(*old(h)).insert(value),
        stored == (value <= HISTOGRAM_LIMIT),
{
    h.increment(value).is_ok()
}

/// `Histogram::entries`: the number of samples fed to a plain histogram,
/// which counts them in 64 bits and stops at the largest such number.
#[verifier::external_body]
fn histogram_entries(h: &Histogram) -> (n: u64)
    requires
        histogram_is_plain(*h),
    ensures
        n == if histogram_samples(*h).len() <= u64::MAX {
            histogram_samples(*h).len()
        } else {
            u64::MAX as nat
        },
{
    h.entries()
}

/// `Histogram::percentile`, asked for a whole number of percent. A
/// histogram without samples has no answer.
#[verifier::external_body]
fn histogram_percentile_at(h: &Histogram, rank: u8) -> (r: Option<u64>)
    requires
        histogram_is_plain(*h),
        histogram_samples(*h).len() <= u64::MAX,
    ensures
        r == histogram_percentile(histogram_samples(*h), rank),
        histogram_samples(*h).len() == 0 ==> r is None,
{
    h.percentile(rank.into()).ok()
}

/// `Histogram::minimum`, which is the percentile of rank 0.
#[verifier::external_body]
fn histogram_minimum(h: &Histogram) -> (r: Option<u64>)
    requires
        histogram_is_plain(*h),
        histogram_samples(*h).len() <= u64::MAX,
    ensures
        r == histogram_percentile(histogram_samples(*h), 0),
        histogram_samples(*h).len() == 0 ==> r is None,
{
    h.minimum().ok()
}

/// `Histogram::maximum`, which is the percentile of rank 100.
#[verifier::external_body]
fn histogram_maximum(h: &Histogram) -> (r: Option<u64>)
    requires
        histogram_is_plain(*h),
        histogram_samples(*h).len() <= u64::MAX,
    ensures
        r == histogram_percentile(histogram_samples(*h), 100),
        histogram_samples(*h).len() == 0 ==> r is None,
{
    h.maximum().ok()
}

/// Why a distribution cannot answer a query.
#[derive(Clone, Copy, Debug, PartialEq, Eq, Structural)]
pub enum QueryError {
    /// The distribution holds no sample.
    NoData,
    /// The histogram has samples but no answer for this rank.
    Unavailable,
}

/// The answer to a query for which the histogram said `answer`, on a
/// distribution of `samples`.
pub open spec fn query_outcome(samples: Multiset<u64>, answer: Option<u64>) -> Result<
    u64,
    QueryError,
> {
    if samples.len() == 0 {
        Err(QueryError::NoData)
    } else {
        match answer {
            Some(v) => Ok(v),
            None => Err(QueryError::Unavailable),
        }
    }
}

/// The sizes of the allocations counted so far.
pub struct Distribution {
    hist: Histogram,
}

impl Distribution {
    /// The samples recorded so far, each as often as it was recorded.
    pub closed spec fn view(&self) -> Multiset<u64> {
        histogram_samples(self.hist)
    }

    /// The histogram is as this type made and fed it, and its count of
    /// samples fits in 64 bits.
    pub closed spec fn wf(&self) -> bool {
        &&& histogram_is_plain(self.hist)
        &&& histogram_samples(self.hist).len() <= u64::MAX
    }

    /// A distribution without samples.
    pub fn new() -> (r: Distribution)
        ensures
            r.wf(),
            r@ == Multiset::<u64>::empty(),
    {
        Distribution { hist: histogram_new() }
    }

    /// Adds one sample. The result says whether the histogram stores the
    /// sample in a bucket, which it does up to [`HISTOGRAM_LIMIT`]; a larger
    /// sample is still counted, as one beyond the histogram's range.
    pub fn record(&mut self, size: u64) -> (stored: bool)
        requires
            old(self).wf(),
            old(self)@.len() < u64::MAX,
        ensures
            final(self).wf(),
            final(self)@ == old(self)@.insert(size),
            stored == (size <= HISTOGRAM_LIMIT),
    {
        histogram_increment(&mut self.hist, size)
    }

    /// The number of samples.
    pub fn entries(&self) -> (n: u64)
        requires
            self.wf(),
        ensures
            n == self@.len(),
    {
        histogram_entries(&self.hist)
    }

    /// The percentile of rank `rank`, in percent, as the histogram
    /// approximates it.
    pub fn percentile(&self, rank: u8) -> (r: Result<u64, QueryError>)
        requires
            self.wf(),
        ensures
            r == query_outcome(self@, histogram_percentile(self@, rank)),
            self@.len() == 0 <==> r == Err::<u64, QueryError>(QueryError::NoData),
    {
        if histogram_entries(&self.hist) == 0 {
            return Err(QueryError::NoData);
        }
        match histogram_percentile_at(&self.hist, rank) {
            Some(v) => Ok(v),
            None => Err(QueryError::Unavailable),
        }
    }

    /// The smallest sample, as the histogram approximates it.
    pub fn minimum(&self) -> (r: Result<u64, QueryError>)
        requires
            self.wf(),
        ensures
            r == query_outcome(self@, histogram_percentile(self@, 0)),
            self@.len() == 0 <==> r == Err::<u64, QueryError>(QueryError::NoData),
    {
        if histogram_entries(&self.hist) == 0 {
            return Err(QueryError::NoData);
        }
        match histogram_minimum(&self.hist) {
            Some(v) => Ok(v),
            None => Err(QueryError::Unavailable),
        }
    }

    /// The largest sample, as the histogram approximates it.
    pub fn maximum(&self) -> (r: Result<u64, QueryError>)
        requires
            self.wf(),
        ensures
            r == query_outcome(self@, histogram_percentile(self@, 100)),
            self@.len() == 0 <==> r == Err::<u64, QueryError>(QueryError::NoData),
    {
        if histogram_entries(&self.hist) == 0 {
            return Err(QueryError::NoData);
        }
        match histogram_maximum(&self.hist) {
            Some(v) => Ok(v),
            None => Err(QueryError::Unavailable),
        }
    }
}

} // verus!
