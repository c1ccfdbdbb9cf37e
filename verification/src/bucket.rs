//! The six size buckets and their counters.
//!
//! The bucket boundaries are fixed: they follow half of each region size
//! that G1 can be configured with, from 2 MB to 32 MB, whatever region size
//! a given log was produced with. A size of 524289 bytes or less belongs to
//! no bucket: it is implausible for a humongous allocation and is reported
//! rather than counted.

use vstd::multiset::Multiset;
use vstd::prelude::*;

verus! {

/// The largest size that is too small to be counted.
pub const IMPLAUSIBLE_MAX: u64 = 524289;

/// The largest size counted for 2 MB regions.
pub const MB2_MAX: u64 = 1048576;

/// The largest size counted for 4 MB regions.
pub const MB4_MAX: u64 = 2097152;

/// The largest size counted for 8 MB regions.
pub const MB8_MAX: u64 = 4194304;

/// The largest size counted for 16 MB regions.
pub const MB16_MAX: u64 = 8388608;

/// The largest size counted for 32 MB regions.
pub const MB32_MAX: u64 = 16777216;

/// One of the six size classes, smallest first.
#[derive(Clone, Copy, Debug, PartialEq, Eq, Structural)]
pub enum SizeBucket {
    Mb2,
    Mb4,
    Mb8,
    Mb16,
    Mb32,
    Overflow,
}

impl SizeBucket {
    /// The smallest size that falls into this bucket.
    pub open spec fn lowest(self) -> u64 {
        match self {
            SizeBucket::Mb2 => (IMPLAUSIBLE_MAX + 1) as u64,
            SizeBucket::Mb4 => (MB2_MAX + 1) as u64,
            SizeBucket::Mb8 => (MB4_MAX + 1) as u64,
            SizeBucket::Mb16 => (MB8_MAX + 1) as u64,
            SizeBucket::Mb32 => (MB16_MAX + 1) as u64,
            SizeBucket::Overflow => (MB32_MAX + 1) as u64,
        }
    }

    /// The largest size that falls into this bucket.
    pub open spec fn highest(self) -> u64 {
        match self {
            SizeBucket::Mb2 => MB2_MAX,
            SizeBucket::Mb4 => MB4_MAX,
            SizeBucket::Mb8 => MB8_MAX,
            SizeBucket::Mb16 => MB16_MAX,
            SizeBucket::Mb32 => MB32_MAX,
            SizeBucket::Overflow => u64::MAX,
        }
    }

    /// The position of this bucket in the fixed order of the report.
    pub open spec fn position(self) -> int {
        match self {
            SizeBucket::Mb2 => 0,
            SizeBucket::Mb4 => 1,
            SizeBucket::Mb8 => 2,
            SizeBucket::Mb16 => 3,
            SizeBucket::Mb32 => 4,
            SizeBucket::Overflow => 5,
        }
    }

    /// The name of this bucket in the report.
    pub open spec fn label_text(self) -> Seq<char> {
        match self {
            SizeBucket::Mb2 => "2MB"@,
            SizeBucket::Mb4 => "4MB"@,
            SizeBucket::Mb8 => "8MB"@,
            SizeBucket::Mb16 => "16MB"@,
            SizeBucket::Mb32 => "32MB"@,
            SizeBucket::Overflow => "Overflow"@,
        }
    }

    /// The size shown beside this bucket in the report: its largest size,
    /// and for the overflow bucket the largest number of 32 bits.
    pub open spec fn shown_size(self) -> u32 {
        if self == SizeBucket::Overflow {
            u32::MAX
        } else {
            self.highest() as u32
        }
    }

    /// The name of this bucket in the report.
    pub fn label(self) -> (r: &'static str)
        ensures
            r@ == self.label_text(),
    {
        match self {
            SizeBucket::Mb2 => "2MB",
            SizeBucket::Mb4 => "4MB",
            SizeBucket::Mb8 => "8MB",
            SizeBucket::Mb16 => "16MB",
            SizeBucket::Mb32 => "32MB",
            SizeBucket::Overflow => "Overflow",
        }
    }

    /// The size shown beside this bucket in the report.
    pub fn max_size(self) -> (r: u32)
        ensures
            r == self.shown_size(),
    {
        match self {
            SizeBucket::Mb2 => 1048576,
            SizeBucket::Mb4 => 2097152,
            SizeBucket::Mb8 => 4194304,
            SizeBucket::Mb16 => 8388608,
            SizeBucket::Mb32 => 16777216,
            SizeBucket::Overflow => u32::MAX,
        }
    }
}

/// The bucket that counts an allocation of `size` bytes, if any does.
pub open spec fn bucket_of(size: u64) -> Option<SizeBucket> {
    if size <= IMPLAUSIBLE_MAX {
        None
    } else if size <= MB2_MAX {
        Some(SizeBucket::Mb2)
    } else if size <= MB4_MAX {
        Some(SizeBucket::Mb4)
    } else if size <= MB8_MAX {
        Some(SizeBucket::Mb8)
    } else if size <= MB16_MAX {
        Some(SizeBucket::Mb16)
    } else if size <= MB32_MAX {
        Some(SizeBucket::Mb32)
    } else {
        Some(SizeBucket::Overflow)
    }
}

/// Sorts an allocation of `size` bytes into its bucket.
pub fn classify(size: u64) -> (r: Option<SizeBucket>)
    ensures
        r == bucket_of(size),
{
    if size <= IMPLAUSIBLE_MAX {
        None
    } else if size <= MB2_MAX {
        Some(SizeBucket::Mb2)
    } else if size <= MB4_MAX {
        Some(SizeBucket::Mb4)
    } else if size <= MB8_MAX {
        Some(SizeBucket::Mb8)
    } else if size <= MB16_MAX {
        Some(SizeBucket::Mb16)
    } else if size <= MB32_MAX {
        Some(SizeBucket::Mb32)
    } else {
        Some(SizeBucket::Overflow)
    }
}

/// The buckets divide the sizes above 524289 among themselves: a size falls
/// into a bucket exactly when it lies between the bucket's two bounds, so
/// into one bucket at most, and into none exactly when it is 524289 or less.
pub proof fn lemma_buckets_partition(size: u64, b: SizeBucket)
    ensures
        bucket_of(size) == Some(b) <==> b.lowest() <= size <= b.highest(),
        bucket_of(size) is None <==> size <= IMPLAUSIBLE_MAX,
{
}

/// How many of `sizes` fall into bucket `b`.
pub open spec fn hits(sizes: Seq<u64>, b: SizeBucket) -> nat
    decreases sizes.len(),
{
    if sizes.len() == 0 {
        0
    } else {
        hits(sizes.drop_last(), b) + if bucket_of(sizes.last()) == Some(b) {
            1nat
        } else {
            0nat
        }
    }
}

/// Those of `sizes` that fall into a bucket, each as often as it occurs.
pub open spec fn counted(sizes: Seq<u64>) -> Multiset<u64>
    decreases sizes.len(),
{
    if sizes.len() == 0 {
        Multiset::empty()
    } else if bucket_of(sizes.last()) is Some {
        counted(sizes.drop_last()).insert(sizes.last())
    } else {
        counted(sizes.drop_last())
    }
}

/// How many of `sizes` fall into no bucket.
pub open spec fn implausible(sizes: Seq<u64>) -> nat
    decreases sizes.len(),
{
    if sizes.len() == 0 {
        0
    } else {
        implausible(sizes.drop_last()) + if bucket_of(sizes.last()) is None {
            1nat
        } else {
            0nat
        }
    }
}

/// The hits of the six buckets add up to the number of sizes that fall into
/// a bucket, and with the implausible sizes to the number of all sizes: no
/// size is counted twice, and none that has a bucket is left out.
pub proof fn lemma_hits_add_up(sizes: Seq<u64>)
    ensures
        hits(sizes, SizeBucket::Mb2) + hits(sizes, SizeBucket::Mb4) + hits(sizes, SizeBucket::Mb8)
            + hits(sizes, SizeBucket::Mb16) + hits(sizes, SizeBucket::Mb32) + hits(
            sizes,
            SizeBucket::Overflow,
        ) == counted(sizes).len(),
        counted(sizes).len() + implausible(sizes) == sizes.len(),
    decreases sizes.len(),
{
    if sizes.len() > 0 {
        lemma_hits_add_up(sizes.drop_last());
    }
}

/// How often each bucket was hit.
#[derive(Clone, Copy, Debug, PartialEq, Eq, Structural)]
pub struct BucketCounts {
    mb2: u64,
    mb4: u64,
    mb8: u64,
    mb16: u64,
    mb32: u64,
    overflow: u64,
}

impl BucketCounts {
    /// The count of bucket `b`.
    pub closed spec fn get(self, b: SizeBucket) -> nat {
        match b {
            SizeBucket::Mb2 => self.mb2 as nat,
            SizeBucket::Mb4 => self.mb4 as nat,
            SizeBucket::Mb8 => self.mb8 as nat,
            SizeBucket::Mb16 => self.mb16 as nat,
            SizeBucket::Mb32 => self.mb32 as nat,
            SizeBucket::Overflow => self.overflow as nat,
        }
    }

    /// The sum of the six counts.
    pub open spec fn total(self) -> nat {
        self.get(SizeBucket::Mb2) + self.get(SizeBucket::Mb4) + self.get(SizeBucket::Mb8)
            + self.get(SizeBucket::Mb16) + self.get(SizeBucket::Mb32) + self.get(
            SizeBucket::Overflow,
        )
    }

    /// The sum of the counts fits in 64 bits.
    pub open spec fn wf(self) -> bool {
        self.total() <= u64::MAX
    }

    /// `self` is `before` with one more hit in the bucket of `size`, or
    /// `before` itself where `size` has no bucket.
    pub open spec fn follows(self, before: BucketCounts, size: u64) -> bool {
        forall|b: SizeBucket|
            #[trigger] self.get(b) == before.get(b) + if bucket_of(size) == Some(b) {
                1nat
            } else {
                0nat
            }
    }

    /// `self` is `before` with one more hit for each of `sizes` in its bucket.
    pub open spec fn tallies(self, before: BucketCounts, sizes: Seq<u64>) -> bool {
        forall|b: SizeBucket| #[trigger] self.get(b) == before.get(b) + hits(sizes, b)
    }

    /// Six counts of zero.
    pub fn new() -> (r: BucketCounts)
        ensures
            r.wf(),
            r.total() == 0,
            forall|b: SizeBucket| r.get(b) == 0,
    {
        BucketCounts { mb2: 0, mb4: 0, mb8: 0, mb16: 0, mb32: 0, overflow: 0 }
    }

    /// The count of bucket `b`.
    pub fn count(&self, b: SizeBucket) -> (r: u64)
        ensures
            r == self.get(b),
    {
        match b {
            SizeBucket::Mb2 => self.mb2,
            SizeBucket::Mb4 => self.mb4,
            SizeBucket::Mb8 => self.mb8,
            SizeBucket::Mb16 => self.mb16,
            SizeBucket::Mb32 => self.mb32,
            SizeBucket::Overflow => self.overflow,
        }
    }

    /// The number of allocations counted in all buckets together.
    pub fn sum(&self) -> (r: u64)
        requires
            self.wf(),
        ensures
            r == self.total(),
    {
        self.mb2 + self.mb4 + self.mb8 + self.mb16 + self.mb32 + self.overflow
    }

    /// Counts an allocation of `size` bytes in its bucket and names the
    /// bucket. A size that has no bucket changes nothing.
    pub fn record(&mut self, size: u64) -> (r: Option<SizeBucket>)
        requires
            old(self).wf(),
            old(self).total() < u64::MAX,
        ensures
            r == bucket_of(size),
            final(self).follows(*old(self), size),
            r is None ==> *final(self) == *old(self),
            final(self).wf(),
            final(self).total() == old(self).total() + if r is Some {
                1nat
            } else {
                0nat
            },
    {
        let hit = classify(size);
        match hit {
            Some(SizeBucket::Mb2) => {
                self.mb2 = self.mb2 + 1;
            },
            Some(SizeBucket::Mb4) => {
                self.mb4 = self.mb4 + 1;
            },
            Some(SizeBucket::Mb8) => {
                self.mb8 = self.mb8 + 1;
            },
            Some(SizeBucket::Mb16) => {
                self.mb16 = self.mb16 + 1;
            },
            Some(SizeBucket::Mb32) => {
                self.mb32 = self.mb32 + 1;
            },
            Some(SizeBucket::Overflow) => {
                self.overflow = self.overflow + 1;
            },
            None => {},
        }
        hit
    }
}

/// Counts that tally a run of sizes have grown in sum by the number of
/// those sizes that fall into a bucket.
pub proof fn lemma_tally_total(before: BucketCounts, after: BucketCounts, sizes: Seq<u64>)
    requires
        after.tallies(before, sizes),
    ensures
        after.total() == before.total() + counted(sizes).len(),
{
    lemma_hits_add_up(sizes);
    assert(after.get(SizeBucket::Mb2) == before.get(SizeBucket::Mb2) + hits(sizes, SizeBucket::Mb2));
    assert(after.get(SizeBucket::Mb4) == before.get(SizeBucket::Mb4) + hits(sizes, SizeBucket::Mb4));
    assert(after.get(SizeBucket::Mb8) == before.get(SizeBucket::Mb8) + hits(sizes, SizeBucket::Mb8));
    assert(after.get(SizeBucket::Mb16) == before.get(SizeBucket::Mb16) + hits(sizes, SizeBucket::Mb16));
    assert(after.get(SizeBucket::Mb32) == before.get(SizeBucket::Mb32) + hits(sizes, SizeBucket::Mb32));
    assert(after.get(SizeBucket::Overflow) == before.get(SizeBucket::Overflow) + hits(
        sizes,
        SizeBucket::Overflow,
    ));
}

} // verus!
