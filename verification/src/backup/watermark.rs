//! Ingestion watermark tagging for point-in-time consistent backups.
//!
//! Every backup is tagged with the last-ingested ledger sequence recorded at
//! snapshot time. The datastore and cache snapshots may be taken a moment
//! apart; the watermark lets a restore detect and reconcile that skew.

use std::cmp::Ordering;

use vstd::prelude::*;
use vstd::std_specs::cmp::PartialOrdSpecImpl;

use crate::text::{decimal, push_decimal};

verus! {

/// The ingestion watermark: the last ledger sequence ingested at snapshot time.
#[derive(Debug, Clone, Copy, PartialEq, Eq, Structural, Ord)]
pub struct Watermark(pub u64);

/// Watermarks are ordered by their sequence numbers.
pub open spec fn watermark_order(a: Watermark, b: Watermark) -> Option<Ordering> {
    if a.0 < b.0 {
        Some(Ordering::Less)
    } else if a.0 == b.0 {
        Some(Ordering::Equal)
    } else {
        Some(Ordering::Greater)
    }
}

impl PartialOrd for Watermark {
    fn partial_cmp(&self, other: &Watermark) -> (o: Option<Ordering>) {
        if self.0 < other.0 {
            Some(Ordering::Less)
        } else if self.0 == other.0 {
            Some(Ordering::Equal)
        } else {
            Some(Ordering::Greater)
        }
    }
}

impl PartialOrdSpecImpl for Watermark {
    open spec fn obeys_partial_cmp_spec() -> bool {
        true
    }

    open spec fn partial_cmp_spec(&self, other: &Watermark) -> Option<Ordering> {
        watermark_order(*self, *other)
    }
}

/// The distance between two sequence numbers.
pub open spec fn seq_distance(a: u64, b: u64) -> nat {
    if a >= b { (a - b) as nat } else { (b - a) as nat }
}

/// The smaller of two sequence numbers.
pub open spec fn seq_min(a: u64, b: u64) -> u64 {
    if a <= b { a } else { b }
}

/// What reconciling `datastore` against `cache` with `tolerance` yields.
pub open spec fn reconcile_spec(datastore: Watermark, cache: Watermark, tolerance: u64) -> Result<
    Watermark,
    WatermarkMismatch,
> {
    if seq_distance(datastore.0, cache.0) <= tolerance {
        Ok(Watermark(seq_min(datastore.0, cache.0)))
    } else {
        Err(WatermarkMismatch { datastore, cache, tolerance })
    }
}

impl Watermark {
    pub fn new(sequence: u64) -> (w: Watermark)
        ensures
            w.0 == sequence,
    {
        Watermark(sequence)
    }

    pub fn sequence(&self) -> (s: u64)
        ensures
            s == self.0,
    {
        self.0
    }

    /// Reconcile this watermark with another, allowing a documented tolerance.
    ///
    /// Returns the lower of the two watermarks (the safe resume point) when the
    /// difference is within `tolerance`, otherwise a [`WatermarkMismatch`].
    pub fn reconcile(&self, other: &Watermark, tolerance: u64) -> (r: Result<
        Watermark,
        WatermarkMismatch,
    >)
        ensures
            r == reconcile_spec(*self, *other, tolerance),
    {
        let diff: u64 = if self.0 >= other.0 { self.0 - other.0 } else { other.0 - self.0 };
        if diff <= tolerance {
            Ok(Watermark(if self.0 <= other.0 { self.0 } else { other.0 }))
        } else {
            Err(WatermarkMismatch { datastore: *self, cache: *other, tolerance })
        }
    }
}

/// Reconciling is symmetric: swapping the two watermarks changes neither
/// whether they reconcile nor the resume point they reconcile to.
pub proof fn law_reconcile_symmetric(a: Watermark, b: Watermark, tolerance: u64)
    ensures
        (reconcile_spec(a, b, tolerance) is Ok) == (reconcile_spec(b, a, tolerance) is Ok),
        reconcile_spec(a, b, tolerance) is Ok ==> reconcile_spec(a, b, tolerance)->Ok_0
            == reconcile_spec(b, a, tolerance)->Ok_0,
{
}

/// The resume point is the lower of the two watermarks: one of them, and
/// later than neither. Two equal watermarks always reconcile to themselves.
pub proof fn law_reconciled_is_lower(a: Watermark, b: Watermark, tolerance: u64)
    ensures
        reconcile_spec(a, b, tolerance) matches Ok(w) ==> {
            &&& w.0 <= a.0
            &&& w.0 <= b.0
            &&& (w == a || w == b)
        },
        reconcile_spec(a, a, tolerance) == Ok::<Watermark, WatermarkMismatch>(a),
{
}

/// The datastore and cache watermarks disagree beyond the documented tolerance.
#[derive(Debug, Clone, Copy, PartialEq, Eq, Structural)]
pub struct WatermarkMismatch {
    pub datastore: Watermark,
    pub cache: Watermark,
    pub tolerance: u64,
}

impl WatermarkMismatch {
    /// The human-readable form of the mismatch.
    pub open spec fn describe_spec(self) -> Seq<char> {
        "datastore watermark "@ + decimal(self.datastore.0 as nat) + " and cache watermark "@
            + decimal(self.cache.0 as nat) + " differ by more than tolerance "@ + decimal(
            self.tolerance as nat,
        )
    }

    /// The human-readable form of the mismatch.
    pub fn describe(&self) -> (s: String)
        ensures
            s@ == self.describe_spec(),
    {
        let mut s = "datastore watermark ".to_owned();
        push_decimal(&mut s, self.datastore.0);
        s.append(" and cache watermark ");
        push_decimal(&mut s, self.cache.0);
        s.append(" differ by more than tolerance ");
        push_decimal(&mut s, self.tolerance);
        s
    }
}

} // verus!
