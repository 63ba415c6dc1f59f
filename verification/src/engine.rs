//! The change engine: from a newest-first candle sequence, a live price and a
//! granularity to the five percentage changes of that granularity's lookback
//! table.

use vstd::prelude::*;
use crate::granularity::Granularity;
use crate::lookback::{
    is_table_of, lemma_table_shape, lookback_table, max_offset, spec_labels, spec_max_offset,
    spec_offsets, Lookback,
};
use crate::rounding::{lemma_change_zero_iff, percent_change, spec_change};

verus! {

/// One price observation over a fixed time bucket. Prices and volume are
/// whole numbers of a fixed minor unit.
#[derive(Clone, Copy, Debug, PartialEq, Eq, Structural)]
pub struct Candle {
    /// Start of the bucket, in seconds since the epoch.
    pub timestamp: u64,
    pub low: u64,
    pub high: u64,
    pub open: u64,
    pub close: u64,
    pub volume: u64,
}

/// Why no changes could be computed.
#[derive(Clone, Copy, Debug, PartialEq, Eq, Structural)]
pub enum ChangeError {
    /// The candle sequence does not reach the largest offset of the table.
    InsufficientHistory,
    /// A close that a change would be measured against is zero.
    ZeroHistoricalPrice,
}

impl ChangeError {
    /// What went wrong, in words.
    pub fn message(&self) -> (m: &'static str)
        ensures
            m@ == match *self {
                ChangeError::InsufficientHistory => "computation failed: insufficient history"@,
                ChangeError::ZeroHistoricalPrice => "computation failed: zero historical price"@,
            },
    {
        match self {
            ChangeError::InsufficientHistory => "computation failed: insufficient history",
            ChangeError::ZeroHistoricalPrice => "computation failed: zero historical price",
        }
    }
}

/// Which way a reported change points.
#[derive(Clone, Copy, Debug, PartialEq, Eq, Structural)]
pub enum Sign {
    Positive,
    Negative,
    Neutral,
}

/// The change over one lookback span.
#[derive(Clone, Copy, Debug)]
pub struct ChangeResult {
    /// Label of the span, from the lookback table.
    pub label: &'static str,
    /// The change in hundredths of a percent: 1053 stands for 10.53%.
    pub hundredths: i128,
}

/// Sign of a reported change.
pub open spec fn spec_sign(hundredths: int) -> Sign {
    if hundredths > 0 {
        Sign::Positive
    } else if hundredths < 0 {
        Sign::Negative
    } else {
        Sign::Neutral
    }
}

impl ChangeResult {
    /// Sign of the change as reported, that is after rounding.
    pub fn sign(&self) -> (s: Sign)
        ensures
            s == spec_sign(self.hundredths as int),
    {
        if self.hundredths > 0 {
            Sign::Positive
        } else if self.hundredths < 0 {
            Sign::Negative
        } else {
            Sign::Neutral
        }
    }
}

/// The candles run from the most recent to the least recent: each starts
/// later than every candle after it.
pub open spec fn is_newest_first(candles: Seq<Candle>) -> bool {
    forall|i: int, j: int|
        0 <= i < j < candles.len() ==> candles[i].timestamp > candles[j].timestamp
}

/// Whether the candles run from the most recent to the least recent.
pub fn newest_first(candles: &Vec<Candle>) -> (b: bool)
    ensures
        b == is_newest_first(candles@),
{
    let mut i: usize = 1;
    while i < candles.len()
        invariant
            1 <= i,
            forall|j: int, k: int|
                0 <= j < k < i && k < candles@.len() ==> candles@[j].timestamp
                    > candles@[k].timestamp,
        decreases candles@.len() - i,
    {
        if candles[i - 1].timestamp <= candles[i].timestamp {
            return false;
        }
        assert forall|j: int, k: int|
            0 <= j < k < i + 1 && k < candles@.len() implies candles@[j].timestamp
            > candles@[k].timestamp by {
            if k == i && j < i - 1 {
                assert(candles@[j].timestamp > candles@[i - 1].timestamp);
            }
        }
        i += 1;
    }
    true
}

/// The candle sequence reaches every offset of the table of `g`.
pub open spec fn has_history(candles: Seq<Candle>, g: Granularity) -> bool {
    candles.len() > spec_max_offset(g)
}

/// The close that row `i` of the table of `g` is measured against.
pub open spec fn close_at(candles: Seq<Candle>, g: Granularity, i: int) -> int {
    candles[spec_offsets(g)[i] as int].close as int
}

/// Some row of the table of `g` meets a close of zero.
pub open spec fn has_zero_close(candles: Seq<Candle>, g: Granularity) -> bool {
    exists|i: int| 0 <= i < 5 && close_at(candles, g, i) == 0
}

/// `v` holds, in table order, the label of each row of the table of `g` and
/// the change from that row's close to `live`.
pub open spec fn is_changes_of(
    v: Seq<ChangeResult>,
    candles: Seq<Candle>,
    live: u64,
    g: Granularity,
) -> bool {
    &&& v.len() == 5
    &&& forall|i: int|
        0 <= i < 5 ==> (#[trigger] v[i]).label@ == spec_labels(g)[i] && v[i].hundredths
            == spec_change(close_at(candles, g, i), live as int)
}

/// What `compute_changes` owes on given inputs: all five changes or one
/// error, never part of a result.
pub open spec fn is_outcome_of(
    r: Result<Vec<ChangeResult>, ChangeError>,
    candles: Seq<Candle>,
    live: u64,
    g: Granularity,
) -> bool {
    match r {
        Ok(v) => has_history(candles, g) && !has_zero_close(candles, g) && is_changes_of(
            v@,
            candles,
            live,
            g,
        ),
        Err(ChangeError::InsufficientHistory) => !has_history(candles, g),
        Err(ChangeError::ZeroHistoricalPrice) => has_history(candles, g) && has_zero_close(
            candles,
            g,
        ),
    }
}

/// The changes from the closes at the lookback offsets of `g` to `live`.
///
/// Fails with `InsufficientHistory` exactly when the sequence is no longer
/// than the largest offset, and otherwise with `ZeroHistoricalPrice` exactly
/// when one of the five closes is zero.
pub fn compute_changes(candles: &Vec<Candle>, live: u64, g: Granularity) -> (r: Result<
    Vec<ChangeResult>,
    ChangeError,
>)
    ensures
        is_outcome_of(r, candles@, live, g),
        (r matches Err(ChangeError::InsufficientHistory)) <==> candles@.len() <= spec_max_offset(g),
{
    proof {
        lemma_table_shape(g);
    }
    if candles.len() <= max_offset(g) {
        return Err(ChangeError::InsufficientHistory);
    }
    let table: Vec<Lookback> = lookback_table(g);
    let mut out: Vec<ChangeResult> = Vec::new();
    let mut i: usize = 0;
    while i < 5
        invariant
            0 <= i <= 5,
            is_table_of(table@, g),
            has_history(candles@, g),
            out@.len() == i,
            forall|k: int| 0 <= k < i ==> close_at(candles@, g, k) != 0,
            forall|k: int|
                0 <= k < i ==> (#[trigger] out@[k]).label@ == spec_labels(g)[k]
                    && out@[k].hundredths == spec_change(close_at(candles@, g, k), live as int),
        decreases 5 - i,
    {
        proof {
            lemma_table_shape(g);
        }
        let entry: Lookback = table[i];
        let close: u64 = candles[entry.offset].close;
        assert(close as int == close_at(candles@, g, i as int));
        match percent_change(close, live) {
            None => {
                return Err(ChangeError::ZeroHistoricalPrice);
            },
            Some(h) => {
                out.push(ChangeResult { label: entry.label, hundredths: h });
            },
        }
        i += 1;
    }
    Ok(out)
}

/// The outcome is a function of the inputs alone: two outcomes owed on the
/// same candles, live price and granularity fail alike or agree row by row.
pub proof fn lemma_outcome_is_unique(
    a: Result<Vec<ChangeResult>, ChangeError>,
    b: Result<Vec<ChangeResult>, ChangeError>,
    candles: Seq<Candle>,
    live: u64,
    g: Granularity,
)
    requires
        is_outcome_of(a, candles, live, g),
        is_outcome_of(b, candles, live, g),
    ensures
        a.is_ok() == b.is_ok(),
        a.is_err() ==> a->Err_0 == b->Err_0,
        a.is_ok() ==> a->Ok_0@.len() == b->Ok_0@.len() && forall|i: int|
            0 <= i < a->Ok_0@.len() ==> (#[trigger] a->Ok_0@[i]).label@ == b->Ok_0@[i].label@
                && a->Ok_0@[i].hundredths == b->Ok_0@[i].hundredths,
{
}

/// Rows are classified by the rounded value: a close within half a hundredth
/// of a percent of the live price gives a neutral row, a live price further
/// above it a positive one, further below it a negative one.
pub proof fn lemma_sign_follows_rounding(before: int, live: int)
    requires
        before > 0,
    ensures
        spec_sign(spec_change(before, live)) == Sign::Neutral <==> -before < 20000 * (live
            - before) < before,
        spec_sign(spec_change(before, live)) == Sign::Positive <==> 20000 * (live - before)
            >= before,
        spec_sign(spec_change(before, live)) == Sign::Negative <==> 20000 * (live - before)
            <= -before,
{
    lemma_change_zero_iff(before, live);
}

} // verus!
