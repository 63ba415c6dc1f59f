//! The lookback table of each granularity: five offsets into a newest-first
//! candle sequence, each with the label of the span it reaches back.

use vstd::prelude::*;
use crate::granularity::Granularity;

verus! {

/// One row of a lookback table.
#[derive(Clone, Copy, Debug)]
pub struct Lookback {
    /// Index into the candle sequence; 1 is the candle before the newest.
    pub offset: usize,
    /// Short name of the span that the offset covers.
    pub label: &'static str,
}

/// Offsets of the table of `g`, in table order.
pub open spec fn spec_offsets(g: Granularity) -> Seq<nat> {
    match g {
        Granularity::OneMinute => seq![1, 6, 16, 31, 61],
        Granularity::FiveMinutes => seq![1, 6, 12, 144, 287],
        Granularity::FifteenMinutes => seq![1, 2, 4, 8, 16],
        Granularity::OneHour => seq![1, 2, 5, 12, 24],
        Granularity::SixHours => seq![1, 2, 4, 8, 16],
        Granularity::OneDay => seq![1, 2, 7, 14, 28],
    }
}

/// Labels of the table of `g`, in table order.
pub open spec fn spec_labels(g: Granularity) -> Seq<Seq<char>> {
    match g {
        Granularity::OneMinute => seq!["1m"@, "5m"@, "15m"@, "30m"@, "1h"@],
        Granularity::FiveMinutes => seq!["5m"@, "30m"@, "1h"@, "12h"@, "1d"@],
        Granularity::FifteenMinutes => seq!["15m"@, "30m"@, "1h"@, "2h"@, "4h"@],
        Granularity::OneHour => seq!["1h"@, "2h"@, "5h"@, "12h"@, "1d"@],
        Granularity::SixHours => seq!["6h"@, "12h"@, "1d"@, "2d"@, "4d"@],
        Granularity::OneDay => seq!["1d"@, "2d"@, "1w"@, "2w"@, "1m"@],
    }
}

/// The largest offset of the table of `g`.
pub open spec fn spec_max_offset(g: Granularity) -> nat {
    spec_offsets(g)[4]
}

/// `t` is the table of `g`, row by row.
pub open spec fn is_table_of(t: Seq<Lookback>, g: Granularity) -> bool {
    &&& t.len() == 5
    &&& forall|i: int|
        0 <= i < 5 ==> (#[trigger] t[i]).offset == spec_offsets(g)[i] && t[i].label@
            == spec_labels(g)[i]
}

/// Every table has five rows, starts at the previous candle, and its offsets
/// grow strictly from row to row, so the last is the largest.
pub proof fn lemma_table_shape(g: Granularity)
    ensures
        spec_offsets(g).len() == 5,
        spec_labels(g).len() == 5,
        spec_offsets(g)[0] == 1,
        forall|i: int, j: int| 0 <= i < j < 5 ==> spec_offsets(g)[i] < spec_offsets(g)[j],
        forall|i: int| 0 <= i < 5 ==> 1 <= #[trigger] spec_offsets(g)[i] <= spec_max_offset(g),
        spec_max_offset(g) <= 287,
{
}

fn row(offset: usize, label: &'static str) -> (r: Lookback)
    ensures
        r.offset == offset,
        r.label@ == label@,
{
    Lookback { offset, label }
}

fn table_of(a: Lookback, b: Lookback, c: Lookback, d: Lookback, e: Lookback) -> (t: Vec<Lookback>)
    ensures
        t@ == seq![a, b, c, d, e],
{
    let mut t: Vec<Lookback> = Vec::new();
    t.push(a);
    t.push(b);
    t.push(c);
    t.push(d);
    t.push(e);
    assert(t@ =~= seq![a, b, c, d, e]);
    t
}

/// The lookback table of `g`: five rows, their offsets growing strictly.
pub fn lookback_table(g: Granularity) -> (t: Vec<Lookback>)
    ensures
        is_table_of(t@, g),
        t@.len() == 5,
        forall|i: int, j: int| 0 <= i < j < 5 ==> t@[i].offset < t@[j].offset,
{
    proof {
        lemma_table_shape(g);
    }
    match g {
        Granularity::OneMinute => table_of(
            row(1, "1m"),
            row(6, "5m"),
            row(16, "15m"),
            row(31, "30m"),
            row(61, "1h"),
        ),
        Granularity::FiveMinutes => table_of(
            row(1, "5m"),
            row(6, "30m"),
            row(12, "1h"),
            row(144, "12h"),
            row(287, "1d"),
        ),
        Granularity::FifteenMinutes => table_of(
            row(1, "15m"),
            row(2, "30m"),
            row(4, "1h"),
            row(8, "2h"),
            row(16, "4h"),
        ),
        Granularity::OneHour => table_of(
            row(1, "1h"),
            row(2, "2h"),
            row(5, "5h"),
            row(12, "12h"),
            row(24, "1d"),
        ),
        Granularity::SixHours => table_of(
            row(1, "6h"),
            row(2, "12h"),
            row(4, "1d"),
            row(8, "2d"),
            row(16, "4d"),
        ),
        Granularity::OneDay => table_of(
            row(1, "1d"),
            row(2, "2d"),
            row(7, "1w"),
            row(14, "2w"),
            row(28, "1m"),
        ),
    }
}

/// The largest offset of the table of `g`: a candle sequence must be longer
/// than this for every row to find its candle.
pub fn max_offset(g: Granularity) -> (m: usize)
    ensures
        m == spec_max_offset(g),
{
    match g {
        Granularity::OneMinute => 61,
        Granularity::FiveMinutes => 287,
        Granularity::FifteenMinutes => 16,
        Granularity::OneHour => 24,
        Granularity::SixHours => 16,
        Granularity::OneDay => 28,
    }
}

} // verus!
