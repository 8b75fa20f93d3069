//! Points of the integer series that the monitoring endpoints answer with.

use vstd::prelude::*;

verus! {

/// One bucket of an integer series: the bucket's time and its value.
#[derive(Clone, Debug)]
pub struct ValuePointInt {
    pub time: String,
    pub value: i64,
}

/// The time a result row shows: its `create_time` text, or the empty text when it has none.
pub open spec fn row_time(time: Option<String>) -> Seq<char> {
    match time {
        Some(t) => t@,
        None => Seq::<char>::empty(),
    }
}

/// The value a result row shows: its own value, or `-1` ("no data") when it has none.
pub open spec fn row_value(value: Option<i64>) -> i64 {
    match value {
        Some(v) => v,
        None => -1i64,
    }
}

/// A row keeps whatever time and value it has, whatever they are; only a missing time or
/// value is replaced, by the empty text and by `-1`.
pub proof fn lemma_row_keeps_present_fields(t: String, v: i64)
    ensures
        row_time(Some(t)) == t@,
        row_value(Some(v)) == v,
        row_time(None) == Seq::<char>::empty(),
        row_value(None) == -1,
{
}

impl ValuePointInt {
    /// The point of one result row: a missing time reads as the empty text and a missing
    /// value as `-1`, the series' marker for "no data".
    pub fn from_row(time: Option<String>, value: Option<i64>) -> (p: ValuePointInt)
        ensures
            p.time@ == row_time(time),
            p.value == row_value(value),
    {
        let time = match time {
            Some(t) => t,
            None => String::new(),
        };
        let value = match value {
            Some(v) => v,
            None => -1,
        };
        ValuePointInt { time, value }
    }
}

} // verus!
