//! The raw price columns and the order rule that every append obeys:
//! timestamps within a frame strictly increase.

use vstd::prelude::*;

verus! {

/// Column of the instrument identifier.
pub const INSTRUMENT_ID: &'static str = "instrument_id";
/// Column of the opening price.
pub const OPEN: &'static str = "open";
/// Column of the highest price.
pub const HIGH: &'static str = "high";
/// Column of the lowest price.
pub const LOW: &'static str = "low";
/// Column of the closing price.
pub const CLOSE: &'static str = "close";
/// Column of the traded volume.
pub const VOLUME: &'static str = "volume";
/// Column of the timestamp, in unix seconds.
pub const TIMESTAMP: &'static str = "timestamp";

/// The logical type of a frame column.
#[derive(Clone, Copy, Debug, PartialEq, Eq)]
pub enum ColumnType {
    Boolean,
    Int8,
    Int32,
    UInt32,
    UInt64,
    Float64,
    Utf8,
}

/// A declared frame column: its name and logical type.
#[derive(Clone, Debug, PartialEq, Eq)]
pub struct FieldSpec {
    pub name: String,
    pub dtype: ColumnType,
}

/// The names of a sequence of declared columns.
pub open spec fn field_names(f: Seq<FieldSpec>) -> Seq<Seq<char>> {
    f.map_values(|x: FieldSpec| x.name@)
}

/// The types of a sequence of declared columns.
pub open spec fn field_types(f: Seq<FieldSpec>) -> Seq<ColumnType> {
    f.map_values(|x: FieldSpec| x.dtype)
}

fn field(name: &str, dtype: ColumnType) -> (r: FieldSpec)
    ensures
        r.name@ == name@,
        r.dtype == dtype,
{
    FieldSpec { name: name.to_owned(), dtype }
}

/// The names of the raw price columns, in their canonical order.
pub open spec fn price_field_names() -> Seq<Seq<char>> {
    seq![
        INSTRUMENT_ID@,
        OPEN@,
        HIGH@,
        LOW@,
        CLOSE@,
        VOLUME@,
        TIMESTAMP@,
    ]
}

/// The types of the raw price columns, in their canonical order.
pub open spec fn price_field_types() -> Seq<ColumnType> {
    seq![
        ColumnType::Utf8,
        ColumnType::Float64,
        ColumnType::Float64,
        ColumnType::Float64,
        ColumnType::Float64,
        ColumnType::UInt64,
        ColumnType::UInt64,
    ]
}

/// The raw columns of a price tick, in their canonical order.
pub fn price_fields() -> (r: Vec<FieldSpec>)
    ensures
        field_names(r@) == price_field_names(),
        field_types(r@) == price_field_types(),
{
    let mut fields: Vec<FieldSpec> = Vec::new();
    fields.push(field(INSTRUMENT_ID, ColumnType::Utf8));
    fields.push(field(OPEN, ColumnType::Float64));
    fields.push(field(HIGH, ColumnType::Float64));
    fields.push(field(LOW, ColumnType::Float64));
    fields.push(field(CLOSE, ColumnType::Float64));
    fields.push(field(VOLUME, ColumnType::UInt64));
    fields.push(field(TIMESTAMP, ColumnType::UInt64));
    assert(field_names(fields@) =~= seq![
        INSTRUMENT_ID@,
        OPEN@,
        HIGH@,
        LOW@,
        CLOSE@,
        VOLUME@,
        TIMESTAMP@,
    ]);
    assert(field_types(fields@) =~= seq![
        ColumnType::Utf8,
        ColumnType::Float64,
        ColumnType::Float64,
        ColumnType::Float64,
        ColumnType::Float64,
        ColumnType::UInt64,
        ColumnType::UInt64,
    ]);
    fields
}

/// What a stored frame shows of its last row.
#[derive(Clone, Copy, Debug, PartialEq, Eq)]
pub enum FrameTail {
    /// The frame has no rows.
    Empty,
    /// The timestamp of the last row.
    Last(u64),
    /// The frame has rows, but its last timestamp is not a `u64`.
    Unreadable,
}

/// Why a row or a series could not be checked against a frame.
#[derive(Clone, Copy, Debug, PartialEq, Eq)]
pub enum ValidationError {
    /// A price carries no timestamp.
    MissingTimestamp,
    /// The frame's last timestamp could not be read.
    UnreadableTimestamp,
    /// A series holds no rows.
    EmptySeries,
}

/// The verdict on appending a row with `timestamp` to a frame ending in
/// `tail`: an empty frame takes any row; otherwise the row needs a
/// timestamp, the frame a readable last one, and the row goes in only if
/// its timestamp is later.
pub open spec fn append_verdict(timestamp: Option<u64>, tail: FrameTail) -> Result<bool, ValidationError> {
    match tail {
        FrameTail::Empty => Ok(true),
        FrameTail::Unreadable => match timestamp {
            None => Err(ValidationError::MissingTimestamp),
            Some(_) => Err(ValidationError::UnreadableTimestamp),
        },
        FrameTail::Last(last) => match timestamp {
            None => Err(ValidationError::MissingTimestamp),
            Some(t) => Ok(t > last),
        },
    }
}

/// Each timestamp of `s` is later than the one before it.
pub open spec fn strictly_increasing(s: Seq<u64>) -> bool {
    forall|i: int, j: int| 0 <= i < j < s.len() ==> s[i] < s[j]
}

/// The verdict on appending the rows with timestamps `series` to a frame
/// ending in `tail`: refused if there are no rows; the rows go in only if
/// their timestamps strictly increase and, unless the frame is empty, the
/// first is later than the frame's last.
pub open spec fn series_verdict(series: Seq<u64>, tail: FrameTail) -> Result<bool, ValidationError> {
    if series.len() == 0 {
        Err(ValidationError::EmptySeries)
    } else {
        match tail {
            FrameTail::Empty => Ok(strictly_increasing(series)),
            FrameTail::Unreadable => Err(ValidationError::UnreadableTimestamp),
            FrameTail::Last(last) => Ok(series[0] > last && strictly_increasing(series)),
        }
    }
}

/// What a frame with row timestamps `frame` shows of its last row.
pub open spec fn tail_of(frame: Seq<u64>) -> FrameTail {
    if frame.len() == 0 {
        FrameTail::Empty
    } else {
        FrameTail::Last(frame.last())
    }
}

/// Checks a row with `timestamp` against a frame ending in `tail`.
pub fn validate_timestamp(timestamp: Option<u64>, tail: FrameTail) -> (r: Result<bool, ValidationError>)
    ensures
        r == append_verdict(timestamp, tail),
{
    match tail {
        FrameTail::Empty => Ok(true),
        FrameTail::Unreadable => match timestamp {
            None => Err(ValidationError::MissingTimestamp),
            Some(_) => Err(ValidationError::UnreadableTimestamp),
        },
        FrameTail::Last(last) => match timestamp {
            None => Err(ValidationError::MissingTimestamp),
            Some(t) => Ok(t > last),
        },
    }
}

/// Checks rows with timestamps `series`, in order, against a frame ending in `tail`.
pub fn validate_series_timestamps(series: &Vec<u64>, tail: FrameTail) -> (r: Result<
    bool,
    ValidationError,
>)
    ensures
        r == series_verdict(series@, tail),
{
    let n = series.len();
    if n == 0 {
        return Err(ValidationError::EmptySeries);
    }
    let head_ok = match tail {
        FrameTail::Empty => true,
        FrameTail::Unreadable => {
            return Err(ValidationError::UnreadableTimestamp);
        },
        FrameTail::Last(last) => series[0] > last,
    };
    let mut k: usize = 1;
    while k < n
        invariant
            n == series@.len(),
            1 <= k <= n,
            !(tail is Unreadable),
            head_ok == (match tail {
                FrameTail::Last(last) => series@[0] > last,
                _ => true,
            }),
            strictly_increasing(series@.subrange(0, k as int)),
        decreases n - k,
    {
        if series[k] <= series[k - 1] {
            assert(!strictly_increasing(series@)) by {
                assert(series@[k - 1] >= series@[k as int]);
            }
            return Ok(false);
        }
        assert(strictly_increasing(series@.subrange(0, k + 1))) by {
            let s = series@.subrange(0, k + 1);
            assert forall|i: int, j: int| 0 <= i < j < s.len() implies s[i] < s[j] by {
                if j < k {
                    assert(s[i] == series@.subrange(0, k as int)[i]);
                    assert(s[j] == series@.subrange(0, k as int)[j]);
                } else if i < k - 1 {
                    assert(s[i] == series@.subrange(0, k as int)[i]);
                    assert(series@.subrange(0, k as int)[k - 1] == series@[k - 1]);
                }
            }
        }
        k = k + 1;
    }
    assert(series@.subrange(0, n as int) =~= series@);
    Ok(head_ok)
}

/// The timestamps of a batch of prices, refused if any price carries none.
pub fn timestamps_of(stamps: &Vec<Option<u64>>) -> (r: Result<Vec<u64>, ValidationError>)
    ensures
        (forall|i: int| 0 <= i < stamps@.len() ==> stamps@[i] is Some) <==> r is Ok,
        r is Err ==> r == Err::<Vec<u64>, ValidationError>(ValidationError::MissingTimestamp),
        r matches Ok(v) ==> v@.len() == stamps@.len() && forall|i: int|
            0 <= i < v@.len() ==> stamps@[i] == Some(#[trigger] v@[i]),
{
    let mut out: Vec<u64> = Vec::new();
    let mut k: usize = 0;
    while k < stamps.len()
        invariant
            k <= stamps@.len(),
            out@.len() == k,
            forall|i: int| 0 <= i < k ==> stamps@[i] == Some(#[trigger] out@[i]),
        decreases stamps@.len() - k,
    {
        match stamps[k] {
            Some(t) => out.push(t),
            None => {
                return Err(ValidationError::MissingTimestamp);
            },
        }
        k = k + 1;
    }
    assert forall|i: int| 0 <= i < stamps@.len() implies stamps@[i] is Some by {
        assert(stamps@[i] == Some(out@[i]));
    }
    Ok(out)
}

/// A row accepted by [`validate_timestamp`] keeps the frame's timestamps
/// strictly increasing.
pub proof fn lemma_accepted_row_keeps_order(frame: Seq<u64>, t: u64)
    requires
        strictly_increasing(frame),
        append_verdict(Some(t), tail_of(frame)) == Ok::<bool, ValidationError>(true),
    ensures
        strictly_increasing(frame.push(t)),
{
    let s = frame.push(t);
    assert forall|i: int, j: int| 0 <= i < j < s.len() implies s[i] < s[j] by {
        if j == frame.len() {
            assert(s[i] == frame[i]);
            if i < frame.len() - 1 {
                assert(frame[i] < frame[frame.len() - 1]);
            }
        } else {
            assert(s[i] == frame[i] && s[j] == frame[j]);
        }
    }
}

/// Rows accepted by [`validate_series_timestamps`] keep the frame's
/// timestamps strictly increasing.
pub proof fn lemma_accepted_series_keeps_order(frame: Seq<u64>, series: Seq<u64>)
    requires
        strictly_increasing(frame),
        series_verdict(series, tail_of(frame)) == Ok::<bool, ValidationError>(true),
    ensures
        strictly_increasing(frame + series),
{
    let s = frame + series;
    assert forall|i: int, j: int| 0 <= i < j < s.len() implies s[i] < s[j] by {
        if j < frame.len() {
            assert(s[i] == frame[i] && s[j] == frame[j]);
        } else if i >= frame.len() {
            assert(s[i] == series[i - frame.len()] && s[j] == series[j - frame.len()]);
        } else {
            assert(s[i] == frame[i] && s[j] == series[j - frame.len()]);
            let last = frame.len() - 1;
            if i < last {
                assert(frame[i] < frame[last]);
            }
            if j - frame.len() > 0 {
                assert(series[0] < series[j - frame.len()]);
            }
        }
    }
}

/// A row whose timestamp is not later than the frame's last is refused,
/// so the frame stays as it is.
pub proof fn lemma_stale_row_refused(frame: Seq<u64>, t: u64)
    requires
        frame.len() > 0,
        t <= frame.last(),
    ensures
        append_verdict(Some(t), tail_of(frame)) == Ok::<bool, ValidationError>(false),
{
}

/// A series whose first timestamp is not later than the frame's last is
/// refused whole, so the frame stays as it is.
pub proof fn lemma_stale_series_refused(frame: Seq<u64>, series: Seq<u64>)
    requires
        frame.len() > 0,
        series.len() > 0,
        series[0] <= frame.last(),
    ensures
        series_verdict(series, tail_of(frame)) == Ok::<bool, ValidationError>(false),
{
}

/// An emptied frame takes the next row whatever its timestamp, and holds
/// that one row afterwards in order.
pub proof fn lemma_emptied_frame_takes_row(t: u64)
    ensures
        append_verdict(Some(t), tail_of(Seq::<u64>::empty())) == Ok::<bool, ValidationError>(true),
        strictly_increasing(Seq::<u64>::empty().push(t)),
{
}

} // verus!
