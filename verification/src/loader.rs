//! Loading an expected trace from a comma-separated table.
//!
//! The table's first record is its header and holds no step. Every other
//! record holds one step: the program counter, the allocation pointer and the
//! frame pointer, in that order, each an unsigned decimal number. Fields
//! behind the third are not read. The first record that cannot be read, or
//! that lacks one of the three numbers, fails the whole load.

use vstd::prelude::*;

use crate::decimal::{decimal_digits, decimal_of, lemma_decimal_round_trip, parse_decimal};
use crate::trace::{ExpectedTrace, TraceStep};

verus! {

/// Why a trace could not be loaded.
#[derive(Clone, Copy, Debug, PartialEq, Eq, Structural)]
pub enum TraceError {
    /// The table could not be opened or read.
    Resource,
    /// The record at position `row`, counted from zero behind the header,
    /// holds no step.
    MalformedRow { row: usize },
}

/// A record of the table as its reader hands it over: the fields, or `None`
/// where the reader could not make out the record.
pub type RowView = Option<Seq<Seq<u8>>>;

/// The step that the fields of one record hold, if they hold one.
pub open spec fn row_step(fields: Seq<Seq<u8>>) -> Option<TraceStep> {
    if fields.len() >= 3 && decimal_of(fields[0]) is Some && decimal_of(fields[1]) is Some
        && decimal_of(fields[2]) is Some {
        Some(
            TraceStep {
                pc: decimal_of(fields[0])->0,
                ap: decimal_of(fields[1])->0,
                fp: decimal_of(fields[2])->0,
            },
        )
    } else {
        None
    }
}

/// The step that a record holds, if it holds one.
pub open spec fn decode_row(row: RowView) -> Option<TraceStep> {
    match row {
        Some(fields) => row_step(fields),
        None => None,
    }
}

/// Every record before position `n` holds a step.
pub open spec fn rows_decode_before(rows: Seq<RowView>, n: int) -> bool {
    &&& 0 <= n <= rows.len()
    &&& forall|i: int| 0 <= i < n ==> (#[trigger] decode_row(rows[i])) is Some
}

/// How many records at the start of the table hold a step: the position of
/// the first record that holds none, or the number of records.
pub open spec fn leading_rows(rows: Seq<RowView>) -> nat
    decreases rows.len(),
{
    if rows.len() == 0 || decode_row(rows[0]) is None {
        0
    } else {
        1 + leading_rows(rows.skip(1))
    }
}

/// The steps of the first `n` records, in the order of the records.
pub open spec fn decoded(rows: Seq<RowView>, n: nat) -> Seq<TraceStep> {
    Seq::new(n, |i: int| decode_row(rows[i])->0)
}

/// What loading a table gives: the steps of all its records where each holds
/// one, and else the position of the first record that holds none.
pub open spec fn trace_of_rows(rows: Seq<RowView>) -> Result<Seq<TraceStep>, TraceError> {
    if leading_rows(rows) == rows.len() {
        Ok(decoded(rows, rows.len()))
    } else {
        Err(TraceError::MalformedRow { row: leading_rows(rows) as usize })
    }
}

/// What a load handed back, with the trace as a sequence.
pub open spec fn loaded_view(loaded: Result<Vec<TraceStep>, TraceError>) -> Result<
    Seq<TraceStep>,
    TraceError,
> {
    match loaded {
        Ok(steps) => Ok(steps@),
        Err(e) => Err(e),
    }
}

/// The record that writes a step: its three numbers in decimal.
pub open spec fn encode_row(step: TraceStep) -> Seq<Seq<u8>> {
    seq![
        decimal_digits(step.pc as nat),
        decimal_digits(step.ap as nat),
        decimal_digits(step.fp as nat),
    ]
}

/// The records that write a trace, one for each step and in their order.
pub open spec fn encode_rows(steps: Seq<TraceStep>) -> Seq<RowView> {
    Seq::new(steps.len(), |i: int| Some(encode_row(steps[i])))
}

/// Where the records before `n` hold steps and the record at `n` holds none,
/// or the table ends at `n`, `n` records lead the table.
pub proof fn lemma_leading_rows(rows: Seq<RowView>, n: int)
    requires
        rows_decode_before(rows, n),
        n == rows.len() || decode_row(rows[n]) is None,
    ensures
        leading_rows(rows) == n,
    decreases rows.len(),
{
    if n > 0 {
        let rest = rows.skip(1);
        assert(decode_row(rows[0]) is Some);
        assert forall|i: int| 0 <= i < n - 1 implies (#[trigger] decode_row(rest[i])) is Some by {
            assert(rest[i] == rows[i + 1]);
            assert(decode_row(rows[i + 1]) is Some);
        }
        if n < rows.len() {
            assert(rest[n - 1] == rows[n]);
        }
        lemma_leading_rows(rest, n - 1);
    }
}

/// The records that lead the table hold steps, and the one behind them, if
/// there is one, holds none.
pub proof fn lemma_leading_rows_decode(rows: Seq<RowView>)
    ensures
        rows_decode_before(rows, leading_rows(rows) as int),
        leading_rows(rows) < rows.len() ==> decode_row(rows[leading_rows(rows) as int]) is None,
    decreases rows.len(),
{
    if rows.len() == 0 || decode_row(rows[0]) is None {
    } else {
        let rest = rows.skip(1);
        lemma_leading_rows_decode(rest);
        let n = leading_rows(rest) as int;
        assert forall|i: int| 0 <= i < n + 1 implies (#[trigger] decode_row(rows[i])) is Some by {
            if i > 0 {
                assert(rest[i - 1] == rows[i]);
                assert(decode_row(rest[i - 1]) is Some);
            }
        }
        if n < rest.len() {
            assert(rest[n] == rows[n + 1]);
        }
    }
}

/// A trace written record by record and loaded again is the same trace, step
/// for step and in the same order.
///
/// `parse_trace` loads a table by `trace_of_rows` on the records that the
/// table's reader hands over. So a written table is loaded back wherever the
/// reader hands over the records that were written.
pub proof fn lemma_rows_round_trip(steps: Seq<TraceStep>)
    ensures
        trace_of_rows(encode_rows(steps)) == Ok::<Seq<TraceStep>, TraceError>(steps),
{
    let rows = encode_rows(steps);
    assert forall|i: int| 0 <= i < rows.len() implies decode_row(#[trigger] rows[i]) == Some(
        steps[i],
    ) by {
        let step = steps[i];
        lemma_decimal_round_trip(step.pc);
        lemma_decimal_round_trip(step.ap);
        lemma_decimal_round_trip(step.fp);
        let fields = encode_row(step);
        assert(fields.len() == 3);
        assert(fields[0] == decimal_digits(step.pc as nat));
        assert(fields[1] == decimal_digits(step.ap as nat));
        assert(fields[2] == decimal_digits(step.fp as nat));
    }
    assert(rows_decode_before(rows, rows.len() as int)) by {
        assert forall|i: int| 0 <= i < rows.len() implies (#[trigger] decode_row(rows[i])) is Some by {
            assert(decode_row(rows[i]) == Some(steps[i]));
        }
    }
    lemma_leading_rows(rows, rows.len() as int);
    assert(decoded(rows, rows.len()) =~= steps);
}

/// A table with a record that cannot be read, or in which one of the three
/// numbers is missing or is no number, does not load: the load fails with
/// `MalformedRow`, at the first record that holds no step, which is that
/// record or one before it, and hands back no steps.
pub proof fn lemma_malformed_row_rejected(rows: Seq<RowView>, i: int, k: int)
    requires
        0 <= i < rows.len(),
        0 <= k < 3,
        rows[i] matches Some(fields) ==> k >= fields.len() || decimal_of(fields[k]) is None,
    ensures
        trace_of_rows(rows) == Err::<Seq<TraceStep>, TraceError>(
            TraceError::MalformedRow { row: leading_rows(rows) as usize },
        ),
        leading_rows(rows) <= i,
        decode_row(rows[leading_rows(rows) as int]) is None,
{
    lemma_leading_rows_decode(rows);
    assert(decode_row(rows[i]) is None);
    if leading_rows(rows) > i {
        assert(decode_row(rows[i]) is Some);
    }
}

/// A load succeeds exactly where every record holds a step, and then hands
/// back one step for each record.
pub proof fn lemma_load_is_atomic(rows: Seq<RowView>)
    ensures
        trace_of_rows(rows) is Ok <==> rows_decode_before(rows, rows.len() as int),
        trace_of_rows(rows) matches Ok(steps) ==> steps.len() == rows.len(),
{
    lemma_leading_rows_decode(rows);
    if rows_decode_before(rows, rows.len() as int) {
        lemma_leading_rows(rows, rows.len() as int);
    }
}

/// The bytes of a field are what its deep view holds.
proof fn lemma_fields_view(fields: Vec<Vec<u8>>, k: int)
    requires
        0 <= k < fields.len(),
    ensures
        fields.deep_view().len() == fields.len(),
        fields.deep_view()[k] == fields[k]@,
{
    assert(fields[k].deep_view() =~= fields[k]@);
}

/// Reads the step that the fields of one record hold.
pub fn parse_row(fields: &Vec<Vec<u8>>) -> (step: Option<TraceStep>)
    ensures
        step == row_step(fields.deep_view()),
{
    if fields.len() < 3 {
        return None;
    }
    proof {
        lemma_fields_view(*fields, 0);
        lemma_fields_view(*fields, 1);
        lemma_fields_view(*fields, 2);
    }
    let pc = match parse_decimal(fields[0].as_slice()) {
        Some(n) => n,
        None => {
            return None;
        },
    };
    let ap = match parse_decimal(fields[1].as_slice()) {
        Some(n) => n,
        None => {
            return None;
        },
    };
    let fp = match parse_decimal(fields[2].as_slice()) {
        Some(n) => n,
        None => {
            return None;
        },
    };
    Some(TraceStep { pc, ap, fp })
}

/// Builds the trace that the records of a table hold. `None` stands for a
/// record that the table's reader could not make out.
pub fn trace_from_rows(rows: &Vec<Option<Vec<Vec<u8>>>>) -> (loaded: Result<
    ExpectedTrace,
    TraceError,
>)
    ensures
        loaded_view(loaded) == trace_of_rows(rows.deep_view()),
        loaded matches Err(TraceError::MalformedRow { row }) ==> row == leading_rows(
            rows.deep_view(),
        ) && row < rows.len(),
{
    let ghost table = rows.deep_view();
    let mut steps: Vec<TraceStep> = Vec::new();
    let mut i: usize = 0;
    while i < rows.len()
        invariant
            table == rows.deep_view(),
            table.len() == rows.len(),
            rows_decode_before(table, i as int),
            steps@ == decoded(table, i as nat),
        decreases rows.len() - i,
    {
        assert(table[i as int] == rows[i as int].deep_view());
        let step = match &rows[i] {
            Some(fields) => parse_row(fields),
            None => None,
        };
        match step {
            Some(step) => {
                steps.push(step);
            },
            None => {
                proof {
                    lemma_leading_rows(table, i as int);
                }
                return Err(TraceError::MalformedRow { row: i });
            },
        }
        i += 1;
        assert(steps@ =~= decoded(table, i as nat));
    }
    proof {
        lemma_leading_rows(table, i as int);
    }
    Ok(steps)
}

/// What `csv::Reader::from_reader(data).into_records()` yields, from its
/// first item to its last: for each record behind the header its fields as
/// bytes, or `None` where the reader reported an error for the record.
pub uninterp spec fn csv_rows(data: Seq<u8>) -> Seq<Option<Seq<Seq<u8>>>>;

/// Reads all records of a table with the `csv` crate: `Reader::from_reader`
/// on the bytes, with the reader's default settings (the first record is the
/// header and is not handed out; all records must have as many fields as the
/// first), then `into_records` to its end.
///
/// A record that was read is handed on as the bytes of its fields; one for
/// which the reader gave an error (fields that are not UTF-8, a wrong number
/// of fields) as `None`. The contract gives what comes back a name and says
/// no more of it: the reader works on the bytes alone.
#[verifier::external_body]
fn csv_records(data: &[u8]) -> (rows: Vec<Option<Vec<Vec<u8>>>>)
    ensures
        rows.deep_view() == csv_rows(data@),
{
    csv::Reader::from_reader(data)
        .into_records()
        .map(|record| record.ok().map(|r| r.iter().map(|f| f.as_bytes().to_vec()).collect()))
        .collect()
}

/// Loads the trace that a table holds.
pub fn parse_trace(data: &[u8]) -> (loaded: Result<ExpectedTrace, TraceError>)
    ensures
        loaded_view(loaded) == trace_of_rows(csv_rows(data@)),
        loaded matches Err(TraceError::MalformedRow { row }) ==> row == leading_rows(
            csv_rows(data@),
        ) && row < csv_rows(data@).len(),
{
    let rows = csv_records(data);
    trace_from_rows(&rows)
}

/// Loads the trace of a table from what opening it gave: the table's bytes,
/// or `None` where it could not be opened or read.
pub fn load_trace(resource: Option<&[u8]>) -> (loaded: Result<ExpectedTrace, TraceError>)
    ensures
        loaded_view(loaded) == match resource {
            Some(data) => trace_of_rows(csv_rows(data@)),
            None => Err(TraceError::Resource),
        },
        loaded matches Err(TraceError::MalformedRow { row }) ==> resource matches Some(data)
            && row == leading_rows(csv_rows(data@)) && row < csv_rows(data@).len(),
{
    match resource {
        Some(data) => parse_trace(data),
        None => Err(TraceError::Resource),
    }
}

} // verus!
