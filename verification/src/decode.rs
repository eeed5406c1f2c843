//! Decoding the raw outcome of each batch step into a query result.
//!
//! A step comes back as a pair of slots, one for a tabular result and one for
//! an error message. Exactly one of them should be filled; a step with both
//! or neither is reported as a failed statement with a fixed message, so that
//! one inconsistent step does not cost the caller the rest of the batch. A
//! tabular result that is itself malformed fails the whole decode.

use crate::error::{DecodeError, ResultFault};
use crate::model::{result_views, row_views, Meta, QueryResult, QueryResultView, ResultSet, ResultSetView};
use crate::row::{text_views, zip_cells, Row};
use hrana_client::proto::Value;
use vstd::prelude::*;

verus! {

/// A tabular result as the wire delivers it: the column descriptors, and per
/// row the values by position.
#[derive(Clone, Debug)]
pub struct StepResult {
    pub cols: Vec<Option<String>>,
    pub rows: Vec<Vec<Value>>,
}

/// What a raw tabular result holds.
pub struct StepResultView {
    pub cols: Seq<Option<Seq<char>>>,
    pub rows: Seq<Seq<Value>>,
}

/// The characters of an optional string.
pub open spec fn text_view(text: Option<String>) -> Option<Seq<char>> {
    match text {
        Some(s) => Some(s@),
        None => None,
    }
}

impl View for StepResult {
    type V = StepResultView;

    open spec fn view(&self) -> StepResultView {
        StepResultView {
            cols: self.cols@.map_values(|c: Option<String>| text_view(c)),
            rows: self.rows@.map_values(|r: Vec<Value>| r@),
        }
    }
}

impl StepResultView {
    /// Every column has a name.
    pub open spec fn named(self) -> bool {
        forall|i: int| 0 <= i < self.cols.len() ==> (#[trigger] self.cols[i]) is Some
    }

    /// Every row holds one value per column.
    pub open spec fn rectangular(self) -> bool {
        forall|r: int| 0 <= r < self.rows.len() ==> (#[trigger] self.rows[r]).len() == self.cols.len()
    }

    /// The result can be decoded.
    pub open spec fn well_formed(self) -> bool {
        self.named() && self.rectangular()
    }

    /// The column names in order.
    pub open spec fn column_names(self) -> Seq<Seq<char>> {
        Seq::new(self.cols.len(), |i: int| self.cols[i].unwrap())
    }

    /// The result set this result decodes to: the column names as they
    /// stand, and each row with its values stored under the column names by
    /// position.
    pub open spec fn decoded(self) -> ResultSetView {
        ResultSetView {
            columns: self.column_names(),
            rows: Seq::new(self.rows.len(), |r: int| zip_cells(self.column_names(), self.rows[r])),
        }
    }

    /// `fault` is what decoding reports of this result: the first column
    /// without a name, or else the first row whose width is not the number of
    /// columns.
    pub open spec fn has_fault(self, fault: ResultFault) -> bool {
        match fault {
            ResultFault::MissingColumnName { column } => {
                &&& column < self.cols.len()
                &&& self.cols[column as int] is None
                &&& forall|j: int| 0 <= j < column ==> (#[trigger] self.cols[j]) is Some
            },
            ResultFault::RowWidth { row, expected, found } => {
                &&& self.named()
                &&& row < self.rows.len()
                &&& expected == self.cols.len()
                &&& found == self.rows[row as int].len()
                &&& found != expected
                &&& forall|j: int|
                    0 <= j < row ==> (#[trigger] self.rows[j]).len() == self.cols.len()
            },
        }
    }
}

/// The raw outcome of one step: a result slot and an error slot.
#[derive(Clone, Debug)]
pub struct StepOutcome {
    pub result: Option<StepResult>,
    pub error: Option<String>,
}

/// What a raw step outcome holds.
pub struct StepOutcomeView {
    pub result: Option<StepResultView>,
    pub error: Option<Seq<char>>,
}

/// What an optional raw result holds.
pub open spec fn result_view(result: Option<StepResult>) -> Option<StepResultView> {
    match result {
        Some(r) => Some(r@),
        None => None,
    }
}

impl View for StepOutcome {
    type V = StepOutcomeView;

    open spec fn view(&self) -> StepOutcomeView {
        StepOutcomeView { result: result_view(self.result), error: text_view(self.error) }
    }
}

/// The message reported for a step whose slots are both filled or both
/// empty.
pub open spec fn unexpected_combination() -> Seq<char> {
    "Unexpected combination of result and error"@
}

impl StepOutcomeView {
    /// The outcome can be decoded: if it is a result, the result is well
    /// formed.
    pub open spec fn decodable(self) -> bool {
        self.result is Some && self.error is None ==> self.result.unwrap().well_formed()
    }

    /// The query result this outcome decodes to.
    pub open spec fn decoded(self) -> QueryResultView {
        match (self.result, self.error) {
            (Some(r), None) => QueryResultView::Success(r.decoded(), Meta::empty()),
            (None, Some(message)) => QueryResultView::Error(message, Meta::empty()),
            _ => QueryResultView::Error(unexpected_combination(), Meta::empty()),
        }
    }

    /// `fault` is what decoding reports of this outcome.
    pub open spec fn has_fault(self, fault: ResultFault) -> bool {
        &&& self.result is Some
        &&& self.error is None
        &&& self.result.unwrap().has_fault(fault)
    }
}

/// The raw reply to a batch: the result slots and the error slots, each by
/// step.
#[derive(Clone, Debug)]
pub struct BatchReply {
    pub step_results: Vec<Option<StepResult>>,
    pub step_errors: Vec<Option<String>>,
}

/// What a raw batch reply holds.
pub struct BatchReplyView {
    pub step_results: Seq<Option<StepResultView>>,
    pub step_errors: Seq<Option<Seq<char>>>,
}

impl View for BatchReply {
    type V = BatchReplyView;

    open spec fn view(&self) -> BatchReplyView {
        BatchReplyView {
            step_results: self.step_results@.map_values(|r: Option<StepResult>| result_view(r)),
            step_errors: self.step_errors@.map_values(|e: Option<String>| text_view(e)),
        }
    }
}

impl BatchReplyView {
    /// The outcome of the step at position `i`.
    pub open spec fn outcome(self, i: int) -> StepOutcomeView {
        StepOutcomeView { result: self.step_results[i], error: self.step_errors[i] }
    }

    /// The reply holds one slot of each kind per statement.
    pub open spec fn complete(self, expected: nat) -> bool {
        self.step_results.len() == expected && self.step_errors.len() == expected
    }

    /// The reply can be decoded for a batch of `expected` statements.
    pub open spec fn decodable(self, expected: nat) -> bool {
        &&& self.complete(expected)
        &&& forall|i: int| 0 <= i < expected ==> (#[trigger] self.outcome(i)).decodable()
    }

    /// The query results this reply decodes to, by step.
    pub open spec fn decoded(self) -> Seq<QueryResultView> {
        Seq::new(self.step_results.len(), |i: int| self.outcome(i).decoded())
    }

    /// `error` is what decoding reports of this reply for a batch of
    /// `expected` statements: a wrong number of slots, or else the fault of
    /// the first step that cannot be decoded.
    pub open spec fn has_error(self, expected: nat, error: DecodeError) -> bool {
        match error {
            DecodeError::OutcomeCount { expected: wanted, results, errors } => {
                &&& !self.complete(expected)
                &&& wanted == expected
                &&& results == self.step_results.len()
                &&& errors == self.step_errors.len()
            },
            DecodeError::Step { step, fault } => {
                &&& self.complete(expected)
                &&& step < expected
                &&& self.outcome(step as int).has_fault(fault)
                &&& forall|j: int| 0 <= j < step ==> (#[trigger] self.outcome(j)).decodable()
            },
        }
    }
}

impl StepOutcomeView {
    /// The step ran: a well-formed result and no error.
    pub open spec fn succeeded(self) -> bool {
        &&& self.result is Some
        &&& self.error is None
        &&& self.result.unwrap().well_formed()
    }

    /// The server rejected the step: an error and no result.
    pub open spec fn failed(self) -> bool {
        self.result is None && self.error is Some
    }
}

/// A fault shows that the result is not well formed, and a result has at
/// most one fault: what decoding reports of a result is determined by it.
pub proof fn lemma_fault_determined(raw: StepResultView, first: ResultFault, second: ResultFault)
    requires
        raw.has_fault(first),
        raw.has_fault(second),
    ensures
        !raw.well_formed(),
        first == second,
{
    match first {
        ResultFault::MissingColumnName { column } => {
            assert(raw.cols[column as int] is None);
        },
        ResultFault::RowWidth { row, .. } => {
            assert(raw.rows[row as int].len() != raw.cols.len());
        },
    }
    match second {
        ResultFault::MissingColumnName { column } => {
            assert(raw.cols[column as int] is None);
        },
        ResultFault::RowWidth { row, .. } => {
            assert(raw.rows[row as int].len() != raw.cols.len());
        },
    }
}

/// Decoding is repeatable: two decodes of the same raw result that both meet
/// the contract of `decode_result` agree, in the result set or in the fault.
pub proof fn lemma_decode_repeatable(
    raw: StepResultView,
    first: Result<ResultSetView, ResultFault>,
    second: Result<ResultSetView, ResultFault>,
)
    requires
        first is Ok <==> raw.well_formed(),
        second is Ok <==> raw.well_formed(),
        first matches Ok(set) ==> set == raw.decoded(),
        second matches Ok(set) ==> set == raw.decoded(),
        first matches Err(fault) ==> raw.has_fault(fault),
        second matches Err(fault) ==> raw.has_fault(fault),
    ensures
        first == second,
{
    if first is Err {
        lemma_fault_determined(raw, first->Err_0, second->Err_0);
    }
}

/// A result without rows decodes to a result set with the column names and
/// no rows. It is never a fault, as long as the columns are named.
pub proof fn lemma_no_rows(raw: StepResultView)
    requires
        raw.named(),
        raw.rows.len() == 0,
    ensures
        raw.well_formed(),
        raw.decoded().columns == raw.column_names(),
        raw.decoded().rows == Seq::<Map<Seq<char>, Value>>::empty(),
        (StepOutcomeView { result: Some(raw), error: None }).decoded() == QueryResultView::Success(
            ResultSetView {
                columns: raw.column_names(),
                rows: Seq::<Map<Seq<char>, Value>>::empty(),
            },
            Meta::empty(),
        ),
{
    assert(raw.decoded().rows =~= Seq::<Map<Seq<char>, Value>>::empty());
}

/// With distinct column names, every cell of a decoded row is found under
/// the name of its column.
pub proof fn lemma_cells_by_column(raw: StepResultView, r: int, c: int)
    requires
        raw.well_formed(),
        raw.column_names().no_duplicates(),
        0 <= r < raw.rows.len(),
        0 <= c < raw.cols.len(),
    ensures
        raw.decoded().rows[r].dom().contains(raw.column_names()[c]),
        raw.decoded().rows[r][raw.column_names()[c]] == raw.rows[r][c],
{
    crate::row::lemma_zip_cells_distinct(raw.column_names(), raw.rows[r]);
}

/// A batch in which every step ran decodes to one success per statement, in
/// the order of the statements.
pub proof fn lemma_all_steps_succeed(expected: nat, reply: BatchReplyView)
    requires
        reply.complete(expected),
        forall|i: int| 0 <= i < expected ==> (#[trigger] reply.outcome(i)).succeeded(),
    ensures
        reply.decodable(expected),
        reply.decoded().len() == expected,
        forall|i: int|
            0 <= i < expected ==> #[trigger] reply.decoded()[i] == QueryResultView::Success(
                reply.step_results[i].unwrap().decoded(),
                Meta::empty(),
            ),
{
    assert forall|i: int| 0 <= i < expected implies #[trigger] reply.decoded()[i]
        == QueryResultView::Success(reply.step_results[i].unwrap().decoded(), Meta::empty()) by {
        assert(reply.outcome(i).succeeded());
    }
}

/// A batch in which the server rejected the step at `at` and every other
/// step ran decodes to one result per statement, in the order of the
/// statements: the failed statement with the server's message at `at`, and a
/// success everywhere else.
pub proof fn lemma_one_step_fails(expected: nat, reply: BatchReplyView, at: int)
    requires
        reply.complete(expected),
        0 <= at < expected,
        reply.outcome(at).failed(),
        forall|i: int| 0 <= i < expected && i != at ==> (#[trigger] reply.outcome(i)).succeeded(),
    ensures
        reply.decodable(expected),
        reply.decoded().len() == expected,
        reply.decoded()[at] == QueryResultView::Error(reply.step_errors[at].unwrap(), Meta::empty()),
        forall|i: int|
            0 <= i < expected && i != at ==> #[trigger] reply.decoded()[i]
                == QueryResultView::Success(
                reply.step_results[i].unwrap().decoded(),
                Meta::empty(),
            ),
{
    assert forall|i: int| 0 <= i < expected implies (#[trigger] reply.outcome(i)).decodable() by {
        if i != at {
            assert(reply.outcome(i).succeeded());
        }
    }
    assert forall|i: int| 0 <= i < expected && i != at implies #[trigger] reply.decoded()[i]
        == QueryResultView::Success(reply.step_results[i].unwrap().decoded(), Meta::empty()) by {
        assert(reply.outcome(i).succeeded());
    }
}

/// Whatever the steps hold, a complete reply whose results are well formed
/// decodes to one result per statement: no step is dropped, and a step with
/// both slots filled or both empty is a failed statement with the fixed
/// message.
pub proof fn lemma_every_step_reported(expected: nat, reply: BatchReplyView)
    requires
        reply.decodable(expected),
    ensures
        reply.decoded().len() == expected,
        forall|i: int|
            0 <= i < expected ==> {
                let step = reply.outcome(i);
                &&& #[trigger] reply.decoded()[i] == step.decoded()
                &&& step.succeeded() ==> step.decoded() is Success
                &&& !step.succeeded() ==> step.decoded() is Error
                &&& !step.succeeded() && !step.failed() ==> step.decoded()
                    == QueryResultView::Error(unexpected_combination(), Meta::empty())
            },
{
    assert forall|i: int| 0 <= i < expected implies {
        let step = reply.outcome(i);
        &&& #[trigger] reply.decoded()[i] == step.decoded()
        &&& step.succeeded() ==> step.decoded() is Success
        &&& !step.succeeded() ==> step.decoded() is Error
        &&& !step.succeeded() && !step.failed() ==> step.decoded() == QueryResultView::Error(
            unexpected_combination(),
            Meta::empty(),
        )
    } by {
        assert(reply.outcome(i).decodable());
    }
}

/// Reads the column names off the descriptors.
fn column_names(cols: &Vec<Option<String>>) -> (out: Result<Vec<String>, ResultFault>)
    ensures
        match out {
            Ok(names) => {
                &&& names@.len() == cols@.len()
                &&& forall|i: int|
                    0 <= i < cols@.len() ==> (#[trigger] cols@[i]) is Some && names@[i]@
                        == cols@[i].unwrap()@
            },
            Err(fault) => {
                &&& fault matches ResultFault::MissingColumnName { column }
                &&& column < cols@.len()
                &&& cols@[column as int] is None
                &&& forall|j: int| 0 <= j < column ==> (#[trigger] cols@[j]) is Some
            },
        },
{
    let mut names: Vec<String> = Vec::new();
    let mut i: usize = 0;
    while i < cols.len()
        invariant
            i <= cols@.len(),
            names@.len() == i,
            forall|j: int|
                0 <= j < i ==> (#[trigger] cols@[j]) is Some && names@[j]@ == cols@[j].unwrap()@,
        decreases cols@.len() - i,
    {
        match &cols[i] {
            Some(name) => names.push(name.clone()),
            None => {
                return Err(ResultFault::MissingColumnName { column: i });
            },
        }
        i += 1;
    }
    Ok(names)
}

/// Builds one row by storing each value under the column name at its
/// position.
fn decode_row(names: &Vec<String>, values: &Vec<Value>) -> (row: Row)
    requires
        names@.len() == values@.len(),
    ensures
        row.wf(),
        row@ == zip_cells(text_views(names@), values@),
{
    let mut row = Row::new();
    let mut i: usize = 0;
    while i < values.len()
        invariant
            i <= values@.len(),
            names@.len() == values@.len(),
            row.wf(),
            row@ == zip_cells(text_views(names@).take(i as int), values@.take(i as int)),
        decreases values@.len() - i,
    {
        row.insert(names[i].clone(), values[i].clone());
        proof {
            let upto = text_views(names@).take(i + 1);
            assert(upto.drop_last() =~= text_views(names@).take(i as int));
            assert(values@.take(i + 1).drop_last() =~= values@.take(i as int));
            assert(upto.last() == names@[i as int]@);
        }
        i += 1;
    }
    proof {
        assert(text_views(names@).take(i as int) =~= text_views(names@));
        assert(values@.take(i as int) =~= values@);
    }
    row
}

/// Decodes a raw tabular result into a result set.
///
/// The column names are read once and reused for every row. A column without
/// a name, or a row whose width differs from the number of columns, is a
/// fault; nothing is truncated or padded.
pub fn decode_result(raw: &StepResult) -> (out: Result<ResultSet, ResultFault>)
    ensures
        out is Ok <==> raw@.well_formed(),
        match out {
            Ok(set) => set.wf() && set@ == raw@.decoded(),
            Err(fault) => raw@.has_fault(fault),
        },
{
    let columns = match column_names(&raw.cols) {
        Ok(names) => names,
        Err(fault) => {
            assert(!raw@.named()) by {
                let column = fault->column;
                assert(raw@.cols[column as int] is None);
            }
            return Err(fault);
        },
    };
    assert(raw@.named());
    assert(text_views(columns@) =~= raw@.column_names());
    let mut rows: Vec<Row> = Vec::new();
    let mut r: usize = 0;
    while r < raw.rows.len()
        invariant
            r <= raw.rows@.len(),
            rows@.len() == r,
            columns@.len() == raw@.cols.len(),
            text_views(columns@) == raw@.column_names(),
            raw@.named(),
            forall|j: int| 0 <= j < r ==> (#[trigger] raw@.rows[j]).len() == raw@.cols.len(),
            forall|j: int|
                0 <= j < r ==> (#[trigger] rows@[j]).wf() && rows@[j]@ == zip_cells(
                    raw@.column_names(),
                    raw@.rows[j],
                ),
        decreases raw.rows@.len() - r,
    {
        let values = &raw.rows[r];
        if values.len() != columns.len() {
            assert(!raw@.rectangular()) by {
                assert(raw@.rows[r as int].len() != raw@.cols.len());
            }
            return Err(
                ResultFault::RowWidth { row: r, expected: columns.len(), found: values.len() },
            );
        }
        let row = decode_row(&columns, values);
        rows.push(row);
        r += 1;
    }
    let set = ResultSet { columns, rows };
    assert(row_views(set.rows@) =~= raw@.decoded().rows);
    Ok(set)
}

/// The fixed message for a step whose slots are both filled or both empty.
fn unexpected_combination_message() -> (message: String)
    ensures
        message@ == unexpected_combination(),
{
    "Unexpected combination of result and error".to_owned()
}

/// Decodes the two slots of one step.
fn decode_slots(result: &Option<StepResult>, error: &Option<String>) -> (out: Result<
    QueryResult,
    ResultFault,
>)
    ensures
        out is Ok <==> (StepOutcomeView {
            result: result_view(*result),
            error: text_view(*error),
        }).decodable(),
        match out {
            Ok(decoded) => decoded.wf() && decoded@ == (StepOutcomeView {
                result: result_view(*result),
                error: text_view(*error),
            }).decoded(),
            Err(fault) => (StepOutcomeView {
                result: result_view(*result),
                error: text_view(*error),
            }).has_fault(fault),
        },
{
    match (result, error) {
        (Some(raw), None) => match decode_result(raw) {
            Ok(set) => Ok(QueryResult::Success((set, Meta::default()))),
            Err(fault) => Err(fault),
        },
        (None, Some(message)) => Ok(QueryResult::Error((message.clone(), Meta::default()))),
        _ => Ok(QueryResult::Error((unexpected_combination_message(), Meta::default()))),
    }
}

/// Decodes the raw outcome of one step into a query result.
///
/// A result alone decodes to a success and an error alone to a failed
/// statement with the server's message as it stands. Both or neither decode
/// to a failed statement with a fixed message. Only a malformed result makes
/// the decode itself fail.
pub fn decode_outcome(outcome: &StepOutcome) -> (out: Result<QueryResult, ResultFault>)
    ensures
        out is Ok <==> outcome@.decodable(),
        match out {
            Ok(decoded) => decoded.wf() && decoded@ == outcome@.decoded(),
            Err(fault) => outcome@.has_fault(fault),
        },
{
    decode_slots(&outcome.result, &outcome.error)
}

/// Decodes the raw reply to a batch of `expected` statements into one query
/// result per statement, in the order of the statements.
///
/// The result slot and the error slot at a position make up the outcome of
/// the statement at that position. A reply that does not hold exactly
/// `expected` slots of each kind is refused, and so is one with a malformed
/// result at some step.
pub fn decode_batch(expected: usize, reply: &BatchReply) -> (out: Result<
    Vec<QueryResult>,
    DecodeError,
>)
    ensures
        out is Ok <==> reply@.decodable(expected as nat),
        match out {
            Ok(results) => {
                &&& results@.len() == expected
                &&& result_views(results@) == reply@.decoded()
                &&& forall|i: int| 0 <= i < results@.len() ==> (#[trigger] results@[i]).wf()
            },
            Err(error) => reply@.has_error(expected as nat, error),
        },
{
    if reply.step_results.len() != expected || reply.step_errors.len() != expected {
        return Err(
            DecodeError::OutcomeCount {
                expected,
                results: reply.step_results.len(),
                errors: reply.step_errors.len(),
            },
        );
    }
    let mut results: Vec<QueryResult> = Vec::new();
    let mut i: usize = 0;
    while i < expected
        invariant
            i <= expected,
            reply@.complete(expected as nat),
            results@.len() == i,
            forall|j: int| 0 <= j < i ==> (#[trigger] reply@.outcome(j)).decodable(),
            forall|j: int|
                0 <= j < i ==> (#[trigger] results@[j]).wf() && results@[j]@ == reply@.outcome(
                    j,
                ).decoded(),
        decreases expected - i,
    {
        assert(reply@.outcome(i as int) == (StepOutcomeView {
            result: result_view(reply.step_results@[i as int]),
            error: text_view(reply.step_errors@[i as int]),
        }));
        match decode_slots(&reply.step_results[i], &reply.step_errors[i]) {
            Ok(decoded) => results.push(decoded),
            Err(fault) => {
                return Err(DecodeError::Step { step: i, fault });
            },
        }
        i += 1;
    }
    assert(result_views(results@) =~= reply@.decoded());
    Ok(results)
}

} // verus!
