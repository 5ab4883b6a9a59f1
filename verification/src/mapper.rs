//! The record mapper: from one record of a source to one row.
//!
//! A record type says, for one column at a time, which slot it gives. The
//! row of a record is then the slots of the requested columns, in their
//! order. A field that the record does not have gives an empty slot. A field
//! that is there but cannot be read as the column's type is an error, and so
//! is a column that the record type does not know: the first such column in
//! list order decides, and no row is made.

use vstd::prelude::*;
use crate::cell::{
    Cell, CellView, Column, ColumnView, Row, RowView, SemanticType, columns_view, slot_view,
};

verus! {

/// Why a record could not be made into a row.
#[derive(Debug, PartialEq, Eq)]
pub enum IntoRowError {
    /// The record type has no field for a column of this name.
    UnsupportedColumnType(String),
    /// The record has the field of this column, but its value cannot be read
    /// as the type `expected`.
    InvalidFieldValue { column: String, expected: SemanticType },
}

/// The mathematical value of an [`IntoRowError`].
pub enum IntoRowErrorView {
    UnsupportedColumnType(Seq<char>),
    InvalidFieldValue { column: Seq<char>, expected: SemanticType },
}

impl View for IntoRowError {
    type V = IntoRowErrorView;

    open spec fn view(&self) -> IntoRowErrorView {
        match self {
            IntoRowError::UnsupportedColumnType(name) => IntoRowErrorView::UnsupportedColumnType(
                name@,
            ),
            IntoRowError::InvalidFieldValue { column, expected } => {
                IntoRowErrorView::InvalidFieldValue { column: column@, expected: *expected }
            },
        }
    }
}

impl IntoRowErrorView {
    /// The name of the column that the error is about.
    pub open spec fn column(self) -> Seq<char> {
        match self {
            IntoRowErrorView::UnsupportedColumnType(name) => name,
            IntoRowErrorView::InvalidFieldValue { column, .. } => column,
        }
    }

    /// The text of the diagnostic.
    pub open spec fn message(self) -> Seq<char> {
        match self {
            IntoRowErrorView::UnsupportedColumnType(name) => "column `"@ + name
                + "` is not supported"@,
            IntoRowErrorView::InvalidFieldValue { column, expected } => "value of column `"@
                + column + "` cannot be read as `"@ + expected.spec_sql_name() + "`"@,
        }
    }
}

impl IntoRowError {
    /// The name of the column that the error is about.
    pub fn column(&self) -> (name: &str)
        ensures
            name@ == self@.column(),
    {
        match self {
            IntoRowError::UnsupportedColumnType(name) => name.as_str(),
            IntoRowError::InvalidFieldValue { column, .. } => column.as_str(),
        }
    }

    /// The text of the diagnostic. It names the offending column.
    pub fn message(&self) -> (text: String)
        ensures
            text@ == self@.message(),
    {
        match self {
            IntoRowError::UnsupportedColumnType(name) => {
                let mut text = String::from_str("column `");
                text.append(name.as_str());
                text.append("` is not supported");
                text
            },
            IntoRowError::InvalidFieldValue { column, expected } => {
                let mut text = String::from_str("value of column `");
                text.append(column.as_str());
                text.append("` cannot be read as `");
                text.append(expected.sql_name());
                text.append("`");
                text
            },
        }
    }
}

/// The value of what mapping one column gave.
pub open spec fn slot_outcome_view(outcome: Result<Option<Cell>, IntoRowError>) -> Result<
    Option<CellView>,
    IntoRowErrorView,
> {
    match outcome {
        Ok(slot) => Ok(slot_view(slot)),
        Err(error) => Err(error@),
    }
}

/// The value of what mapping a record gave.
pub open spec fn row_outcome_view(outcome: Result<Row, IntoRowError>) -> Result<
    RowView,
    IntoRowErrorView,
> {
    match outcome {
        Ok(row) => Ok(row@),
        Err(error) => Err(error@),
    }
}

/// A record whose fields are found by column name.
pub trait NamedFields: Sized {
    /// The slot that the record gives for `column`: a value, nothing where
    /// the record lacks the field, or the reason why there is no slot.
    spec fn cell_spec(&self, column: ColumnView) -> Result<Option<CellView>, IntoRowErrorView>;

    /// An error of `cell_spec` names the column it was asked for.
    proof fn cell_error_names_column(&self, column: ColumnView)
        ensures
            self.cell_spec(column) matches Err(error) ==> error.column() == column.name,
    ;

    /// Maps one column.
    fn cell(&self, column: &Column) -> (outcome: Result<Option<Cell>, IntoRowError>)
        ensures
            slot_outcome_view(outcome) == self.cell_spec(column@),
    ;
}

/// A record of a source that can be made into a row.
pub trait IntoRow: NamedFields {
    /// Makes the record into the row of `columns`.
    fn into_row(self, columns: &[Column]) -> (outcome: Result<Row, IntoRowError>)
        ensures
            row_outcome_view(outcome) == row_spec(&self, columns_view(columns@)),
    {
        to_row(&self, columns)
    }
}

/// Whether `columns[i]` is the first column for which `record` has no slot.
pub open spec fn first_failure<R: NamedFields>(
    record: &R,
    columns: Seq<ColumnView>,
    i: int,
) -> bool {
    &&& 0 <= i < columns.len()
    &&& record.cell_spec(columns[i]) is Err
    &&& forall|j: int| 0 <= j < i ==> record.cell_spec(#[trigger] columns[j]) is Ok
}

/// Whether `record` has a slot for every column of the list.
pub open spec fn serves_all<R: NamedFields>(record: &R, columns: Seq<ColumnView>) -> bool {
    forall|i: int| 0 <= i < columns.len() ==> record.cell_spec(#[trigger] columns[i]) is Ok
}

/// The row of `record` for `columns`: one slot for each column, under the
/// column's name, where the record has a slot for each; else the error of
/// the first column for which it has none.
pub open spec fn row_spec<R: NamedFields>(record: &R, columns: Seq<ColumnView>) -> Result<
    RowView,
    IntoRowErrorView,
> {
    if serves_all(record, columns) {
        Ok(Seq::new(columns.len(), |i: int| (columns[i].name, record.cell_spec(columns[i])->Ok_0)))
    } else {
        let i = choose|i: int| first_failure(record, columns, i);
        Err(record.cell_spec(columns[i])->Err_0)
    }
}

/// Two first failures of one list are the same column.
pub proof fn first_failure_is_unique<R: NamedFields>(
    record: &R,
    columns: Seq<ColumnView>,
    i: int,
    k: int,
)
    requires
        first_failure(record, columns, i),
        first_failure(record, columns, k),
    ensures
        i == k,
{
    if i < k {
        assert(record.cell_spec(columns[i]) is Ok);
    } else if k < i {
        assert(record.cell_spec(columns[k]) is Ok);
    }
}

/// Makes `record` into the row of `columns`.
pub fn to_row<R: NamedFields>(record: &R, columns: &[Column]) -> (outcome: Result<
    Row,
    IntoRowError,
>)
    ensures
        row_outcome_view(outcome) == row_spec(record, columns_view(columns@)),
{
    let ghost listed = columns_view(columns@);
    let mut row = Row::new();
    let mut i: usize = 0;
    while i < columns.len()
        invariant
            i <= columns.len(),
            listed == columns_view(columns@),
            row@.len() == i,
            forall|j: int| 0 <= j < i ==> record.cell_spec(#[trigger] listed[j]) is Ok,
            forall|j: int|
                0 <= j < i ==> #[trigger] row@[j] == (
                    listed[j].name,
                    record.cell_spec(listed[j])->Ok_0,
                ),
        decreases columns.len() - i,
    {
        let column = &columns[i];
        match record.cell(column) {
            Ok(slot) => {
                row.push(column.name.as_str(), slot);
            },
            Err(error) => {
                proof {
                    assert(first_failure(record, listed, i as int));
                    let k = choose|k: int| first_failure(record, listed, k);
                    first_failure_is_unique(record, listed, i as int, k);
                }
                return Err(error);
            },
        }
        i += 1;
    }
    assert(row@ =~= Seq::new(
        listed.len(),
        |i: int| (listed[i].name, record.cell_spec(listed[i])->Ok_0),
    ));
    Ok(row)
}

/// A record's row has exactly one slot for each column, under the column's
/// name and in the order of the column list.
pub proof fn row_matches_columns<R: NamedFields>(record: &R, columns: Seq<ColumnView>)
    ensures
        row_spec(record, columns) matches Ok(row) ==> crate::cell::row_matches(row, columns),
{
}

/// An error of a record's row names one of the requested columns.
pub proof fn row_error_names_column<R: NamedFields>(record: &R, columns: Seq<ColumnView>)
    ensures
        row_spec(record, columns) matches Err(error) ==> exists|i: int|
            0 <= i < columns.len() && error.column() == (#[trigger] columns[i]).name,
{
    if !serves_all(record, columns) {
        let k = choose|k: int| 0 <= k < columns.len() && !(record.cell_spec(columns[k]) is Ok);
        lemma_has_first_failure(record, columns, k);
        let i = choose|i: int| first_failure(record, columns, i);
        record.cell_error_names_column(columns[i]);
    }
}

/// A column for which the record lacks the field does not stand in the way
/// of the row, and has its slot in it, empty.
pub proof fn empty_slot_is_kept<R: NamedFields>(record: &R, columns: Seq<ColumnView>, i: int)
    requires
        0 <= i < columns.len(),
        record.cell_spec(columns[i]) == Ok::<Option<CellView>, IntoRowErrorView>(None),
        forall|j: int|
            0 <= j < columns.len() && j != i ==> record.cell_spec(#[trigger] columns[j]) is Ok,
    ensures
        row_spec(record, columns) matches Ok(row) && row.len() == columns.len() && row[i] == (
            columns[i].name,
            None::<CellView>,
        ),
{
    assert(serves_all(record, columns));
}

/// One column whose field cannot be read leaves the record without a row.
pub proof fn unreadable_field_fails_row<R: NamedFields>(
    record: &R,
    columns: Seq<ColumnView>,
    i: int,
)
    requires
        0 <= i < columns.len(),
        record.cell_spec(columns[i]) is Err,
    ensures
        row_spec(record, columns) is Err,
{
}

/// A list with a column that has no slot has a first such column.
pub proof fn lemma_has_first_failure<R: NamedFields>(record: &R, columns: Seq<ColumnView>, k: int)
    requires
        0 <= k < columns.len(),
        record.cell_spec(columns[k]) is Err,
    ensures
        exists|i: int| first_failure(record, columns, i),
    decreases k,
{
    if forall|j: int| 0 <= j < k ==> record.cell_spec(#[trigger] columns[j]) is Ok {
        assert(first_failure(record, columns, k));
    } else {
        let j = choose|j: int| 0 <= j < k && !(record.cell_spec(#[trigger] columns[j]) is Ok);
        lemma_has_first_failure(record, columns, j);
    }
}

} // verus!
