//! Columns, cells and rows: the data a scan hands to the host engine.

use vstd::prelude::*;

verus! {

/// A JSON document of `serde_json`. The library carries such documents
/// through and never looks inside one.
#[verifier::external_type_specification]
#[verifier::external_body]
pub struct ExJsonValue(serde_json::Value);

/// A copy of a JSON document, by the `Clone` impl that `serde_json` derives
/// for `Value`.
///
/// Trusted: the copy is equal to the document.
#[verifier::external_body]
pub(crate) fn clone_json(document: &serde_json::Value) -> (copy: serde_json::Value)
    ensures
        copy == *document,
{
    document.clone()
}

/// The semantic type a column is declared with.
#[derive(Clone, Copy, Debug, PartialEq, Eq, Structural)]
pub enum SemanticType {
    Bool,
    Int64,
    Text,
    Timestamp,
    Jsonb,
    FloatArray,
    /// Any other type of the host engine, by the engine's own type number.
    Other(u32),
}

impl SemanticType {
    /// The host engine's name of the type, as it appears in diagnostics.
    pub open spec fn spec_sql_name(self) -> Seq<char> {
        match self {
            SemanticType::Bool => "boolean"@,
            SemanticType::Int64 => "bigint"@,
            SemanticType::Text => "text"@,
            SemanticType::Timestamp => "timestamp"@,
            SemanticType::Jsonb => "jsonb"@,
            SemanticType::FloatArray => "real[]"@,
            SemanticType::Other(_) => "other"@,
        }
    }

    /// The host engine's name of the type.
    pub fn sql_name(self) -> (name: &'static str)
        ensures
            name@ == self.spec_sql_name(),
    {
        match self {
            SemanticType::Bool => "boolean",
            SemanticType::Int64 => "bigint",
            SemanticType::Text => "text",
            SemanticType::Timestamp => "timestamp",
            SemanticType::Jsonb => "jsonb",
            SemanticType::FloatArray => "real[]",
            SemanticType::Other(_) => "other",
        }
    }
}

/// A column of the foreign table, as the user declared it.
#[derive(Debug, PartialEq, Eq)]
pub struct Column {
    pub name: String,
    pub semantic_type: SemanticType,
}

/// The mathematical value of a [`Column`].
pub struct ColumnView {
    pub name: Seq<char>,
    pub semantic_type: SemanticType,
}

impl View for Column {
    type V = ColumnView;

    open spec fn view(&self) -> ColumnView {
        ColumnView { name: self.name@, semantic_type: self.semantic_type }
    }
}

impl Clone for Column {
    fn clone(&self) -> (copy: Self)
        ensures
            copy@ == self@,
    {
        Column { name: self.name.clone(), semantic_type: self.semantic_type }
    }
}

impl Column {
    /// The column `name`, declared with the type `semantic_type`.
    pub fn new(name: &str, semantic_type: SemanticType) -> (column: Column)
        ensures
            column@ == (ColumnView { name: name@, semantic_type }),
    {
        Column { name: String::from_str(name), semantic_type }
    }
}

/// The columns of a scan, as a sequence of their values.
pub open spec fn columns_view(columns: Seq<Column>) -> Seq<ColumnView> {
    Seq::new(columns.len(), |i: int| columns[i]@)
}

/// One typed value of a row.
///
/// A timestamp is held as seconds since the Unix epoch. An element of a
/// `FloatArray` is held as the 32 bits of a single-precision number.
#[derive(Debug, PartialEq)]
pub enum Cell {
    Bool(bool),
    I64(i64),
    String(String),
    Timestamp(i64),
    Json(serde_json::Value),
    FloatArray(Vec<u32>),
}

/// The mathematical value of a [`Cell`].
pub enum CellView {
    Bool(bool),
    I64(i64),
    String(Seq<char>),
    Timestamp(i64),
    Json(serde_json::Value),
    FloatArray(Seq<u32>),
}

impl View for Cell {
    type V = CellView;

    open spec fn view(&self) -> CellView {
        match self {
            Cell::Bool(b) => CellView::Bool(*b),
            Cell::I64(n) => CellView::I64(*n),
            Cell::String(s) => CellView::String(s@),
            Cell::Timestamp(t) => CellView::Timestamp(*t),
            Cell::Json(doc) => CellView::Json(*doc),
            Cell::FloatArray(bits) => CellView::FloatArray(bits@),
        }
    }
}

impl CellView {
    /// The semantic type of the value.
    pub open spec fn semantic_type(self) -> SemanticType {
        match self {
            CellView::Bool(_) => SemanticType::Bool,
            CellView::I64(_) => SemanticType::Int64,
            CellView::String(_) => SemanticType::Text,
            CellView::Timestamp(_) => SemanticType::Timestamp,
            CellView::Json(_) => SemanticType::Jsonb,
            CellView::FloatArray(_) => SemanticType::FloatArray,
        }
    }
}

impl Cell {
    /// The semantic type of the value.
    pub fn semantic_type(&self) -> (ty: SemanticType)
        ensures
            ty == self@.semantic_type(),
    {
        match self {
            Cell::Bool(_) => SemanticType::Bool,
            Cell::I64(_) => SemanticType::Int64,
            Cell::String(_) => SemanticType::Text,
            Cell::Timestamp(_) => SemanticType::Timestamp,
            Cell::Json(_) => SemanticType::Jsonb,
            Cell::FloatArray(_) => SemanticType::FloatArray,
        }
    }
}

/// The view of a cell slot: a value, or `None` where the source had none.
pub open spec fn slot_view(slot: Option<Cell>) -> Option<CellView> {
    match slot {
        Some(cell) => Some(cell@),
        None => None,
    }
}

/// One row of a scan: a cell slot for each requested column, under the
/// column's name, in the order of the column list.
#[derive(Debug, PartialEq)]
pub struct Row {
    pub cells: Vec<(String, Option<Cell>)>,
}

/// The mathematical value of a [`Row`]: the sequence of its named slots.
pub type RowView = Seq<(Seq<char>, Option<CellView>)>;

impl View for Row {
    type V = RowView;

    open spec fn view(&self) -> RowView {
        Seq::new(self.cells@.len(), |i: int| (self.cells@[i].0@, slot_view(self.cells@[i].1)))
    }
}

/// Whether `row` has exactly one slot for each of `columns`, under the
/// column's name and in the same order.
pub open spec fn row_matches(row: RowView, columns: Seq<ColumnView>) -> bool {
    &&& row.len() == columns.len()
    &&& forall|i: int| 0 <= i < row.len() ==> (#[trigger] row[i]).0 == columns[i].name
}

impl Row {
    /// A row without slots.
    pub fn new() -> (row: Row)
        ensures
            row@ == Seq::<(Seq<char>, Option<CellView>)>::empty(),
    {
        let row = Row { cells: Vec::new() };
        assert(row@ =~= Seq::<(Seq<char>, Option<CellView>)>::empty());
        row
    }

    /// Appends a slot under the name `col`.
    pub fn push(&mut self, col: &str, cell: Option<Cell>)
        ensures
            final(self)@ == old(self)@.push((col@, slot_view(cell))),
    {
        self.cells.push((String::from_str(col), cell));
        assert(self@ =~= old(self)@.push((col@, slot_view(cell))));
    }

    /// The number of slots.
    pub fn len(&self) -> (n: usize)
        ensures
            n == self@.len(),
    {
        self.cells.len()
    }

    /// Replaces the row by `src`.
    pub fn replace_with(&mut self, src: Row)
        ensures
            *final(self) == src,
    {
        *self = src;
    }

    /// Removes all slots.
    pub fn clear(&mut self)
        ensures
            final(self)@ == Seq::<(Seq<char>, Option<CellView>)>::empty(),
    {
        self.cells.clear();
        assert(self@ =~= Seq::<(Seq<char>, Option<CellView>)>::empty());
    }
}

} // verus!
