//! The column contract: which columns a connector offers, and with which
//! type.
//!
//! A connector declares a table from column name to required type. A scan's
//! column list is held against that table once, before anything else
//! happens. The check reports the first violation in the order of the column
//! list and does not go on to collect the others.

use vstd::prelude::*;
use vstd::hash_map::StringHashMap;
use crate::cell::{Column, ColumnView, SemanticType, columns_view};

verus! {

/// Why a column list was refused.
#[derive(Debug, PartialEq, Eq)]
pub enum SchemaError {
    /// The connector has no column of this name.
    UnsupportedColumn(String),
    /// The connector has the column, with another type than was declared.
    WrongColumnType { name: String, expected: SemanticType, got: SemanticType },
}

/// The mathematical value of a [`SchemaError`].
pub enum SchemaErrorView {
    UnsupportedColumn(Seq<char>),
    WrongColumnType { name: Seq<char>, expected: SemanticType, got: SemanticType },
}

impl View for SchemaError {
    type V = SchemaErrorView;

    open spec fn view(&self) -> SchemaErrorView {
        match self {
            SchemaError::UnsupportedColumn(name) => SchemaErrorView::UnsupportedColumn(name@),
            SchemaError::WrongColumnType { name, expected, got } => {
                SchemaErrorView::WrongColumnType { name: name@, expected: *expected, got: *got }
            },
        }
    }
}

impl SchemaErrorView {
    /// The name of the column that the error is about.
    pub open spec fn column(self) -> Seq<char> {
        match self {
            SchemaErrorView::UnsupportedColumn(name) => name,
            SchemaErrorView::WrongColumnType { name, .. } => name,
        }
    }

    /// The text of the diagnostic.
    pub open spec fn message(self) -> Seq<char> {
        match self {
            SchemaErrorView::UnsupportedColumn(name) => "Column `"@ + name + "` is not allowed"@,
            SchemaErrorView::WrongColumnType { name, expected, .. } => "Column `"@ + name
                + "` can only be defined as `"@ + expected.spec_sql_name() + "`"@,
        }
    }
}

impl SchemaError {
    /// The name of the column that the error is about.
    pub fn column(&self) -> (name: &str)
        ensures
            name@ == self@.column(),
    {
        match self {
            SchemaError::UnsupportedColumn(name) => name.as_str(),
            SchemaError::WrongColumnType { name, .. } => name.as_str(),
        }
    }

    /// The text of the diagnostic. It names the offending column.
    pub fn message(&self) -> (text: String)
        ensures
            text@ == self@.message(),
    {
        match self {
            SchemaError::UnsupportedColumn(name) => {
                let mut text = String::from_str("Column `");
                text.append(name.as_str());
                text.append("` is not allowed");
                text
            },
            SchemaError::WrongColumnType { name, expected, .. } => {
                let mut text = String::from_str("Column `");
                text.append(name.as_str());
                text.append("` can only be defined as `");
                text.append(expected.sql_name());
                text.append("`");
                text
            },
        }
    }
}

/// What the table `allowed` holds against `column`, if anything.
pub open spec fn violation(allowed: Map<Seq<char>, SemanticType>, column: ColumnView) -> Option<
    SchemaErrorView,
> {
    if !allowed.contains_key(column.name) {
        Some(SchemaErrorView::UnsupportedColumn(column.name))
    } else if allowed[column.name] != column.semantic_type {
        Some(
            SchemaErrorView::WrongColumnType {
                name: column.name,
                expected: allowed[column.name],
                got: column.semantic_type,
            },
        )
    } else {
        None
    }
}

/// Whether the table has `column` under its name with its declared type.
pub open spec fn accepts(allowed: Map<Seq<char>, SemanticType>, column: ColumnView) -> bool {
    allowed.contains_key(column.name) && allowed[column.name] == column.semantic_type
}

/// Whether the table accepts every column of the list.
pub open spec fn accepts_all(
    allowed: Map<Seq<char>, SemanticType>,
    columns: Seq<ColumnView>,
) -> bool {
    forall|i: int| 0 <= i < columns.len() ==> accepts(allowed, #[trigger] columns[i])
}

/// Whether `columns[i]` is the first column of the list that the table does
/// not accept.
pub open spec fn first_refused(
    allowed: Map<Seq<char>, SemanticType>,
    columns: Seq<ColumnView>,
    i: int,
) -> bool {
    &&& 0 <= i < columns.len()
    &&& !accepts(allowed, columns[i])
    &&& forall|j: int| 0 <= j < i ==> accepts(allowed, #[trigger] columns[j])
}

/// Two first refused columns of one list are the same column.
pub proof fn first_refused_is_unique(
    allowed: Map<Seq<char>, SemanticType>,
    columns: Seq<ColumnView>,
    i: int,
    k: int,
)
    requires
        first_refused(allowed, columns, i),
        first_refused(allowed, columns, k),
    ensures
        i == k,
{
    if i < k {
        assert(accepts(allowed, columns[i]));
    } else if k < i {
        assert(accepts(allowed, columns[k]));
    }
}

/// A list with a column that the table does not accept has a first such
/// column.
pub proof fn lemma_has_first_refused(
    allowed: Map<Seq<char>, SemanticType>,
    columns: Seq<ColumnView>,
    k: int,
)
    requires
        0 <= k < columns.len(),
        !accepts(allowed, columns[k]),
    ensures
        exists|i: int| first_refused(allowed, columns, i),
    decreases k,
{
    if forall|j: int| 0 <= j < k ==> accepts(allowed, #[trigger] columns[j]) {
        assert(first_refused(allowed, columns, k));
    } else {
        let j = choose|j: int| 0 <= j < k && !accepts(allowed, #[trigger] columns[j]);
        lemma_has_first_refused(allowed, columns, j);
    }
}

/// The check of a column list finds nothing exactly when the table has
/// every column under its name with its declared type. What it finds
/// otherwise is about the first column that the table does not accept, and
/// names it.
pub proof fn first_violation_is_sound(
    allowed: Map<Seq<char>, SemanticType>,
    columns: Seq<ColumnView>,
)
    ensures
        first_violation(allowed, columns) is None <==> accepts_all(allowed, columns),
        first_violation(allowed, columns) matches Some(error) ==> exists|i: int|
            #[trigger] first_refused(allowed, columns, i) && Some(error) == violation(
                allowed,
                columns[i],
            ) && error.column() == columns[i].name,
{
    if !accepts_all(allowed, columns) {
        let k = choose|k: int| 0 <= k < columns.len() && !accepts(allowed, #[trigger] columns[k]);
        lemma_has_first_refused(allowed, columns, k);
        let i = choose|i: int| first_refused(allowed, columns, i);
        assert(first_refused(allowed, columns, i));
    }
}

/// What the table holds against the column list: nothing where it accepts
/// every column, else what it holds against the first column that it does
/// not accept.
pub open spec fn first_violation(
    allowed: Map<Seq<char>, SemanticType>,
    columns: Seq<ColumnView>,
) -> Option<SchemaErrorView> {
    if accepts_all(allowed, columns) {
        None
    } else {
        violation(allowed, columns[choose|i: int| first_refused(allowed, columns, i)])
    }
}

/// The value of what a check of columns gave.
pub open spec fn check_view(outcome: Result<(), SchemaError>) -> Option<SchemaErrorView> {
    match outcome {
        Ok(_) => None,
        Err(error) => Some(error@),
    }
}

/// The allowed-schema table of one connector.
pub struct ColumnContract {
    allowed: StringHashMap<SemanticType>,
}

impl View for ColumnContract {
    type V = Map<Seq<char>, SemanticType>;

    closed spec fn view(&self) -> Map<Seq<char>, SemanticType> {
        self.allowed@
    }
}

impl ColumnContract {
    /// A table that allows no column.
    pub fn new() -> (contract: ColumnContract)
        ensures
            contract@ == Map::<Seq<char>, SemanticType>::empty(),
    {
        ColumnContract { allowed: StringHashMap::new() }
    }

    /// Allows the column `name` with the type `semantic_type`, in place of
    /// what the table held for that name.
    pub fn allow(&mut self, name: &str, semantic_type: SemanticType)
        ensures
            final(self)@ == old(self)@.insert(name@, semantic_type),
    {
        self.allowed.insert(String::from_str(name), semantic_type);
    }

    /// The type that the table requires of the column `name`, if it has one
    /// of that name.
    pub fn expected_type(&self, name: &str) -> (expected: Option<SemanticType>)
        ensures
            expected == (if self@.contains_key(name@) {
                Some(self@[name@])
            } else {
                None
            }),
    {
        match self.allowed.get(name) {
            Some(semantic_type) => Some(*semantic_type),
            None => None,
        }
    }

    /// Holds one column against the table.
    pub fn check(&self, column: &Column) -> (outcome: Result<(), SchemaError>)
        ensures
            outcome is Ok <==> accepts(self@, column@),
            outcome matches Err(error) ==> Some(error@) == violation(self@, column@),
    {
        match self.expected_type(column.name.as_str()) {
            None => Err(SchemaError::UnsupportedColumn(column.name.clone())),
            Some(expected) => {
                if expected == column.semantic_type {
                    Ok(())
                } else {
                    Err(
                        SchemaError::WrongColumnType {
                            name: column.name.clone(),
                            expected,
                            got: column.semantic_type,
                        },
                    )
                }
            },
        }
    }

    /// Holds a column list against the table.
    ///
    /// Succeeds exactly when the table has every column under its name with
    /// its declared type. Otherwise the error is the one of the first column
    /// in list order that the table does not accept, and names that column.
    pub fn validate(&self, columns: &[Column]) -> (outcome: Result<(), SchemaError>)
        ensures
            outcome is Ok <==> accepts_all(self@, columns_view(columns@)),
            outcome matches Err(error) ==> exists|i: int|
                #[trigger] first_refused(self@, columns_view(columns@), i) && Some(error@)
                    == violation(self@, columns@[i]@) && error@.column() == columns@[i]@.name,
            check_view(outcome) == first_violation(self@, columns_view(columns@)),
    {
        let ghost listed = columns_view(columns@);
        let mut i: usize = 0;
        while i < columns.len()
            invariant
                i <= columns.len(),
                listed == columns_view(columns@),
                forall|j: int| 0 <= j < i ==> accepts(self@, #[trigger] listed[j]),
            decreases columns.len() - i,
        {
            match self.check(&columns[i]) {
                Ok(()) => {},
                Err(error) => {
                    proof {
                        assert(first_refused(self@, listed, i as int));
                        let k = choose|k: int| first_refused(self@, listed, k);
                        first_refused_is_unique(self@, listed, i as int, k);
                    }
                    return Err(error);
                },
            }
            i += 1;
        }
        Ok(())
    }
}

} // verus!
