//! The connector of a vector database.
//!
//! A collection of points is scanned as a table of up to three columns: `id`
//! (`bigint`), `payload` (`jsonb`) and `vector` (`real[]`). The server
//! options `api_url` and `api_key` say where the database is; the table
//! option `collection_name` says which collection to scan. Points are
//! fetched a thousand at a time.

use vstd::prelude::*;
use crate::cell::{Cell, CellView, Column, ColumnView, Row, SemanticType, clone_json, columns_view};
use crate::cognito::json_slot;
use crate::cursor::{ClientError, CursorView, FetchRequest, Fetched, fetched_view};
use crate::error::{ScanError, ScanErrorView};
use crate::mapper::{IntoRow, IntoRowError, IntoRowErrorView, NamedFields};
use crate::options::{Options, check_options_contain, list_gives, require_option};
use crate::schema::{ColumnContract, first_violation};
use crate::session::{
    Connector, ConnectorView, HeldView, PhaseView, RowStep, RowStepView, ScanSession,
    SessionState, SessionView, begin_failure, just_begun, unit_answer_view,
};
use crate::text::str_eq;

verus! {

/// The number of points to ask for in one fetch.
pub const BATCH_SIZE: usize = 1000;

/// One point of a collection. An element of `vector` is held as the 32
/// bits of a single-precision number.
#[derive(Debug, PartialEq)]
pub struct Point {
    pub id: i64,
    pub payload: Option<serde_json::Value>,
    pub vector: Option<Vec<u32>>,
}

/// The mathematical value of a [`Point`].
pub struct PointView {
    pub id: i64,
    pub payload: Option<serde_json::Value>,
    pub vector: Option<Seq<u32>>,
}

impl View for Point {
    type V = PointView;

    open spec fn view(&self) -> PointView {
        PointView {
            id: self.id,
            payload: self.payload,
            vector: match self.vector {
                Some(bits) => Some(bits@),
                None => None,
            },
        }
    }
}

/// The slot of a vector column for a field that may be absent.
pub open spec fn vector_slot(vector: Option<Seq<u32>>) -> Option<CellView> {
    match vector {
        Some(bits) => Some(CellView::FloatArray(bits)),
        None => None,
    }
}

impl PointView {
    /// The slot that the point gives for the column `name`: the field of
    /// that name. The point has no other column than its three fields.
    pub open spec fn cell(self, name: Seq<char>) -> Result<Option<CellView>, IntoRowErrorView> {
        if name == "id"@ {
            Ok(Some(CellView::I64(self.id)))
        } else if name == "payload"@ {
            Ok(json_slot(self.payload))
        } else if name == "vector"@ {
            Ok(vector_slot(self.vector))
        } else {
            Err(IntoRowErrorView::UnsupportedColumnType(name))
        }
    }
}

/// A point without payload or without vector gives an empty slot for that
/// column, and no error.
pub proof fn absent_point_field_gives_empty_slot(point: PointView)
    ensures
        point.payload is None ==> point.cell("payload"@) == Ok::<
            Option<CellView>,
            IntoRowErrorView,
        >(None),
        point.vector is None ==> point.cell("vector"@) == Ok::<Option<CellView>, IntoRowErrorView>(
            None,
        ),
{
    reveal_strlit("id");
    reveal_strlit("payload");
    reveal_strlit("vector");
    assert("id"@.len() == 2);
    assert("payload"@.len() == 7);
    assert("vector"@.len() == 6);
}

/// For a column that the contract of a collection accepts, every point has
/// a slot, and a value in it is of the type that the column was declared
/// with.
pub proof fn accepted_columns_are_served(point: PointView, column: ColumnView)
    requires
        crate::schema::accepts(allowed_columns(), column),
    ensures
        point.cell(column.name) is Ok,
        point.cell(column.name) matches Ok(Some(cell)) ==> cell.semantic_type()
            == column.semantic_type,
{
    reveal_strlit("id");
    reveal_strlit("payload");
    reveal_strlit("vector");
    assert("id"@.len() == 2);
    assert("payload"@.len() == 7);
    assert("vector"@.len() == 6);
}

/// Every point can serve a column list that the contract of a collection
/// accepts: a scan that began does not fail on a point.
pub proof fn accepted_lists_are_served(point: &Point, columns: Seq<ColumnView>)
    requires
        crate::schema::accepts_all(allowed_columns(), columns),
    ensures
        crate::mapper::serves_all(point, columns),
{
    assert forall|i: int| 0 <= i < columns.len() implies point.cell_spec(
        #[trigger] columns[i],
    ) is Ok by {
        accepted_columns_are_served(point@, columns[i]);
    }
}

/// A copy of the elements of a vector.
fn copy_bits(bits: &Vec<u32>) -> (copy: Vec<u32>)
    ensures
        copy@ == bits@,
{
    let mut copy: Vec<u32> = Vec::new();
    let mut i: usize = 0;
    while i < bits.len()
        invariant
            i <= bits.len(),
            copy@ == bits@.subrange(0, i as int),
        decreases bits.len() - i,
    {
        copy.push(bits[i]);
        assert(copy@ =~= bits@.subrange(0, i + 1));
        i += 1;
    }
    assert(copy@ =~= bits@);
    copy
}

impl NamedFields for Point {
    open spec fn cell_spec(&self, column: ColumnView) -> Result<
        Option<CellView>,
        IntoRowErrorView,
    > {
        self@.cell(column.name)
    }

    proof fn cell_error_names_column(&self, column: ColumnView) {
    }

    fn cell(&self, column: &Column) -> (outcome: Result<Option<Cell>, IntoRowError>) {
        let name = column.name.as_str();
        if str_eq(name, "id") {
            Ok(Some(Cell::I64(self.id)))
        } else if str_eq(name, "payload") {
            Ok(
                match &self.payload {
                    Some(document) => Some(Cell::Json(clone_json(document))),
                    None => None,
                },
            )
        } else if str_eq(name, "vector") {
            Ok(
                match &self.vector {
                    Some(bits) => Some(Cell::FloatArray(copy_bits(bits))),
                    None => None,
                },
            )
        } else {
            Err(IntoRowError::UnsupportedColumnType(column.name.clone()))
        }
    }
}

impl IntoRow for Point {
}

/// The columns that a collection offers, each with its required type.
pub open spec fn allowed_columns() -> Map<Seq<char>, SemanticType> {
    Map::<Seq<char>, SemanticType>::empty().insert("id"@, SemanticType::Int64).insert(
        "payload"@,
        SemanticType::Jsonb,
    ).insert("vector"@, SemanticType::FloatArray)
}

/// What the connector fixes for all its scans.
pub open spec fn connector_spec() -> ConnectorView {
    ConnectorView {
        allowed: allowed_columns(),
        collection_option: "collection_name"@,
        batch_size: BATCH_SIZE as nat,
    }
}

/// The scope of a list of options.
#[derive(Clone, Copy, Debug, PartialEq, Eq, Structural)]
pub enum OptionScope {
    /// The options of a foreign server.
    ServerLevel,
    /// The options of a foreign table.
    TableLevel,
}

/// The first required option of the scope that the list does not give.
pub open spec fn missing_option(options: Seq<Option<String>>, scope: Option<OptionScope>) -> Option<
    Seq<char>,
> {
    match scope {
        Some(OptionScope::ServerLevel) => if !list_gives(options, "api_url"@) {
            Some("api_url"@)
        } else if !list_gives(options, "api_key"@) {
            Some("api_key"@)
        } else {
            None
        },
        Some(OptionScope::TableLevel) => if !list_gives(options, "collection_name"@) {
            Some("collection_name"@)
        } else {
            None
        },
        None => None,
    }
}

/// What one call of [`QdrantFdw::iter_scan`] answers.
#[derive(Debug, PartialEq, Eq)]
pub enum ScanStep {
    /// The next row of the scan was written to the caller's row.
    Row,
    /// The scan needs a batch: make this fetch and call again with its
    /// outcome.
    Fetch(FetchRequest),
    /// The scan has no further row.
    EndOfStream,
}

/// A foreign data wrapper over the collections of one database.
pub struct QdrantFdw {
    api_url: String,
    api_key: String,
    session: ScanSession<Point>,
}

/// The mathematical value of a [`QdrantFdw`].
pub struct QdrantView {
    pub api_url: Seq<char>,
    pub api_key: Seq<char>,
    pub session: SessionView<Point>,
}

impl View for QdrantFdw {
    type V = QdrantView;

    closed spec fn view(&self) -> QdrantView {
        QdrantView { api_url: self.api_url@, api_key: self.api_key@, session: self.session@ }
    }
}

/// What a scan that has begun holds: the columns as they were given, and
/// a cursor over the collection that has fetched nothing.
pub open spec fn begun_scan(
    columns: Seq<ColumnView>,
    options: Map<Seq<char>, Seq<char>>,
) -> HeldView<Point> {
    HeldView {
        columns,
        cursor: CursorView::initial(options["collection_name"@], BATCH_SIZE as nat),
        position: 0,
    }
}

impl QdrantView {
    /// The wrapper after a call of `begin_scan`. Where the scan cannot
    /// begin, the wrapper is as it was, with the scan it held. Where it
    /// can, the wrapper holds the new scan in place of what it held before,
    /// whether an earlier scan was under way, had ended or had never begun.
    pub open spec fn after_begin_scan(
        self,
        columns: Seq<ColumnView>,
        options: Map<Seq<char>, Seq<char>>,
    ) -> QdrantView {
        if begin_failure(connector_spec(), columns, options) is Some {
            self
        } else {
            QdrantView {
                session: SessionView {
                    connector: connector_spec(),
                    phase: PhaseView::Active {
                        columns: begun_scan(columns, options).columns,
                        cursor: begun_scan(columns, options).cursor,
                        position: begun_scan(columns, options).position,
                    },
                },
                ..self
            }
        }
    }
}

/// A scan begins on a wrapper in any state exactly when the columns fit
/// and the collection is named, and then starts from the beginning: the
/// session has just begun, whatever the wrapper held before.
pub proof fn begin_scan_starts_afresh(
    wrapper: QdrantView,
    columns: Seq<ColumnView>,
    options: Map<Seq<char>, Seq<char>>,
)
    ensures
        begin_failure(connector_spec(), columns, options) is None <==> crate::schema::accepts_all(
            allowed_columns(),
            columns,
        ) && options.contains_key("collection_name"@),
        begin_failure(connector_spec(), columns, options) is None ==> just_begun(
            wrapper.after_begin_scan(columns, options).session,
        ),
        wrapper.after_begin_scan(columns, options).api_url == wrapper.api_url,
        wrapper.after_begin_scan(columns, options).api_key == wrapper.api_key,
{
    crate::schema::first_violation_is_sound(allowed_columns(), columns);
}

/// Where the client cannot be made after a scan began, taking the begin
/// back leaves the wrapper without a scan, and the failure to tell is the
/// client's, come before any row.
pub proof fn failed_connect_leaves_no_scan(
    wrapper: QdrantView,
    columns: Seq<ColumnView>,
    options: Map<Seq<char>, Seq<char>>,
    error: ClientError,
)
    requires
        begin_failure(connector_spec(), columns, options) is None,
    ensures
        ({
            let begun = wrapper.after_begin_scan(columns, options).session;
            &&& begun.begin_failed_answer(error) == (ScanErrorView::Client { index: 0, error })
            &&& begun.after_begin_failed().state() == SessionState::Unstarted
        }),
{
}

/// What `QdrantFdw::new` gives for the server options `options`.
pub open spec fn new_spec(options: Map<Seq<char>, Seq<char>>) -> Result<QdrantView, ScanErrorView> {
    if !options.contains_key("api_url"@) {
        Err(ScanErrorView::Configuration("api_url"@))
    } else if !options.contains_key("api_key"@) {
        Err(ScanErrorView::Configuration("api_key"@))
    } else {
        Ok(
            QdrantView {
                api_url: options["api_url"@],
                api_key: options["api_key"@],
                session: SessionView { connector: connector_spec(), phase: PhaseView::Unstarted },
            },
        )
    }
}

/// The value of what `QdrantFdw::new` gave.
pub open spec fn new_view(outcome: Result<QdrantFdw, ScanError>) -> Result<
    QdrantView,
    ScanErrorView,
> {
    match outcome {
        Ok(fdw) => Ok(fdw@),
        Err(error) => Err(error@),
    }
}

impl QdrantFdw {
    /// What the wrapper keeps in memory of a scan, whatever its state.
    pub closed spec fn held(&self) -> HeldView<Point> {
        self.session.held()
    }

    /// The column contract of a collection.
    pub fn contract() -> (contract: ColumnContract)
        ensures
            contract@ == allowed_columns(),
    {
        let mut contract = ColumnContract::new();
        contract.allow("id", SemanticType::Int64);
        contract.allow("payload", SemanticType::Jsonb);
        contract.allow("vector", SemanticType::FloatArray);
        contract
    }

    /// What the connector fixes for all its scans.
    pub fn connector() -> (connector: Connector)
        ensures
            connector@ == connector_spec(),
    {
        Connector {
            contract: Self::contract(),
            collection_option: String::from_str("collection_name"),
            batch_size: BATCH_SIZE,
        }
    }

    /// Holds a column list against the columns of a collection.
    ///
    /// Succeeds exactly when each column is `id` declared as `bigint`,
    /// `payload` declared as `jsonb` or `vector` declared as `real[]`.
    /// Otherwise the error is the one of the first column that is none of
    /// these.
    pub fn validate_columns(columns: &[Column]) -> (answer: Result<(), ScanError>)
        ensures
            unit_answer_view(answer) == (match first_violation(
                allowed_columns(),
                columns_view(columns@),
            ) {
                Some(error) => Some(ScanErrorView::Schema(error)),
                None => None,
            }),
    {
        match Self::contract().validate(columns) {
            Ok(()) => Ok(()),
            Err(error) => Err(ScanError::Schema(error)),
        }
    }

    /// A wrapper for the server with the options `options`, which must give
    /// `api_url` and `api_key`. No scan has begun.
    pub fn new(options: &Options) -> (outcome: Result<QdrantFdw, ScanError>)
        ensures
            new_view(outcome) == new_spec(options@),
            outcome matches Ok(fdw) ==> fdw.held() == HeldView::<Point>::nothing(),
    {
        let api_url = match require_option("api_url", options) {
            Ok(value) => String::from_str(value),
            Err(error) => {
                return Err(ScanError::Configuration(error));
            },
        };
        let api_key = match require_option("api_key", options) {
            Ok(value) => String::from_str(value),
            Err(error) => {
                return Err(ScanError::Configuration(error));
            },
        };
        Ok(QdrantFdw { api_url, api_key, session: ScanSession::new(Self::connector()) })
    }

    /// The number of records that the wrapper holds in its buffer.
    pub fn buffered(&self) -> (count: usize)
        ensures
            count == self.held().cursor.buffer.len(),
    {
        self.session.buffered()
    }

    /// The address of the database.
    pub fn api_url(&self) -> (api_url: &str)
        ensures
            api_url@ == self@.api_url,
    {
        self.api_url.as_str()
    }

    /// The key that the database asks for.
    pub fn api_key(&self) -> (api_key: &str)
        ensures
            api_key@ == self@.api_key,
    {
        self.api_key.as_str()
    }

    /// Begins a scan of `columns` over the collection that the table
    /// option `collection_name` names.
    ///
    /// Valid in every state of the wrapper. The column list is held against
    /// the columns of a collection, then the option is looked up. Where
    /// either fails, the wrapper stays as it was. Where not, a new scan
    /// takes the place of what the wrapper held: it starts from the
    /// beginning of the collection, with nothing fetched.
    pub fn begin_scan(&mut self, columns: &[Column], options: &Options) -> (answer: Result<
        (),
        ScanError,
    >)
        ensures
            unit_answer_view(answer) == begin_failure(
                connector_spec(),
                columns_view(columns@),
                options@,
            ),
            final(self)@ == old(self)@.after_begin_scan(columns_view(columns@), options@),
            answer is Ok ==> final(self).held() == begun_scan(columns_view(columns@), options@),
            answer is Err ==> *final(self) == *old(self),
    {
        let mut session: ScanSession<Point> = ScanSession::new(Self::connector());
        match session.begin(columns, options) {
            Ok(()) => {
                proof {
                    session.active_session_shows_what_it_holds();
                }
                self.session = session;
                Ok(())
            },
            Err(error) => Err(error),
        }
    }

    /// Takes back a begin after which the client could not be made.
    ///
    /// Valid on a wrapper whose scan has just begun: the wrapper gives up
    /// the scan and is without one again, and the answer is the client's
    /// error, come before any row. In another state the call changes
    /// nothing and answers that it is not valid there.
    pub fn connect_failed(&mut self, error: ClientError) -> (report: ScanError)
        ensures
            report@ == old(self)@.session.begin_failed_answer(error),
            final(self)@ == (QdrantView {
                session: old(self)@.session.after_begin_failed(),
                ..old(self)@
            }),
            just_begun(old(self)@.session) ==> final(self).held() == HeldView::<Point>::nothing(),
            !just_begun(old(self)@.session) ==> final(self).held() == old(self).held(),
    {
        self.session.begin_failed(error)
    }

    /// One pull of the scan. Where it gives a row, the row replaces `row`;
    /// where not, `row` stays as it is.
    pub fn iter_scan(&mut self, row: &mut Row, fetched: Fetched<Point>) -> (answer: Result<
        ScanStep,
        ScanError,
    >)
        ensures
            final(self)@ == (QdrantView {
                session: old(self)@.session.after_next(fetched_view(fetched)),
                ..old(self)@
            }),
            old(self)@.session.state() == SessionState::Active && answer is Err
                ==> final(self).held() == HeldView::<Point>::nothing(),
            old(self)@.session.state() != SessionState::Active
                ==> final(self).held() == old(self).held(),
            (match old(self)@.session.next_answer(fetched_view(fetched)) {
                Ok(RowStepView::Row(next)) => answer == Ok::<ScanStep, ScanError>(ScanStep::Row)
                    && final(row)@ == next,
                Ok(RowStepView::Fetch(request)) => answer matches Ok(ScanStep::Fetch(asked))
                    && asked@ == request && *final(row) == *old(row),
                Ok(RowStepView::EndOfStream) => answer == Ok::<ScanStep, ScanError>(
                    ScanStep::EndOfStream,
                ) && *final(row) == *old(row),
                Err(error) => answer matches Err(given) && given@ == error && *final(row) == *old(
                    row,
                ),
            }),
    {
        match self.session.next_row(fetched) {
            Ok(RowStep::Row(next)) => {
                row.replace_with(next);
                Ok(ScanStep::Row)
            },
            Ok(RowStep::Fetch(request)) => Ok(ScanStep::Fetch(request)),
            Ok(RowStep::EndOfStream) => Ok(ScanStep::EndOfStream),
            Err(error) => Err(error),
        }
    }

    /// Ends the scan, from any state, and gives up what it held: the
    /// columns, the buffered records and the continuation token.
    pub fn end_scan(&mut self) -> (answer: Result<(), ScanError>)
        ensures
            answer is Ok,
            final(self)@ == (QdrantView { session: old(self)@.session.after_end(), ..old(self)@ }),
            final(self).held() == HeldView::<Point>::nothing(),
    {
        self.session.end()
    }

    /// Checks the options of a definition: a server must give `api_url` and
    /// `api_key`, a table must give `collection_name`. Without a scope
    /// nothing is asked.
    pub fn validator(options: Vec<Option<String>>, scope: Option<OptionScope>) -> (answer: Result<
        (),
        ScanError,
    >)
        ensures
            unit_answer_view(answer) == (match missing_option(options@, scope) {
                Some(name) => Some(ScanErrorView::Configuration(name)),
                None => None,
            }),
    {
        match scope {
            Some(OptionScope::ServerLevel) => {
                match check_options_contain(options.as_slice(), "api_url") {
                    Ok(()) => {},
                    Err(error) => {
                        return Err(ScanError::Configuration(error));
                    },
                }
                match check_options_contain(options.as_slice(), "api_key") {
                    Ok(()) => {},
                    Err(error) => {
                        return Err(ScanError::Configuration(error));
                    },
                }
            },
            Some(OptionScope::TableLevel) => {
                match check_options_contain(options.as_slice(), "collection_name") {
                    Ok(()) => {},
                    Err(error) => {
                        return Err(ScanError::Configuration(error));
                    },
                }
            },
            None => {},
        }
        Ok(())
    }
}

} // verus!
