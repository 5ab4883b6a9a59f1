//! The scan session: one begin, any number of pulls, one end.
//!
//! A session starts out unstarted. `begin` checks the column list and the
//! options and, where both are in order, makes the session active with a
//! fresh cursor; where not, the session stays unstarted. While it is active,
//! `next_row` pulls one record from the cursor and maps it. A failure of a
//! fetch or of the mapping ends the session. `end` ends it from any state.
//! A session that is not active holds nothing: no columns, no records, no
//! token. Where the client cannot be made after `begin`, `begin_failed`
//! takes the begin back and the session is unstarted again.

use vstd::prelude::*;
use crate::cell::{Column, ColumnView, Row, RowView, SemanticType, columns_view};
use crate::cursor::{
    ClientError, CursorStep, CursorView, FetchRequest, FetchRequestView, Fetched, FetchedView,
    PagedCursor, StepView, fetched_view,
};
use crate::error::{ScanError, ScanErrorView};
use crate::mapper::{IntoRow, row_spec};
use crate::options::{Options, require_option};
use crate::schema::{ColumnContract, first_violation};

verus! {

/// The state of a scan session.
#[derive(Clone, Copy, Debug, PartialEq, Eq, Structural)]
pub enum SessionState {
    Unstarted,
    Active,
    Ended,
}

impl SessionState {
    /// The state in words.
    pub open spec fn spec_name(self) -> Seq<char> {
        match self {
            SessionState::Unstarted => "not started"@,
            SessionState::Active => "active"@,
            SessionState::Ended => "ended"@,
        }
    }

    /// The state in words, for diagnostics.
    pub fn name(self) -> (name: &'static str)
        ensures
            name@ == self.spec_name(),
    {
        match self {
            SessionState::Unstarted => "not started",
            SessionState::Active => "active",
            SessionState::Ended => "ended",
        }
    }
}

/// What a connector fixes for all its scans.
pub struct Connector {
    /// The columns that the connector offers.
    pub contract: ColumnContract,
    /// The name of the table option that holds the collection to scan.
    pub collection_option: String,
    /// The number of records to ask for in one fetch.
    pub batch_size: usize,
}

/// The mathematical value of a [`Connector`].
pub struct ConnectorView {
    pub allowed: Map<Seq<char>, SemanticType>,
    pub collection_option: Seq<char>,
    pub batch_size: nat,
}

impl View for Connector {
    type V = ConnectorView;

    open spec fn view(&self) -> ConnectorView {
        ConnectorView {
            allowed: self.contract@,
            collection_option: self.collection_option@,
            batch_size: self.batch_size as nat,
        }
    }
}

/// What one call of [`ScanSession::next_row`] answers.
#[derive(Debug, PartialEq)]
pub enum RowStep {
    /// The next row of the scan.
    Row(Row),
    /// The session needs a batch: make this fetch and call again with its
    /// outcome.
    Fetch(FetchRequest),
    /// The scan has no further row.
    EndOfStream,
}

/// The mathematical value of a [`RowStep`].
pub enum RowStepView {
    Row(RowView),
    Fetch(FetchRequestView),
    EndOfStream,
}

impl View for RowStep {
    type V = RowStepView;

    open spec fn view(&self) -> RowStepView {
        match self {
            RowStep::Row(row) => RowStepView::Row(row@),
            RowStep::Fetch(request) => RowStepView::Fetch(request@),
            RowStep::EndOfStream => RowStepView::EndOfStream,
        }
    }
}

/// The value of what a call of `next_row` answers.
pub open spec fn row_answer_view(answer: Result<RowStep, ScanError>) -> Result<
    RowStepView,
    ScanErrorView,
> {
    match answer {
        Ok(step) => Ok(step@),
        Err(error) => Err(error@),
    }
}

/// The value of what a call without a result answers.
pub open spec fn unit_answer_view(answer: Result<(), ScanError>) -> Option<ScanErrorView> {
    match answer {
        Ok(_) => None,
        Err(error) => Some(error@),
    }
}

/// What a session holds, by state.
pub enum PhaseView<R> {
    Unstarted,
    Active {
        /// The columns of the scan, fixed when it began.
        columns: Seq<ColumnView>,
        cursor: CursorView<R>,
        /// The number of rows handed out, up to the largest `u64`.
        position: u64,
    },
    Ended,
}

/// The mathematical value of a [`ScanSession`].
pub struct SessionView<R> {
    pub connector: ConnectorView,
    pub phase: PhaseView<R>,
}

/// What a session keeps in memory, whatever its state.
pub struct HeldView<R> {
    pub columns: Seq<ColumnView>,
    pub cursor: CursorView<R>,
    pub position: u64,
}

impl<R> HeldView<R> {
    /// What a session keeps that has no scan under way: no column, and a
    /// cursor without records, token or collection.
    pub open spec fn nothing() -> HeldView<R> {
        HeldView {
            columns: Seq::empty(),
            cursor: CursorView::initial(Seq::empty(), 0),
            position: 0,
        }
    }
}

/// Whether the session has just begun: it is active, its cursor has
/// fetched nothing, and no row was handed out.
pub open spec fn just_begun<R>(session: SessionView<R>) -> bool {
    session.phase matches PhaseView::Active { cursor, position, .. } && cursor.is_initial()
        && position == 0
}

/// What stands against beginning a scan of `columns` with `options`: the
/// first violation of the column contract, else the missing option of the
/// collection, else nothing.
pub open spec fn begin_failure(
    connector: ConnectorView,
    columns: Seq<ColumnView>,
    options: Map<Seq<char>, Seq<char>>,
) -> Option<ScanErrorView> {
    match first_violation(connector.allowed, columns) {
        Some(error) => Some(ScanErrorView::Schema(error)),
        None => if options.contains_key(connector.collection_option) {
            None
        } else {
            Some(ScanErrorView::Configuration(connector.collection_option))
        },
    }
}

/// The position after one more row.
pub open spec fn advanced(position: u64) -> u64 {
    if position < u64::MAX {
        (position + 1) as u64
    } else {
        position
    }
}

impl<R: IntoRow> SessionView<R> {
    /// The state of the session.
    pub open spec fn state(self) -> SessionState {
        match self.phase {
            PhaseView::Unstarted => SessionState::Unstarted,
            PhaseView::Active { .. } => SessionState::Active,
            PhaseView::Ended => SessionState::Ended,
        }
    }

    /// What a call of `begin` answers: nothing, or the failure.
    pub open spec fn begin_answer(
        self,
        columns: Seq<ColumnView>,
        options: Map<Seq<char>, Seq<char>>,
    ) -> Option<ScanErrorView> {
        if self.state() != SessionState::Unstarted {
            Some(ScanErrorView::InvalidState { found: self.state() })
        } else {
            begin_failure(self.connector, columns, options)
        }
    }

    /// The session after a call of `begin`.
    pub open spec fn after_begin(
        self,
        columns: Seq<ColumnView>,
        options: Map<Seq<char>, Seq<char>>,
    ) -> SessionView<R> {
        if self.begin_answer(columns, options) is Some {
            self
        } else {
            SessionView {
                phase: PhaseView::Active {
                    columns,
                    cursor: CursorView::initial(
                        options[self.connector.collection_option],
                        self.connector.batch_size,
                    ),
                    position: 0,
                },
                ..self
            }
        }
    }

    /// What a call of `next_row` with `fetched` answers.
    pub open spec fn next_answer(self, fetched: FetchedView<R>) -> Result<
        RowStepView,
        ScanErrorView,
    > {
        match self.phase {
            PhaseView::Active { columns, cursor, position } => match cursor.step(fetched) {
                Ok(StepView::Record(record)) => match row_spec(&record, columns) {
                    Ok(row) => Ok(RowStepView::Row(row)),
                    Err(cause) => Err(ScanErrorView::Mapping { index: position, cause }),
                },
                Ok(StepView::Fetch(request)) => Ok(RowStepView::Fetch(request)),
                Ok(StepView::EndOfStream) => Ok(RowStepView::EndOfStream),
                Err(error) => Err(ScanErrorView::Client { index: position, error }),
            },
            _ => Err(ScanErrorView::InvalidState { found: self.state() }),
        }
    }

    /// The session after a call of `next_row` with `fetched`.
    pub open spec fn after_next(self, fetched: FetchedView<R>) -> SessionView<R> {
        match self.phase {
            PhaseView::Active { columns, cursor, position } => match self.next_answer(fetched) {
                Ok(RowStepView::Row(_)) => SessionView {
                    phase: PhaseView::Active {
                        columns,
                        cursor: cursor.after(fetched),
                        position: advanced(position),
                    },
                    ..self
                },
                Ok(_) => SessionView {
                    phase: PhaseView::Active { columns, cursor: cursor.after(fetched), position },
                    ..self
                },
                Err(_) => SessionView { phase: PhaseView::Ended, ..self },
            },
            _ => self,
        }
    }

    /// The session after a call of `end`.
    pub open spec fn after_end(self) -> SessionView<R> {
        SessionView { phase: PhaseView::Ended, ..self }
    }

    /// What a call of `begin_failed` with `error` answers: the client's
    /// error, before any row, where the session has just begun; else the
    /// error that the call is not valid in the state of the session.
    pub open spec fn begin_failed_answer(self, error: ClientError) -> ScanErrorView {
        if just_begun(self) {
            ScanErrorView::Client { index: 0, error }
        } else {
            ScanErrorView::InvalidState { found: self.state() }
        }
    }

    /// The session after a call of `begin_failed`: unstarted where it had
    /// just begun, else as it was.
    pub open spec fn after_begin_failed(self) -> SessionView<R> {
        if just_begun(self) {
            SessionView { phase: PhaseView::Unstarted, ..self }
        } else {
            self
        }
    }
}

/// A scan that cannot begin fails with what the declaration alone shows, a
/// column that does not fit or a missing option, and the session stays
/// unstarted.
pub proof fn begin_fails_before_any_fetch<R: IntoRow>(
    session: SessionView<R>,
    columns: Seq<ColumnView>,
    options: Map<Seq<char>, Seq<char>>,
)
    requires
        session.state() == SessionState::Unstarted,
        session.begin_answer(columns, options) is Some,
    ensures
        session.begin_answer(columns, options)->Some_0.kind().spec_before_fetch(),
        session.after_begin(columns, options) == session,
{
}

/// A scan begins exactly when the contract accepts every column and the
/// option of the collection is given. It then is active, holds the columns
/// as they were given, and has fetched nothing.
pub proof fn begin_succeeds<R: IntoRow>(
    session: SessionView<R>,
    columns: Seq<ColumnView>,
    options: Map<Seq<char>, Seq<char>>,
)
    requires
        session.state() == SessionState::Unstarted,
    ensures
        session.begin_answer(columns, options) is None <==> crate::schema::accepts_all(
            session.connector.allowed,
            columns,
        ) && options.contains_key(session.connector.collection_option),
        session.begin_answer(columns, options) is None ==> session.after_begin(
            columns,
            options,
        ).phase == (PhaseView::Active {
            columns,
            cursor: CursorView::<R>::initial(
                options[session.connector.collection_option],
                session.connector.batch_size,
            ),
            position: 0,
        }),
{
    crate::schema::first_violation_is_sound(session.connector.allowed, columns);
}

/// A pull of an active session that fails is a failed fetch or a record
/// that cannot be mapped, and ends the session.
pub proof fn pull_failure_ends_session<R: IntoRow>(session: SessionView<R>, fetched: FetchedView<R>)
    requires
        session.state() == SessionState::Active,
        session.next_answer(fetched) is Err,
    ensures
        session.next_answer(fetched)->Err_0.kind().spec_ends_scan(),
        session.after_next(fetched).state() == SessionState::Ended,
{
}

/// A pull of a session that is not active fails and changes nothing.
pub proof fn pull_needs_an_active_session<R: IntoRow>(
    session: SessionView<R>,
    fetched: FetchedView<R>,
)
    requires
        session.state() != SessionState::Active,
    ensures
        session.next_answer(fetched) == Err::<RowStepView, ScanErrorView>(
            ScanErrorView::InvalidState { found: session.state() },
        ),
        session.after_next(fetched) == session,
{
}

/// Ending a session ends it from any state, and ending it again changes
/// nothing.
pub proof fn end_is_idempotent<R: IntoRow>(session: SessionView<R>)
    ensures
        session.after_end().state() == SessionState::Ended,
        session.after_end().after_end() == session.after_end(),
{
}

/// While a session is active its columns stay as they were when the scan
/// began.
pub proof fn columns_are_fixed<R: IntoRow>(session: SessionView<R>, fetched: FetchedView<R>)
    requires
        session.phase is Active,
        session.after_next(fetched).phase is Active,
    ensures
        session.after_next(fetched).phase->Active_columns == session.phase->Active_columns,
{
}

/// One scan of one collection, from begin to end.
pub struct ScanSession<R> {
    connector: Connector,
    state: SessionState,
    columns: Vec<Column>,
    cursor: PagedCursor<R>,
    position: u64,
}

impl<R> View for ScanSession<R> {
    type V = SessionView<R>;

    closed spec fn view(&self) -> SessionView<R> {
        SessionView {
            connector: self.connector@,
            phase: match self.state {
                SessionState::Unstarted => PhaseView::Unstarted,
                SessionState::Active => PhaseView::Active {
                    columns: columns_view(self.columns@),
                    cursor: self.cursor@,
                    position: self.position,
                },
                SessionState::Ended => PhaseView::Ended,
            },
        }
    }
}

impl<R> ScanSession<R> {
    /// What the session keeps in memory, whatever its state.
    pub closed spec fn held(&self) -> HeldView<R> {
        HeldView {
            columns: columns_view(self.columns@),
            cursor: self.cursor@,
            position: self.position,
        }
    }

    /// An active session shows what it holds.
    pub proof fn active_session_shows_what_it_holds(&self)
        ensures
            self@.phase matches PhaseView::Active { columns, cursor, position } ==> self.held() == (
                HeldView { columns, cursor, position }),
    {
    }
}

/// A cursor over no collection, which holds nothing.
fn idle_cursor<R>() -> (cursor: PagedCursor<R>)
    ensures
        cursor@ == CursorView::<R>::initial(Seq::empty(), 0),
{
    let cursor = PagedCursor::new("", 0);
    proof {
        reveal_strlit("");
        assert(""@ =~= Seq::<char>::empty());
    }
    cursor
}

/// A copy of a column list.
fn copy_columns(columns: &[Column]) -> (copy: Vec<Column>)
    ensures
        columns_view(copy@) == columns_view(columns@),
{
    let mut copy: Vec<Column> = Vec::new();
    let mut i: usize = 0;
    while i < columns.len()
        invariant
            i <= columns.len(),
            copy@.len() == i,
            forall|j: int| 0 <= j < i ==> (#[trigger] copy@[j])@ == columns@[j]@,
        decreases columns.len() - i,
    {
        copy.push(columns[i].clone());
        i += 1;
    }
    assert(columns_view(copy@) =~= columns_view(columns@));
    copy
}

impl<R: IntoRow> ScanSession<R> {
    /// An unstarted session of the connector.
    pub fn new(connector: Connector) -> (session: ScanSession<R>)
        ensures
            session@ == (SessionView::<R> { connector: connector@, phase: PhaseView::Unstarted }),
            session.held() == HeldView::<R>::nothing(),
    {
        let session = ScanSession {
            connector,
            state: SessionState::Unstarted,
            columns: Vec::new(),
            cursor: idle_cursor(),
            position: 0,
        };
        assert(columns_view(session.columns@) =~= Seq::<ColumnView>::empty());
        session
    }

    /// The number of records that the session holds in its buffer.
    pub fn buffered(&self) -> (count: usize)
        ensures
            count == self.held().cursor.buffer.len(),
    {
        self.cursor.buffered()
    }

    /// The state of the session.
    pub fn state(&self) -> (state: SessionState)
        ensures
            state == self@.state(),
    {
        self.state
    }

    /// Begins the scan of `columns`.
    ///
    /// Valid in an unstarted session. The column list is held against the
    /// connector's contract, then the option that names the collection is
    /// looked up. Where either fails, the session stays unstarted. Where not,
    /// it is active, with the columns fixed and a cursor that has fetched
    /// nothing.
    pub fn begin(&mut self, columns: &[Column], options: &Options) -> (answer: Result<
        (),
        ScanError,
    >)
        ensures
            unit_answer_view(answer) == old(self)@.begin_answer(columns_view(columns@), options@),
            final(self)@ == old(self)@.after_begin(columns_view(columns@), options@),
            answer is Err ==> final(self).held() == old(self).held(),
    {
        match self.state {
            SessionState::Unstarted => {},
            found => {
                return Err(ScanError::InvalidState { found });
            },
        }
        match self.connector.contract.validate(columns) {
            Ok(()) => {},
            Err(error) => {
                return Err(ScanError::Schema(error));
            },
        }
        let collection = match require_option(self.connector.collection_option.as_str(), options) {
            Ok(collection) => collection,
            Err(error) => {
                return Err(ScanError::Configuration(error));
            },
        };
        self.columns = copy_columns(columns);
        self.cursor = PagedCursor::new(collection, self.connector.batch_size);
        self.position = 0;
        self.state = SessionState::Active;
        Ok(())
    }

    /// Gives up the columns, the cursor with its records and token, and
    /// the count of rows.
    fn release(&mut self)
        ensures
            final(self).held() == HeldView::<R>::nothing(),
            final(self).connector == old(self).connector,
            final(self).state == old(self).state,
    {
        self.columns = Vec::new();
        self.cursor = idle_cursor();
        self.position = 0;
        assert(columns_view(self.columns@) =~= Seq::<ColumnView>::empty());
    }

    /// Gives up what the scan held and ends the session.
    fn close(&mut self)
        ensures
            final(self)@ == old(self)@.after_end(),
            final(self).held() == HeldView::<R>::nothing(),
    {
        self.release();
        self.state = SessionState::Ended;
    }

    /// Takes back a begin after which the client could not be made.
    ///
    /// Valid in a session that has just begun: the session gives up what
    /// it held and is unstarted again, and the answer is the client's error,
    /// come before any row. In another state the call changes nothing and
    /// answers that it is not valid there.
    pub fn begin_failed(&mut self, error: ClientError) -> (report: ScanError)
        ensures
            report@ == old(self)@.begin_failed_answer(error),
            final(self)@ == old(self)@.after_begin_failed(),
            just_begun(old(self)@) ==> final(self).held() == HeldView::<R>::nothing(),
            !just_begun(old(self)@) ==> final(self).held() == old(self).held(),
    {
        match self.state {
            SessionState::Active => {
                if self.cursor.is_initial() && self.position == 0 {
                    self.release();
                    self.state = SessionState::Unstarted;
                    ScanError::Client { index: 0, error }
                } else {
                    ScanError::InvalidState { found: SessionState::Active }
                }
            },
            found => ScanError::InvalidState { found },
        }
    }

    /// One pull.
    ///
    /// Valid in an active session; in another state the call fails and
    /// changes nothing. The cursor is pulled with `fetched`. A record is
    /// mapped to the row of the scan's columns; the end of the source and
    /// the request for a fetch are passed on. A failed fetch and a record
    /// that cannot be mapped end the session; the error says after how many
    /// rows it came.
    pub fn next_row(&mut self, fetched: Fetched<R>) -> (answer: Result<RowStep, ScanError>)
        ensures
            row_answer_view(answer) == old(self)@.next_answer(fetched_view(fetched)),
            final(self)@ == old(self)@.after_next(fetched_view(fetched)),
            old(self)@.state() == SessionState::Active && answer is Err ==> final(self).held()
                == HeldView::<R>::nothing(),
            old(self)@.state() != SessionState::Active ==> final(self).held() == old(self).held(),
    {
        match self.state {
            SessionState::Active => {},
            found => {
                return Err(ScanError::InvalidState { found });
            },
        }
        match self.cursor.next(fetched) {
            Ok(CursorStep::Record(record)) => match record.into_row(self.columns.as_slice()) {
                Ok(row) => {
                    if self.position < u64::MAX {
                        self.position = self.position + 1;
                    }
                    Ok(RowStep::Row(row))
                },
                Err(cause) => {
                    let index = self.position;
                    self.close();
                    Err(ScanError::Mapping { index, cause })
                },
            },
            Ok(CursorStep::Fetch(request)) => Ok(RowStep::Fetch(request)),
            Ok(CursorStep::EndOfStream) => Ok(RowStep::EndOfStream),
            Err(error) => {
                let index = self.position;
                self.close();
                Err(ScanError::Client { index, error })
            },
        }
    }

    /// Ends the session, from any state, and gives up what it held: the
    /// columns, the buffered records and the continuation token. Ending an
    /// ended session changes nothing.
    pub fn end(&mut self) -> (answer: Result<(), ScanError>)
        ensures
            answer is Ok,
            final(self)@ == old(self)@.after_end(),
            final(self).held() == HeldView::<R>::nothing(),
    {
        self.close();
        Ok(())
    }
}

} // verus!
