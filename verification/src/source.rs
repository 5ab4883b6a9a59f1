//! A source that serves its records in order, and what pulling from it
//! gives.
//!
//! The cursor does not know its source. To say what a whole scan does, this
//! module describes a well-behaved one: it holds a fixed sequence of
//! records, a fetch returns the records from the offset that the token
//! names up to the limit, and a batch carries a token exactly when records
//! remain behind it. The statements below are about pulls from such a
//! source.

use vstd::prelude::*;
use crate::cell::ColumnView;
use crate::cursor::{
    ClientError, CursorView, FetchRequestView, FetchedView, PageView, StepView, TokenView,
};
use crate::error::ScanErrorView;
use crate::mapper::{IntoRow, row_spec, serves_all};
use crate::session::{PhaseView, RowStepView, SessionState, SessionView, advanced, just_begun};

verus! {

/// The offset that a token names. No token names the start.
pub open spec fn offset_of(token: Option<TokenView>) -> nat {
    match token {
        Some(TokenView::Offset(offset)) => offset as nat,
        _ => 0,
    }
}

/// The smaller of two numbers.
pub open spec fn least(a: nat, b: nat) -> nat {
    if a <= b {
        a
    } else {
        b
    }
}

/// The batch that a source of `records` returns for `request`.
pub open spec fn served<R>(records: Seq<R>, request: FetchRequestView) -> PageView<R> {
    let start = least(offset_of(request.token), records.len());
    let end = least(start + request.limit, records.len());
    PageView {
        records: records.subrange(start as int, end as int),
        next: if end < records.len() {
            Some(TokenView::Offset(end as u64))
        } else {
            None
        },
    }
}

/// The record that an answer of the cursor holds.
pub open spec fn record_of<R>(answer: Result<StepView<R>, ClientError>) -> Option<R> {
    match answer {
        Ok(StepView::Record(record)) => Some(record),
        _ => None,
    }
}

/// What one pull gave: the cursor after it, the record or the end of the
/// stream, and the number of fetches made.
pub struct Pull<R> {
    pub cursor: CursorView<R>,
    pub record: Option<R>,
    pub fetches: nat,
}

/// One pull from a source of `records`: the cursor is asked; where it asks
/// for a fetch, the source serves it and the cursor is asked again with the
/// batch.
pub open spec fn pull<R>(cursor: CursorView<R>, records: Seq<R>) -> Pull<R> {
    match cursor.step(None) {
        Ok(StepView::Fetch(request)) => {
            let waiting = cursor.after(None);
            let fetched: FetchedView<R> = Some(Ok(served(records, request)));
            Pull {
                cursor: waiting.after(fetched),
                record: record_of(waiting.step(fetched)),
                fetches: 1,
            }
        },
        answer => Pull { cursor: cursor.after(None), record: record_of(answer), fetches: 0 },
    }
}

/// What a number of pulls gave: the cursor after them, what each pull gave
/// in turn, and the number of fetches made.
pub struct Run<R> {
    pub cursor: CursorView<R>,
    pub pulled: Seq<Option<R>>,
    pub fetches: nat,
}

/// A run and one more pull.
pub open spec fn extended<R>(run: Run<R>, records: Seq<R>) -> Run<R> {
    let next = pull(run.cursor, records);
    Run {
        cursor: next.cursor,
        pulled: run.pulled.push(next.record),
        fetches: run.fetches + next.fetches,
    }
}

/// `pulls` pulls from a source of `records`, starting with `cursor`.
pub open spec fn run<R>(cursor: CursorView<R>, records: Seq<R>, pulls: nat) -> Run<R>
    decreases pulls,
{
    if pulls == 0 {
        Run { cursor, pulled: Seq::empty(), fetches: 0 }
    } else {
        extended(run(cursor, records, (pulls - 1) as nat), records)
    }
}

/// The number of batches of `batch_size` that hold `count` records.
pub open spec fn batches(count: nat, batch_size: nat) -> nat {
    ((count + batch_size - 1) / (batch_size as int)) as nat
}

/// `p` batches hold `count` records where `p - 1` are too few and `p` are
/// enough.
proof fn lemma_batches(count: nat, batch_size: nat, p: nat)
    requires
        batch_size >= 1,
        count >= 1,
        (p - 1) * batch_size < count <= p * batch_size,
    ensures
        batches(count, batch_size) == p,
{
    let q = (count + batch_size - 1) / (batch_size as int);
    assert(q == p) by (nonlinear_arith)
        requires
            batch_size >= 1,
            count >= 1,
            (p - 1) * batch_size < count <= p * batch_size,
            q == (count + batch_size - 1) / (batch_size as int),
    ;
}

/// The state of a scan of a source of `records` after `k` pulls, of which
/// `p` made a fetch.
spec fn scanned<R>(
    done: Run<R>,
    collection: Seq<char>,
    records: Seq<R>,
    batch_size: nat,
    k: nat,
    p: nat,
) -> bool {
    let end = least(p * batch_size, records.len());
    &&& (p - 1) * batch_size < k <= p * batch_size
    &&& done.fetches == p
    &&& done.pulled =~= Seq::new(k, |i: int| Some(records[i]))
    &&& done.cursor.collection == collection
    &&& done.cursor.batch_size == batch_size
    &&& done.cursor.buffer =~= records.subrange(k as int, end as int)
    &&& done.cursor.token == (if end < records.len() {
        Some(TokenView::Offset(end as u64))
    } else {
        None
    })
    &&& done.cursor.exhausted == (k == records.len())
}

/// The first `k` pulls of a scan give the first `k` records; `p` of them
/// make a fetch.
proof fn lemma_scan<R>(collection: Seq<char>, records: Seq<R>, batch_size: nat, k: nat) -> (p: nat)
    requires
        batch_size >= 1,
        1 <= k <= records.len() <= u64::MAX,
    ensures
        scanned(
            run(CursorView::initial(collection, batch_size), records, k),
            collection,
            records,
            batch_size,
            k,
            p,
        ),
    decreases k,
{
    let start = CursorView::<R>::initial(collection, batch_size);
    let n = records.len();
    if k == 1 {
        let before = run(start, records, 0);
        assert(before.cursor == start);
        let done = run(start, records, 1);
        assert(done == extended(before, records));
        let page = served(records, start.request());
        let end = least(batch_size, n);
        assert(page.records =~= records.subrange(0, end as int));
        assert(1 * batch_size == batch_size) by (nonlinear_arith);
        assert((1 - 1) * batch_size == 0) by (nonlinear_arith);
        assert(done.cursor.buffer =~= records.subrange(1, end as int));
        assert(done.pulled =~= Seq::new(1, |i: int| Some(records[i])));
        1
    } else {
        let q = lemma_scan(collection, records, batch_size, (k - 1) as nat);
        let before = run(start, records, (k - 1) as nat);
        let done = run(start, records, k);
        assert(done == extended(before, records));
        let reach = least(q * batch_size, n);
        assert(before.cursor.buffer.len() == reach - (k - 1));
        if k - 1 < reach {
            assert(before.cursor.buffer[0] == records[k - 1]);
            assert(done.cursor.buffer =~= records.subrange(k as int, reach as int));
            assert(done.pulled =~= Seq::new(k, |i: int| Some(records[i])));
            q
        } else {
            assert(reach == q * batch_size);
            assert((q + 1) * batch_size == q * batch_size + batch_size) by (nonlinear_arith);
            assert((q + 1 - 1) * batch_size == q * batch_size) by (nonlinear_arith);
            let page = served(records, before.cursor.request());
            let end = least(reach + batch_size, n);
            assert(page.records =~= records.subrange(reach as int, end as int));
            assert(page.records[0] == records[k - 1]);
            assert(done.cursor.buffer =~= records.subrange(k as int, end as int));
            assert(done.pulled =~= Seq::new(k, |i: int| Some(records[i])));
            q + 1
        }
    }
}

/// A full iteration over a source of `N >= 1` records with batch size `B`
/// makes `N` pulls that give the records in the order of the source, and
/// makes exactly the `ceil(N / B)` fetches that the batches need. The pull
/// after them gives the end of the stream without a fetch.
pub proof fn full_iteration<R>(collection: Seq<char>, records: Seq<R>, batch_size: nat)
    requires
        batch_size >= 1,
        1 <= records.len() <= u64::MAX,
    ensures
        ({
            let full = run(CursorView::initial(collection, batch_size), records, records.len());
            &&& full.pulled == Seq::new(records.len(), |i: int| Some(records[i]))
            &&& full.fetches == batches(records.len(), batch_size)
            &&& full.cursor.exhausted
            &&& pull(full.cursor, records).record is None
            &&& pull(full.cursor, records).fetches == 0
            &&& pull(full.cursor, records).cursor == full.cursor
        }),
{
    let p = lemma_scan(collection, records, batch_size, records.len());
    lemma_batches(records.len(), batch_size, p);
}

/// An iteration over a source without records makes one fetch and gives
/// the end of the stream.
pub proof fn empty_source<R>(collection: Seq<char>, records: Seq<R>, batch_size: nat)
    requires
        records.len() == 0,
    ensures
        ({
            let first = pull(CursorView::initial(collection, batch_size), records);
            &&& first.record is None
            &&& first.fetches == 1
            &&& first.cursor.exhausted
        }),
{
}

/// Once a pull has given the end of the stream, the cursor is exhausted:
/// whatever it is handed, it gives the end of the stream, asks for no
/// fetch and stays as it is.
pub proof fn end_of_stream_is_final<R>(
    cursor: CursorView<R>,
    fetched: FetchedView<R>,
    later: FetchedView<R>,
)
    requires
        cursor.step(fetched) == Ok::<StepView<R>, ClientError>(StepView::EndOfStream),
    ensures
        cursor.after(fetched).exhausted,
        cursor.after(fetched).step(later) == Ok::<StepView<R>, ClientError>(StepView::EndOfStream),
        cursor.after(fetched).after(later) == cursor.after(fetched),
{
}

/// From an exhausted cursor, any number of pulls from any source give the
/// end of the stream each time, and make no fetch.
pub proof fn exhausted_stays<R>(cursor: CursorView<R>, records: Seq<R>, pulls: nat)
    requires
        cursor.exhausted,
    ensures
        run(cursor, records, pulls).cursor == cursor,
        run(cursor, records, pulls).fetches == 0,
        run(cursor, records, pulls).pulled == Seq::new(pulls, |i: int| None::<R>),
    decreases pulls,
{
    if pulls > 0 {
        exhausted_stays(cursor, records, (pulls - 1) as nat);
        assert(run(cursor, records, pulls).pulled =~= Seq::new(pulls, |i: int| None::<R>));
    } else {
        assert(run(cursor, records, pulls).pulled =~= Seq::new(pulls, |i: int| None::<R>));
    }
}

/// A cursor that holds no record while it is exhausted stays so.
pub proof fn exhausted_holds_nothing<R>(cursor: CursorView<R>, fetched: FetchedView<R>)
    requires
        cursor.wf(),
    ensures
        cursor.after(fetched).wf(),
{
}

/// A source serves no more records than it is asked for.
pub proof fn served_within_limit<R>(records: Seq<R>, request: FetchRequestView)
    ensures
        served(records, request).records.len() <= request.limit,
{
}

/// One pull from a source leaves fewer records in the buffer than a
/// batch holds, or none.
pub proof fn buffer_is_bounded<R>(cursor: CursorView<R>, records: Seq<R>)
    requires
        cursor.buffer.len() <= cursor.batch_size,
    ensures
        pull(cursor, records).cursor.buffer.len() <= cursor.batch_size,
        pull(cursor, records).cursor.batch_size == cursor.batch_size,
{
}

/// However many pulls are made from a source, the cursor never holds more
/// records than one batch.
pub proof fn memory_is_bounded<R>(
    collection: Seq<char>,
    records: Seq<R>,
    batch_size: nat,
    pulls: nat,
)
    ensures
        run(CursorView::initial(collection, batch_size), records, pulls).cursor.buffer.len()
            <= batch_size,
        run(CursorView::initial(collection, batch_size), records, pulls).cursor.batch_size
            == batch_size,
    decreases pulls,
{
    if pulls > 0 {
        memory_is_bounded(collection, records, batch_size, (pulls - 1) as nat);
        let before = run(CursorView::initial(collection, batch_size), records, (pulls - 1) as nat);
        buffer_is_bounded(before.cursor, records);
    }
}

/// What one pull of a session gave: the session after it, its answer, and
/// the number of fetches made.
pub struct RowPull<R> {
    pub session: SessionView<R>,
    pub answer: Result<RowStepView, ScanErrorView>,
    pub fetches: nat,
}

/// One pull of a session from a source of `records`: the session is asked;
/// where it asks for a fetch, the source serves it and the session is asked
/// again with the batch.
pub open spec fn pull_row<R: IntoRow>(session: SessionView<R>, records: Seq<R>) -> RowPull<R> {
    match session.next_answer(None) {
        Ok(RowStepView::Fetch(request)) => {
            let waiting = session.after_next(None);
            let fetched: FetchedView<R> = Some(Ok(served(records, request)));
            RowPull {
                session: waiting.after_next(fetched),
                answer: waiting.next_answer(fetched),
                fetches: 1,
            }
        },
        answer => RowPull { session: session.after_next(None), answer, fetches: 0 },
    }
}

/// What a number of pulls of a session gave: the session after them, the
/// answer of each pull in turn, and the number of fetches made.
pub struct RowRun<R> {
    pub session: SessionView<R>,
    pub answers: Seq<Result<RowStepView, ScanErrorView>>,
    pub fetches: nat,
}

/// A run of a session and one more pull.
pub open spec fn extended_rows<R: IntoRow>(run: RowRun<R>, records: Seq<R>) -> RowRun<R> {
    let next = pull_row(run.session, records);
    RowRun {
        session: next.session,
        answers: run.answers.push(next.answer),
        fetches: run.fetches + next.fetches,
    }
}

/// `pulls` pulls of `session` from a source of `records`.
pub open spec fn run_rows<R: IntoRow>(
    session: SessionView<R>,
    records: Seq<R>,
    pulls: nat,
) -> RowRun<R>
    decreases pulls,
{
    if pulls == 0 {
        RowRun { session, answers: Seq::empty(), fetches: 0 }
    } else {
        extended_rows(run_rows(session, records, (pulls - 1) as nat), records)
    }
}

/// The columns of an active session.
pub open spec fn columns_of<R>(session: SessionView<R>) -> Seq<ColumnView> {
    match session.phase {
        PhaseView::Active { columns, .. } => columns,
        _ => Seq::empty(),
    }
}

/// The cursor of an active session.
pub open spec fn cursor_of<R>(session: SessionView<R>) -> CursorView<R> {
    match session.phase {
        PhaseView::Active { cursor, .. } => cursor,
        _ => CursorView::initial(Seq::empty(), 0),
    }
}

/// The answer that hands out the row of `record`.
pub open spec fn row_answer<R: IntoRow>(record: R, columns: Seq<ColumnView>) -> Result<
    RowStepView,
    ScanErrorView,
> {
    Ok(RowStepView::Row(row_spec(&record, columns)->Ok_0))
}

/// The first `k` pulls of a session give the rows of what the first `k`
/// pulls of its cursor give, with the same fetches.
proof fn lemma_scan_rows<R: IntoRow>(session: SessionView<R>, records: Seq<R>, k: nat)
    requires
        just_begun(session),
        cursor_of(session).batch_size >= 1,
        k <= records.len() <= u64::MAX,
        forall|i: int|
            0 <= i < records.len() ==> serves_all(&#[trigger] records[i], columns_of(session)),
    ensures
        ({
            let done = run_rows(session, records, k);
            let below = run(cursor_of(session), records, k);
            &&& done.session == (SessionView {
                phase: PhaseView::Active {
                    columns: columns_of(session),
                    cursor: below.cursor,
                    position: k as u64,
                },
                ..session
            })
            &&& done.fetches == below.fetches
            &&& done.answers =~= Seq::new(k, |i: int| row_answer(records[i], columns_of(session)))
        }),
    decreases k,
{
    let columns = columns_of(session);
    let start = cursor_of(session);
    if k == 0 {
    } else {
        lemma_scan_rows(session, records, (k - 1) as nat);
        let before = run_rows(session, records, (k - 1) as nat);
        let below_before = run(start, records, (k - 1) as nat);
        let done = run_rows(session, records, k);
        let below = run(start, records, k);
        assert(done == extended_rows(before, records));
        assert(below == extended(below_before, records));
        let p = lemma_scan(start.collection, records, start.batch_size, k);
        assert(below.pulled[k - 1] == Some(records[k - 1]));
        assert(pull(below_before.cursor, records).record == Some(records[k - 1]));
        assert(serves_all(&records[k - 1], columns));
        assert(advanced((k - 1) as u64) == k as u64);
        assert(done.answers =~= Seq::new(k, |i: int| row_answer(records[i], columns)));
    }
}

/// A full scan of a source of `N >= 1` records with batch size `B`, by a
/// session that has just begun and whose columns every record can serve,
/// gives in `N` pulls the rows of the records in the order of the source,
/// and makes exactly `ceil(N / B)` fetches. The pull after them gives the
/// end of the stream without a fetch, and the session is still active.
pub proof fn full_scan<R: IntoRow>(session: SessionView<R>, records: Seq<R>)
    requires
        just_begun(session),
        cursor_of(session).batch_size >= 1,
        1 <= records.len() <= u64::MAX,
        forall|i: int|
            0 <= i < records.len() ==> serves_all(&#[trigger] records[i], columns_of(session)),
    ensures
        ({
            let full = run_rows(session, records, records.len());
            let after = pull_row(full.session, records);
            &&& full.answers == Seq::new(
                records.len(),
                |i: int| row_answer(records[i], columns_of(session)),
            )
            &&& full.fetches == batches(records.len(), cursor_of(session).batch_size)
            &&& after.answer == Ok::<RowStepView, ScanErrorView>(RowStepView::EndOfStream)
            &&& after.fetches == 0
            &&& after.session == full.session
            &&& after.session.state() == SessionState::Active
        }),
{
    let start = cursor_of(session);
    lemma_scan_rows(session, records, records.len());
    full_iteration(start.collection, records, start.batch_size);
}

/// Once a pull of a session has given the end of the stream, every later
/// pull gives the end of the stream, whatever it is handed: the session
/// asks for no fetch and stays as it is.
pub proof fn scan_end_is_final<R: IntoRow>(
    session: SessionView<R>,
    fetched: FetchedView<R>,
    later: FetchedView<R>,
)
    requires
        session.next_answer(fetched) == Ok::<RowStepView, ScanErrorView>(RowStepView::EndOfStream),
    ensures
        session.after_next(fetched).next_answer(later) == Ok::<RowStepView, ScanErrorView>(
            RowStepView::EndOfStream,
        ),
        session.after_next(fetched).after_next(later) == session.after_next(fetched),
        session.after_next(fetched).state() == SessionState::Active,
{
}

/// A record that cannot be mapped ends the scan: the pull fails with the
/// mapping error and the number of rows handed out before, no row is
/// given, and the session is ended.
pub proof fn unmappable_record_ends_scan<R: IntoRow>(
    session: SessionView<R>,
    fetched: FetchedView<R>,
    record: R,
)
    requires
        session.state() == SessionState::Active,
        cursor_of(session).step(fetched) == Ok::<StepView<R>, ClientError>(
            StepView::Record(record),
        ),
        row_spec(&record, columns_of(session)) is Err,
    ensures
        session.next_answer(fetched) matches Err(ScanErrorView::Mapping { cause, .. }) && Err::<
            crate::cell::RowView,
            crate::mapper::IntoRowErrorView,
        >(cause) == row_spec(&record, columns_of(session)),
        session.after_next(fetched).state() == SessionState::Ended,
{
}

/// A failed fetch ends the scan: the pull fails with the client's error
/// and the session is ended.
pub proof fn failed_fetch_ends_scan<R: IntoRow>(session: SessionView<R>, error: ClientError)
    requires
        session.state() == SessionState::Active,
        session.next_answer(None) matches Ok(RowStepView::Fetch(_)),
    ensures
        session.next_answer(Some(Err(error))) matches Err(
            ScanErrorView::Client { error: given, .. },
        ) && given == error,
        session.after_next(Some(Err(error))).state() == SessionState::Ended,
{
}

/// The number of `true` in a schedule.
pub open spec fn turns(schedule: Seq<bool>, whose: bool) -> nat
    decreases schedule.len(),
{
    if schedule.len() == 0 {
        0
    } else {
        turns(schedule.drop_last(), whose) + if schedule.last() == whose {
            1nat
        } else {
            0nat
        }
    }
}

/// Two sessions that pull from one source in turns: at each step of the
/// schedule, `true` lets the first session pull and `false` the second.
pub open spec fn run_rows_in_turns<R: IntoRow>(
    first: SessionView<R>,
    second: SessionView<R>,
    records: Seq<R>,
    schedule: Seq<bool>,
) -> (RowRun<R>, RowRun<R>)
    decreases schedule.len(),
{
    if schedule.len() == 0 {
        (
            RowRun { session: first, answers: Seq::empty(), fetches: 0 },
            RowRun { session: second, answers: Seq::empty(), fetches: 0 },
        )
    } else {
        let (a, b) = run_rows_in_turns(first, second, records, schedule.drop_last());
        if schedule.last() {
            (extended_rows(a, records), b)
        } else {
            (a, extended_rows(b, records))
        }
    }
}

/// Two sessions over one source do not interfere: in whatever order their
/// pulls come, each session gives what it gives when it pulls alone.
pub proof fn sessions_are_independent<R: IntoRow>(
    first: SessionView<R>,
    second: SessionView<R>,
    records: Seq<R>,
    schedule: Seq<bool>,
)
    ensures
        run_rows_in_turns(first, second, records, schedule).0 == run_rows(
            first,
            records,
            turns(schedule, true),
        ),
        run_rows_in_turns(first, second, records, schedule).1 == run_rows(
            second,
            records,
            turns(schedule, false),
        ),
    decreases schedule.len(),
{
    if schedule.len() > 0 {
        sessions_are_independent(first, second, records, schedule.drop_last());
    }
}

/// Two sessions in the same state over one source give the same answers,
/// in whatever order their pulls come: of the two sequences of answers, the
/// shorter is the start of the longer.
pub proof fn equal_sessions_give_equal_rows<R: IntoRow>(
    session: SessionView<R>,
    records: Seq<R>,
    schedule: Seq<bool>,
    i: int,
)
    requires
        0 <= i < turns(schedule, true),
        i < turns(schedule, false),
    ensures
        ({
            let (a, b) = run_rows_in_turns(session, session, records, schedule);
            &&& a.answers.len() == turns(schedule, true)
            &&& b.answers.len() == turns(schedule, false)
            &&& a.answers[i] == b.answers[i]
        }),
{
    sessions_are_independent(session, session, records, schedule);
    lemma_answers_of_prefix(session, records, turns(schedule, true), i);
    lemma_answers_of_prefix(session, records, turns(schedule, false), i);
}

/// The answer of the pull `i` does not depend on how many pulls follow.
proof fn lemma_answers_of_prefix<R: IntoRow>(
    session: SessionView<R>,
    records: Seq<R>,
    pulls: nat,
    i: int,
)
    requires
        0 <= i < pulls,
    ensures
        run_rows(session, records, pulls).answers.len() == pulls,
        run_rows(session, records, pulls).answers[i] == run_rows(
            session,
            records,
            (i + 1) as nat,
        ).answers[i],
    decreases pulls,
{
    lemma_answers_len(session, records, pulls);
    if pulls > i + 1 {
        lemma_answers_of_prefix(session, records, (pulls - 1) as nat, i);
    }
}

/// Each pull gives one answer.
proof fn lemma_answers_len<R: IntoRow>(session: SessionView<R>, records: Seq<R>, pulls: nat)
    ensures
        run_rows(session, records, pulls).answers.len() == pulls,
    decreases pulls,
{
    if pulls > 0 {
        lemma_answers_len(session, records, (pulls - 1) as nat);
    }
}

} // verus!
