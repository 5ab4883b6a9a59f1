//! The paged cursor: a pull-one-record view of a source that is read in
//! batches.
//!
//! The cursor owns the continuation token and the records of the current
//! batch. It never talks to the source itself. When it needs a batch,
//! [`PagedCursor::next`] answers [`CursorStep::Fetch`] with the request to
//! make; the caller makes it and calls `next` again with what came back.
//! A cursor therefore holds at most the records of one batch, whatever the
//! size of the source.

use std::collections::VecDeque;
use vstd::prelude::*;

verus! {

/// Where the next batch of a source starts. What a token means is the
/// source's business: the cursor only stores it and hands it back.
#[derive(Debug, PartialEq, Eq)]
pub enum ContinuationToken {
    Offset(u64),
    Cursor(String),
}

/// The mathematical value of a [`ContinuationToken`].
pub enum TokenView {
    Offset(u64),
    Cursor(Seq<char>),
}

impl View for ContinuationToken {
    type V = TokenView;

    open spec fn view(&self) -> TokenView {
        match self {
            ContinuationToken::Offset(offset) => TokenView::Offset(*offset),
            ContinuationToken::Cursor(cursor) => TokenView::Cursor(cursor@),
        }
    }
}

impl Clone for ContinuationToken {
    fn clone(&self) -> (copy: Self)
        ensures
            copy@ == self@,
    {
        match self {
            ContinuationToken::Offset(offset) => ContinuationToken::Offset(*offset),
            ContinuationToken::Cursor(cursor) => ContinuationToken::Cursor(cursor.clone()),
        }
    }
}

/// The value of a token that may be absent.
pub open spec fn token_view(token: Option<ContinuationToken>) -> Option<TokenView> {
    match token {
        Some(token) => Some(token@),
        None => None,
    }
}

/// One batch of records, as the source returned it. An absent `next` says
/// that this was the last batch.
#[derive(Debug, PartialEq)]
pub struct Page<R> {
    pub records: Vec<R>,
    pub next: Option<ContinuationToken>,
}

/// The mathematical value of a [`Page`].
pub struct PageView<R> {
    pub records: Seq<R>,
    pub next: Option<TokenView>,
}

impl<R> View for Page<R> {
    type V = PageView<R>;

    open spec fn view(&self) -> PageView<R> {
        PageView { records: self.records@, next: token_view(self.next) }
    }
}

/// The fetch that the caller is asked to make: up to `limit` records of
/// `collection`, from `token` on, or from the source's start where there is
/// no token.
#[derive(Debug, PartialEq, Eq)]
pub struct FetchRequest {
    pub collection: String,
    pub token: Option<ContinuationToken>,
    pub limit: usize,
}

/// The mathematical value of a [`FetchRequest`].
pub struct FetchRequestView {
    pub collection: Seq<char>,
    pub token: Option<TokenView>,
    pub limit: nat,
}

impl View for FetchRequest {
    type V = FetchRequestView;

    open spec fn view(&self) -> FetchRequestView {
        FetchRequestView {
            collection: self.collection@,
            token: token_view(self.token),
            limit: self.limit as nat,
        }
    }
}

/// A fetch failed. The text is the transport's own.
#[derive(Debug, PartialEq, Eq)]
pub struct ClientError {
    pub message: String,
}

/// What one call of [`PagedCursor::next`] answers.
#[derive(Debug, PartialEq)]
pub enum CursorStep<R> {
    /// The next record of the source.
    Record(R),
    /// The cursor needs a batch: make this fetch and call again with its
    /// outcome.
    Fetch(FetchRequest),
    /// The source has no further record.
    EndOfStream,
}

/// The mathematical value of a [`CursorStep`].
pub enum StepView<R> {
    Record(R),
    Fetch(FetchRequestView),
    EndOfStream,
}

impl<R> View for CursorStep<R> {
    type V = StepView<R>;

    open spec fn view(&self) -> StepView<R> {
        match self {
            CursorStep::Record(record) => StepView::Record(*record),
            CursorStep::Fetch(request) => StepView::Fetch(request@),
            CursorStep::EndOfStream => StepView::EndOfStream,
        }
    }
}

/// What the caller hands to a call of `next`: nothing, or the outcome of the
/// fetch that the call before asked for.
pub type Fetched<R> = Option<Result<Page<R>, ClientError>>;

/// The mathematical value of a [`Fetched`].
pub type FetchedView<R> = Option<Result<PageView<R>, ClientError>>;

/// The value of what the caller hands in.
pub open spec fn fetched_view<R>(fetched: Fetched<R>) -> FetchedView<R> {
    match fetched {
        None => None,
        Some(Err(error)) => Some(Err(error)),
        Some(Ok(page)) => Some(Ok(page@)),
    }
}

/// The value of what a call of `next` answers.
pub open spec fn answer_view<R>(answer: Result<CursorStep<R>, ClientError>) -> Result<
    StepView<R>,
    ClientError,
> {
    match answer {
        Ok(step) => Ok(step@),
        Err(error) => Err(error),
    }
}

/// The mathematical value of a [`PagedCursor`].
pub struct CursorView<R> {
    pub collection: Seq<char>,
    pub batch_size: nat,
    /// The records of the current batch that were not handed out yet.
    pub buffer: Seq<R>,
    /// The token of the last batch that held records.
    pub token: Option<TokenView>,
    /// The source is known to have no further record.
    pub exhausted: bool,
}

impl<R> CursorView<R> {
    /// The cursor before its first fetch.
    pub open spec fn initial(collection: Seq<char>, batch_size: nat) -> CursorView<R> {
        CursorView {
            collection,
            batch_size,
            buffer: Seq::empty(),
            token: None,
            exhausted: false,
        }
    }

    /// Whether the cursor is as it was made: it holds no record and no
    /// token, and is not exhausted.
    pub open spec fn is_initial(self) -> bool {
        self == CursorView::<R>::initial(self.collection, self.batch_size)
    }

    /// An exhausted cursor holds no record.
    pub open spec fn wf(self) -> bool {
        self.exhausted ==> self.buffer.len() == 0
    }

    /// The fetch that the cursor asks for when it needs a batch.
    pub open spec fn request(self) -> FetchRequestView {
        FetchRequestView { collection: self.collection, token: self.token, limit: self.batch_size }
    }

    /// The cursor after the first buffered record was handed out. Where that
    /// was the last record of the last batch, the cursor is exhausted.
    pub open spec fn popped(self) -> CursorView<R> {
        CursorView {
            buffer: self.buffer.drop_first(),
            exhausted: self.buffer.len() == 1 && self.token is None,
            ..self
        }
    }

    /// The cursor after the batch `page` has replaced its buffer and token.
    pub open spec fn filled(self, page: PageView<R>) -> CursorView<R> {
        CursorView { buffer: page.records, token: page.next, ..self }
    }

    /// The cursor after a call of `next` with `fetched`.
    pub open spec fn after(self, fetched: FetchedView<R>) -> CursorView<R> {
        if self.exhausted {
            self
        } else if self.buffer.len() > 0 {
            self.popped()
        } else {
            match fetched {
                None => self,
                Some(Err(_)) => self,
                Some(Ok(page)) => if page.records.len() == 0 {
                    CursorView { exhausted: true, ..self }
                } else {
                    self.filled(page).popped()
                },
            }
        }
    }

    /// What a call of `next` with `fetched` answers.
    pub open spec fn step(self, fetched: FetchedView<R>) -> Result<StepView<R>, ClientError> {
        if self.exhausted {
            Ok(StepView::EndOfStream)
        } else if self.buffer.len() > 0 {
            Ok(StepView::Record(self.buffer[0]))
        } else {
            match fetched {
                None => Ok(StepView::Fetch(self.request())),
                Some(Err(error)) => Err(error),
                Some(Ok(page)) => if page.records.len() == 0 {
                    Ok(StepView::EndOfStream)
                } else {
                    Ok(StepView::Record(page.records[0]))
                },
            }
        }
    }
}

/// A pull-based, batched iterator over the records of one collection.
pub struct PagedCursor<R> {
    collection: String,
    batch_size: usize,
    buffer: VecDeque<R>,
    token: Option<ContinuationToken>,
    exhausted: bool,
}

impl<R> View for PagedCursor<R> {
    type V = CursorView<R>;

    closed spec fn view(&self) -> CursorView<R> {
        CursorView {
            collection: self.collection@,
            batch_size: self.batch_size as nat,
            buffer: self.buffer@,
            token: token_view(self.token),
            exhausted: self.exhausted,
        }
    }
}

impl<R> PagedCursor<R> {
    /// A cursor over `collection` that reads up to `batch_size` records at a
    /// time. Nothing is fetched yet.
    pub fn new(collection: &str, batch_size: usize) -> (cursor: PagedCursor<R>)
        ensures
            cursor@ == CursorView::<R>::initial(collection@, batch_size as nat),
    {
        PagedCursor {
            collection: String::from_str(collection),
            batch_size,
            buffer: VecDeque::new(),
            token: None,
            exhausted: false,
        }
    }

    /// Whether the cursor is as it was made: nothing was fetched into it.
    pub fn is_initial(&self) -> (initial: bool)
        ensures
            initial == self@.is_initial(),
    {
        let initial = self.buffer.len() == 0 && self.token.is_none() && !self.exhausted;
        proof {
            if initial {
                assert(self@.buffer =~= Seq::<R>::empty());
            }
        }
        initial
    }

    /// Whether the source is known to have no further record.
    pub fn is_exhausted(&self) -> (exhausted: bool)
        ensures
            exhausted == self@.exhausted,
    {
        self.exhausted
    }

    /// The number of records that are buffered.
    pub fn buffered(&self) -> (count: usize)
        ensures
            count == self@.buffer.len(),
    {
        self.buffer.len()
    }

    /// The fetch to make for the next batch.
    fn request(&self) -> (request: FetchRequest)
        ensures
            request@ == self@.request(),
    {
        let token = match &self.token {
            Some(token) => Some(token.clone()),
            None => None,
        };
        FetchRequest { collection: self.collection.clone(), token, limit: self.batch_size }
    }

    /// Moves `records` into the empty buffer, in their order.
    fn fill(&mut self, records: Vec<R>)
        requires
            old(self).buffer@.len() == 0,
        ensures
            final(self).buffer@ == records@,
            final(self).collection == old(self).collection,
            final(self).batch_size == old(self).batch_size,
            final(self).token == old(self).token,
            final(self).exhausted == old(self).exhausted,
    {
        let mut records = records;
        let ghost all = records@;
        while records.len() > 0
            invariant
                records@.len() <= all.len(),
                records@ == all.subrange(0, records@.len() as int),
                self.buffer@ == all.subrange(records@.len() as int, all.len() as int),
                self.collection == old(self).collection,
                self.batch_size == old(self).batch_size,
                self.token == old(self).token,
                self.exhausted == old(self).exhausted,
            decreases records@.len(),
        {
            match records.pop() {
                Some(record) => {
                    self.buffer.push_front(record);
                },
                None => {},
            }
        }
        assert(self.buffer@ =~= all);
    }

    /// Hands out the first buffered record.
    fn pop(&mut self) -> (record: R)
        requires
            old(self).buffer@.len() > 0,
            !old(self).exhausted,
        ensures
            final(self)@ == old(self)@.popped(),
            record == old(self)@.buffer[0],
    {
        let front = self.buffer.pop_front();
        if self.buffer.len() == 0 && self.token.is_none() {
            self.exhausted = true;
        }
        front.unwrap()
    }

    /// One pull.
    ///
    /// An exhausted cursor answers `EndOfStream`. A cursor with buffered
    /// records hands out the first. In both cases `fetched` is not looked
    /// at. A cursor that needs a batch answers by what `fetched` holds:
    /// nothing, then it asks for the fetch and stays as it is; a failure,
    /// then it passes the error on and stays as it is, so that the caller
    /// may try again; a batch without records, then the cursor is exhausted;
    /// a batch with records, then the batch and its token replace what the
    /// cursor held, and the first record is handed out.
    pub fn next(&mut self, fetched: Fetched<R>) -> (answer: Result<CursorStep<R>, ClientError>)
        ensures
            final(self)@ == old(self)@.after(fetched_view(fetched)),
            answer_view(answer) == old(self)@.step(fetched_view(fetched)),
    {
        if self.exhausted {
            return Ok(CursorStep::EndOfStream);
        }
        if self.buffer.len() > 0 {
            let record = self.pop();
            return Ok(CursorStep::Record(record));
        }
        match fetched {
            None => Ok(CursorStep::Fetch(self.request())),
            Some(Err(error)) => Err(error),
            Some(Ok(page)) => {
                let Page { records, next } = page;
                if records.len() == 0 {
                    self.exhausted = true;
                    Ok(CursorStep::EndOfStream)
                } else {
                    self.fill(records);
                    self.token = next;
                    let record = self.pop();
                    Ok(CursorStep::Record(record))
                }
            },
        }
    }
}

} // verus!
