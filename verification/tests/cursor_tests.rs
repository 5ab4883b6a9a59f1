use wrappers::cursor::{ClientError, ContinuationToken, CursorStep, FetchRequest, Page, PagedCursor};

/// A source of the numbers `0..count`, served by offset, that counts its
/// fetches.
struct Numbers {
    count: u64,
    fetches: usize,
}

impl Numbers {
    fn fetch(&mut self, request: &FetchRequest) -> Result<Page<u64>, ClientError> {
        self.fetches += 1;
        let start = match &request.token {
            Some(ContinuationToken::Offset(offset)) => *offset,
            _ => 0,
        };
        let end = std::cmp::min(start + request.limit as u64, self.count);
        let next = if end < self.count { Some(ContinuationToken::Offset(end)) } else { None };
        Ok(Page { records: (start..end).collect(), next })
    }
}

fn pull(cursor: &mut PagedCursor<u64>, source: &mut Numbers) -> Option<u64> {
    match cursor.next(None) {
        Ok(CursorStep::Record(record)) => Some(record),
        Ok(CursorStep::EndOfStream) => None,
        Ok(CursorStep::Fetch(request)) => {
            let fetched = source.fetch(&request);
            match cursor.next(Some(fetched)) {
                Ok(CursorStep::Record(record)) => Some(record),
                Ok(CursorStep::EndOfStream) => None,
                other => panic!("{:?}", other),
            }
        }
        Err(error) => panic!("{:?}", error),
    }
}

fn scan(count: u64, batch_size: usize) -> (Vec<u64>, usize) {
    let mut source = Numbers { count, fetches: 0 };
    let mut cursor = PagedCursor::new("numbers", batch_size);
    let mut pulled = Vec::new();
    for _ in 0..count {
        match pull(&mut cursor, &mut source) {
            Some(record) => pulled.push(record),
            None => panic!("the stream ended early"),
        }
    }
    assert_eq!(pull(&mut cursor, &mut source), None);
    assert!(cursor.is_exhausted());
    let fetches = source.fetches;
    assert_eq!(pull(&mut cursor, &mut source), None);
    assert_eq!(source.fetches, fetches);
    (pulled, fetches)
}

fn request(token: Option<ContinuationToken>, limit: usize) -> FetchRequest {
    FetchRequest { collection: "points".to_string(), token, limit }
}

#[test]
fn a_new_cursor_has_fetched_nothing() {
    let cursor: PagedCursor<u64> = PagedCursor::new("points", 10);
    assert!(!cursor.is_exhausted());
    assert_eq!(cursor.buffered(), 0);
}

#[test]
fn the_first_pull_asks_for_the_first_batch() {
    let mut cursor: PagedCursor<u64> = PagedCursor::new("points", 10);
    assert_eq!(cursor.next(None), Ok(CursorStep::Fetch(request(None, 10))));
    assert_eq!(cursor.next(None), Ok(CursorStep::Fetch(request(None, 10))));
    assert!(!cursor.is_exhausted());
}

#[test]
fn five_records_in_batches_of_two_take_three_fetches() {
    let (pulled, fetches) = scan(5, 2);
    assert_eq!(pulled, vec![0, 1, 2, 3, 4]);
    assert_eq!(fetches, 3);
}

#[test]
fn four_records_in_batches_of_two_take_two_fetches() {
    let (pulled, fetches) = scan(4, 2);
    assert_eq!(pulled, vec![0, 1, 2, 3]);
    assert_eq!(fetches, 2);
}

#[test]
fn a_batch_larger_than_the_source_takes_one_fetch() {
    let (pulled, fetches) = scan(3, 1000);
    assert_eq!(pulled, vec![0, 1, 2]);
    assert_eq!(fetches, 1);
}

#[test]
fn batches_of_one_take_a_fetch_for_each_record() {
    let (pulled, fetches) = scan(4, 1);
    assert_eq!(pulled, vec![0, 1, 2, 3]);
    assert_eq!(fetches, 4);
}

#[test]
fn one_record_takes_one_fetch() {
    let (pulled, fetches) = scan(1, 2);
    assert_eq!(pulled, vec![0]);
    assert_eq!(fetches, 1);
}

#[test]
fn an_empty_source_takes_one_fetch() {
    let (pulled, fetches) = scan(0, 2);
    assert_eq!(pulled, Vec::<u64>::new());
    assert_eq!(fetches, 1);
}

#[test]
fn the_buffer_holds_at_most_one_batch() {
    let mut source = Numbers { count: 10, fetches: 0 };
    let mut cursor = PagedCursor::new("numbers", 3);
    for _ in 0..10 {
        assert!(pull(&mut cursor, &mut source).is_some());
        assert!(cursor.buffered() < 3);
    }
}

#[test]
fn pages_with_a_cursor_token() {
    let mut cursor: PagedCursor<&str> = PagedCursor::new("points", 2);
    assert_eq!(cursor.next(None), Ok(CursorStep::Fetch(request(None, 2))));
    let first = Page { records: vec!["a", "b"], next: Some(ContinuationToken::Cursor("p2".to_string())) };
    assert_eq!(cursor.next(Some(Ok(first))), Ok(CursorStep::Record("a")));
    assert_eq!(cursor.buffered(), 1);
    assert_eq!(cursor.next(None), Ok(CursorStep::Record("b")));
    assert!(!cursor.is_exhausted());
    assert_eq!(
        cursor.next(None),
        Ok(CursorStep::Fetch(request(Some(ContinuationToken::Cursor("p2".to_string())), 2)))
    );
    let second = Page { records: vec!["c"], next: None };
    assert_eq!(cursor.next(Some(Ok(second))), Ok(CursorStep::Record("c")));
    assert!(cursor.is_exhausted());
    assert_eq!(cursor.next(None), Ok(CursorStep::EndOfStream));
    assert_eq!(cursor.next(None), Ok(CursorStep::EndOfStream));
}

#[test]
fn a_last_batch_with_a_token_costs_one_more_fetch() {
    let mut cursor: PagedCursor<u64> = PagedCursor::new("points", 2);
    let first = Page { records: vec![1, 2], next: Some(ContinuationToken::Offset(2)) };
    assert_eq!(cursor.next(Some(Ok(first))), Ok(CursorStep::Record(1)));
    assert_eq!(cursor.next(None), Ok(CursorStep::Record(2)));
    assert!(!cursor.is_exhausted());
    assert_eq!(
        cursor.next(None),
        Ok(CursorStep::Fetch(request(Some(ContinuationToken::Offset(2)), 2)))
    );
    let empty = Page { records: vec![], next: None };
    assert_eq!(cursor.next(Some(Ok(empty))), Ok(CursorStep::EndOfStream));
    assert!(cursor.is_exhausted());
}

#[test]
fn an_empty_batch_ends_the_stream_even_with_a_token() {
    let mut cursor: PagedCursor<u64> = PagedCursor::new("points", 2);
    let empty = Page { records: vec![], next: Some(ContinuationToken::Offset(9)) };
    assert_eq!(cursor.next(Some(Ok(empty))), Ok(CursorStep::EndOfStream));
    assert!(cursor.is_exhausted());
    assert_eq!(cursor.next(None), Ok(CursorStep::EndOfStream));
}

#[test]
fn a_failed_fetch_leaves_the_cursor_as_it_was() {
    let mut cursor: PagedCursor<u64> = PagedCursor::new("points", 2);
    let first = Page { records: vec![1], next: Some(ContinuationToken::Offset(1)) };
    assert_eq!(cursor.next(Some(Ok(first))), Ok(CursorStep::Record(1)));
    let failure = ClientError { message: "connection reset".to_string() };
    assert_eq!(
        cursor.next(Some(Err(failure))),
        Err(ClientError { message: "connection reset".to_string() })
    );
    assert!(!cursor.is_exhausted());
    assert_eq!(cursor.buffered(), 0);
    assert_eq!(
        cursor.next(None),
        Ok(CursorStep::Fetch(request(Some(ContinuationToken::Offset(1)), 2)))
    );
    let second = Page { records: vec![2], next: None };
    assert_eq!(cursor.next(Some(Ok(second))), Ok(CursorStep::Record(2)));
    assert_eq!(cursor.next(None), Ok(CursorStep::EndOfStream));
}

#[test]
fn a_batch_that_was_not_asked_for_is_not_looked_at() {
    let mut cursor: PagedCursor<u64> = PagedCursor::new("points", 3);
    let first = Page { records: vec![1, 2], next: None };
    assert_eq!(cursor.next(Some(Ok(first))), Ok(CursorStep::Record(1)));
    let stray = Page { records: vec![7, 8, 9], next: Some(ContinuationToken::Offset(3)) };
    assert_eq!(cursor.next(Some(Ok(stray))), Ok(CursorStep::Record(2)));
    assert!(cursor.is_exhausted());
    let late = Page { records: vec![7], next: None };
    assert_eq!(cursor.next(Some(Ok(late))), Ok(CursorStep::EndOfStream));
    let failure = ClientError { message: "late".to_string() };
    assert_eq!(cursor.next(Some(Err(failure))), Ok(CursorStep::EndOfStream));
}

#[test]
fn the_end_of_the_stream_stays() {
    let mut source = Numbers { count: 2, fetches: 0 };
    let mut cursor = PagedCursor::new("numbers", 2);
    assert_eq!(pull(&mut cursor, &mut source), Some(0));
    assert_eq!(pull(&mut cursor, &mut source), Some(1));
    for _ in 0..20 {
        assert_eq!(pull(&mut cursor, &mut source), None);
    }
    assert_eq!(source.fetches, 1);
}

#[test]
fn a_batch_size_of_zero_is_passed_on() {
    let mut cursor: PagedCursor<u64> = PagedCursor::new("points", 0);
    assert_eq!(cursor.next(None), Ok(CursorStep::Fetch(request(None, 0))));
}

#[test]
fn a_token_copy_is_equal() {
    let offset = ContinuationToken::Offset(u64::MAX);
    assert_eq!(offset.clone(), offset);
    let cursor = ContinuationToken::Cursor("p2".to_string());
    assert_eq!(cursor.clone(), cursor);
}

#[test]
fn a_cursor_is_initial_until_a_batch_arrives() {
    let mut cursor: PagedCursor<u64> = PagedCursor::new("points", 2);
    assert!(cursor.is_initial());
    assert!(matches!(cursor.next(None), Ok(CursorStep::Fetch(_))));
    assert!(cursor.is_initial());
    let failure = ClientError { message: "m".to_string() };
    assert!(cursor.next(Some(Err(failure))).is_err());
    assert!(cursor.is_initial());
    let page = Page { records: vec![1, 2], next: None };
    assert_eq!(cursor.next(Some(Ok(page))), Ok(CursorStep::Record(1)));
    assert!(!cursor.is_initial());
    assert_eq!(cursor.next(None), Ok(CursorStep::Record(2)));
    assert!(!cursor.is_initial());

    let mut empty: PagedCursor<u64> = PagedCursor::new("points", 2);
    assert_eq!(empty.next(Some(Ok(Page { records: vec![], next: None }))), Ok(CursorStep::EndOfStream));
    assert!(!empty.is_initial());
}
