use libsql_python::cursor::{Cursor, ExecAction, ExecEvent, Execution, Phase};
use libsql_python::error::Error;

/// A result stream that, like some engine streams, starts over once polled
/// past its end.
struct Stream {
    rows: usize,
    next: usize,
    polls: usize,
}

impl Stream {
    fn new(rows: usize) -> Stream {
        Stream { rows, next: 0, polls: 0 }
    }

    fn poll(&mut self) -> Option<usize> {
        self.polls += 1;
        if self.next < self.rows {
            self.next += 1;
            Some(self.next)
        } else {
            self.next = 0;
            None
        }
    }
}

/// Runs one fetch the way a connection drives it.
fn fetch(c: &mut Cursor, s: &mut Stream, wanted: Option<usize>) -> Result<Vec<usize>, Error> {
    let mut batch = c.start_batch(wanted)?;
    let mut out = Vec::new();
    while c.should_poll(&batch) {
        match s.poll() {
            Some(row) => {
                out.push(row);
                c.row_received(&mut batch);
            }
            None => c.stream_ended(),
        }
    }
    Ok(out)
}

/// Runs one successful execution without parameters: a query when
/// `streaming`, reporting `changes` changed rows.
fn run(c: &mut Cursor, streaming: bool, changes: u64) {
    let mut ex = Execution::new("SELECT 1".to_string(), None);
    assert_eq!(c.step(&mut ex, ExecEvent::Proceed), ExecAction::ReadAutocommit);
    assert_eq!(c.step(&mut ex, ExecEvent::Autocommit(true)), ExecAction::Prepare(None));
    let columns = if streaming { 1 } else { 0 };
    assert_eq!(c.step(&mut ex, ExecEvent::Prepared(columns)), ExecAction::Run { query: streaming });
    assert_eq!(c.step(&mut ex, ExecEvent::Ran(changes)), ExecAction::Finished);
}

fn streaming_cursor() -> Cursor {
    let mut c = Cursor::new(true);
    run(&mut c, true, 0);
    c
}

#[test]
fn fetchmany_batches_then_stays_exhausted() {
    let mut c = streaming_cursor();
    let mut s = Stream::new(5);
    let n = c.batch_size(Some(2));
    let sizes: Vec<usize> = (0..5).map(|_| fetch(&mut c, &mut s, Some(n)).unwrap().len()).collect();
    assert_eq!(sizes, vec![2, 2, 1, 0, 0]);
    assert_eq!(c.phase(), Phase::Exhausted);
    // Five rows and one poll that found the end; none after that.
    assert_eq!(s.polls, 6);
}

#[test]
fn fetchmany_of_exact_multiple_needs_one_more_call() {
    let mut c = streaming_cursor();
    let mut s = Stream::new(4);
    assert_eq!(fetch(&mut c, &mut s, Some(2)).unwrap(), vec![1, 2]);
    assert_eq!(fetch(&mut c, &mut s, Some(2)).unwrap(), vec![3, 4]);
    assert_eq!(c.phase(), Phase::Streaming);
    assert_eq!(fetch(&mut c, &mut s, Some(2)).unwrap(), Vec::<usize>::new());
    assert_eq!(c.phase(), Phase::Exhausted);
    assert_eq!(fetch(&mut c, &mut s, Some(2)).unwrap(), Vec::<usize>::new());
    assert_eq!(s.polls, 5);
}

#[test]
fn fetchall_on_empty_result_is_empty() {
    let mut c = streaming_cursor();
    let mut s = Stream::new(0);
    assert_eq!(fetch(&mut c, &mut s, None), Ok(vec![]));
    assert_eq!(c.phase(), Phase::Exhausted);
}

#[test]
fn fetchall_takes_every_row_once() {
    let mut c = streaming_cursor();
    let mut s = Stream::new(3);
    assert_eq!(fetch(&mut c, &mut s, None), Ok(vec![1, 2, 3]));
    assert_eq!(fetch(&mut c, &mut s, None), Ok(vec![]));
    assert_eq!(s.polls, 4);
}

#[test]
fn fetchone_marks_exhaustion_too() {
    let mut c = streaming_cursor();
    let mut s = Stream::new(1);
    assert_eq!(fetch(&mut c, &mut s, Some(1)), Ok(vec![1]));
    assert_eq!(fetch(&mut c, &mut s, Some(1)), Ok(vec![]));
    assert_eq!(fetch(&mut c, &mut s, Some(1)), Ok(vec![]));
    assert_eq!(s.polls, 2);
}

#[test]
fn fetch_of_zero_rows_never_polls() {
    let mut c = streaming_cursor();
    let mut s = Stream::new(3);
    assert_eq!(fetch(&mut c, &mut s, Some(0)), Ok(vec![]));
    assert_eq!(s.polls, 0);
    assert_eq!(c.phase(), Phase::Streaming);
}

#[test]
fn new_execute_reopens_the_stream() {
    let mut c = streaming_cursor();
    let mut s = Stream::new(1);
    assert_eq!(fetch(&mut c, &mut s, None), Ok(vec![1]));
    assert_eq!(c.phase(), Phase::Exhausted);
    run(&mut c, true, 0);
    let mut s = Stream::new(2);
    assert_eq!(fetch(&mut c, &mut s, None), Ok(vec![1, 2]));
}

#[test]
fn fetch_without_result_stream_fails() {
    let c = Cursor::new(true);
    assert!(matches!(c.start_batch(None), Err(Error::NoResultSet)));
    let mut c = Cursor::new(true);
    run(&mut c, false, 1);
    assert!(matches!(c.start_batch(Some(1)), Err(Error::NoResultSet)));
}

#[test]
fn closed_cursor_refuses_fetch_and_execute() {
    let mut c = streaming_cursor();
    c.close();
    assert_eq!(c.phase(), Phase::Closed);
    assert!(matches!(c.start_batch(None), Err(Error::Closed)));
    assert!(matches!(c.start_batch(Some(1)), Err(Error::Closed)));
    assert_eq!(c.ensure_open(), Err(Error::Closed));
    assert_eq!(c.lastrowid(5), None);
}

#[test]
fn closing_twice_is_harmless() {
    let mut c = Cursor::new(false);
    c.close();
    c.close();
    assert_eq!(c.phase(), Phase::Closed);
    assert_eq!(c.ensure_open(), Err(Error::Closed));
}

#[test]
fn executemany_sums_changes() {
    let mut c = Cursor::new(false);
    assert_eq!(c.rowcount(), 0);
    for changes in [1u64, 3, 2] {
        assert_eq!(c.ensure_open(), Ok(()));
        run(&mut c, false, changes);
    }
    assert_eq!(c.rowcount(), 6);
    run(&mut c, true, 0);
    assert_eq!(c.rowcount(), 6);
}

#[test]
fn rowcount_holds_at_largest_value() {
    let mut c = Cursor::new(true);
    run(&mut c, false, u64::MAX);
    assert_eq!(c.rowcount(), i64::MAX);
    run(&mut c, false, 1);
    assert_eq!(c.rowcount(), i64::MAX);
    let mut c = Cursor::new(true);
    run(&mut c, false, (i64::MAX - 1) as u64);
    run(&mut c, false, 1);
    assert_eq!(c.rowcount(), i64::MAX);
}

#[test]
fn lastrowid_follows_the_connection_once_prepared() {
    let mut c = Cursor::new(true);
    assert_eq!(c.lastrowid(17), None);
    run(&mut c, false, 1);
    assert_eq!(c.lastrowid(17), Some(17));
    // An insert made through another cursor moves the connection's row id.
    assert_eq!(c.lastrowid(18), Some(18));
    assert!(c.has_statement());
}

#[test]
fn batch_size_defaults_to_arraysize() {
    let mut c = Cursor::new(true);
    assert_eq!(c.arraysize(), 1);
    assert_eq!(c.batch_size(None), 1);
    c.set_arraysize(4);
    assert_eq!(c.batch_size(None), 4);
    assert_eq!(c.batch_size(Some(3)), 3);
    assert_eq!(c.batch_size(Some(0)), 0);
    assert_eq!(c.batch_size(Some(-5)), 0);
}

#[test]
fn cursor_begins_only_outside_autocommit() {
    let c = Cursor::new(false);
    assert!(c.needs_begin(" insert into t values (1)", true));
    assert!(!c.needs_begin("select 1", true));
    let c = Cursor::new(true);
    assert!(!c.needs_begin("INSERT INTO t VALUES (1)", true));
}
