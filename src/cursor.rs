//! The cursor's statement-execution and row-streaming state machine.
//!
//! The cursor decides; its owner talks to the engine. An execution is driven
//! by [`Cursor::step`]: each call takes what the engine reported and says
//! what to do next. A fetch runs as [`Cursor::start_batch`],
//! then, while [`Cursor::should_poll`] allows, one poll of the result stream
//! reported back with [`Cursor::row_received`] or [`Cursor::stream_ended`].
use crate::error::Error;
use crate::policy::{begins_transaction, needs_begin};
use crate::value::{all_bound, bound_value, encode_params, probe_models, ParamProbe, ProbeModel, Value};
use vstd::prelude::*;

verus! {

/// Where a cursor stands.
#[derive(Clone, Copy, Debug, PartialEq, Eq, Structural)]
pub enum Phase {
    /// Made, with nothing executed yet.
    Idle,
    /// A statement that yields no rows has run.
    Executed,
    /// A result stream is open and may still yield rows.
    Streaming,
    /// The result stream has reported its end and is never polled again.
    Exhausted,
    /// Closed: statement, stream and connection reference are released.
    Closed,
}

/// Whether a prepared statement is held in phase `p`.
pub open spec fn holds_statement(p: Phase) -> bool {
    p == Phase::Executed || p == Phase::Streaming || p == Phase::Exhausted
}

/// Whether a result stream is held in phase `p`.
pub open spec fn holds_stream(p: Phase) -> bool {
    p == Phase::Streaming || p == Phase::Exhausted
}

/// The largest row count a cursor reports.
pub open spec fn rowcount_max() -> int {
    i64::MAX as int
}

/// The row count after a statement that changed `changes` rows: the sum,
/// held at the largest `i64`.
pub open spec fn add_changes(rowcount: int, changes: int) -> int {
    if rowcount + changes <= rowcount_max() {
        rowcount + changes
    } else {
        rowcount_max()
    }
}

/// The row count after statements that changed `changes[0]`, `changes[1]`, ...
/// rows, in order.
pub open spec fn accumulate(rowcount: int, changes: Seq<u64>) -> int
    decreases changes.len(),
{
    if changes.len() == 0 {
        rowcount
    } else {
        add_changes(accumulate(rowcount, changes.drop_last()), changes.last() as int)
    }
}

/// The sum of `changes`.
pub open spec fn sum(changes: Seq<u64>) -> int
    decreases changes.len(),
{
    if changes.len() == 0 {
        0
    } else {
        sum(changes.drop_last()) + changes.last()
    }
}

/// One fetch in progress: how many more rows it wants, with `None` for all.
pub struct Batch {
    pub wanted: Option<usize>,
}

/// Whether a fetch may poll the stream: a stream is open and not exhausted,
/// and the fetch wants more rows.
pub open spec fn poll_allowed(phase: Phase, wanted: Option<usize>) -> bool {
    phase == Phase::Streaming && wanted != Some(0usize)
}

/// How many more rows a fetch wants after receiving one.
pub open spec fn one_fewer(wanted: Option<usize>) -> Option<usize> {
    match wanted {
        Some(k) => Some((k - 1) as usize),
        None => None,
    }
}

/// The outcome of one fetch against a stream that holds `rows` more rows:
/// the rows taken, the phase after it, and the rows the stream still holds.
/// Each step is one decision of [`Cursor::should_poll`] and, where it
/// allows, one poll of the stream.
pub open spec fn run_batch(phase: Phase, rows: nat, wanted: Option<usize>) -> (nat, Phase, nat)
    decreases rows,
{
    if !poll_allowed(phase, wanted) {
        (0, phase, rows)
    } else if rows == 0 {
        (0, Phase::Exhausted, 0)
    } else {
        let next = run_batch(phase, (rows - 1) as nat, one_fewer(wanted));
        (next.0 + 1, next.1, next.2)
    }
}

/// Where one execution of a statement stands.
#[derive(Clone, Copy, Debug, PartialEq, Eq, Structural)]
pub enum ExecStage {
    /// Nothing done yet.
    Start,
    /// Waiting for the engine's autocommit state.
    ReadingAutocommit,
    /// Waiting for the implicit `BEGIN` to complete.
    Beginning,
    /// Waiting for the statement to be prepared.
    Preparing,
    /// Waiting for the statement to run, as a query when `streaming`.
    Running { streaming: bool },
    /// Finished or failed; no further step.
    Done,
}

/// What the engine reported to an execution.
pub enum ExecEvent {
    /// Go on: the first step, or the implicit `BEGIN` completed.
    Proceed,
    /// The engine's autocommit state.
    Autocommit(bool),
    /// The statement was prepared with this many result columns.
    Prepared(usize),
    /// The statement ran and the engine reports this many changed rows.
    Ran(u64),
    /// The engine failed with this message.
    Failed(String),
}

/// What the owner of an execution does next.
#[derive(Debug, PartialEq, Eq)]
pub enum ExecAction {
    /// Read the engine's autocommit state.
    ReadAutocommit,
    /// Issue `BEGIN`.
    SendBegin,
    /// Prepare the statement; it runs with these positional parameters.
    Prepare(Option<Vec<Value>>),
    /// Run the prepared statement, as a query when `query`.
    Run { query: bool },
    /// The execution is recorded; the statement and stream replace the old.
    Finished,
    /// The execution failed; the cursor is left as it was.
    Fail(Error),
}

/// One execution of a statement with its parameters.
pub struct Execution {
    stage: ExecStage,
    sql: String,
    params: Option<Vec<ParamProbe>>,
}

/// The mathematical form of an [`Execution`].
pub struct ExecutionModel {
    pub stage: ExecStage,
    pub sql: Seq<char>,
    pub params: Option<Seq<ProbeModel>>,
}

impl View for Execution {
    type V = ExecutionModel;

    closed spec fn view(&self) -> ExecutionModel {
        ExecutionModel {
            stage: self.stage,
            sql: self.sql@,
            params: match self.params {
                Some(ps) => Some(probe_models(ps@)),
                None => None,
            },
        }
    }
}

/// Whether `ev` is an event an execution at `stage` waits for.
pub open spec fn expects(stage: ExecStage, ev: ExecEvent) -> bool {
    match stage {
        ExecStage::Start => ev is Proceed,
        ExecStage::ReadingAutocommit => ev is Autocommit || ev is Failed,
        ExecStage::Beginning => ev is Proceed || ev is Failed,
        ExecStage::Preparing => ev is Prepared || ev is Failed,
        ExecStage::Running { .. } => ev is Ran || ev is Failed,
        ExecStage::Done => false,
    }
}

/// The step that binds the parameters: without parameters, or when every
/// one can be bound, the statement is prepared with the bound values;
/// otherwise the execution fails with [`Error::UnsupportedParameter`].
pub open spec fn binds(params: Option<Seq<ProbeModel>>, r: ExecAction, stage: ExecStage) -> bool {
    match params {
        None => r matches ExecAction::Prepare(None) && stage == ExecStage::Preparing,
        Some(ps) => if all_bound(ps) {
            &&& r matches ExecAction::Prepare(Some(vs))
            &&& r->Prepare_0->0@.len() == ps.len()
            &&& forall|i: int|
                0 <= i < ps.len() ==> Some(#[trigger] r->Prepare_0->0@[i]@) == bound_value(ps[i])
            &&& stage == ExecStage::Preparing
        } else {
            r matches ExecAction::Fail(Error::UnsupportedParameter) && stage == ExecStage::Done
        },
    }
}

impl Execution {
    /// An execution of `sql` with positional parameters `params`.
    pub fn new(sql: String, params: Option<Vec<ParamProbe>>) -> (r: Execution)
        ensures
            r@.stage == ExecStage::Start,
            r@.sql == sql@,
            r@.params == match params {
                Some(ps) => Some(probe_models(ps@)),
                None => None::<Seq<ProbeModel>>,
            },
    {
        Execution { stage: ExecStage::Start, sql, params }
    }

    /// The statement text.
    pub fn sql(&self) -> (r: &str)
        ensures
            r@ == self@.sql,
    {
        self.sql.as_str()
    }

    /// Where the execution stands.
    pub fn stage(&self) -> (r: ExecStage)
        ensures
            r == self@.stage,
    {
        self.stage
    }

    /// Binds the parameters, the step before prepare.
    fn bind(&mut self) -> (r: ExecAction)
        ensures
            binds(old(self)@.params, r, final(self)@.stage),
            final(self)@.sql == old(self)@.sql,
    {
        match self.params.take() {
            None => {
                self.stage = ExecStage::Preparing;
                ExecAction::Prepare(None)
            },
            Some(ps) => match encode_params(ps) {
                Ok(vs) => {
                    self.stage = ExecStage::Preparing;
                    ExecAction::Prepare(Some(vs))
                },
                Err(e) => {
                    self.stage = ExecStage::Done;
                    ExecAction::Fail(e)
                },
            },
        }
    }
}

/// A cursor over one connection.
pub struct Cursor {
    arraysize: usize,
    phase: Phase,
    rowcount: i64,
    autocommit: bool,
}

/// The mathematical form of a [`Cursor`].
pub struct CursorModel {
    /// Rows fetched by a `fetchmany` without a size.
    pub arraysize: usize,
    pub phase: Phase,
    /// The rows changed by the statements this cursor ran, summed.
    pub rowcount: int,
    /// Whether this cursor's statements run in autocommit mode, fixed when
    /// it was made.
    pub autocommit: bool,
}

impl View for Cursor {
    type V = CursorModel;

    closed spec fn view(&self) -> CursorModel {
        CursorModel {
            arraysize: self.arraysize,
            phase: self.phase,
            rowcount: self.rowcount as int,
            autocommit: self.autocommit,
        }
    }
}

impl Cursor {
    #[verifier::type_invariant]
    spec fn inv(&self) -> bool {
        self.rowcount >= 0
    }

    /// A cursor with nothing executed yet.
    pub fn new(autocommit: bool) -> (r: Cursor)
        ensures
            r@ == (CursorModel { arraysize: 1, phase: Phase::Idle, rowcount: 0, autocommit }),
    {
        Cursor { arraysize: 1, phase: Phase::Idle, rowcount: 0, autocommit }
    }

    /// Fails with [`Error::Closed`] exactly when the cursor is closed: the
    /// first step of every execution.
    pub fn ensure_open(&self) -> (r: Result<(), Error>)
        ensures
            self@.phase == Phase::Closed ==> r matches Err(Error::Closed),
            self@.phase != Phase::Closed ==> r is Ok,
    {
        match self.phase {
            Phase::Closed => Err(Error::Closed),
            _ => Ok(()),
        }
    }

    /// Whether an implicit `BEGIN` must precede `sql` on this cursor.
    pub fn needs_begin(&self, sql: &str, engine_autocommit: bool) -> (r: bool)
        ensures
            r == begins_transaction(self@.autocommit, sql@, engine_autocommit),
    {
        needs_begin(self.autocommit, sql, engine_autocommit)
    }

    /// Records a statement that ran: it replaces the previous one, a query
    /// leaves a fresh stream open, and the rows it changed are added to the
    /// row count.
    fn executed(&mut self, streaming: bool, changes: u64)
        requires
            old(self)@.phase != Phase::Closed,
        ensures
            final(self)@.phase == if streaming {
                Phase::Streaming
            } else {
                Phase::Executed
            },
            final(self)@.rowcount == add_changes(old(self)@.rowcount, changes as int),
            final(self)@.arraysize == old(self)@.arraysize,
            final(self)@.autocommit == old(self)@.autocommit,
    {
        proof {
            use_type_invariant(&*self);
        }
        self.phase = if streaming {
            Phase::Streaming
        } else {
            Phase::Executed
        };
        let room = (i64::MAX - self.rowcount) as u64;
        self.rowcount = if changes > room {
            i64::MAX
        } else {
            self.rowcount + changes as i64
        };
    }

    /// One step of an execution: takes what the engine reported and says
    /// what to do next. In order: a closed cursor fails before any engine
    /// call; the engine's autocommit state is read; an implicit `BEGIN` is
    /// sent where the policy asks for one; the parameters are bound; the
    /// statement is prepared and then run, as a query when it has result
    /// columns. Only a completed run changes the cursor: it records the new
    /// statement and adds the changed rows. Any failure ends the execution
    /// and leaves the cursor, its statement, stream and row count as they
    /// were.
    pub fn step(&mut self, ex: &mut Execution, ev: ExecEvent) -> (r: ExecAction)
        requires
            expects(old(ex)@.stage, ev),
            old(ex)@.stage != ExecStage::Start ==> old(self)@.phase != Phase::Closed,
        ensures
            final(ex)@.sql == old(ex)@.sql,
            ev is Failed ==> (r matches ExecAction::Fail(Error::Engine(m)) && m@ == ev->Failed_0@
                && final(ex)@.stage == ExecStage::Done),
            old(ex)@.stage == ExecStage::Start ==> if old(self)@.phase == Phase::Closed {
                r matches ExecAction::Fail(Error::Closed) && final(ex)@.stage == ExecStage::Done
            } else {
                r is ReadAutocommit && final(ex)@.stage == ExecStage::ReadingAutocommit
            },
            old(ex)@.stage == ExecStage::ReadingAutocommit && ev is Autocommit ==> if begins_transaction(
                old(self)@.autocommit,
                old(ex)@.sql,
                ev->Autocommit_0,
            ) {
                r is SendBegin && final(ex)@.stage == ExecStage::Beginning
            } else {
                binds(old(ex)@.params, r, final(ex)@.stage)
            },
            old(ex)@.stage == ExecStage::Beginning && ev is Proceed ==> binds(
                old(ex)@.params,
                r,
                final(ex)@.stage,
            ),
            old(ex)@.stage == ExecStage::Preparing && ev is Prepared ==> (r matches ExecAction::Run {
                query,
            } && query == (ev->Prepared_0 > 0) && final(ex)@.stage == ExecStage::Running {
                streaming: ev->Prepared_0 > 0,
            }),
            old(ex)@.stage is Running && ev is Ran ==> (r is Finished && final(ex)@.stage
                == ExecStage::Done && final(self)@ == (CursorModel {
                phase: if old(ex)@.stage->streaming {
                    Phase::Streaming
                } else {
                    Phase::Executed
                },
                rowcount: add_changes(old(self)@.rowcount, ev->Ran_0 as int),
                ..old(self)@
            })),
            !(old(ex)@.stage is Running && ev is Ran) ==> final(self)@ == old(self)@,
    {
        match ev {
            ExecEvent::Failed(m) => {
                ex.stage = ExecStage::Done;
                ExecAction::Fail(Error::Engine(m))
            },
            ExecEvent::Proceed => {
                if ex.stage == ExecStage::Start {
                    if self.phase == Phase::Closed {
                        ex.stage = ExecStage::Done;
                        ExecAction::Fail(Error::Closed)
                    } else {
                        ex.stage = ExecStage::ReadingAutocommit;
                        ExecAction::ReadAutocommit
                    }
                } else {
                    ex.bind()
                }
            },
            ExecEvent::Autocommit(a) => {
                if self.needs_begin(ex.sql.as_str(), a) {
                    ex.stage = ExecStage::Beginning;
                    ExecAction::SendBegin
                } else {
                    ex.bind()
                }
            },
            ExecEvent::Prepared(n) => {
                ex.stage = ExecStage::Running { streaming: n > 0 };
                ExecAction::Run { query: n > 0 }
            },
            ExecEvent::Ran(changes) => {
                let streaming = match ex.stage {
                    ExecStage::Running { streaming } => streaming,
                    _ => false,
                };
                self.executed(streaming, changes);
                ex.stage = ExecStage::Done;
                ExecAction::Finished
            },
        }
    }

    /// The number of rows a `fetchmany` of `size` asks for: `arraysize`
    /// when no size is given, none for a size below one.
    pub fn batch_size(&self, size: Option<i64>) -> (r: usize)
        ensures
            r == match size {
                None => self@.arraysize as int,
                Some(n) => if n <= 0 {
                    0
                } else if n > usize::MAX {
                    usize::MAX as int
                } else {
                    n as int
                },
            },
    {
        match size {
            None => self.arraysize,
            Some(n) => if n <= 0 {
                0
            } else if n as u64 > usize::MAX as u64 {
                usize::MAX
            } else {
                n as usize
            },
        }
    }

    /// Starts a fetch of up to `wanted` rows (`None` for all that remain).
    /// A closed cursor fails with [`Error::Closed`], and one with no result
    /// stream with [`Error::NoResultSet`]; neither touches the engine.
    pub fn start_batch(&self, wanted: Option<usize>) -> (r: Result<Batch, Error>)
        ensures
            self@.phase == Phase::Closed ==> r matches Err(Error::Closed),
            (self@.phase == Phase::Idle || self@.phase == Phase::Executed) ==> r matches Err(
                Error::NoResultSet,
            ),
            holds_stream(self@.phase) ==> (r matches Ok(b) && b.wanted == wanted),
    {
        match self.phase {
            Phase::Closed => Err(Error::Closed),
            Phase::Idle | Phase::Executed => Err(Error::NoResultSet),
            _ => Ok(Batch { wanted }),
        }
    }

    /// Whether the fetch in progress polls the stream once more. Once the
    /// stream has reported its end it is never polled again, since polling
    /// an exhausted stream may start it over.
    pub fn should_poll(&self, b: &Batch) -> (r: bool)
        ensures
            r == poll_allowed(self@.phase, b.wanted),
    {
        match self.phase {
            Phase::Streaming => match b.wanted {
                Some(k) => k > 0,
                None => true,
            },
            _ => false,
        }
    }

    /// Records a row that the poll returned.
    pub fn row_received(&self, b: &mut Batch)
        requires
            poll_allowed(self@.phase, old(b).wanted),
        ensures
            final(b).wanted == one_fewer(old(b).wanted),
    {
        match b.wanted {
            Some(k) => b.wanted = Some(k - 1),
            None => {},
        }
    }

    /// Records that the poll found the stream at its end.
    pub fn stream_ended(&mut self)
        requires
            old(self)@.phase == Phase::Streaming,
        ensures
            final(self)@.phase == Phase::Exhausted,
            final(self)@.rowcount == old(self)@.rowcount,
            final(self)@.arraysize == old(self)@.arraysize,
            final(self)@.autocommit == old(self)@.autocommit,
    {
        proof {
            use_type_invariant(&*self);
        }
        self.phase = Phase::Exhausted;
    }

    /// Whether a prepared statement is held, for `description` and `lastrowid`.
    pub fn has_statement(&self) -> (r: bool)
        ensures
            r == holds_statement(self@.phase),
    {
        match self.phase {
            Phase::Executed | Phase::Streaming | Phase::Exhausted => true,
            _ => false,
        }
    }

    /// The last inserted row id: `None` until a statement has been prepared,
    /// afterwards the connection's own `engine_rowid`, whichever cursor made
    /// the insert.
    pub fn lastrowid(&self, engine_rowid: i64) -> (r: Option<i64>)
        ensures
            r == if holds_statement(self@.phase) {
                Some(engine_rowid)
            } else {
                None::<i64>
            },
    {
        if self.has_statement() {
            Some(engine_rowid)
        } else {
            None
        }
    }

    /// Closes the cursor, releasing its statement, stream and connection
    /// reference. Closing again has no further effect.
    pub fn close(&mut self)
        ensures
            final(self)@.phase == Phase::Closed,
            final(self)@.rowcount == old(self)@.rowcount,
            final(self)@.arraysize == old(self)@.arraysize,
            final(self)@.autocommit == old(self)@.autocommit,
    {
        proof {
            use_type_invariant(&*self);
        }
        self.phase = Phase::Closed;
    }

    /// Where the cursor stands.
    pub fn phase(&self) -> (r: Phase)
        ensures
            r == self@.phase,
    {
        self.phase
    }

    /// The rows changed by the statements this cursor ran, summed.
    pub fn rowcount(&self) -> (r: i64)
        ensures
            r == self@.rowcount,
            r >= 0,
    {
        proof {
            use_type_invariant(self);
        }
        self.rowcount
    }

    /// Rows fetched by a `fetchmany` without a size.
    pub fn arraysize(&self) -> (r: usize)
        ensures
            r == self@.arraysize,
    {
        self.arraysize
    }

    /// Sets the rows fetched by a `fetchmany` without a size.
    pub fn set_arraysize(&mut self, n: usize)
        ensures
            final(self)@ == (CursorModel { arraysize: n, ..old(self)@ }),
    {
        proof {
            use_type_invariant(&*self);
        }
        self.arraysize = n;
    }
}

/// A fetch of up to `n` rows, `n` at least one, against an open stream that
/// holds `rows` more rows takes `n` of them and leaves the stream open when
/// it holds at least `n`; otherwise it takes them all and marks the stream
/// exhausted. A fetch from an exhausted stream takes nothing and never polls
/// it: the rows the stream holds are left untouched.
pub proof fn lemma_fetch_many(rows: nat, n: usize)
    requires
        n > 0,
    ensures
        run_batch(Phase::Streaming, rows, Some(n)) == if rows < n {
            (rows, Phase::Exhausted, 0nat)
        } else {
            (n as nat, Phase::Streaming, (rows - n) as nat)
        },
        run_batch(Phase::Exhausted, rows, Some(n)) == (0nat, Phase::Exhausted, rows),
    decreases rows,
{
    if rows > 0 && n > 1 {
        lemma_fetch_many((rows - 1) as nat, (n - 1) as usize);
    } else if rows > 0 {
        assert(one_fewer(Some(n)) == Some(0usize));
        assert(run_batch(Phase::Streaming, (rows - 1) as nat, Some(0usize)) == (
            0nat,
            Phase::Streaming,
            (rows - 1) as nat,
        ));
    }
}

/// A fetch of all rows against an open stream that holds `rows` more rows
/// takes every one of them, none when it holds none, and leaves the stream
/// exhausted.
pub proof fn lemma_fetch_all(rows: nat)
    ensures
        run_batch(Phase::Streaming, rows, None) == (rows, Phase::Exhausted, 0nat),
    decreases rows,
{
    if rows > 0 {
        lemma_fetch_all((rows - 1) as nat);
    }
}

/// Repeated executions on one cursor add up the rows each one changed: the
/// row count is the starting count plus the sum of the changes, held at the
/// largest `i64`.
pub proof fn lemma_rowcount_accumulates(start: int, changes: Seq<u64>)
    requires
        0 <= start <= rowcount_max(),
    ensures
        accumulate(start, changes) == if start + sum(changes) <= rowcount_max() {
            start + sum(changes)
        } else {
            rowcount_max()
        },
    decreases changes.len(),
{
    if changes.len() > 0 {
        lemma_rowcount_accumulates(start, changes.drop_last());
    }
}

/// A cursor holds a statement after any execution, and none before the first
/// one or once closed; `lastrowid` reports the connection's row id exactly
/// when it holds one.
pub proof fn lemma_statement_after_execute(streaming: bool)
    ensures
        holds_statement(
            if streaming {
                Phase::Streaming
            } else {
                Phase::Executed
            },
        ),
        !holds_statement(Phase::Idle),
        !holds_statement(Phase::Closed),
{
}

} // verus!
