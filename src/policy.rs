//! When the client opens a transaction of its own, and when `COMMIT` or
//! `ROLLBACK` has anything to finish.
use crate::error::Error;
use crate::sql::{has_prefix, is_dml, is_dml_text, trim, upper_of, word_delete, word_insert, word_update};
use vstd::prelude::*;

verus! {

/// The autocommit value that asks for the mode to follow the isolation level.
pub const LEGACY_TRANSACTION_CONTROL: i32 = -1;

/// The autocommit override of a connection.
#[derive(Clone, Copy, Debug, PartialEq, Eq, Structural)]
pub enum AutocommitMode {
    /// Statements never run in autocommit mode.
    Off,
    /// Statements always run in autocommit mode.
    On,
    /// Autocommit mode holds exactly when no isolation level is set.
    Legacy,
}

/// The mode an autocommit value selects: `0` off, `1` on, and
/// [`LEGACY_TRANSACTION_CONTROL`] legacy control; any other value selects none.
pub open spec fn mode_of_flag(v: i32) -> Option<AutocommitMode> {
    if v == 0 {
        Some(AutocommitMode::Off)
    } else if v == 1 {
        Some(AutocommitMode::On)
    } else if v == LEGACY_TRANSACTION_CONTROL {
        Some(AutocommitMode::Legacy)
    } else {
        None
    }
}

/// The autocommit value of a mode.
pub open spec fn flag_of_mode(m: AutocommitMode) -> i32 {
    match m {
        AutocommitMode::Off => 0,
        AutocommitMode::On => 1,
        AutocommitMode::Legacy => LEGACY_TRANSACTION_CONTROL,
    }
}

impl AutocommitMode {
    /// The mode for an autocommit value; any value but `0`, `1` and
    /// [`LEGACY_TRANSACTION_CONTROL`] is refused.
    pub fn from_flag(v: i32) -> (r: Result<AutocommitMode, Error>)
        ensures
            match mode_of_flag(v) {
                Some(m) => r == Ok::<AutocommitMode, Error>(m),
                None => r matches Err(Error::InvalidAutocommit),
            },
    {
        if v == 0 {
            Ok(AutocommitMode::Off)
        } else if v == 1 {
            Ok(AutocommitMode::On)
        } else if v == LEGACY_TRANSACTION_CONTROL {
            Ok(AutocommitMode::Legacy)
        } else {
            Err(Error::InvalidAutocommit)
        }
    }

    /// The autocommit value of this mode.
    pub fn flag(self) -> (r: i32)
        ensures
            r == flag_of_mode(self),
    {
        match self {
            AutocommitMode::Off => 0,
            AutocommitMode::On => 1,
            AutocommitMode::Legacy => LEGACY_TRANSACTION_CONTROL,
        }
    }
}

/// Whether statements run in autocommit mode: an override of on or off wins;
/// under legacy control, autocommit holds when no isolation level is set.
pub open spec fn autocommit_enabled(mode: AutocommitMode, no_isolation_level: bool) -> bool {
    match mode {
        AutocommitMode::On => true,
        AutocommitMode::Off => false,
        AutocommitMode::Legacy => no_isolation_level,
    }
}

/// Whether statements run in autocommit mode, for a mode and an isolation level.
pub fn effective_autocommit(mode: AutocommitMode, isolation_level: &Option<String>) -> (r: bool)
    ensures
        r == autocommit_enabled(mode, isolation_level is None),
{
    match mode {
        AutocommitMode::On => true,
        AutocommitMode::Off => false,
        AutocommitMode::Legacy => isolation_level.is_none(),
    }
}

/// Whether an implicit `BEGIN` must precede `sql`: autocommit mode is off,
/// the statement modifies data, and the engine has no transaction open yet.
pub open spec fn begins_transaction(autocommit: bool, sql: Seq<char>, engine_autocommit: bool) -> bool {
    !autocommit && is_dml_text(sql) && engine_autocommit
}

/// Decides whether an implicit `BEGIN` must be issued before `sql`.
pub fn needs_begin(autocommit: bool, sql: &str, engine_autocommit: bool) -> (r: bool)
    ensures
        r == begins_transaction(autocommit, sql@, engine_autocommit),
{
    !autocommit && engine_autocommit && is_dml(sql)
}

/// Whether `COMMIT` or `ROLLBACK` has a transaction to finish: only when the
/// engine is not in its own autocommit state.
pub open spec fn finishes_transaction(engine_autocommit: bool) -> bool {
    !engine_autocommit
}

/// Decides whether `COMMIT` or `ROLLBACK` must be sent to the engine.
pub fn needs_finish(engine_autocommit: bool) -> (r: bool)
    ensures
        r == finishes_transaction(engine_autocommit),
{
    !engine_autocommit
}

pub open spec fn word_select() -> Seq<char> {
    seq!['S', 'E', 'L', 'E', 'C', 'T']
}

/// Outside autocommit mode, the first write opens a transaction and reads do
/// not: a data-modifying statement run while the engine is in its own
/// autocommit state is preceded by one `BEGIN`; once the engine reports a
/// transaction open no further `BEGIN` is issued; and a statement whose
/// trimmed, upper-cased text starts with `SELECT` is never preceded by one,
/// whatever the engine's state.
pub proof fn lemma_first_write_begins(
    mode: AutocommitMode,
    isolation_level: Option<Seq<char>>,
    write: Seq<char>,
    read: Seq<char>,
    engine_autocommit: bool,
)
    requires
        isolation_level is Some,
        mode != AutocommitMode::On,
        is_dml_text(write),
        has_prefix(upper_of(trim(read)), word_select()),
    ensures
        begins_transaction(autocommit_enabled(mode, isolation_level is None), write, true),
        !begins_transaction(autocommit_enabled(mode, isolation_level is None), write, false),
        !begins_transaction(
            autocommit_enabled(mode, isolation_level is None),
            read,
            engine_autocommit,
        ),
{
    let u = upper_of(trim(read));
    assert(u[0] == u.subrange(0, 6)[0]);
    assert(u[0] == 'S');
    assert(word_insert()[0] == 'I');
    assert(word_update()[0] == 'U');
    assert(word_delete()[0] == 'D');
    if has_prefix(u, word_insert()) {
        assert(u.subrange(0, 6)[0] == 'I');
    }
    if has_prefix(u, word_update()) {
        assert(u.subrange(0, 6)[0] == 'U');
    }
    if has_prefix(u, word_delete()) {
        assert(u.subrange(0, 6)[0] == 'D');
    }
}

/// In autocommit mode no implicit `BEGIN` is ever issued, so an engine that
/// starts in its own autocommit state stays there and `COMMIT` and `ROLLBACK`
/// have nothing to finish.
pub proof fn lemma_autocommit_never_begins(
    mode: AutocommitMode,
    isolation_level: Option<Seq<char>>,
    sql: Seq<char>,
    engine_autocommit: bool,
)
    requires
        isolation_level is None,
        mode != AutocommitMode::Off,
    ensures
        autocommit_enabled(mode, isolation_level is None),
        !begins_transaction(autocommit_enabled(mode, isolation_level is None), sql, engine_autocommit),
        !finishes_transaction(true),
{
}

} // verus!
