//! A connection's configuration and lifecycle, and the choice of how a
//! database locator is opened.
use crate::cursor::{Cursor, CursorModel, Phase};
use crate::error::Error;
use crate::sql::{has_prefix, starts_with};
use crate::policy::{autocommit_enabled, effective_autocommit, flag_of_mode, mode_of_flag, AutocommitMode};
use vstd::prelude::*;

verus! {

/// How a database is opened.
#[derive(Clone, Copy, Debug, PartialEq, Eq, Structural)]
pub enum Topology {
    /// A remote database reached over HTTP.
    Remote,
    /// A local file kept in step with a remote database.
    Replica,
    /// A local file.
    Local,
}

/// Whether a locator names a remote database: it starts with `libsql://`,
/// `http://` or `https://`.
pub open spec fn is_remote_locator(s: Seq<char>) -> bool {
    has_prefix(s, "libsql://"@) || has_prefix(s, "http://"@) || has_prefix(s, "https://"@)
}

/// How a locator is opened: a remote locator remotely; otherwise as a
/// replica when a sync URL is given, else as a local file.
pub open spec fn topology_of(database: Seq<char>, has_sync_url: bool) -> Topology {
    if is_remote_locator(database) {
        Topology::Remote
    } else if has_sync_url {
        Topology::Replica
    } else {
        Topology::Local
    }
}

/// Whether `path` names a remote database.
pub fn is_remote_path(path: &str) -> (r: bool)
    ensures
        r == is_remote_locator(path@),
{
    starts_with(path, "libsql://") || starts_with(path, "http://") || starts_with(path, "https://")
}

/// How the database at `database` is opened, given whether a sync URL is set.
pub fn topology(database: &str, has_sync_url: bool) -> (r: Topology)
    ensures
        r == topology_of(database@, has_sync_url),
{
    if is_remote_path(database) {
        Topology::Remote
    } else if has_sync_url {
        Topology::Replica
    } else {
        Topology::Local
    }
}

/// A connection's configuration and whether it is still open.
pub struct Connection {
    isolation_level: Option<String>,
    autocommit: AutocommitMode,
    open: bool,
}

/// The mathematical form of a [`Connection`].
pub struct ConnectionModel {
    /// The requested isolation level; `None` asks for autocommit mode.
    pub isolation_level: Option<Seq<char>>,
    pub autocommit: AutocommitMode,
    pub open: bool,
}

pub open spec fn option_view(s: Option<String>) -> Option<Seq<char>> {
    match s {
        Some(t) => Some(t@),
        None => None,
    }
}

impl View for Connection {
    type V = ConnectionModel;

    closed spec fn view(&self) -> ConnectionModel {
        ConnectionModel {
            isolation_level: option_view(self.isolation_level),
            autocommit: self.autocommit,
            open: self.open,
        }
    }
}

/// Whether a connection's statements run in autocommit mode.
pub open spec fn connection_autocommit(c: ConnectionModel) -> bool {
    autocommit_enabled(c.autocommit, c.isolation_level is None)
}

impl Connection {
    /// An open connection with the given isolation level and autocommit
    /// value; an autocommit value other than `0`, `1` and legacy control is
    /// refused.
    pub fn new(isolation_level: Option<String>, autocommit: i32) -> (r: Result<Connection, Error>)
        ensures
            match mode_of_flag(autocommit) {
                Some(m) => r matches Ok(c) && c@ == (ConnectionModel {
                    isolation_level: option_view(isolation_level),
                    autocommit: m,
                    open: true,
                }),
                None => r matches Err(Error::InvalidAutocommit),
            },
    {
        match AutocommitMode::from_flag(autocommit) {
            Ok(m) => Ok(Connection { isolation_level, autocommit: m, open: true }),
            Err(e) => Err(e),
        }
    }

    /// Releases this connection's reference to the engine connection.
    /// Cursors made earlier keep theirs. Closing again has no effect.
    pub fn close(&mut self)
        ensures
            final(self)@ == (ConnectionModel { open: false, ..old(self)@ }),
    {
        self.open = false;
    }

    /// Fails with [`Error::Closed`] exactly when the connection is closed.
    pub fn ensure_open(&self) -> (r: Result<(), Error>)
        ensures
            self@.open ==> r is Ok,
            !self@.open ==> r matches Err(Error::Closed),
    {
        if self.open {
            Ok(())
        } else {
            Err(Error::Closed)
        }
    }

    /// A new cursor, sharing this connection, whose statements run in the
    /// connection's autocommit mode as it is now.
    pub fn cursor(&self) -> (r: Result<Cursor, Error>)
        ensures
            self@.open ==> (r matches Ok(c) && c@ == (CursorModel {
                arraysize: 1,
                phase: Phase::Idle,
                rowcount: 0,
                autocommit: connection_autocommit(self@),
            })),
            !self@.open ==> r matches Err(Error::Closed),
    {
        if !self.open {
            return Err(Error::Closed);
        }
        Ok(Cursor::new(effective_autocommit(self.autocommit, &self.isolation_level)))
    }

    /// The requested isolation level.
    pub fn isolation_level(&self) -> (r: Option<String>)
        ensures
            option_view(r) == self@.isolation_level,
    {
        match &self.isolation_level {
            Some(s) => Some(s.clone()),
            None => None,
        }
    }

    /// The autocommit value: `0`, `1` or legacy control.
    pub fn autocommit(&self) -> (r: i32)
        ensures
            r == flag_of_mode(self@.autocommit),
    {
        self.autocommit.flag()
    }

    /// Sets the autocommit value; any value other than `0`, `1` and legacy
    /// control is refused and leaves the connection as it was.
    pub fn set_autocommit(&mut self, v: i32) -> (r: Result<(), Error>)
        ensures
            match mode_of_flag(v) {
                Some(m) => r is Ok && final(self)@ == (ConnectionModel {
                    autocommit: m,
                    ..old(self)@
                }),
                None => r matches Err(Error::InvalidAutocommit) && final(self)@ == old(self)@,
            },
    {
        match AutocommitMode::from_flag(v) {
            Ok(m) => {
                self.autocommit = m;
                Ok(())
            },
            Err(e) => Err(e),
        }
    }

    /// Whether a transaction is open: the engine has left its own autocommit
    /// state, or autocommit is switched off.
    pub fn in_transaction(&self, engine_autocommit: bool) -> (r: bool)
        ensures
            r == (!engine_autocommit || self@.autocommit == AutocommitMode::Off),
    {
        !engine_autocommit || self.autocommit == AutocommitMode::Off
    }
}

} // verus!
