use vstd::prelude::*;

verus! {

/// The failures that the client surfaces to its caller.
#[derive(Debug, PartialEq, Eq)]
pub enum Error {
    /// A failure reported by the storage engine, with its message.
    Engine(String),
    /// A parameter whose value is none of null, integer, float, text or bytes.
    UnsupportedParameter,
    /// A fetch was attempted while no result stream is open.
    NoResultSet,
    /// The connection or cursor has already been closed.
    Closed,
    /// An autocommit value other than on, off or legacy control.
    InvalidAutocommit,
}

impl Error {
    /// The message shown to the caller: the engine's own for an engine
    /// failure, a fixed text for each other failure.
    pub fn message(&self) -> (r: String)
        ensures
            match self {
                Error::Engine(m) => r@ == m@,
                Error::UnsupportedParameter => r@ == "Unsupported parameter type"@,
                Error::NoResultSet => r@ == "No result set"@,
                Error::Closed => r@ == "Connection already closed"@,
                Error::InvalidAutocommit => r@
                    == "autocommit must be True, False, or sqlite3.LEGACY_TRANSACTION_CONTROL"@,
            },
    {
        match self {
            Error::Engine(m) => m.clone(),
            Error::UnsupportedParameter => "Unsupported parameter type".to_owned(),
            Error::NoResultSet => "No result set".to_owned(),
            Error::Closed => "Connection already closed".to_owned(),
            Error::InvalidAutocommit => "autocommit must be True, False, or sqlite3.LEGACY_TRANSACTION_CONTROL".to_owned(),
        }
    }
}

} // verus!
