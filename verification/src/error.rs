use vstd::prelude::*;

verus! {

/// A failure reported by the database, kept as the message that describes it.
pub enum DatabaseError {
    Default(String),
    UniqueViolation(String),
}

impl DatabaseError {
    /// Builds a plain database error carrying `msg`.
    pub fn from_msg(msg: String) -> (r: DatabaseError)
        ensures
            r matches DatabaseError::Default(m) && m@ == msg@,
    {
        DatabaseError::Default(msg)
    }

    /// The message carried by the error, whichever its kind.
    pub fn message(&self) -> (r: String)
        ensures
            r@ == match self {
                DatabaseError::Default(m) => m@,
                DatabaseError::UniqueViolation(m) => m@,
            },
    {
        match self {
            DatabaseError::Default(m) => m.clone(),
            DatabaseError::UniqueViolation(m) => m.clone(),
        }
    }
}

/// The text of an error of the PostgreSQL client: for an error that the server
/// reported, given by its message and optional detail, the message followed by `: ` and
/// the detail when there is one; for another error, its own text `plain`.
pub fn postgres_error_to_string(server_error: Option<(String, Option<String>)>, plain: String) -> (r: String)
    ensures
        r@ == match server_error {
            Some((m, Some(d))) => m@ + ": "@ + d@,
            Some((m, None)) => m@,
            None => plain@,
        },
{
    match server_error {
        Some((m, Some(d))) => {
            let mut s = m;
            s.append(": ");
            s.append(d.as_str());
            proof {
                reveal_strlit(": ");
            }
            s
        },
        Some((m, None)) => m,
        None => plain,
    }
}

impl DatabaseError {
    /// A database error whose message is `msg`, `: ` and the text of the client's error.
    pub fn from_postgres_error(msg: &str, error_text: &str) -> (r: DatabaseError)
        ensures
            r matches DatabaseError::Default(m) && m@ == msg@ + ": "@ + error_text@,
    {
        let mut s = msg.to_owned();
        s.append(": ");
        s.append(error_text);
        proof {
            reveal_strlit(": ");
        }
        DatabaseError::Default(s)
    }
}

/// A definition or setting that cannot be used as given.
pub struct ConfigurationError {
    pub msg: String,
}

impl ConfigurationError {
    pub fn from_msg(msg: String) -> (r: ConfigurationError)
        ensures
            r.msg@ == msg@,
    {
        ConfigurationError { msg }
    }
}

/// A failure while carrying out an operation.
pub struct RuntimeError {
    pub msg: String,
}

impl RuntimeError {
    pub fn from_msg(msg: String) -> (r: RuntimeError)
        ensures
            r.msg@ == msg@,
    {
        RuntimeError { msg }
    }
}

/// A message becomes the runtime error that carries it, as `from_msg` makes it.
impl From<String> for RuntimeError {
    fn from(msg: String) -> (r: RuntimeError) {
        RuntimeError { msg }
    }
}

impl vstd::std_specs::convert::FromSpecImpl<String> for RuntimeError {
    open spec fn obeys_from_spec() -> bool {
        true
    }

    open spec fn from_spec(v: String) -> RuntimeError {
        RuntimeError { msg: v }
    }
}

/// Any error of the library.
pub enum Error {
    Database(DatabaseError),
    Configuration(ConfigurationError),
    Runtime(RuntimeError),
}

pub open spec fn error_text(e: Error) -> Seq<char> {
    match e {
        Error::Database(DatabaseError::Default(m)) => m@,
        Error::Database(DatabaseError::UniqueViolation(m)) => m@,
        Error::Configuration(c) => c.msg@,
        Error::Runtime(r) => r.msg@,
    }
}

impl Error {
    /// An error equal to this one.
    pub fn duplicate(&self) -> (r: Error)
        ensures
            r == *self,
    {
        match self {
            Error::Database(DatabaseError::Default(m)) => Error::Database(DatabaseError::Default(m.clone())),
            Error::Database(DatabaseError::UniqueViolation(m)) => Error::Database(
                DatabaseError::UniqueViolation(m.clone()),
            ),
            Error::Configuration(e) => Error::Configuration(ConfigurationError { msg: e.msg.clone() }),
            Error::Runtime(e) => Error::Runtime(RuntimeError { msg: e.msg.clone() }),
        }
    }

    /// The text shown for the error: the message of whatever error it wraps.
    pub fn message(&self) -> (r: String)
        ensures
            r@ == error_text(*self),
    {
        match self {
            Error::Database(e) => e.message(),
            Error::Configuration(e) => e.msg.clone(),
            Error::Runtime(e) => e.msg.clone(),
        }
    }

    /// A short name of the kind of error.
    pub fn description(&self) -> (r: &'static str)
        ensures
            r@ == match self {
                Error::Database(_) => "Database error"@,
                Error::Configuration(_) => "Configuration error"@,
                Error::Runtime(_) => "Runtime error"@,
            },
    {
        match self {
            Error::Database(_) => "Database error",
            Error::Configuration(_) => "Configuration error",
            Error::Runtime(_) => "Runtime error",
        }
    }

    /// Wraps a message as a runtime error.
    pub fn from_message(msg: String) -> (r: Error)
        ensures
            r matches Error::Runtime(e) && e.msg@ == msg@,
    {
        Error::Runtime(RuntimeError { msg })
    }
}

} // verus!
