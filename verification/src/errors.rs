use vstd::prelude::*;
use vstd::string::StringExecFns;

verus! {

/// The caller-facing error taxonomy of the façade.
///
/// Every failure surfaces to the immediate caller as one of these values;
/// none is swallowed or retried inside the library.
#[derive(Debug, Clone, PartialEq, Eq)]
pub enum RedisError {
    /// The address could not be connected to at construction time; fatal for
    /// that instance.
    ConnectionError,
    /// A data-plane call on an instance that never connected successfully.
    NotConnected,
    /// Exclusive access to the connection handle could not be granted. In
    /// this library the handle is reached only through exclusive references,
    /// so acquisition cannot fail at run time and no operation returns this
    /// variant; it documents the guard's failure mode for host layers that
    /// place the façade behind their own lock.
    AccessError,
    /// The round trip failed at the transport or protocol level; the
    /// underlying client's message is carried verbatim.
    ExecError(String),
    /// The store itself replied with an error payload, carried verbatim.
    RemoteError(String),
    /// `execute` was called with no accumulated tokens.
    EmptyCommand,
    /// The store replied with an array value, which the façade does not
    /// decode.
    UnsupportedReply,
}

impl RedisError {
    /// The human-readable message carried by this error.
    pub open spec fn spec_message(self) -> Seq<char> {
        match self {
            RedisError::ConnectionError => "Connection error"@,
            RedisError::NotConnected => "Not connected"@,
            RedisError::AccessError => "Access error"@,
            RedisError::ExecError(m) => m@,
            RedisError::RemoteError(m) => m@,
            RedisError::EmptyCommand => "Empty argument list"@,
            RedisError::UnsupportedReply => "array values unsupported"@,
        }
    }

    /// Renders the message that a host layer should surface for this error.
    pub fn message(&self) -> (m: String)
        ensures
            m@ == self.spec_message(),
    {
        match self {
            RedisError::ConnectionError => String::from_str("Connection error"),
            RedisError::NotConnected => String::from_str("Not connected"),
            RedisError::AccessError => String::from_str("Access error"),
            RedisError::ExecError(m) => m.clone(),
            RedisError::RemoteError(m) => m.clone(),
            RedisError::EmptyCommand => String::from_str("Empty argument list"),
            RedisError::UnsupportedReply => String::from_str("array values unsupported"),
        }
    }
}

} // verus!
