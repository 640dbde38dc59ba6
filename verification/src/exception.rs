use vstd::prelude::*;

use crate::errors::RedisError;

verus! {

/// The exception value handed to the host layer when an operation fails.
///
/// It mirrors the shape a host exception carries: an optional message, an
/// optional numeric code, and optional line and file annotations. The host
/// binding maps it into its native error-signaling mechanism with the
/// message preserved unchanged.
#[derive(Debug, Clone)]
pub struct RedisException {
    message: Option<String>,
    code: Option<i32>,
    line: Option<String>,
    file: Option<String>,
}

impl RedisException {
    pub closed spec fn spec_message(self) -> Option<Seq<char>> {
        self.message.deep_view()
    }

    pub closed spec fn spec_code(self) -> Option<i32> {
        self.code
    }

    pub closed spec fn spec_line(self) -> Option<Seq<char>> {
        self.line.deep_view()
    }

    pub closed spec fn spec_file(self) -> Option<Seq<char>> {
        self.file.deep_view()
    }

    /// Fills every field of the exception from the host's arguments.
    pub fn __constructor(
        &mut self,
        message: Option<String>,
        code: Option<i32>,
        line: Option<String>,
        file: Option<String>,
    )
        ensures
            final(self).spec_message() == message.deep_view(),
            final(self).spec_code() == code,
            final(self).spec_line() == line.deep_view(),
            final(self).spec_file() == file.deep_view(),
    {
        self.message = message;
        self.code = code;
        self.line = line;
        self.file = file;
    }

    /// Builds the exception that reports `e`, carrying `e`'s message and no
    /// code, line or file annotation.
    pub fn from_error(e: &RedisError) -> (ex: RedisException)
        ensures
            ex.spec_message() matches Some(m) && m == e.spec_message(),
            ex.spec_code() is None,
            ex.spec_line() is None,
            ex.spec_file() is None,
    {
        RedisException {
            message: Some(e.message()),
            code: None,
            line: None,
            file: None,
        }
    }

    /// The message this exception carries, if any.
    pub fn message(&self) -> (m: &Option<String>)
        ensures
            m.deep_view() == self.spec_message(),
    {
        &self.message
    }

    /// The numeric code this exception carries, if any.
    pub fn code(&self) -> (c: Option<i32>)
        ensures
            c == self.spec_code(),
    {
        self.code
    }
}

impl Default for RedisException {
    /// A fresh exception with every field absent.
    fn default() -> (ex: Self)
        ensures
            ex.spec_message() is None,
            ex.spec_code() is None,
            ex.spec_line() is None,
            ex.spec_file() is None,
    {
        RedisException { message: None, code: None, line: None, file: None }
    }
}

} // verus!
