//! The errors of the endpoint layer.
use vstd::prelude::*;
use vstd::string::StringExecFns;

verus! {

/// Why a call did not yield its result.
///
/// Every error carries a description for people to read, and nothing else.
#[derive(Debug, PartialEq, Eq)]
pub enum TweetyError {
    /// The query parameters could not be encoded; nothing was sent.
    SerializeError(String),
    /// The remote call failed.
    ApiError(String),
    /// The response did not have the expected shape.
    JsonParseError(String),
}

/// The kind of a [`TweetyError`].
#[derive(Debug, Clone, Copy, PartialEq, Eq, Structural)]
pub enum ErrorKind {
    Serialize,
    Api,
    JsonParse,
}

/// The mathematical value of a [`TweetyError`]: its kind and its description.
pub struct TweetyErrorView {
    pub kind: ErrorKind,
    pub message: Seq<char>,
}

impl View for TweetyError {
    type V = TweetyErrorView;

    open spec fn view(&self) -> TweetyErrorView {
        match self {
            TweetyError::SerializeError(m) => TweetyErrorView {
                kind: ErrorKind::Serialize,
                message: m@,
            },
            TweetyError::ApiError(m) => TweetyErrorView { kind: ErrorKind::Api, message: m@ },
            TweetyError::JsonParseError(m) => TweetyErrorView {
                kind: ErrorKind::JsonParse,
                message: m@,
            },
        }
    }
}

impl ErrorKind {
    /// The words that name the kind in an error's rendering.
    pub open spec fn spec_label(self) -> Seq<char> {
        match self {
            ErrorKind::Serialize => "Serialize error"@,
            ErrorKind::Api => "API error"@,
            ErrorKind::JsonParse => "JSON parse error"@,
        }
    }

    /// The words that name the kind in an error's rendering.
    pub fn label(self) -> (out: &'static str)
        ensures
            out@ == self.spec_label(),
    {
        match self {
            ErrorKind::Serialize => "Serialize error",
            ErrorKind::Api => "API error",
            ErrorKind::JsonParse => "JSON parse error",
        }
    }
}

impl TweetyErrorView {
    /// The rendering of an error: the kind's label, a colon and a space, and
    /// the description.
    pub open spec fn rendered(self) -> Seq<char> {
        self.kind.spec_label() + ": "@ + self.message
    }
}

impl TweetyError {
    /// The kind of this error.
    pub fn kind(&self) -> (out: ErrorKind)
        ensures
            out == self@.kind,
    {
        match self {
            TweetyError::SerializeError(_) => ErrorKind::Serialize,
            TweetyError::ApiError(_) => ErrorKind::Api,
            TweetyError::JsonParseError(_) => ErrorKind::JsonParse,
        }
    }

    /// The description that this error carries.
    pub fn message(&self) -> (out: &str)
        ensures
            out@ == self@.message,
    {
        match self {
            TweetyError::SerializeError(m) => m.as_str(),
            TweetyError::ApiError(m) => m.as_str(),
            TweetyError::JsonParseError(m) => m.as_str(),
        }
    }

    /// Renders the error as text.
    pub fn to_string(&self) -> (out: String)
        ensures
            out@ == self@.rendered(),
    {
        let mut out = String::from_str(self.kind().label());
        out.append(": ");
        out.append(self.message());
        out
    }
}

} // verus!
