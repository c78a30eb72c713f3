//! The ways in which one run can fail.

use vstd::prelude::*;

verus! {

/// A failure of one run. Each is final: nothing is retried.
#[derive(Clone, Debug, PartialEq, Eq)]
pub enum ConfigError {
    /// The input could not be obtained from `location`.
    Read { location: String, cause: String },
    /// The input holds no document.
    EmptyDocument,
    /// The document does not fit the configuration model at `path`.
    Parse { path: String, cause: String },
    /// The output could not be delivered to `location`.
    Write { location: String, cause: String },
}

/// What a [`ConfigError`] holds.
pub enum ErrorModel {
    Read { location: Seq<char>, cause: Seq<char> },
    EmptyDocument,
    Parse { path: Seq<char>, cause: Seq<char> },
    Write { location: Seq<char>, cause: Seq<char> },
}

impl View for ConfigError {
    type V = ErrorModel;

    open spec fn view(&self) -> ErrorModel {
        match self {
            ConfigError::Read { location, cause } => ErrorModel::Read {
                location: location@,
                cause: cause@,
            },
            ConfigError::EmptyDocument => ErrorModel::EmptyDocument,
            ConfigError::Parse { path, cause } => ErrorModel::Parse { path: path@, cause: cause@ },
            ConfigError::Write { location, cause } => ErrorModel::Write {
                location: location@,
                cause: cause@,
            },
        }
    }
}

impl ErrorModel {
    /// The message of a failure. It names the location or the path; the cause
    /// of a failed read or write is kept beside it.
    pub open spec fn message(self) -> Seq<char> {
        match self {
            ErrorModel::Read { location, cause } => "reading input config: "@ + location,
            ErrorModel::EmptyDocument => "empty yaml"@,
            ErrorModel::Parse { path, cause } => "parsing yaml at "@ + path + ": "@ + cause,
            ErrorModel::Write { location, cause } => "writing env output: "@ + location,
        }
    }
}

impl ConfigError {
    /// The message of this failure.
    pub fn message(&self) -> (text: String)
        ensures
            text@ == self@.message(),
    {
        match self {
            ConfigError::Read { location, cause } => {
                let mut text = String::from_str("reading input config: ");
                text.append(location.as_str());
                text
            },
            ConfigError::EmptyDocument => String::from_str("empty yaml"),
            ConfigError::Parse { path, cause } => {
                let mut text = String::from_str("parsing yaml at ");
                text.append(path.as_str());
                text.append(": ");
                text.append(cause.as_str());
                text
            },
            ConfigError::Write { location, cause } => {
                let mut text = String::from_str("writing env output: ");
                text.append(location.as_str());
                text
            },
        }
    }
}

} // verus!
