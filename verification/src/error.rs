//! The ways a lookup can fail, and the HTTP status each one maps to.

use vstd::prelude::*;

verus! {

/// Why a download request was not answered with a redirect.
#[derive(Clone, Copy, Debug, PartialEq, Eq, Structural)]
pub enum LookupError {
    /// The package name or version sent by the client is empty or malformed.
    InvalidInput,
    /// The index holds no file for the package.
    IndexFileMissing,
    /// The package's index file holds no record of the requested version.
    VersionNotFound,
    /// A line of the index file is not a record.
    MalformedIndexRecord,
    /// The index file is there but could not be read.
    InternalIO,
}

impl LookupError {
    /// The HTTP status that answers a request failing with this error.
    pub open spec fn status(self) -> u16 {
        match self {
            LookupError::InvalidInput => 400,
            LookupError::IndexFileMissing => 404,
            LookupError::VersionNotFound => 404,
            LookupError::MalformedIndexRecord => 500,
            LookupError::InternalIO => 500,
        }
    }

    /// The response body for this error. Both internal failures share one
    /// text, so that nothing about the index leaks to the client.
    pub open spec fn message(self) -> Seq<char> {
        match self {
            LookupError::InvalidInput => "invalid package name or version"@,
            LookupError::IndexFileMissing => "package not found"@,
            LookupError::VersionNotFound => "version not found"@,
            LookupError::MalformedIndexRecord => "internal error"@,
            LookupError::InternalIO => "internal error"@,
        }
    }

    /// Computes [`LookupError::status`].
    pub fn status_code(&self) -> (code: u16)
        ensures
            code == self.status(),
    {
        match self {
            LookupError::InvalidInput => 400,
            LookupError::IndexFileMissing | LookupError::VersionNotFound => 404,
            LookupError::MalformedIndexRecord | LookupError::InternalIO => 500,
        }
    }

    /// Computes [`LookupError::message`].
    pub fn message_text(&self) -> (text: String)
        ensures
            text@ == self.message(),
    {
        match self {
            LookupError::InvalidInput => "invalid package name or version".to_owned(),
            LookupError::IndexFileMissing => "package not found".to_owned(),
            LookupError::VersionNotFound => "version not found".to_owned(),
            LookupError::MalformedIndexRecord | LookupError::InternalIO => "internal error".to_owned(),
        }
    }
}

/// Every error has a client or server error status and a body that is not empty.
pub proof fn lemma_error_is_reported(e: LookupError)
    ensures
        e.status() == 400 || e.status() == 404 || e.status() == 500,
        e.message().len() > 0,
{
    reveal_strlit("invalid package name or version");
    reveal_strlit("package not found");
    reveal_strlit("version not found");
    reveal_strlit("internal error");
}

} // verus!
