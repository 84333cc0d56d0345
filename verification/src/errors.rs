//! The ways one upload session can fail.

use vstd::prelude::*;

verus! {

/// A terminal failure of an upload session.
///
/// Each variant carries a human-readable cause; `PartUpload` also names
/// the offending part.
#[derive(Debug)]
pub enum UploadError {
    /// Local I/O failed while reading the source.
    SourceRead(String),
    /// The remote create call failed; no parts were ever attempted.
    SessionCreate(String),
    /// One part's network call failed.
    PartUpload(usize, String),
    /// The final assembly call failed although every part succeeded.
    Completion(String),
    /// Missing or invalid file name or credentials.
    Config(String),
}

impl UploadError {
    /// The cause message carried by this error.
    pub open spec fn spec_message(self) -> Seq<char> {
        match self {
            UploadError::SourceRead(m) => m@,
            UploadError::SessionCreate(m) => m@,
            UploadError::PartUpload(_, m) => m@,
            UploadError::Completion(m) => m@,
            UploadError::Config(m) => m@,
        }
    }

    /// The cause message carried by this error.
    pub fn message(&self) -> (m: &String)
        ensures
            m@ == self.spec_message(),
    {
        match self {
            UploadError::SourceRead(m) => m,
            UploadError::SessionCreate(m) => m,
            UploadError::PartUpload(_, m) => m,
            UploadError::Completion(m) => m,
            UploadError::Config(m) => m,
        }
    }
}

} // verus!
