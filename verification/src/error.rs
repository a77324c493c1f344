use vstd::prelude::*;

verus! {

#[verifier::external_type_specification]
#[verifier::external_body]
pub struct ExIoError(std::io::Error);

/// Why building or reading a package failed.
///
/// Every operation reports at most one of these, and a failure at any stage
/// ends the whole call.
#[derive(Clone, Copy, Debug, PartialEq, Eq, Structural)]
pub enum DebError {
    /// A control line cannot be parsed, names an unknown field, or carries a
    /// token that is neither `yes` nor `no` where one of them is required.
    InvalidControlSyntax,
    /// A string is not the name of any architecture or priority.
    UnsupportedToken,
    /// The outer container holds fewer than three members, or one of the first
    /// three cannot be read.
    MissingContainerMember,
    /// A compressed stream cannot be decompressed.
    CorruptCompressedStream,
    /// An entry of an inner archive cannot be read, the control bundle holds no
    /// control record, or a path cannot be represented in an inner archive.
    MalformedInnerArchive,
    /// Text that has to be UTF-8 is not.
    EncodingError,
}

impl DebError {
    /// The text that describes the error.
    pub open spec fn text(self) -> Seq<char> {
        match self {
            DebError::InvalidControlSyntax => "control file is invalid"@,
            DebError::UnsupportedToken => "invalid architecture or priority name"@,
            DebError::MissingContainerMember => "deb package is missing archive"@,
            DebError::CorruptCompressedStream => "compressed archive is corrupt"@,
            DebError::MalformedInnerArchive => "inner archive is malformed"@,
            DebError::EncodingError => "text is not valid UTF-8"@,
        }
    }

    /// A short description of the error.
    pub fn message(&self) -> (s: &'static str)
        ensures
            s@ == self.text(),
    {
        match self {
            DebError::InvalidControlSyntax => "control file is invalid",
            DebError::UnsupportedToken => "invalid architecture or priority name",
            DebError::MissingContainerMember => "deb package is missing archive",
            DebError::CorruptCompressedStream => "compressed archive is corrupt",
            DebError::MalformedInnerArchive => "inner archive is malformed",
            DebError::EncodingError => "text is not valid UTF-8",
        }
    }
}

} // verus!
